//! The decisions of the three wallet requests, as a machine that names the
//! chain work it needs and is handed back what came of it.
use vstd::prelude::*;
use crate::error::SafeError;
use crate::chain::{address_of_text, checksum_of, lower_hex, parse_address, to_checksum, hex_prefixed};
use crate::exec::{ExecCall, ExecRequest, first_fault, fault_error, call_of, validate_exec};
use crate::wallet::{WalletTemplate, wallet_address_of, initializer_of};

verus! {

/// What a caller asks of an owner's wallet.
#[derive(Debug, Clone)]
pub enum Request {
    Info,
    Deploy,
    Exec(ExecRequest),
}

/// The wallet's address, checksummed, and whether code lives there.
#[derive(Debug, Clone)]
pub struct SafeInfo {
    pub address: String,
    pub is_deployed: bool,
}

/// The identifiers of a mined transaction, as `0x`-prefixed hex.
#[derive(Debug, Clone)]
pub struct SafeResponse {
    pub block_hash: String,
    pub transaction_hash: String,
}

/// What a finished request hands back.
#[derive(Debug, Clone)]
pub enum Outcome {
    Info(SafeInfo),
    Response(SafeResponse),
}

/// One log entry of a receipt, with the identifiers it carries.
#[derive(Debug, Clone, Copy)]
pub struct LogEntry {
    pub block_hash: Option<[u8; 32]>,
    pub transaction_hash: Option<[u8; 32]>,
}

/// The chain work that a request waits on.
#[derive(Debug, Clone, Copy, PartialEq, Eq)]
pub enum Stage {
    AwaitInitCode,
    AwaitCode,
    AwaitReceipt,
}

/// A request under way for the owner `owner`. Once the factory's creation
/// code is known, `wallet` is the owner's wallet address.
pub struct Session {
    pub request: Request,
    pub owner: [u8; 20],
    pub wallet: [u8; 20],
    pub stage: Stage,
    pub init_code: Ghost<Seq<u8>>,
}

/// What the chain is to do next, or the end of the request.
#[derive(Debug)]
pub enum Action {
    /// Read the factory's proxy creation code.
    FetchInitCode { factory: [u8; 20] },
    /// Read the code stored at an address.
    FetchCode { address: [u8; 20] },
    /// Send the factory's create-with-nonce call and wait for its receipt.
    CreateProxy { factory: [u8; 20], master_copy: [u8; 20], initializer: Vec<u8>, salt_nonce: [u8; 32] },
    /// Send the wallet's execute-transaction call and wait for its receipt.
    ExecTransaction(ExecCall),
    /// The request is over.
    Finish(Result<Outcome, SafeError>),
}

/// What came of the chain work that an action asked for.
#[derive(Debug, Clone)]
pub enum Event {
    InitCode(Vec<u8>),
    Code(Vec<u8>),
    Receipt(Vec<LogEntry>),
    Failed(String),
}

/// The session holds what its stage promises.
pub open spec fn session_wf(t: WalletTemplate, s: Session) -> bool {
    s.stage != Stage::AwaitInitCode ==> s.wallet@ == wallet_address_of(t, s.owner@, s.init_code@)
}

/// An action that ends the request with a chain error.
pub open spec fn fails_with_rpc(a: Action) -> bool {
    a matches Action::Finish(Err(e)) && e is RpcError
}

/// The decision once the code at the wallet's address is known.
pub open spec fn decided_on_code(t: WalletTemplate, s: Session, code: Seq<u8>, next: Option<Session>, a: Action) -> bool {
    let deployed = code.len() > 0;
    match s.request {
        Request::Info => next is None && (a matches Action::Finish(Ok(Outcome::Info(i)))
            && i.address@ == checksum_of(s.wallet@) && i.is_deployed == deployed),
        Request::Deploy => if deployed {
            next is None && (a matches Action::Finish(Err(e)) && e is AlreadyExists)
        } else {
            (next matches Some(n) && n.stage == Stage::AwaitReceipt && n.owner == s.owner
                && n.wallet == s.wallet)
            && (a matches Action::CreateProxy { factory, master_copy, initializer, salt_nonce }
                && factory == t.proxy_factory && master_copy == t.master_copy
                && initializer@ == initializer_of(t, s.owner@) && salt_nonce == t.salt_nonce)
        },
        Request::Exec(q) => if !deployed {
            next is None && (a matches Action::Finish(Err(e)) && e is NotDeployed)
        } else {
            match first_fault(q) {
                Some(f) => next is None && (a matches Action::Finish(Err(e)) && fault_error(f, q, e)),
                None => (next matches Some(n) && n.stage == Stage::AwaitReceipt)
                    && (a matches Action::ExecTransaction(c) && call_of(c, s.wallet@, q)),
            }
        },
    }
}

/// The decision once a receipt is in: the identifiers of its first log
/// entry, or a chain error where it has none.
pub open spec fn decided_on_receipt(logs: Seq<LogEntry>, a: Action) -> bool {
    if logs.len() > 0 && logs[0].block_hash is Some && logs[0].transaction_hash is Some {
        a matches Action::Finish(Ok(Outcome::Response(r)))
            && r.block_hash@ == seq!['0', 'x'] + lower_hex(logs[0].block_hash->0@)
            && r.transaction_hash@ == seq!['0', 'x'] + lower_hex(logs[0].transaction_hash->0@)
    } else {
        fails_with_rpc(a)
    }
}

/// Serves wallet requests for one wallet template.
#[derive(Debug, Clone, Copy)]
pub struct SafeUseCase {
    pub template: WalletTemplate,
}

impl SafeUseCase {
    /// A use case serving wallets of `template`.
    pub fn new(template: WalletTemplate) -> (r: SafeUseCase)
        ensures
            r.template == template,
    {
        SafeUseCase { template }
    }

    /// Begins a request for the owner that `owner` spells. The owner is
    /// read before anything is asked of the chain: an unreadable one ends
    /// the request at once.
    pub fn start(&self, owner: &str, request: Request) -> (r: (Option<Session>, Action))
        ensures
            address_of_text(owner@) is None ==> r.0 is None
                && (r.1 matches Action::Finish(Err(e)) && e is BadAddress),
            address_of_text(owner@) matches Some(o) ==> (r.0 matches Some(s)
                && s.stage == Stage::AwaitInitCode && s.owner@ == o && s.request == request)
                && r.1 == (Action::FetchInitCode { factory: self.template.proxy_factory }),
    {
        match parse_address(owner) {
            None => (None, Action::Finish(Err(SafeError::BadAddress("owner".to_owned())))),
            Some(o) => {
                let s = Session {
                    request,
                    owner: o,
                    wallet: [0u8; 20],
                    stage: Stage::AwaitInitCode,
                    init_code: Ghost(Seq::empty()),
                };
                (Some(s), Action::FetchInitCode { factory: self.template.proxy_factory })
            },
        }
    }

    /// Takes the request one step on with what the chain answered. A chain
    /// failure, or an answer that the stage did not ask for, ends it with a
    /// chain error.
    pub fn step(&self, s: Session, ev: Event) -> (r: (Option<Session>, Action))
        requires
            session_wf(self.template, s),
        ensures
            r.0 matches Some(n) ==> session_wf(self.template, n) && n.request == s.request,
            ev is Failed ==> r.0 is None && fails_with_rpc(r.1),
            s.stage == Stage::AwaitInitCode && ev is InitCode ==> (r.0 matches Some(n)
                && n.stage == Stage::AwaitCode && n.owner == s.owner
                && n.wallet@ == wallet_address_of(self.template, s.owner@, ev->InitCode_0@))
                && r.1 == (Action::FetchCode { address: r.0->0.wallet }),
            s.stage == Stage::AwaitCode && ev is Code ==> decided_on_code(self.template, s, ev->Code_0@, r.0, r.1),
            s.stage == Stage::AwaitReceipt && ev is Receipt ==> r.0 is None
                && decided_on_receipt(ev->Receipt_0@, r.1),
            !(s.stage == Stage::AwaitInitCode && ev is InitCode) && !(s.stage == Stage::AwaitCode
                && ev is Code) && !(s.stage == Stage::AwaitReceipt && ev is Receipt) ==> r.0 is None
                && fails_with_rpc(r.1),
    {
        match (s.stage, ev) {
            (_, Event::Failed(m)) => (None, Action::Finish(Err(SafeError::RpcError(m)))),
            (Stage::AwaitInitCode, Event::InitCode(code)) => {
                let wallet = self.template.calculate_address(&s.owner, &code);
                let n = Session {
                    request: s.request,
                    owner: s.owner,
                    wallet,
                    stage: Stage::AwaitCode,
                    init_code: Ghost(code@),
                };
                (Some(n), Action::FetchCode { address: wallet })
            },
            (Stage::AwaitCode, Event::Code(code)) => {
                let deployed = code.len() > 0;
                match &s.request {
                    Request::Info => {
                        let info = SafeInfo { address: to_checksum(&s.wallet), is_deployed: deployed };
                        (None, Action::Finish(Ok(Outcome::Info(info))))
                    },
                    Request::Deploy => {
                        if deployed {
                            (None, Action::Finish(Err(SafeError::AlreadyExists)))
                        } else {
                            let initializer = self.template.encode_initializer(&s.owner);
                            let n = Session { stage: Stage::AwaitReceipt, ..s };
                            let a = Action::CreateProxy {
                                factory: self.template.proxy_factory,
                                master_copy: self.template.master_copy,
                                initializer,
                                salt_nonce: self.template.salt_nonce,
                            };
                            (Some(n), a)
                        }
                    },
                    Request::Exec(q) => {
                        if !deployed {
                            (None, Action::Finish(Err(SafeError::NotDeployed)))
                        } else {
                            match validate_exec(s.wallet, q) {
                                Err(e) => (None, Action::Finish(Err(e))),
                                Ok(c) => {
                                    let n = Session { stage: Stage::AwaitReceipt, ..s };
                                    (Some(n), Action::ExecTransaction(c))
                                },
                            }
                        }
                    },
                }
            },
            (Stage::AwaitReceipt, Event::Receipt(logs)) => (None, Action::Finish(receipt_response(&logs))),
            (_, _) => (None, Action::Finish(Err(SafeError::RpcError("unexpected chain answer".to_owned())))),
        }
    }
}

/// The identifiers of a receipt's first log entry.
pub fn receipt_response(logs: &Vec<LogEntry>) -> (r: Result<Outcome, SafeError>)
    ensures
        decided_on_receipt(logs@, Action::Finish(r)),
{
    if logs.len() == 0 {
        return Err(SafeError::RpcError("receipt without log".to_owned()));
    }
    let first = logs[0];
    match (first.block_hash, first.transaction_hash) {
        (Some(b), Some(t)) => Ok(Outcome::Response(SafeResponse {
            block_hash: hex_prefixed(&b),
            transaction_hash: hex_prefixed(&t),
        })),
        _ => Err(SafeError::RpcError("log without identifiers".to_owned())),
    }
}

} // verus!
