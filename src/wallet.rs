//! The wallet template and the deterministic address of each owner's wallet.
use vstd::prelude::*;
use vstd::string::StringSliceAdditionalSpecFns;
use crate::error::SafeError;
use crate::token::{Token, TokenView, tokens_view, zeros, left_pad};
use crate::chain::{
    keccak_of, abi_encoding_of, address_of_text, bytes_of_hex_text, keccak256, abi_encode,
    create2_address, parse_address, decode_hex,
};
use crate::packed::{packed_encoding, solidity_keccak256};

verus! {

/// The signature of the wallet template's setup entry point.
pub const SETUP_SIGNATURE: &'static str = "setup(address[],uint256,address,bytes,address,address,uint256,address)";

/// The fixed number of owners that must sign.
pub const THRESHOLD: u8 = 1;

/// The fixed parts of every wallet: its fallback handler, the template it
/// delegates to, the factory that creates it, and the salt nonce as a
/// 32-byte big-endian word.
#[derive(Debug, Clone, Copy)]
pub struct WalletTemplate {
    pub fallback: [u8; 20],
    pub master_copy: [u8; 20],
    pub proxy_factory: [u8; 20],
    pub salt_nonce: [u8; 32],
}

/// The address as a 256-bit big-endian number.
pub open spec fn address_word(a: Seq<u8>) -> Seq<u8> {
    zeros(12) + a
}

/// The 4-byte selector of the setup entry point.
pub open spec fn setup_selector() -> Seq<u8> {
    keccak_of(SETUP_SIGNATURE.spec_bytes()).subrange(0, 4)
}

/// The setup arguments: the owner alone, threshold one, no delegate call,
/// the configured fallback handler, no payment.
pub open spec fn setup_args(t: WalletTemplate, owner: Seq<u8>) -> Seq<TokenView> {
    seq![
        TokenView::AddressArray(seq![owner]),
        TokenView::Uint(left_pad(seq![THRESHOLD])),
        TokenView::Address(zeros(20)),
        TokenView::Bytes(Seq::empty()),
        TokenView::Address(t.fallback@),
        TokenView::Address(zeros(20)),
        TokenView::Uint(zeros(32)),
        TokenView::Address(zeros(20)),
    ]
}

/// The call that initialises a new wallet for `owner`.
pub open spec fn initializer_of(t: WalletTemplate, owner: Seq<u8>) -> Seq<u8> {
    setup_selector() + abi_encoding_of(setup_args(t, owner))
}

/// The salt of `owner`'s wallet: the packed digest of the initializer's
/// digest and the salt nonce.
pub open spec fn salt_of(t: WalletTemplate, owner: Seq<u8>) -> Seq<u8> {
    keccak_of(packed_encoding(seq![
        TokenView::Bytes(keccak_of(initializer_of(t, owner))),
        TokenView::Uint(t.salt_nonce@),
    ]))
}

/// The digest of the factory's creation code together with the template.
pub open spec fn init_code_hash_of(t: WalletTemplate, init_code: Seq<u8>) -> Seq<u8> {
    keccak_of(packed_encoding(seq![
        TokenView::Bytes(init_code),
        TokenView::Uint(address_word(t.master_copy@)),
    ]))
}

/// The deterministic address of a contract that `from` creates with `salt`
/// from code whose digest is `code_hash`.
pub open spec fn create2_of(from: Seq<u8>, salt: Seq<u8>, code_hash: Seq<u8>) -> Seq<u8> {
    keccak_of(seq![0xffu8] + from + salt + code_hash).subrange(12, 32)
}

/// The address of `owner`'s wallet, given the factory's creation code.
pub open spec fn wallet_address_of(t: WalletTemplate, owner: Seq<u8>, init_code: Seq<u8>) -> Seq<u8> {
    create2_of(t.proxy_factory@, salt_of(t, owner), init_code_hash_of(t, init_code))
}

/// The deterministic address of a contract that `from` creates with `salt`
/// from code whose digest is `code_hash`.
pub fn create2(from: &[u8; 20], salt: &[u8; 32], code_hash: &[u8; 32]) -> (r: [u8; 20])
    ensures
        r@ == create2_of(from@, salt@, code_hash@),
{
    create2_address(from, salt, code_hash)
}

/// A copy of a fixed-size byte array as a vector.
fn bytes_of<const N: usize>(a: &[u8; N]) -> (r: Vec<u8>)
    ensures
        r@ == a@,
{
    let mut v: Vec<u8> = Vec::new();
    let mut i: usize = 0;
    while i < N
        invariant
            i <= N,
            a@.len() == N,
            v@ == a@.subrange(0, i as int),
        decreases N - i,
    {
        v.push(a[i]);
        i += 1;
    }
    assert(v@ =~= a@);
    v
}

/// The word that holds `b`, at most 32 bytes, as a big-endian number.
pub fn left_padded_word(b: &Vec<u8>) -> (r: [u8; 32])
    requires
        b@.len() <= 32,
    ensures
        r@ == left_pad(b@),
{
    let mut w = [0u8; 32];
    let off: usize = 32 - b.len();
    let mut i: usize = 0;
    while i < b.len()
        invariant
            off + b@.len() == 32,
            i <= b@.len(),
            w@.len() == 32,
            forall|j: int| 0 <= j < off ==> w@[j] == 0,
            forall|j: int| 0 <= j < i ==> w@[off + j] == b@[j],
            forall|j: int| off + i <= j < 32 ==> w@[j] == 0,
        decreases b@.len() - i,
    {
        w[off + i] = b[i];
        i += 1;
    }
    assert(w@ =~= left_pad(b@));
    w
}

impl WalletTemplate {
    /// Reads the three addresses of the template and the salt nonce,
    /// hexadecimal text of at most 32 bytes taken as a big-endian number.
    pub fn new(fallback: &str, master_copy: &str, proxy_factory: &str, salt_nonce: &str) -> (r: Result<WalletTemplate, SafeError>)
        ensures
            match r {
                Ok(t) => address_of_text(fallback@) == Some(t.fallback@)
                    && address_of_text(master_copy@) == Some(t.master_copy@)
                    && address_of_text(proxy_factory@) == Some(t.proxy_factory@)
                    && (bytes_of_hex_text(salt_nonce@) matches Some(n)
                        && n.len() <= 32 && t.salt_nonce@ == left_pad(n)),
                Err(e) => if address_of_text(fallback@) is None || address_of_text(master_copy@) is None
                    || address_of_text(proxy_factory@) is None {
                    e is BadAddress
                } else {
                    e is BadParams && !(bytes_of_hex_text(salt_nonce@) matches Some(n) && n.len() <= 32)
                },
            },
    {
        let fb = match parse_address(fallback) {
            Some(a) => a,
            None => return Err(SafeError::BadAddress("fallback handler".to_owned())),
        };
        let mc = match parse_address(master_copy) {
            Some(a) => a,
            None => return Err(SafeError::BadAddress("master copy".to_owned())),
        };
        let pf = match parse_address(proxy_factory) {
            Some(a) => a,
            None => return Err(SafeError::BadAddress("proxy factory".to_owned())),
        };
        let nonce = match decode_hex(salt_nonce) {
            Some(b) => b,
            None => return Err(SafeError::BadParams("salt nonce is not hexadecimal".to_owned())),
        };
        if nonce.len() > 32 {
            return Err(SafeError::BadParams("salt nonce wider than 32 bytes".to_owned()));
        }
        let sn = left_padded_word(&nonce);
        Ok(WalletTemplate { fallback: fb, master_copy: mc, proxy_factory: pf, salt_nonce: sn })
    }

    /// The setup arguments for `owner`'s wallet.
    pub fn setup_tokens(&self, owner: &[u8; 20]) -> (r: Vec<Token>)
        ensures
            tokens_view(r@) == setup_args(*self, owner@),
    {
        let mut owners: Vec<[u8; 20]> = Vec::new();
        owners.push(*owner);
        let mut threshold: Vec<u8> = Vec::new();
        threshold.push(THRESHOLD);
        let z20: [u8; 20] = [0u8; 20];
        let z32: [u8; 32] = [0u8; 32];
        let mut r: Vec<Token> = Vec::new();
        r.push(Token::AddressArray(owners));
        r.push(Token::Uint(left_padded_word(&threshold)));
        r.push(Token::Address(z20));
        r.push(Token::Bytes(Vec::new()));
        r.push(Token::Address(self.fallback));
        r.push(Token::Address(z20));
        r.push(Token::Uint(z32));
        r.push(Token::Address(z20));
        proof {
            assert(owners@.map_values(|a: [u8; 20]| a@) =~= seq![owner@]);
            assert(threshold@ =~= seq![THRESHOLD]);
            assert(z20@ =~= zeros(20));
            assert(z32@ =~= zeros(32));
        }
        assert(tokens_view(r@) =~= setup_args(*self, owner@));
        r
    }

    /// The encoded setup call that initialises `owner`'s wallet.
    pub fn encode_initializer(&self, owner: &[u8; 20]) -> (r: Vec<u8>)
        ensures
            r@ == initializer_of(*self, owner@),
    {
        let sel = keccak256(SETUP_SIGNATURE.as_bytes());
        let mut r: Vec<u8> = Vec::new();
        let mut i: usize = 0;
        while i < 4
            invariant
                i <= 4,
                sel@.len() == 32,
                r@ == sel@.subrange(0, i as int),
            decreases 4 - i,
        {
            r.push(sel[i]);
            i += 1;
        }
        let mut args = abi_encode(&self.setup_tokens(owner));
        r.append(&mut args);
        r
    }

    /// The address of `owner`'s wallet, given the creation code that the
    /// factory reports; it depends on nothing else, and so is known before
    /// the wallet exists.
    pub fn calculate_address(&self, owner: &[u8; 20], init_code: &Vec<u8>) -> (r: [u8; 20])
        ensures
            r@ == wallet_address_of(*self, owner@, init_code@),
    {
        let initializer = self.encode_initializer(owner);
        let initializer_hash = keccak256(initializer.as_slice());
        let mut salt_args: Vec<Token> = Vec::new();
        salt_args.push(Token::Bytes(bytes_of(&initializer_hash)));
        salt_args.push(Token::Uint(self.salt_nonce));
        assert(tokens_view(salt_args@) =~= seq![
            TokenView::Bytes(keccak_of(initializer_of(*self, owner@))),
            TokenView::Uint(self.salt_nonce@),
        ]);
        let salt = match solidity_keccak256(&salt_args) {
            Ok(h) => h,
            Err(_) => {
                assert(false);
                [0u8; 32]
            },
        };
        let mut master = [0u8; 32];
        let mut i: usize = 0;
        while i < 20
            invariant
                i <= 20,
                master@.len() == 32,
                forall|j: int| 0 <= j < 12 ==> master@[j] == 0,
                forall|j: int| 0 <= j < i ==> master@[12 + j] == self.master_copy@[j],
                forall|j: int| 12 + i <= j < 32 ==> master@[j] == 0,
            decreases 20 - i,
        {
            master[12 + i] = self.master_copy[i];
            i += 1;
        }
        assert(master@ =~= address_word(self.master_copy@));
        let mut code_args: Vec<Token> = Vec::new();
        code_args.push(Token::Bytes(init_code.clone()));
        code_args.push(Token::Uint(master));
        assert(tokens_view(code_args@) =~= seq![
            TokenView::Bytes(init_code@),
            TokenView::Uint(address_word(self.master_copy@)),
        ]);
        let code_hash = match solidity_keccak256(&code_args) {
            Ok(h) => h,
            Err(_) => {
                assert(false);
                [0u8; 32]
            },
        };
        create2(&self.proxy_factory, &salt, &code_hash)
    }
}

} // verus!
