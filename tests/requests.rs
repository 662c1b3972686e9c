use safe_wallet::error::SafeError;
use safe_wallet::exec::{validate_exec, ExecRequest, Operation};
use safe_wallet::flow::{receipt_response, Action, Event, LogEntry, Outcome, Request, SafeUseCase, Stage};
use safe_wallet::wallet::WalletTemplate;

const OWNER: &str = "0x5aAeb6053F3E94C9b9A09f33669435E7Ef1BeAed";
const CODE: [u8; 4] = [0x60, 0x80, 0x60, 0x40];

fn use_case() -> SafeUseCase {
    SafeUseCase::new(
        WalletTemplate::new(
            "0xf48f2B2d2a534e402487b3ee7C18c33Aec0Fe5e4",
            "0xd9Db270c1B5E3Bd161E8c8503c55cEABeE709552",
            "0xa6B71E26C5e0845f74c812102Ca7114b6a896AB2",
            "0x01",
        )
        .unwrap(),
    )
}

fn request() -> ExecRequest {
    ExecRequest {
        to: "0xfB6916095ca1df60bB79Ce92cE3Ea74c37c5d359".to_string(),
        value: "1000".to_string(),
        data: vec![1, 2, 3],
        operation: 0,
        safe_tx_gas: "0".to_string(),
        base_gas: "0".to_string(),
        gas_price: "0".to_string(),
        gas_token: "0x0000000000000000000000000000000000000000".to_string(),
        refund_receiver: "0x0000000000000000000000000000000000000000".to_string(),
        signatures: vec![9; 65],
    }
}

/// Runs a request up to the answer about the wallet's code.
fn until_code(uc: &SafeUseCase, owner: &str, r: Request, code: Vec<u8>) -> (Option<safe_wallet::flow::Session>, Action) {
    let (s, a) = uc.start(owner, r);
    assert!(matches!(a, Action::FetchInitCode { .. }));
    let (s, a) = uc.step(s.unwrap(), Event::InitCode(CODE.to_vec()));
    let wallet = match a {
        Action::FetchCode { address } => address,
        _ => panic!("expected a code query"),
    };
    assert_eq!(wallet, uc.template.calculate_address(&s.as_ref().unwrap().owner, &CODE.to_vec()));
    uc.step(s.unwrap(), Event::Code(code))
}

fn info_of(a: Action) -> (String, bool) {
    match a {
        Action::Finish(Ok(Outcome::Info(i))) => (i.address, i.is_deployed),
        _ => panic!("expected wallet info"),
    }
}

#[test]
fn bad_owner_fails_before_any_query() {
    let uc = use_case();
    let (s, a) = uc.start("not-an-address", Request::Info);
    assert!(s.is_none());
    assert!(matches!(a, Action::Finish(Err(SafeError::BadAddress(_)))));
}

#[test]
fn info_reports_checksummed_address() {
    let uc = use_case();
    let (_, a) = until_code(&uc, OWNER, Request::Info, vec![]);
    let (address, deployed) = info_of(a);
    assert!(!deployed);
    let wallet = uc.template.calculate_address(&[0x5a, 0xae, 0xb6, 0x05, 0x3f, 0x3e, 0x94, 0xc9, 0xb9, 0xa0, 0x9f, 0x33, 0x66, 0x94, 0x35, 0xe7, 0xef, 0x1b, 0xea, 0xed], &CODE.to_vec());
    let lower: String = wallet.iter().map(|b| format!("{:02x}", b)).collect();
    assert_eq!(address.len(), 42);
    assert_eq!(address.to_lowercase(), format!("0x{}", lower));
    assert_ne!(address, format!("0x{}", lower));
}

#[test]
fn info_address_same_before_and_after_deployment() {
    let uc = use_case();
    let (before, d1) = info_of(until_code(&uc, OWNER, Request::Info, vec![]).1);
    let (after, d2) = info_of(until_code(&uc, OWNER, Request::Info, vec![0x60]).1);
    let (again, _) = info_of(until_code(&uc, &OWNER.to_lowercase(), Request::Info, vec![]).1);
    assert!(!d1);
    assert!(d2);
    assert_eq!(before, after);
    assert_eq!(before, again);
}

#[test]
fn deploy_once_then_refused() {
    let uc = use_case();
    let (s, a) = until_code(&uc, OWNER, Request::Deploy, vec![]);
    let s = s.unwrap();
    assert_eq!(s.stage, Stage::AwaitReceipt);
    match a {
        Action::CreateProxy { factory, master_copy, initializer, salt_nonce } => {
            assert_eq!(factory, uc.template.proxy_factory);
            assert_eq!(master_copy, uc.template.master_copy);
            assert_eq!(initializer, uc.template.encode_initializer(&s.owner));
            assert_eq!(salt_nonce, uc.template.salt_nonce);
        }
        _ => panic!("expected a deployment"),
    }
    let logs = vec![LogEntry { block_hash: Some([0xab; 32]), transaction_hash: Some([0x01; 32]) }];
    let (n, a) = uc.step(s, Event::Receipt(logs));
    assert!(n.is_none());
    match a {
        Action::Finish(Ok(Outcome::Response(r))) => {
            assert_eq!(r.block_hash, format!("0x{}", "ab".repeat(32)));
            assert_eq!(r.transaction_hash, format!("0x{}", "01".repeat(32)));
        }
        _ => panic!("expected identifiers"),
    }
    let (n, a) = until_code(&uc, OWNER, Request::Deploy, vec![0x60, 0x80]);
    assert!(n.is_none());
    assert!(matches!(a, Action::Finish(Err(SafeError::AlreadyExists))));
}

#[test]
fn exec_before_deployment_is_refused() {
    let uc = use_case();
    let mut q = request();
    q.operation = 7;
    q.to = "junk".to_string();
    let (n, a) = until_code(&uc, OWNER, Request::Exec(q), vec![]);
    assert!(n.is_none());
    assert!(matches!(a, Action::Finish(Err(SafeError::NotDeployed))));
}

#[test]
fn exec_operation_codes() {
    let uc = use_case();
    for op in [0u8, 1u8] {
        let mut q = request();
        q.operation = op;
        let (n, a) = until_code(&uc, OWNER, Request::Exec(q), vec![0x60]);
        assert!(n.is_some());
        match a {
            Action::ExecTransaction(c) => assert_eq!(c.operation, op),
            _ => panic!("expected a transaction"),
        }
    }
    let mut q = request();
    q.operation = 2;
    let (n, a) = until_code(&uc, OWNER, Request::Exec(q), vec![0x60]);
    assert!(n.is_none());
    assert!(matches!(a, Action::Finish(Err(SafeError::BadParams(_)))));
}

#[test]
fn operation_from_code() {
    assert!(matches!(Operation::try_from(0), Ok(Operation::Call)));
    assert!(matches!(Operation::try_from(1), Ok(Operation::DelegateCall)));
    assert!(matches!(Operation::try_from(2), Err(SafeError::BadParams(m)) if m == "Unknown Operation enum variant 2"));
    assert!(matches!(Operation::try_from(10), Err(SafeError::BadParams(m)) if m == "Unknown Operation enum variant 10"));
    assert!(matches!(Operation::try_from(255), Err(SafeError::BadParams(m)) if m == "Unknown Operation enum variant 255"));
}

#[test]
fn exec_call_reads_fields() {
    let q = request();
    let c = validate_exec([3u8; 20], &q).unwrap();
    assert_eq!(c.wallet, [3u8; 20]);
    assert_eq!(c.to[0], 0xfb);
    let mut v = [0u8; 32];
    v[30] = 0x03;
    v[31] = 0xe8;
    assert_eq!(c.value, v);
    assert_eq!(c.data, vec![1, 2, 3]);
    assert_eq!(c.gas_token, [0u8; 20]);
    assert_eq!(c.signatures, vec![9; 65]);
    let mut big = request();
    big.gas_price = "115792089237316195423570985008687907853269984665640564039457584007913129639935".to_string();
    assert_eq!(validate_exec([0u8; 20], &big).unwrap().gas_price, [0xff; 32]);
}

#[test]
fn exec_field_errors() {
    let mut q = request();
    q.to = "0x12".to_string();
    assert!(matches!(validate_exec([0u8; 20], &q), Err(SafeError::BadAddress(_))));
    let mut q = request();
    q.value = "-1".to_string();
    assert!(matches!(validate_exec([0u8; 20], &q), Err(SafeError::BadParams(m)) if m == "value"));
    let mut q = request();
    q.safe_tx_gas = "1e3".to_string();
    assert!(matches!(validate_exec([0u8; 20], &q), Err(SafeError::BadParams(m)) if m == "safeTxGas"));
    let mut q = request();
    q.base_gas = "x".to_string();
    assert!(matches!(validate_exec([0u8; 20], &q), Err(SafeError::BadParams(m)) if m == "baseGas"));
    let mut q = request();
    q.gas_price = "115792089237316195423570985008687907853269984665640564039457584007913129639936".to_string();
    assert!(matches!(validate_exec([0u8; 20], &q), Err(SafeError::BadParams(m)) if m == "gasPrice"));
    let mut q = request();
    q.gas_token = "zz".to_string();
    assert!(matches!(validate_exec([0u8; 20], &q), Err(SafeError::BadAddress(_))));
    let mut q = request();
    q.refund_receiver = String::new();
    assert!(matches!(validate_exec([0u8; 20], &q), Err(SafeError::BadAddress(_))));
}

#[test]
fn chain_failure_ends_request() {
    let uc = use_case();
    let (s, _) = uc.start(OWNER, Request::Info);
    let (n, a) = uc.step(s.unwrap(), Event::Failed("connection refused".to_string()));
    assert!(n.is_none());
    assert!(matches!(a, Action::Finish(Err(SafeError::RpcError(m))) if m == "connection refused"));
}

#[test]
fn unexpected_answer_ends_request() {
    let uc = use_case();
    let (s, _) = uc.start(OWNER, Request::Info);
    let (n, a) = uc.step(s.unwrap(), Event::Code(vec![]));
    assert!(n.is_none());
    assert!(matches!(a, Action::Finish(Err(SafeError::RpcError(_)))));
}

#[test]
fn receipt_takes_first_log() {
    let logs = vec![
        LogEntry { block_hash: Some([0x10; 32]), transaction_hash: Some([0x20; 32]) },
        LogEntry { block_hash: Some([0x30; 32]), transaction_hash: Some([0x40; 32]) },
    ];
    match receipt_response(&logs) {
        Ok(Outcome::Response(r)) => {
            assert_eq!(r.block_hash, format!("0x{}", "10".repeat(32)));
            assert_eq!(r.transaction_hash, format!("0x{}", "20".repeat(32)));
        }
        _ => panic!("expected identifiers"),
    }
    assert!(matches!(receipt_response(&vec![]), Err(SafeError::RpcError(_))));
    let partial = vec![LogEntry { block_hash: None, transaction_hash: Some([1; 32]) }];
    assert!(matches!(receipt_response(&partial), Err(SafeError::RpcError(_))));
}

#[test]
fn status_codes() {
    assert_eq!(SafeError::RpcError("x".to_string()).status_code(), 503);
    assert_eq!(SafeError::AlreadyExists.status_code(), 400);
    assert_eq!(SafeError::NotDeployed.status_code(), 400);
    assert_eq!(SafeError::BadAddress("x".to_string()).status_code(), 400);
    assert_eq!(SafeError::BadParams("x".to_string()).status_code(), 400);
}

#[test]
fn error_messages() {
    assert_eq!(SafeError::AlreadyExists.message(), "Safe is already deployed");
    assert_eq!(SafeError::NotDeployed.message(), "Safe is not deployed");
    assert_eq!(SafeError::BadAddress("to".to_string()).message(), "Invalid address: to");
    assert_eq!(SafeError::BadParams("value".to_string()).message(), "Bad parameters passed: value");
    assert_eq!(SafeError::RpcError("timeout".to_string()).message(), "Rpc unavailable: timeout");
}
