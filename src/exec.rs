//! Checking a caller's transaction request before it is forwarded to the
//! wallet.
use vstd::prelude::*;
use vstd::string::StringExecFns;
use crate::error::{SafeError, decimal_text, push_decimal};
use crate::token::be_value;
use crate::chain::{address_of_text, all_decimal, decimal_value, word_bound, parse_address, parse_decimal_word};

verus! {

/// How the wallet runs a forwarded call.
#[derive(Debug, Clone, Copy, PartialEq, Eq)]
pub enum Operation {
    Call,
    DelegateCall,
}

impl Operation {
    /// The operation that a code names: 0 a call, 1 a delegate call.
    pub fn try_from(v: u8) -> (r: Result<Operation, SafeError>)
        ensures
            v == 0 ==> r matches Ok(Operation::Call),
            v == 1 ==> r matches Ok(Operation::DelegateCall),
            v > 1 ==> (r matches Err(SafeError::BadParams(m))
                && m@ == "Unknown Operation enum variant "@ + decimal_text(v as nat)),
    {
        if v == 0 {
            Ok(Operation::Call)
        } else if v == 1 {
            Ok(Operation::DelegateCall)
        } else {
            let mut m = String::from_str("Unknown Operation enum variant ");
            push_decimal(&mut m, v);
            Err(SafeError::BadParams(m))
        }
    }
}

/// A transaction as the caller hands it over: addresses as text, amounts
/// as decimal text.
#[derive(Debug, Clone)]
pub struct ExecRequest {
    pub to: String,
    pub value: String,
    pub data: Vec<u8>,
    pub operation: u8,
    pub safe_tx_gas: String,
    pub base_gas: String,
    pub gas_price: String,
    pub gas_token: String,
    pub refund_receiver: String,
    pub signatures: Vec<u8>,
}

/// A checked transaction, ready to be sent to the wallet at `wallet`.
/// Amounts are 32-byte big-endian words.
#[derive(Debug, Clone)]
pub struct ExecCall {
    pub wallet: [u8; 20],
    pub to: [u8; 20],
    pub value: [u8; 32],
    pub data: Vec<u8>,
    pub operation: u8,
    pub safe_tx_gas: [u8; 32],
    pub base_gas: [u8; 32],
    pub gas_price: [u8; 32],
    pub gas_token: [u8; 20],
    pub refund_receiver: [u8; 20],
    pub signatures: Vec<u8>,
}

/// The first field of a request that is wrong.
pub enum Fault {
    Operation,
    To,
    Value,
    SafeTxGas,
    BaseGas,
    GasPrice,
    GasToken,
    RefundReceiver,
}

/// Decimal text of a value that fits in 256 bits.
pub open spec fn word_text(s: Seq<char>) -> bool {
    all_decimal(s) && decimal_value(s) < word_bound()
}

/// The first wrong field, checked in the order the call lists them.
pub open spec fn first_fault(q: ExecRequest) -> Option<Fault> {
    if q.operation > 1 {
        Some(Fault::Operation)
    } else if address_of_text(q.to@) is None {
        Some(Fault::To)
    } else if !word_text(q.value@) {
        Some(Fault::Value)
    } else if !word_text(q.safe_tx_gas@) {
        Some(Fault::SafeTxGas)
    } else if !word_text(q.base_gas@) {
        Some(Fault::BaseGas)
    } else if !word_text(q.gas_price@) {
        Some(Fault::GasPrice)
    } else if address_of_text(q.gas_token@) is None {
        Some(Fault::GasToken)
    } else if address_of_text(q.refund_receiver@) is None {
        Some(Fault::RefundReceiver)
    } else {
        None
    }
}

/// The error reported for a wrong field of `q`: a bad address for an
/// address field, bad parameters naming the field or the operation code
/// otherwise.
pub open spec fn fault_error(f: Fault, q: ExecRequest, e: SafeError) -> bool {
    match f {
        Fault::Operation => e matches SafeError::BadParams(m)
            && m@ == "Unknown Operation enum variant "@ + decimal_text(q.operation as nat),
        Fault::To | Fault::GasToken | Fault::RefundReceiver => e is BadAddress,
        Fault::Value => e matches SafeError::BadParams(m) && m@ == "value"@,
        Fault::SafeTxGas => e matches SafeError::BadParams(m) && m@ == "safeTxGas"@,
        Fault::BaseGas => e matches SafeError::BadParams(m) && m@ == "baseGas"@,
        Fault::GasPrice => e matches SafeError::BadParams(m) && m@ == "gasPrice"@,
    }
}

/// The checked call carries the request's fields, read.
pub open spec fn call_of(c: ExecCall, wallet: Seq<u8>, q: ExecRequest) -> bool {
    &&& c.wallet@ == wallet
    &&& address_of_text(q.to@) == Some(c.to@)
    &&& be_value(c.value@) == decimal_value(q.value@)
    &&& c.data@ == q.data@
    &&& c.operation == q.operation
    &&& be_value(c.safe_tx_gas@) == decimal_value(q.safe_tx_gas@)
    &&& be_value(c.base_gas@) == decimal_value(q.base_gas@)
    &&& be_value(c.gas_price@) == decimal_value(q.gas_price@)
    &&& address_of_text(q.gas_token@) == Some(c.gas_token@)
    &&& address_of_text(q.refund_receiver@) == Some(c.refund_receiver@)
    &&& c.signatures@ == q.signatures@
}

fn amount(s: &String, field: &str) -> (r: Result<[u8; 32], SafeError>)
    ensures
        match r {
            Ok(w) => word_text(s@) && be_value(w@) == decimal_value(s@),
            Err(e) => !word_text(s@) && (e matches SafeError::BadParams(m) && m@ == field@),
        },
{
    match parse_decimal_word(s.as_str()) {
        Some(w) => Ok(w),
        None => Err(SafeError::BadParams(field.to_owned())),
    }
}

fn address(s: &String, field: &str) -> (r: Result<[u8; 20], SafeError>)
    ensures
        match r {
            Ok(a) => address_of_text(s@) == Some(a@),
            Err(e) => address_of_text(s@) is None && e is BadAddress,
        },
{
    match parse_address(s.as_str()) {
        Some(a) => Ok(a),
        None => Err(SafeError::BadAddress(field.to_owned())),
    }
}

/// Checks each field of `q`, in order, and reads it into a call to the
/// wallet at `wallet`; the first wrong field decides the error.
pub fn validate_exec(wallet: [u8; 20], q: &ExecRequest) -> (r: Result<ExecCall, SafeError>)
    ensures
        match r {
            Ok(c) => first_fault(*q) is None && call_of(c, wallet@, *q),
            Err(e) => (first_fault(*q) matches Some(f) && fault_error(f, *q, e)),
        },
{
    let _ = Operation::try_from(q.operation)?;
    let to = address(&q.to, "to")?;
    let value = amount(&q.value, "value")?;
    let safe_tx_gas = amount(&q.safe_tx_gas, "safeTxGas")?;
    let base_gas = amount(&q.base_gas, "baseGas")?;
    let gas_price = amount(&q.gas_price, "gasPrice")?;
    let gas_token = address(&q.gas_token, "gasToken")?;
    let refund_receiver = address(&q.refund_receiver, "refundReceiver")?;
    Ok(ExecCall {
        wallet,
        to,
        value,
        data: q.data.clone(),
        operation: q.operation,
        safe_tx_gas,
        base_gas,
        gas_price,
        gas_token,
        refund_receiver,
        signatures: q.signatures.clone(),
    })
}

} // verus!
