use vstd::prelude::*;
use vstd::string::StringExecFns;

verus! {

/// What can go wrong while serving a wallet request.
#[derive(Debug, Clone)]
pub enum SafeError {
    AlreadyExists,
    NotDeployed,
    BadAddress(String),
    BadParams(String),
    RpcError(String),
}

/// The text shown to callers for an error.
pub open spec fn message_of(e: SafeError) -> Seq<char> {
    match e {
        SafeError::AlreadyExists => "Safe is already deployed"@,
        SafeError::NotDeployed => "Safe is not deployed"@,
        SafeError::BadAddress(m) => "Invalid address: "@ + m@,
        SafeError::BadParams(m) => "Bad parameters passed: "@ + m@,
        SafeError::RpcError(m) => "Rpc unavailable: "@ + m@,
    }
}

/// The decimal digits of a number, most significant first.
pub open spec fn decimal_text(n: nat) -> Seq<char>
    decreases n,
{
    if n < 10 {
        seq![(('0' as nat) + n) as char]
    } else {
        decimal_text(n / 10) + seq![(('0' as nat) + n % 10) as char]
    }
}

/// The text of one decimal digit.
fn digit_text(d: u8) -> (r: &'static str)
    requires
        d < 10,
    ensures
        r@ == seq![(('0' as nat) + d as nat) as char],
{
    proof {
        reveal_strlit("0");
        reveal_strlit("1");
        reveal_strlit("2");
        reveal_strlit("3");
        reveal_strlit("4");
        reveal_strlit("5");
        reveal_strlit("6");
        reveal_strlit("7");
        reveal_strlit("8");
        reveal_strlit("9");
    }
    match d {
        0 => "0",
        1 => "1",
        2 => "2",
        3 => "3",
        4 => "4",
        5 => "5",
        6 => "6",
        7 => "7",
        8 => "8",
        _ => "9",
    }
}

/// Appends the decimal digits of `n` to `s`.
pub fn push_decimal(s: &mut String, n: u8)
    ensures
        final(s)@ == old(s)@ + decimal_text(n as nat),
    decreases n,
{
    if n >= 10 {
        push_decimal(s, n / 10);
    }
    s.append(digit_text(n % 10));
    assert(n < 10 ==> n % 10 == n);
}

impl SafeError {
    /// The status class shown to callers: 503 when the chain could not be
    /// reached, 400 for every fault of the caller.
    pub fn status_code(&self) -> (r: u16)
        ensures
            r == (if self is RpcError { 503u16 } else { 400u16 }),
    {
        match self {
            SafeError::RpcError(_) => 503,
            _ => 400,
        }
    }

    /// The text shown to callers.
    pub fn message(&self) -> (r: String)
        ensures
            r@ == message_of(*self),
    {
        match self {
            SafeError::AlreadyExists => String::from_str("Safe is already deployed"),
            SafeError::NotDeployed => String::from_str("Safe is not deployed"),
            SafeError::BadAddress(m) => {
                let mut r = String::from_str("Invalid address: ");
                r.append(m.as_str());
                r
            },
            SafeError::BadParams(m) => {
                let mut r = String::from_str("Bad parameters passed: ");
                r.append(m.as_str());
                r
            },
            SafeError::RpcError(m) => {
                let mut r = String::from_str("Rpc unavailable: ");
                r.append(m.as_str());
                r
            },
        }
    }
}

} // verus!
