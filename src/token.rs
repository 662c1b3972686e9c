use vstd::prelude::*;

verus! {

/// A typed value handed to the packed hasher or to the call encoder.
/// Integers are 32-byte big-endian words.
#[derive(Debug, Clone)]
pub enum Token {
    Address([u8; 20]),
    Bytes(Vec<u8>),
    Uint([u8; 32]),
    Int([u8; 32]),
    Str(String),
    Bool(bool),
    AddressArray(Vec<[u8; 20]>),
}

/// The mathematical content of a `Token`.
pub enum TokenView {
    Address(Seq<u8>),
    Bytes(Seq<u8>),
    Uint(Seq<u8>),
    Int(Seq<u8>),
    Str(Seq<char>),
    Bool(bool),
    AddressArray(Seq<Seq<u8>>),
}

impl View for Token {
    type V = TokenView;

    open spec fn view(&self) -> TokenView {
        match self {
            Token::Address(a) => TokenView::Address(a@),
            Token::Bytes(b) => TokenView::Bytes(b@),
            Token::Uint(w) => TokenView::Uint(w@),
            Token::Int(w) => TokenView::Int(w@),
            Token::Str(s) => TokenView::Str(s@),
            Token::Bool(b) => TokenView::Bool(*b),
            Token::AddressArray(v) => TokenView::AddressArray(v@.map_values(|a: [u8; 20]| a@)),
        }
    }
}

/// The views of a list of tokens.
pub open spec fn tokens_view(ts: Seq<Token>) -> Seq<TokenView> {
    ts.map_values(|t: Token| t@)
}

/// `n` zero bytes.
pub open spec fn zeros(n: nat) -> Seq<u8> {
    Seq::new(n, |i: int| 0u8)
}

/// The word that holds a byte string of at most 32 bytes as a big-endian
/// number: the bytes, with zeros before them.
pub open spec fn left_pad(b: Seq<u8>) -> Seq<u8> {
    zeros((32 - b.len()) as nat) + b
}

/// The big-endian value of a byte string.
pub open spec fn be_value(b: Seq<u8>) -> nat
    decreases b.len(),
{
    if b.len() == 0 { 0 } else { be_value(b.drop_last()) * 256 + b.last() as nat }
}

} // verus!
