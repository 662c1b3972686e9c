//! Tight packing of typed values and its digest.
use vstd::prelude::*;
use crate::error::SafeError;
use crate::token::{Token, TokenView, tokens_view};
use crate::chain::{PackedValue, concat, keccak_of, keccak256, encode_packed};

verus! {

/// A value that has a packed form: everything but an array.
pub open spec fn packable(t: TokenView) -> bool {
    !(t is AddressArray)
}

/// The bytes a value occupies in a packed encoding: an address its 20
/// bytes, an integer its 32-byte big-endian word, a byte string or text its
/// raw bytes, a boolean one byte.
pub open spec fn token_packed(t: TokenView) -> Seq<u8> {
    match t {
        TokenView::Address(a) => a,
        TokenView::Bytes(b) => b,
        TokenView::Uint(w) => w,
        TokenView::Int(w) => w,
        TokenView::Str(s) => vstd::utf8::encode_utf8(s),
        TokenView::Bool(b) => seq![if b { 1u8 } else { 0u8 }],
        TokenView::AddressArray(_) => Seq::empty(),
    }
}

/// The packed encoding of a list of values.
pub open spec fn packed_encoding(ts: Seq<TokenView>) -> Seq<u8> {
    concat(ts.map_values(|t: TokenView| token_packed(t)))
}

/// Every value of the list has a packed form.
pub open spec fn all_packable(ts: Seq<TokenView>) -> bool {
    forall|i: int| 0 <= i < ts.len() ==> packable(#[trigger] ts[i])
}

/// The error text for a value with no packed form.
pub open spec fn unexpected_token_text() -> Seq<char> {
    "Unexpected token passed: array of addresses"@
}

/// `p` is the packable form of `t`: an address stays an address, a byte
/// string a byte string, an integer of either sign its word as a number,
/// text text, a boolean a boolean.
pub open spec fn packs_as(t: Token, p: PackedValue) -> bool {
    match t {
        Token::Address(a) => p matches PackedValue::Address(b) && b == a,
        Token::Bytes(v) => p matches PackedValue::Bytes(w) && w@ == v@,
        Token::Uint(x) => p matches PackedValue::Number(y) && y == x,
        Token::Int(x) => p matches PackedValue::Number(y) && y == x,
        Token::Str(s) => p matches PackedValue::Str(u) && u@ == s@,
        Token::Bool(b) => p matches PackedValue::Bool(c) && c == b,
        Token::AddressArray(_) => false,
    }
}

/// The error for a value with no packed form.
pub open spec fn is_unexpected_token(e: SafeError) -> bool {
    e matches SafeError::BadParams(m) && m@ == unexpected_token_text()
}

/// The packable form of one value; an array has none.
pub fn to_packed(t: &Token) -> (r: Result<PackedValue, SafeError>)
    ensures
        packable(t@) <==> r is Ok,
        r matches Ok(p) ==> packs_as(*t, p) && p.packed_bytes() == token_packed(t@),
        r matches Err(e) ==> is_unexpected_token(e),
{
    match t {
        Token::Address(a) => Ok(PackedValue::Address(*a)),
        Token::Bytes(b) => Ok(PackedValue::Bytes(b.clone())),
        Token::Uint(w) => Ok(PackedValue::Number(*w)),
        Token::Int(w) => Ok(PackedValue::Number(*w)),
        Token::Str(s) => Ok(PackedValue::Str(s.clone())),
        Token::Bool(b) => Ok(PackedValue::Bool(*b)),
        Token::AddressArray(_) => Err(
            SafeError::BadParams("Unexpected token passed: array of addresses".to_owned()),
        ),
    }
}

/// The packable forms of a list of values, in order.
pub fn convert_to_packed(tokens: &Vec<Token>) -> (r: Result<Vec<PackedValue>, SafeError>)
    ensures
        all_packable(tokens_view(tokens@)) <==> r is Ok,
        r matches Ok(ps) ==> ps@.len() == tokens@.len()
            && (forall|j: int| 0 <= j < ps@.len() ==> packs_as(tokens@[j], #[trigger] ps@[j]))
            && ps@.map_values(|p: PackedValue| p.packed_bytes())
                == tokens_view(tokens@).map_values(|t: TokenView| token_packed(t)),
        r matches Err(e) ==> is_unexpected_token(e),
{
    let mut out: Vec<PackedValue> = Vec::new();
    let mut i: usize = 0;
    while i < tokens.len()
        invariant
            i <= tokens@.len(),
            out@.len() == i,
            forall|j: int| 0 <= j < i ==> packable(#[trigger] tokens@[j]@),
            forall|j: int| 0 <= j < i ==> (#[trigger] out@[j]).packed_bytes() == token_packed(tokens@[j]@),
            forall|j: int| 0 <= j < i ==> packs_as(tokens@[j], #[trigger] out@[j]),
        decreases tokens@.len() - i,
    {
        match to_packed(&tokens[i]) {
            Ok(p) => out.push(p),
            Err(e) => {
                assert(!packable(tokens_view(tokens@)[i as int]));
                return Err(e);
            },
        }
        i += 1;
    }
    assert(out@.map_values(|p: PackedValue| p.packed_bytes())
        =~= tokens_view(tokens@).map_values(|t: TokenView| token_packed(t)));
    Ok(out)
}

/// The Keccak-256 digest of the packed encoding of the values; a value
/// with no packed form is refused.
pub fn solidity_keccak256(tokens: &Vec<Token>) -> (r: Result<[u8; 32], SafeError>)
    ensures
        all_packable(tokens_view(tokens@)) <==> r is Ok,
        r matches Ok(h) ==> h@ == keccak_of(packed_encoding(tokens_view(tokens@))),
        r matches Err(e) ==> is_unexpected_token(e),
{
    let packed = convert_to_packed(tokens)?;
    let bytes = encode_packed(&packed);
    Ok(keccak256(bytes.as_slice()))
}

} // verus!
