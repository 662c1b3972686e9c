//! The calls into the chain-client library that the wallet logic makes,
//! each with what the library's source shows of it.
use vstd::prelude::*;
use crate::token::{Token, TokenView, tokens_view, be_value};
use ethers::abi::Token as AbiToken;
use ethers::types::{H160, U256};
use eth_encode_packed::ethabi::ethereum_types as et;
use eth_encode_packed::SolidityDataType as Sdt;

verus! {

/// The 256-bit Keccak digest of a byte string.
pub uninterp spec fn keccak_of(b: Seq<u8>) -> Seq<u8>;

/// The standard (padded) ABI encoding of a list of values.
pub uninterp spec fn abi_encoding_of(args: Seq<TokenView>) -> Seq<u8>;


/// A value for the packed encoder: the packable kinds of `Token`.
pub enum PackedValue {
    Address([u8; 20]),
    Bytes(Vec<u8>),
    Number([u8; 32]),
    Str(String),
    Bool(bool),
}

impl PackedValue {
    /// The bytes this value occupies in a packed encoding.
    pub open spec fn packed_bytes(&self) -> Seq<u8> {
        match self {
            PackedValue::Address(a) => a@,
            PackedValue::Bytes(b) => b@,
            PackedValue::Number(w) => w@,
            PackedValue::Str(s) => vstd::utf8::encode_utf8(s@),
            PackedValue::Bool(b) => seq![if *b { 1u8 } else { 0u8 }],
        }
    }
}

/// The concatenation of a list of byte strings.
pub open spec fn concat(parts: Seq<Seq<u8>>) -> Seq<u8>
    decreases parts.len(),
{
    if parts.len() == 0 { Seq::empty() } else { concat(parts.drop_last()) + parts.last() }
}

/// Relies on `ethers::utils::keccak256`: the Keccak-256 digest of the bytes.
#[verifier::external_body]
pub(crate) fn keccak256(b: &[u8]) -> (r: [u8; 32])
    ensures
        r@ == keccak_of(b@),
{
    ethers::utils::keccak256(b)
}

/// Relies on `eth_encode_packed::abi::encode_packed`: each value's bytes,
/// one after another, with no padding and no length.
#[verifier::external_body]
pub(crate) fn encode_packed(items: &Vec<PackedValue>) -> (r: Vec<u8>)
    ensures
        r@ == concat(items@.map_values(|p: PackedValue| p.packed_bytes())),
{
    let sdts: Vec<Sdt> = items.iter().map(|p| match p {
        PackedValue::Address(a) => Sdt::Address(et::Address::from(*a)),
        PackedValue::Bytes(b) => Sdt::Bytes(b.as_slice()),
        PackedValue::Number(w) => Sdt::Number(et::U256::from_big_endian(w)),
        PackedValue::Str(s) => Sdt::String(s.as_str()),
        PackedValue::Bool(b) => Sdt::Bool(*b),
    }).collect();
    eth_encode_packed::abi::encode_packed(&sdts).0
}

/// Relies on `ethers::abi::encode`: the ABI encoding of the values.
#[verifier::external_body]
pub(crate) fn abi_encode(args: &Vec<Token>) -> (r: Vec<u8>)
    ensures
        r@ == abi_encoding_of(tokens_view(args@)),
{
    let tokens: Vec<AbiToken> = args.iter().map(|t| match t {
        Token::Address(a) => AbiToken::Address(H160(*a)),
        Token::Bytes(b) => AbiToken::Bytes(b.clone()),
        Token::Uint(w) => AbiToken::Uint(U256::from_big_endian(w)),
        Token::Int(w) => AbiToken::Int(U256::from_big_endian(w)),
        Token::Str(s) => AbiToken::String(s.clone()),
        Token::Bool(b) => AbiToken::Bool(*b),
        Token::AddressArray(v) => AbiToken::Array(v.iter().map(|a| AbiToken::Address(H160(*a))).collect()),
    }).collect();
    ethers::abi::encode(&tokens)
}

/// Relies on `ethers::utils::get_create2_address_from_hash`: the last 20
/// bytes of the digest of `0xff`, the deployer, the salt and the code hash.
#[verifier::external_body]
pub(crate) fn create2_address(from: &[u8; 20], salt: &[u8; 32], init_code_hash: &[u8; 32]) -> (r: [u8; 20])
    ensures
        r@ == keccak_of(seq![0xffu8] + from@ + salt@ + init_code_hash@).subrange(12, 32),
{
    ethers::utils::get_create2_address_from_hash(H160(*from), salt, init_code_hash).0
}

/// The ASCII bytes of a text of ASCII characters.
pub open spec fn ascii_bytes(s: Seq<char>) -> Seq<u8> {
    s.map_values(|c: char| c as u8)
}

/// A hexadecimal digit in upper case; other characters unchanged.
pub open spec fn upper_hex_char(c: char) -> char {
    if 'a' <= c && c <= 'f' { ((c as u32) - 32) as char } else { c }
}

/// The mixed-case checksum text of a 20-byte address: `0x`, then each
/// lower-case digit of the address, upper-cased where the digit at the
/// same place of the hex digest of the lower-case text is `8` or more.
pub open spec fn checksum_of(a: Seq<u8>) -> Seq<char> {
    let lower = lower_hex(a);
    let hash = lower_hex(keccak_of(ascii_bytes(lower)));
    seq!['0', 'x'] + Seq::new(
        lower.len(),
        |i: int| if hash[i] >= '8' { upper_hex_char(lower[i]) } else { lower[i] },
    )
}

/// Relies on `ethers::utils::to_checksum` (no chain id): the address as
/// checksummed hex text, the digest being the Keccak-256 of the address's
/// lower-case hex text.
#[verifier::external_body]
pub(crate) fn to_checksum(a: &[u8; 20]) -> (r: String)
    ensures
        r@ == checksum_of(a@),
{
    ethers::utils::to_checksum(&H160(*a), None)
}

/// A character that the address parser passes over.
pub open spec fn is_blank(c: char) -> bool {
    c == ' ' || c == '\r' || c == '\n' || c == '\t'
}

/// A hexadecimal digit, of either case.
pub open spec fn is_hex_digit(c: char) -> bool {
    ('0' <= c && c <= '9') || ('a' <= c && c <= 'f') || ('A' <= c && c <= 'F')
}

/// The value of a hexadecimal digit.
pub open spec fn hex_value(c: char) -> nat {
    if '0' <= c && c <= '9' {
        (c as nat - '0' as nat) as nat
    } else if 'a' <= c && c <= 'f' {
        (c as nat - 'a' as nat + 10) as nat
    } else {
        (c as nat - 'A' as nat + 10) as nat
    }
}

/// The text without its blank characters.
pub open spec fn without_blanks(t: Seq<char>) -> Seq<char>
    decreases t.len(),
{
    if t.len() == 0 {
        t
    } else if is_blank(t.last()) {
        without_blanks(t.drop_last())
    } else {
        without_blanks(t.drop_last()).push(t.last())
    }
}

/// The bytes that pairs of hexadecimal digits spell.
pub open spec fn hex_bytes(d: Seq<char>) -> Seq<u8> {
    Seq::new(d.len() / 2, |i: int| (hex_value(d[2 * i]) * 16 + hex_value(d[2 * i + 1])) as u8)
}

/// The text with one leading `0x` taken off, if it has one.
pub open spec fn strip_0x(s: Seq<char>) -> Seq<char> {
    if s.len() >= 2 && s[0] == '0' && s[1] == 'x' { s.subrange(2, s.len() as int) } else { s }
}

/// The address that a text spells, if any: after an optional `0x`, only
/// hexadecimal digits and blanks, with exactly 40 digits.
pub open spec fn address_of_text(s: Seq<char>) -> Option<Seq<u8>> {
    let t = strip_0x(s);
    if (forall|i: int| 0 <= i < t.len() ==> is_hex_digit(#[trigger] t[i]) || is_blank(t[i]))
        && without_blanks(t).len() == 40 {
        Some(hex_bytes(without_blanks(t)))
    } else {
        None
    }
}

/// Relies on `FromStr` for `ethers::types::Address`, which strips one `0x`
/// and reads hexadecimal digits two at a time, passing over blanks, and
/// wants exactly 20 bytes.
#[verifier::external_body]
pub(crate) fn parse_address(s: &str) -> (r: Option<[u8; 20]>)
    ensures
        match r {
            Some(a) => address_of_text(s@) == Some(a@),
            None => address_of_text(s@) is None,
        },
{
    s.parse::<H160>().ok().map(|a| a.0)
}

/// The bytes that a hexadecimal text spells, if any: after an optional
/// `0x` or `0X`, an even number of hexadecimal digits and nothing else.
pub open spec fn bytes_of_hex_text(s: Seq<char>) -> Option<Seq<u8>> {
    let t = if s.len() >= 2 && s[0] == '0' && (s[1] == 'x' || s[1] == 'X') {
        s.subrange(2, s.len() as int)
    } else {
        s
    };
    if (forall|i: int| 0 <= i < t.len() ==> is_hex_digit(#[trigger] t[i])) && t.len() % 2 == 0 {
        Some(hex_bytes(t))
    } else {
        None
    }
}

/// Relies on `ethers::utils::hex::decode`: strips one `0x` or `0X`, then
/// wants an even number of hexadecimal digits of either case.
#[verifier::external_body]
pub(crate) fn decode_hex(s: &str) -> (r: Option<Vec<u8>>)
    ensures
        match r {
            Some(b) => bytes_of_hex_text(s@) == Some(b@),
            None => bytes_of_hex_text(s@) is None,
        },
{
    ethers::utils::hex::decode(s).ok()
}

/// The value of a string of decimal digits.
pub open spec fn decimal_value(s: Seq<char>) -> nat
    decreases s.len(),
{
    if s.len() == 0 { 0 } else { decimal_value(s.drop_last()) * 10 + (s.last() as nat - '0' as nat) as nat }
}

/// Every character is a decimal digit.
pub open spec fn all_decimal(s: Seq<char>) -> bool {
    forall|i: int| 0 <= i < s.len() ==> '0' <= #[trigger] s[i] && s[i] <= '9'
}

/// The bound of 256-bit unsigned integers.
pub open spec fn word_bound() -> nat {
    vstd::arithmetic::power2::pow2(256)
}

/// Relies on `ethers::types::U256::from_dec_str`: decimal digits only
/// (the empty text reads as zero), failing when the value does not fit in
/// 256 bits; the word is the value big-endian.
#[verifier::external_body]
pub(crate) fn parse_decimal_word(s: &str) -> (r: Option<[u8; 32]>)
    ensures
        match r {
            Some(w) => all_decimal(s@) && decimal_value(s@) < word_bound() && be_value(w@)
                == decimal_value(s@),
            None => !(all_decimal(s@) && decimal_value(s@) < word_bound()),
        },
{
    U256::from_dec_str(s).ok().map(|v| {
        let mut w = [0u8; 32];
        v.to_big_endian(&mut w);
        w
    })
}

/// Lower-case hexadecimal digit for a value below 16.
pub open spec fn hex_digit(v: nat) -> char {
    if v < 10 { ((v + '0' as nat) as u32) as char } else { ((v - 10 + 'a' as nat) as u32) as char }
}

/// Two lower-case hexadecimal digits for each byte.
pub open spec fn lower_hex(b: Seq<u8>) -> Seq<char>
    decreases b.len(),
{
    if b.len() == 0 {
        Seq::empty()
    } else {
        lower_hex(b.drop_last()) + seq![hex_digit(b.last() as nat / 16), hex_digit(b.last() as nat % 16)]
    }
}

/// Relies on `ethers::utils::hex::encode_prefixed`: `0x`, then two
/// lower-case hexadecimal digits for each byte.
#[verifier::external_body]
pub(crate) fn hex_prefixed(b: &[u8; 32]) -> (r: String)
    ensures
        r@ == seq!['0', 'x'] + lower_hex(b@),
{
    ethers::utils::hex::encode_prefixed(b)
}

} // verus!
