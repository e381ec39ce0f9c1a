//! Twelve-byte MongoDB object identifiers and their 24-character hex text form.
use vstd::prelude::*;

verus! {

/// An ASCII hex digit, in either case.
pub open spec fn is_hex_digit(c: char) -> bool {
    ('0' <= c && c <= '9') || ('a' <= c && c <= 'f') || ('A' <= c && c <= 'F')
}

/// An ASCII hex digit written as `0-9` or `a-f`.
pub open spec fn is_lower_hex_digit(c: char) -> bool {
    ('0' <= c && c <= '9') || ('a' <= c && c <= 'f')
}

/// The value of a hex digit.
pub open spec fn hex_value(c: char) -> int {
    if '0' <= c && c <= '9' {
        c as int - '0' as int
    } else if 'a' <= c && c <= 'f' {
        c as int - 'a' as int + 10
    } else {
        c as int - 'A' as int + 10
    }
}

/// The lower-case hex digit for a value below sixteen.
pub open spec fn lower_hex_digit(n: int) -> char {
    if n < 10 {
        (n + '0' as int) as char
    } else {
        (n - 10 + 'a' as int) as char
    }
}

/// Text that names an object identifier: exactly 24 hex digits.
pub open spec fn is_object_id_hex(s: Seq<char>) -> bool {
    &&& s.len() == 24
    &&& forall|i: int| 0 <= i < 24 ==> #[trigger] is_hex_digit(s[i])
}

/// Text that names an object identifier in the canonical lower-case form.
pub open spec fn is_canonical_object_id_hex(s: Seq<char>) -> bool {
    &&& s.len() == 24
    &&& forall|i: int| 0 <= i < 24 ==> #[trigger] is_lower_hex_digit(s[i])
}

/// The twelve bytes that 24 hex digits spell, two digits per byte, high digit first.
pub open spec fn decode_object_id(s: Seq<char>) -> Seq<u8> {
    Seq::new(12, |i: int| (hex_value(s[2 * i]) * 16 + hex_value(s[2 * i + 1])) as u8)
}

/// The lower-case hex text of a byte sequence, two digits per byte, high digit first.
pub open spec fn encode_object_id(bytes: Seq<u8>) -> Seq<char> {
    Seq::new(
        2 * bytes.len(),
        |i: int|
            if i % 2 == 0 {
                lower_hex_digit(bytes[i / 2] as int / 16)
            } else {
                lower_hex_digit(bytes[i / 2] as int % 16)
            },
    )
}

/// The message of the error that the parser gives for text that names no identifier.
pub uninterp spec fn object_id_parse_error(s: Seq<char>) -> Seq<char>;

/// Calls `bson::oid::ObjectId::parse_str` (the `FromStr` of `ObjectId`) and hands back the
/// identifier's bytes, or the error's `Display` text. Trusted: parsing succeeds exactly on
/// 24 ASCII hex digits of either case (hex::decode of the bytes, then a length check of 12),
/// and the bytes are those the digits spell. The error text is only named, not spelled out.
#[verifier::external_body]
pub(crate) fn parse_object_id(s: &str) -> (r: Result<[u8; 12], String>)
    ensures
        r is Ok <==> is_object_id_hex(s@),
        r matches Ok(bytes) ==> bytes@ == decode_object_id(s@),
        r matches Err(message) ==> message@ == object_id_parse_error(s@),
{
    match <bson::oid::ObjectId as std::str::FromStr>::from_str(s) {
        Ok(id) => Ok(id.bytes()),
        Err(e) => Err(e.to_string()),
    }
}

/// Calls the `Display` of `bson::oid::ObjectId` (its `to_hex`, that is `hex::encode`).
/// Trusted: the text is the lower-case hex of the twelve bytes.
#[verifier::external_body]
pub(crate) fn object_id_to_hex(bytes: [u8; 12]) -> (r: String)
    ensures
        r@ == encode_object_id(bytes@),
{
    bson::oid::ObjectId::from_bytes(bytes).to_string()
}

/// Calls `bson::oid::ObjectId::new`, which draws on the clock, a random process value and
/// a counter: nothing is promised of the bytes. It panics when the system clock reads a
/// time before 1970 or after 2106 (the seconds must fit a `u32`); that depends on the
/// machine, not on any argument.
#[verifier::external_body]
pub(crate) fn new_object_id() -> (r: [u8; 12]) {
    bson::oid::ObjectId::new().bytes()
}

/// Whether the text names an object identifier: exactly 24 hex digits of either case.
pub fn names_object_id(s: &str) -> (r: bool)
    ensures
        r == is_object_id_hex(s@),
{
    parse_object_id(s).is_ok()
}

proof fn lemma_hex_value_of_lower_digit(n: int)
    requires
        0 <= n < 16,
    ensures
        is_lower_hex_digit(lower_hex_digit(n)),
        is_hex_digit(lower_hex_digit(n)),
        hex_value(lower_hex_digit(n)) == n,
{
}

proof fn lemma_lower_digit_of_hex_value(c: char)
    requires
        is_lower_hex_digit(c),
    ensures
        0 <= hex_value(c) < 16,
        lower_hex_digit(hex_value(c)) == c,
{
}

/// Printing twelve bytes as hex and parsing the text back gives the same bytes.
pub proof fn lemma_decode_encode(bytes: Seq<u8>)
    requires
        bytes.len() == 12,
    ensures
        is_canonical_object_id_hex(encode_object_id(bytes)),
        is_object_id_hex(encode_object_id(bytes)),
        decode_object_id(encode_object_id(bytes)) == bytes,
{
    let text = encode_object_id(bytes);
    assert forall|i: int| 0 <= i < 24 implies #[trigger] is_lower_hex_digit(text[i]) && is_hex_digit(text[i]) by {
        let b = bytes[i / 2] as int;
        assert(0 <= b / 16 < 16 && 0 <= b % 16 < 16) by (nonlinear_arith)
            requires 0 <= b < 256;
        lemma_hex_value_of_lower_digit(b / 16);
        lemma_hex_value_of_lower_digit(b % 16);
    }
    assert forall|i: int| 0 <= i < 12 implies #[trigger] decode_object_id(text)[i] == bytes[i] by {
        let b = bytes[i] as int;
        assert(0 <= b / 16 < 16 && 0 <= b % 16 < 16 && b == (b / 16) * 16 + b % 16) by (nonlinear_arith)
            requires 0 <= b < 256;
        assert((2 * i) / 2 == i && (2 * i) % 2 == 0);
        assert((2 * i + 1) / 2 == i && (2 * i + 1) % 2 == 1);
        lemma_hex_value_of_lower_digit(b / 16);
        lemma_hex_value_of_lower_digit(b % 16);
    }
    assert(decode_object_id(text) =~= bytes);
}

/// Parsing canonical (lower-case) hex text and printing the bytes again gives the same text.
pub proof fn lemma_encode_decode(text: Seq<char>)
    requires
        is_canonical_object_id_hex(text),
    ensures
        is_object_id_hex(text),
        encode_object_id(decode_object_id(text)) == text,
{
    let bytes = decode_object_id(text);
    assert forall|i: int| 0 <= i < 24 implies #[trigger] is_hex_digit(text[i]) by {
        assert(is_lower_hex_digit(text[i]));
    }
    assert forall|i: int| 0 <= i < 24 implies #[trigger] encode_object_id(bytes)[i] == text[i] by {
        let j = i / 2;
        assert(0 <= j < 12);
        assert(is_lower_hex_digit(text[2 * j]));
        assert(is_lower_hex_digit(text[2 * j + 1]));
        lemma_lower_digit_of_hex_value(text[2 * j]);
        lemma_lower_digit_of_hex_value(text[2 * j + 1]);
        let hi = hex_value(text[2 * j]);
        let lo = hex_value(text[2 * j + 1]);
        assert((hi * 16 + lo) / 16 == hi && (hi * 16 + lo) % 16 == lo && 0 <= hi * 16 + lo < 256)
            by (nonlinear_arith)
            requires 0 <= hi < 16, 0 <= lo < 16;
        assert(bytes[j] as int == hi * 16 + lo);
        if i % 2 == 0 {
            assert(i == 2 * j);
        } else {
            assert(i == 2 * j + 1);
        }
    }
    assert(encode_object_id(bytes) =~= text);
}

} // verus!
