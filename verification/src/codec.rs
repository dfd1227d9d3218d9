//! Text encodings of bytes used by the request encryption: hexadecimal,
//! Base64 and URL percent-encoding, each a call into its crate.

use base64::Engine as _;
use vstd::prelude::*;
use vstd::string::*;

verus! {

/// The lowercase hexadecimal digit of a value below sixteen.
pub open spec fn hex_digit_lower(v: int) -> char {
    if v < 10 {
        (('0' as int) + v) as char
    } else {
        (('a' as int) + v - 10) as char
    }
}

/// The uppercase hexadecimal digit of a value below sixteen.
pub open spec fn hex_digit_upper(v: int) -> char {
    if v < 10 {
        (('0' as int) + v) as char
    } else {
        (('A' as int) + v - 10) as char
    }
}

/// Bytes written as lowercase hexadecimal, two digits per byte, high digit first.
pub open spec fn hex_lower(bytes: Seq<u8>) -> Seq<char>
    decreases bytes.len(),
{
    if bytes.len() == 0 {
        seq![]
    } else {
        seq![hex_digit_lower((bytes[0] as int) / 16), hex_digit_lower((bytes[0] as int) % 16)] + hex_lower(
            bytes.drop_first(),
        )
    }
}

/// Bytes written as uppercase hexadecimal, two digits per byte, high digit first.
pub open spec fn hex_upper(bytes: Seq<u8>) -> Seq<char>
    decreases bytes.len(),
{
    if bytes.len() == 0 {
        seq![]
    } else {
        seq![hex_digit_upper((bytes[0] as int) / 16), hex_digit_upper((bytes[0] as int) % 16)] + hex_upper(
            bytes.drop_first(),
        )
    }
}

/// The character of a six-bit value in the standard Base64 alphabet.
pub open spec fn base64_char(v: int) -> char {
    if v < 26 {
        (('A' as int) + v) as char
    } else if v < 52 {
        (('a' as int) + v - 26) as char
    } else if v < 62 {
        (('0' as int) + v - 52) as char
    } else if v == 62 {
        '+'
    } else {
        '/'
    }
}

/// Standard Base64 with padding: every three bytes become four characters;
/// a last group of one or two bytes is padded with `=`.
pub open spec fn base64_standard(d: Seq<u8>) -> Seq<char>
    decreases d.len(),
{
    if d.len() == 0 {
        seq![]
    } else if d.len() == 1 {
        seq![base64_char((d[0] as int) / 4), base64_char(((d[0] as int) % 4) * 16), '=', '=']
    } else if d.len() == 2 {
        seq![
            base64_char((d[0] as int) / 4),
            base64_char(((d[0] as int) % 4) * 16 + (d[1] as int) / 16),
            base64_char(((d[1] as int) % 16) * 4),
            '=',
        ]
    } else {
        seq![
            base64_char((d[0] as int) / 4),
            base64_char(((d[0] as int) % 4) * 16 + (d[1] as int) / 16),
            base64_char(((d[1] as int) % 16) * 4 + (d[2] as int) / 64),
            base64_char((d[2] as int) % 64),
        ] + base64_standard(d.subrange(3, d.len() as int))
    }
}

/// Whether a byte is left as it is by URL encoding: ASCII letters, digits
/// and `-`, `.`, `_`, `~`.
pub open spec fn url_safe_byte(b: u8) -> bool {
    (48 <= b <= 57) || (65 <= b <= 90) || (97 <= b <= 122) || b == 45 || b == 46 || b == 95
        || b == 126
}

/// URL percent-encoding of bytes: safe bytes stay, every other byte
/// becomes `%` and two uppercase hexadecimal digits.
pub open spec fn url_encoded(bytes: Seq<u8>) -> Seq<char>
    decreases bytes.len(),
{
    if bytes.len() == 0 {
        seq![]
    } else {
        let b = bytes[0];
        let head = if url_safe_byte(b) {
            seq![b as char]
        } else {
            seq!['%', hex_digit_upper((b as int) / 16), hex_digit_upper((b as int) % 16)]
        };
        head + url_encoded(bytes.drop_first())
    }
}

/// `hex::encode`: lowercase hexadecimal of the bytes.
#[verifier::external_body]
pub(crate) fn hex_encode(data: &[u8]) -> (r: String)
    ensures
        r@ == hex_lower(data@),
{
    hex::encode(data)
}

/// `hex::encode_upper`: uppercase hexadecimal of the bytes.
#[verifier::external_body]
pub(crate) fn hex_encode_upper(data: &[u8]) -> (r: String)
    ensures
        r@ == hex_upper(data@),
{
    hex::encode_upper(data)
}

/// `base64::engine::general_purpose::STANDARD.encode`: standard Base64 with
/// padding.
#[verifier::external_body]
pub(crate) fn base64_encode(data: &[u8]) -> (r: String)
    ensures
        r@ == base64_standard(data@),
{
    base64::engine::general_purpose::STANDARD.encode(data)
}

/// `urlencoding::encode`: percent-encoding of the UTF-8 bytes of the text.
#[verifier::external_body]
pub(crate) fn url_encode(s: &str) -> (r: String)
    ensures
        r@ == url_encoded(s.spec_bytes()),
{
    urlencoding::encode(s).into_owned()
}

} // verus!
