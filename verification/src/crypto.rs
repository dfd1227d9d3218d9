//! Encryption of request parameters for the streaming service's web API:
//! the weapi, eapi and linuxapi schemes.

use aes::cipher::{block_padding::Pkcs7, BlockEncryptMut, KeyInit, KeyIvInit};
use rand::Rng;
use vstd::prelude::*;
use vstd::string::*;
use vstd::utf8::encode_utf8;

use crate::codec::{
    base64_char, base64_encode, base64_standard, hex_digit_lower, hex_digit_upper, hex_encode,
    hex_encode_upper, hex_lower, hex_upper, url_encode,
    url_encoded,
};

verus! {

broadcast use vstd::seq_lib::group_seq_properties;

/// Block cipher modes used by the schemes.
#[derive(Debug, Clone, Copy, PartialEq, Eq, Structural)]
pub enum AesMode {
    Cbc,
    Ecb,
}

/// How cipher text is written out as text.
#[derive(Debug, Clone, Copy, PartialEq, Eq, Structural)]
pub enum TextEncoding {
    /// Standard Base64 with padding
    Base64,
    /// Lowercase hexadecimal
    Hex,
    /// Uppercase hexadecimal
    HexUpper,
}

/// Namespace of the encryption schemes.
pub struct Crypto;

/// The MD5 digest of the bytes (16 bytes).
pub uninterp spec fn md5_digest(data: Seq<u8>) -> Seq<u8>;

/// AES-128 in CBC mode with PKCS#7 padding, of a message under a key and an
/// initialisation vector.
pub uninterp spec fn aes128_cbc_pkcs7(key: Seq<u8>, iv: Seq<u8>, msg: Seq<u8>) -> Seq<u8>;

/// AES-128 in ECB mode with PKCS#7 padding, of a message under a key.
pub uninterp spec fn aes128_ecb_pkcs7(key: Seq<u8>, msg: Seq<u8>) -> Seq<u8>;

/// The length of a message after PKCS#7 padding to 16-byte blocks: at least
/// one byte of padding is always added.
pub open spec fn padded_len(n: nat) -> nat {
    ((n / 16 + 1) * 16) as nat
}

/// `md5::compute`: the MD5 digest of the bytes.
#[verifier::external_body]
fn md5_compute(data: &[u8]) -> (r: [u8; 16])
    ensures
        r@ == md5_digest(data@),
{
    md5::compute(data).0
}

/// `cbc::Encryptor::<aes::Aes128>::encrypt_padded_mut::<Pkcs7>`: encrypts the
/// first `msg_len` bytes of the buffer in place and hands back the cipher
/// text, which is the message padded to whole blocks.
#[verifier::external_body]
fn aes128_cbc_encrypt(key: &[u8], iv: &[u8], buf: Vec<u8>, msg_len: usize) -> (r: Vec<u8>)
    requires
        key@.len() == 16,
        iv@.len() == 16,
        msg_len <= buf@.len(),
        padded_len(msg_len as nat) <= buf@.len(),
    ensures
        r@ == aes128_cbc_pkcs7(key@, iv@, buf@.take(msg_len as int)),
        r@.len() == padded_len(msg_len as nat),
{
    let mut buf = buf;
    cbc::Encryptor::<aes::Aes128>::new(key.into(), iv.into())
        .encrypt_padded_mut::<Pkcs7>(&mut buf, msg_len)
        .unwrap()
        .to_vec()
}

/// `ecb::Encryptor::<aes::Aes128>::encrypt_padded_mut::<Pkcs7>`: encrypts the
/// first `msg_len` bytes of the buffer in place and hands back the cipher
/// text, which is the message padded to whole blocks.
#[verifier::external_body]
fn aes128_ecb_encrypt(key: &[u8], buf: Vec<u8>, msg_len: usize) -> (r: Vec<u8>)
    requires
        key@.len() == 16,
        msg_len <= buf@.len(),
        padded_len(msg_len as nat) <= buf@.len(),
    ensures
        r@ == aes128_ecb_pkcs7(key@, buf@.take(msg_len as int)),
        r@.len() == padded_len(msg_len as nat),
{
    let mut buf = buf;
    ecb::Encryptor::<aes::Aes128>::new(key.into())
        .encrypt_padded_mut::<Pkcs7>(&mut buf, msg_len)
        .unwrap()
        .to_vec()
}

/// `rand::rng().fill`: sixteen random bytes. Nothing is promised of them.
#[verifier::external_body]
fn random_secret() -> (r: [u8; 16]) {
    let mut secret_key = [0u8; 16];
    rand::rng().fill(&mut secret_key[..]);
    secret_key
}

/// The value of bytes read as a big-endian number.
pub open spec fn be_value(bytes: Seq<u8>) -> nat
    decreases bytes.len(),
{
    if bytes.len() == 0 {
        0
    } else {
        be_value(bytes.drop_last()) * 256 + (bytes.last() as nat)
    }
}

/// The shortest big-endian bytes of a number: a single zero byte for zero,
/// otherwise no leading zero byte.
pub open spec fn be_min(x: nat) -> Seq<u8>
    decreases x,
{
    if x < 256 {
        seq![x as u8]
    } else {
        be_min(x / 256).push((x % 256) as u8)
    }
}

/// 256 to the power of `k`.
pub open spec fn pow256(k: nat) -> nat
    decreases k,
{
    if k == 0 {
        1
    } else {
        256 * pow256((k - 1) as nat)
    }
}

/// `num_bigint_dig::BigUint::modpow` on numbers given as big-endian bytes
/// (read with `from_bytes_be`, written with `to_bytes_be`): the shortest
/// big-endian bytes of `base ^ exponent mod modulus`. It panics on a zero
/// modulus; the contract leaves out moduli below two.
#[verifier::external_body]
fn modpow_be(base: &[u8], exponent: &[u8], modulus: &[u8]) -> (r: Vec<u8>)
    requires
        be_value(modulus@) > 1,
    ensures
        r@ == be_min(
            (vstd::arithmetic::power::pow(be_value(base@) as int, be_value(exponent@))
                % (be_value(modulus@) as int)) as nat,
        ),
{
    let b = rsa::BigUint::from_bytes_be(base);
    let e = rsa::BigUint::from_bytes_be(exponent);
    let n = rsa::BigUint::from_bytes_be(modulus);
    b.modpow(&e, &n).to_bytes_be()
}

/// The initialisation vector of the CBC schemes: the bytes of "0102030405060708".
pub open spec fn default_iv() -> Seq<u8> {
    seq![48, 49, 48, 50, 48, 51, 48, 52, 48, 53, 48, 54, 48, 55, 48, 56]
}

/// The key of the first weapi round: the bytes of "0CoJUm6Qyw8W8jud".
pub open spec fn preset_key() -> Seq<u8> {
    seq![48, 67, 111, 74, 85, 109, 54, 81, 121, 119, 56, 87, 56, 106, 117, 100]
}

/// The key of linuxapi: the bytes of "rFgB&h#%2?^eDg:Q".
pub open spec fn linux_api_key() -> Seq<u8> {
    seq![114, 70, 103, 66, 38, 104, 35, 37, 50, 63, 94, 101, 68, 103, 58, 81]
}

/// The key of eapi: the bytes of "e82ckenh8dichen8".
pub open spec fn eapi_key() -> Seq<u8> {
    seq![101, 56, 50, 99, 107, 101, 110, 104, 56, 100, 105, 99, 104, 101, 110, 56]
}

/// The alphabet from which weapi draws its secret key: lowercase letters,
/// uppercase letters, digits.
pub open spec fn base62_char(v: int) -> char {
    if v < 26 {
        (('a' as int) + v) as char
    } else if v < 52 {
        (('A' as int) + v - 26) as char
    } else {
        (('0' as int) + v - 52) as char
    }
}

/// The public RSA exponent 65537 as big-endian bytes.
pub open spec fn rsa_exponent() -> Seq<u8> {
    seq![1, 0, 1]
}

/// The 1024-bit RSA modulus of the service as big-endian bytes, with one
/// leading zero byte.
pub open spec fn rsa_modulus() -> Seq<u8> {
    seq![
        0x00, 0xe0, 0xb5, 0x09, 0xf6, 0x25, 0x9d, 0xf8, 0x64, 0x2d, 0xbc, 0x35, 0x66, 0x29, 0x01,
        0x47, 0x7d, 0xf2, 0x26, 0x77, 0xec, 0x15, 0x2b, 0x5f, 0xf6, 0x8a, 0xce, 0x61, 0x5b, 0xb7,
        0xb7, 0x25, 0x15, 0x2b, 0x3a, 0xb1, 0x7a, 0x87, 0x6a, 0xea, 0x8a, 0x5a, 0xa7, 0x6d, 0x2e,
        0x41, 0x76, 0x29, 0xec, 0x4e, 0xe3, 0x41, 0xf5, 0x61, 0x35, 0xfc, 0xcf, 0x69, 0x52, 0x80,
        0x10, 0x4e, 0x03, 0x12, 0xec, 0xbd, 0xa9, 0x25, 0x57, 0xc9, 0x38, 0x70, 0x11, 0x4a, 0xf6,
        0xc9, 0xd0, 0x5c, 0x4f, 0x7f, 0x0c, 0x36, 0x85, 0xb7, 0xa4, 0x6b, 0xee, 0x25, 0x59, 0x32,
        0x57, 0x5c, 0xce, 0x10, 0xb4, 0x24, 0xd8, 0x13, 0xcf, 0xe4, 0x87, 0x5d, 0x3e, 0x82, 0x04,
        0x7b, 0x97, 0xdd, 0xef, 0x52, 0x74, 0x1d, 0x54, 0x6b, 0x8e, 0x28, 0x9d, 0xc6, 0x93, 0x5b,
        0x3e, 0xce, 0x04, 0x62, 0xdb, 0x0a, 0x22, 0xb8, 0xe7,
    ]
}

/// The bytes that weapi draws from the alphabet for its secret key.
pub open spec fn base62_byte(v: int) -> u8 {
    base62_char(v) as u8
}

/// The cipher text of a message in the given mode.
pub open spec fn cipher_of(mode: AesMode, key: Seq<u8>, iv: Seq<u8>, msg: Seq<u8>) -> Seq<u8> {
    match mode {
        AesMode::Cbc => aes128_cbc_pkcs7(key, iv, msg),
        AesMode::Ecb => aes128_ecb_pkcs7(key, msg),
    }
}

/// Bytes written as text in the given encoding.
pub open spec fn encoded(enc: TextEncoding, bytes: Seq<u8>) -> Seq<char> {
    match enc {
        TextEncoding::Base64 => base64_standard(bytes),
        TextEncoding::Hex => hex_lower(bytes),
        TextEncoding::HexUpper => hex_upper(bytes),
    }
}

/// The initialisation vector that is used: the given one, else the default.
pub open spec fn iv_or_default(iv: Option<&[u8]>) -> Seq<u8> {
    match iv {
        Some(v) => v@,
        None => default_iv(),
    }
}

/// The text that `aes_encrypt` produces: the UTF-8 bytes of the data,
/// encrypted in the mode, written in the encoding.
pub open spec fn aes_text(
    data: Seq<char>,
    key: Seq<u8>,
    mode: AesMode,
    iv: Seq<u8>,
    enc: TextEncoding,
) -> Seq<char> {
    encoded(enc, cipher_of(mode, key, iv, encode_utf8(data)))
}

/// Whether a message of this many bytes can be padded without overflow.
pub open spec fn paddable(n: nat) -> bool {
    n + 16 <= usize::MAX
}

/// The message whose MD5 digest eapi signs with.
pub open spec fn eapi_message(url: Seq<char>, text: Seq<char>) -> Seq<char> {
    "nobody"@ + url + "use"@ + text + "md5forencrypt"@
}

/// The plain text that eapi encrypts: url, text and the hexadecimal digest,
/// joined by a fixed separator.
pub open spec fn eapi_data(url: Seq<char>, text: Seq<char>) -> Seq<char> {
    url + "-36cd479b6b5-"@ + text + "-36cd479b6b5-"@ + hex_lower(
        md5_digest(encode_utf8(eapi_message(url, text))),
    )
}

/// The body that eapi produces for a url and a text.
pub open spec fn eapi_body(url: Seq<char>, text: Seq<char>) -> Seq<char> {
    "params="@ + url_encoded(
        encode_utf8(
            aes_text(eapi_data(url, text), eapi_key(), AesMode::Ecb, default_iv(), TextEncoding::HexUpper),
        ),
    )
}

/// The secret key that weapi derives from sixteen random bytes.
pub open spec fn weapi_key_bytes(secret: Seq<u8>) -> Seq<u8> {
    Seq::new(16, |i: int| base62_byte((secret[i] as int) % 62))
}

/// The secret key as characters, in reverse order, as RSA encrypts it.
pub open spec fn weapi_reversed_key(secret: Seq<u8>) -> Seq<char> {
    Seq::new(16, |i: int| base62_char((secret[15 - i] as int) % 62))
}

/// `bytes` preceded by zeros up to `n` bytes.
pub open spec fn left_pad(bytes: Seq<u8>, n: nat) -> Seq<u8> {
    Seq::new((n - bytes.len()) as nat, |i: int| 0u8) + bytes
}

/// Raw RSA (no padding) of a message of at most 128 bytes with the service's
/// public key, written as 256 lowercase hexadecimal digits.
pub open spec fn rsa_hex(m: Seq<u8>) -> Seq<char> {
    let x = vstd::arithmetic::power::pow(be_value(left_pad(m, 128)) as int, be_value(rsa_exponent()))
        % (be_value(rsa_modulus()) as int);
    hex_lower(left_pad(be_min(x as nat), 128))
}

/// The body that weapi produces for a text, given its sixteen random bytes.
pub open spec fn weapi_body(text: Seq<char>, secret: Seq<u8>) -> Seq<char> {
    let params1 = aes_text(text, preset_key(), AesMode::Cbc, default_iv(), TextEncoding::Base64);
    let params = aes_text(params1, weapi_key_bytes(secret), AesMode::Cbc, default_iv(), TextEncoding::Base64);
    "params="@ + url_encoded(encode_utf8(params)) + "&encSecKey="@ + url_encoded(
        encode_utf8(rsa_hex(encode_utf8(weapi_reversed_key(secret)))),
    )
}

/// ASCII letters made uppercase; every other character kept.
pub open spec fn upper_ascii(s: Seq<char>) -> Seq<char> {
    Seq::new(s.len(), |i: int| if 'a' <= s[i] <= 'z' { ((s[i] as int) - 32) as char } else { s[i] })
}

/// The body that linuxapi produces for a text.
pub open spec fn linuxapi_body(text: Seq<char>) -> Seq<char> {
    "eparams="@ + url_encoded(
        encode_utf8(
            upper_ascii(aes_text(text, linux_api_key(), AesMode::Ecb, default_iv(), TextEncoding::Hex)),
        ),
    )
}

fn default_iv_bytes() -> (r: Vec<u8>)
    ensures
        r@ == default_iv(),
{
    let r = vec![48u8, 49, 48, 50, 48, 51, 48, 52, 48, 53, 48, 54, 48, 55, 48, 56];
    assert(r@ =~= default_iv());
    r
}

fn preset_key_bytes() -> (r: Vec<u8>)
    ensures
        r@ == preset_key(),
{
    let r = vec![48u8, 67, 111, 74, 85, 109, 54, 81, 121, 119, 56, 87, 56, 106, 117, 100];
    assert(r@ =~= preset_key());
    r
}

fn linux_api_key_bytes() -> (r: Vec<u8>)
    ensures
        r@ == linux_api_key(),
{
    let r = vec![114u8, 70, 103, 66, 38, 104, 35, 37, 50, 63, 94, 101, 68, 103, 58, 81];
    assert(r@ =~= linux_api_key());
    r
}

fn eapi_key_bytes() -> (r: Vec<u8>)
    ensures
        r@ == eapi_key(),
{
    let r = vec![101u8, 56, 50, 99, 107, 101, 110, 104, 56, 100, 105, 99, 104, 101, 110, 56];
    assert(r@ =~= eapi_key());
    r
}

fn rsa_exponent_bytes() -> (r: Vec<u8>)
    ensures
        r@ == rsa_exponent(),
{
    let r = vec![1u8, 0, 1];
    assert(r@ =~= rsa_exponent());
    r
}

fn rsa_modulus_bytes() -> (r: Vec<u8>)
    ensures
        r@ == rsa_modulus(),
{
    let r = vec![
        0x00u8, 0xe0, 0xb5, 0x09, 0xf6, 0x25, 0x9d, 0xf8, 0x64, 0x2d, 0xbc, 0x35, 0x66, 0x29, 0x01,
        0x47, 0x7d, 0xf2, 0x26, 0x77, 0xec, 0x15, 0x2b, 0x5f, 0xf6, 0x8a, 0xce, 0x61, 0x5b, 0xb7,
        0xb7, 0x25, 0x15, 0x2b, 0x3a, 0xb1, 0x7a, 0x87, 0x6a, 0xea, 0x8a, 0x5a, 0xa7, 0x6d, 0x2e,
        0x41, 0x76, 0x29, 0xec, 0x4e, 0xe3, 0x41, 0xf5, 0x61, 0x35, 0xfc, 0xcf, 0x69, 0x52, 0x80,
        0x10, 0x4e, 0x03, 0x12, 0xec, 0xbd, 0xa9, 0x25, 0x57, 0xc9, 0x38, 0x70, 0x11, 0x4a, 0xf6,
        0xc9, 0xd0, 0x5c, 0x4f, 0x7f, 0x0c, 0x36, 0x85, 0xb7, 0xa4, 0x6b, 0xee, 0x25, 0x59, 0x32,
        0x57, 0x5c, 0xce, 0x10, 0xb4, 0x24, 0xd8, 0x13, 0xcf, 0xe4, 0x87, 0x5d, 0x3e, 0x82, 0x04,
        0x7b, 0x97, 0xdd, 0xef, 0x52, 0x74, 0x1d, 0x54, 0x6b, 0x8e, 0x28, 0x9d, 0xc6, 0x93, 0x5b,
        0x3e, 0xce, 0x04, 0x62, 0xdb, 0x0a, 0x22, 0xb8, 0xe7,
    ];
    assert(r@ =~= rsa_modulus());
    r
}

/// A big-endian number is below 256 to the power of its length.
proof fn lemma_be_value_bound(s: Seq<u8>)
    ensures
        be_value(s) < pow256(s.len()),
    decreases s.len(),
{
    if s.len() > 0 {
        lemma_be_value_bound(s.drop_last());
        let a = be_value(s.drop_last());
        let p = pow256((s.len() - 1) as nat);
        assert(a * 256 + s.last() < p * 256) by (nonlinear_arith)
            requires
                a < p,
                s.last() < 256,
        ;
    }
}

/// A big-endian number whose first byte is zero is below 256 to the power of
/// its length less one.
proof fn lemma_be_value_leading_zero(s: Seq<u8>)
    requires
        s.len() >= 1,
        s[0] == 0,
    ensures
        be_value(s) < pow256((s.len() - 1) as nat),
    decreases s.len(),
{
    if s.len() == 1 {
        assert(s.drop_last().len() == 0);
    } else {
        let d = s.drop_last();
        assert(d[0] == 0);
        lemma_be_value_leading_zero(d);
        let a = be_value(d);
        let p = pow256((d.len() - 1) as nat);
        assert(pow256((s.len() - 1) as nat) == 256 * p);
        assert(a * 256 + s.last() < p * 256) by (nonlinear_arith)
            requires
                a < p,
                s.last() < 256,
        ;
    }
}

/// The shortest bytes of a number below 256 to the power `k` (`k` at least
/// one) are at most `k` long.
proof fn lemma_be_min_len(x: nat, k: nat)
    requires
        k >= 1,
        x < pow256(k),
    ensures
        be_min(x).len() <= k,
    decreases x,
{
    if x >= 256 {
        if k == 1 {
            assert(pow256(1) == 256 * pow256(0));
        } else {
            let p = pow256((k - 1) as nat);
            assert(x / 256 < p) by (nonlinear_arith)
                requires
                    x < 256 * p,
            ;
            lemma_be_min_len(x / 256, (k - 1) as nat);
        }
    }
}

/// The service's modulus is above one and below 256 to the power 128.
proof fn lemma_modulus_bounds()
    ensures
        be_value(rsa_modulus()) > 1,
        be_value(rsa_modulus()) < pow256(128),
{
    let m = rsa_modulus();
    assert(m.len() == 129);
    assert(m.last() == 0xe7);
    assert(be_value(m) == be_value(m.drop_last()) * 256 + m.last());
    lemma_be_value_leading_zero(m);
}

/// Writes bytes as text in the encoding.
fn encode_text(enc: TextEncoding, bytes: &[u8]) -> (r: String)
    ensures
        r@ == encoded(enc, bytes@),
        r@.len() == encoded_len(enc, bytes@.len()),
        vstd::utf8::is_ascii_chars(r@),
{
    proof {
        lemma_base64_len(bytes@);
        lemma_base64_ascii(bytes@);
        lemma_hex_ascii(bytes@);
    }
    match enc {
        TextEncoding::Base64 => base64_encode(bytes),
        TextEncoding::Hex => hex_encode(bytes),
        TextEncoding::HexUpper => hex_encode_upper(bytes),
    }
}

/// ASCII letters of the text made uppercase.
fn ascii_uppercase(s: &str) -> (r: String)
    ensures
        r@ == upper_ascii(s@),
{
    let n = s.unicode_len();
    let mut out = String::new();
    let mut i: usize = 0;
    while i < n
        invariant
            n == s@.len(),
            i <= n,
            out@ == upper_ascii(s@.take(i as int)),
        decreases n - i,
    {
        let c = s.get_char(i);
        let u = if 'a' <= c && c <= 'z' {
            ((c as u8) - 32) as char
        } else {
            c
        };
        crate::strings::string_push(&mut out, u);
        assert(upper_ascii(s@.take(i + 1)) =~= upper_ascii(s@.take(i as int)).push(u));
        i = i + 1;
    }
    assert(s@.take(n as int) =~= s@);
    out
}

impl Crypto {
    /// Encrypts the UTF-8 bytes of `data` with AES-128 under `key` in the
    /// given mode (CBC with `iv`, or the default vector where none is
    /// given) with PKCS#7 padding, and writes the cipher text in `encoding`.
    pub fn aes_encrypt(
        data: &str,
        key: &[u8],
        mode: AesMode,
        iv: Option<&[u8]>,
        encoding: TextEncoding,
    ) -> (r: String)
        requires
            key@.len() == 16,
            iv matches Some(v) ==> v@.len() == 16,
            paddable(data.spec_bytes().len()),
        ensures
            r@ == aes_text(data@, key@, mode, iv_or_default(iv), encoding),
            r@.len() == encoded_len(encoding, padded_len(data.spec_bytes().len())),
            vstd::utf8::is_ascii_chars(r@),
    {
        let data_bytes = data.as_bytes();
        let len = data_bytes.len();
        // Calculate buffer size with padding
        let block_size: usize = 16;
        let padded = (len / block_size + 1) * block_size;
        let mut buf: Vec<u8> = vec![0u8; padded];
        let mut i: usize = 0;
        while i < len
            invariant
                len == data_bytes@.len(),
                len <= padded,
                buf@.len() == padded,
                i <= len,
                forall|j: int| 0 <= j < i ==> buf@[j] == data_bytes@[j],
            decreases len - i,
        {
            buf.set(i, data_bytes[i]);
            i = i + 1;
        }
        assert(buf@.take(len as int) =~= data_bytes@);
        let cipher_text = match mode {
            AesMode::Cbc => {
                let default = default_iv_bytes();
                let ivb: &[u8] = match iv {
                    Some(v) => v,
                    None => default.as_slice(),
                };
                aes128_cbc_encrypt(key, ivb, buf, len)
            },
            AesMode::Ecb => aes128_ecb_encrypt(key, buf, len),
        };
        encode_text(encoding, cipher_text.as_slice())
    }

    /// Raw RSA of the UTF-8 bytes of `data`, left padded with zeros to 128
    /// bytes, with the service's public key; the 128-byte result is written
    /// as lowercase hexadecimal.
    pub fn rsa_encrypt(data: &str) -> (r: String)
        requires
            data.spec_bytes().len() <= 128,
        ensures
            r@ == rsa_hex(data.spec_bytes()),
    {
        let bytes = data.as_bytes();
        let len = bytes.len();
        // Pad data to 128 bytes (1024 bits) with leading zeros
        let zeros = 128 - len;
        let mut padded: Vec<u8> = vec![0u8; zeros];
        let mut i: usize = 0;
        while i < len
            invariant
                len == bytes@.len(),
                len <= 128,
                i <= len,
                padded@ == Seq::new((128 - len) as nat, |k: int| 0u8) + bytes@.take(i as int),
            decreases len - i,
        {
            padded.push(bytes[i]);
            assert(bytes@.take(i + 1) =~= bytes@.take(i as int).push(bytes@[i as int]));
            i = i + 1;
        }
        assert(bytes@.take(len as int) =~= bytes@);
        assert(padded@ =~= left_pad(bytes@, 128));
        let n = rsa_modulus_bytes();
        let e = rsa_exponent_bytes();
        proof {
            lemma_modulus_bounds();
        }
        let encrypted = modpow_be(padded.as_slice(), e.as_slice(), n.as_slice());
        let ghost x = vstd::arithmetic::power::pow(be_value(padded@) as int, be_value(e@)) % (be_value(n@) as int);
        proof {
            assert(0 <= x < be_value(n@));
            lemma_be_min_len(x as nat, 128);
        }
        // Convert to fixed-size 128-byte output
        let elen = encrypted.len();
        let mut result: Vec<u8> = vec![0u8; 128];
        let start = 128 - elen;
        let mut j: usize = 0;
        while j < elen
            invariant
                elen == encrypted@.len(),
                elen <= 128,
                start == 128 - elen,
                j <= elen,
                result@.len() == 128,
                forall|k: int| 0 <= k < start ==> result@[k] == 0u8,
                forall|k: int| 0 <= k < j ==> result@[start + k] == encrypted@[k],
            decreases elen - j,
        {
            result.set(start + j, encrypted[j]);
            j = j + 1;
        }
        assert(result@ =~= left_pad(encrypted@, 128));
        hex_encode(result.as_slice())
    }

    /// The eapi scheme: signs `url` and `text` with an MD5 digest, encrypts
    /// them with AES-128-ECB under the eapi key and yields the form body
    /// `params=<uppercase hexadecimal, URL encoded>`.
    pub fn eapi(url: &str, text: &str) -> (r: String)
        requires
            url.spec_bytes().len() + text.spec_bytes().len() <= usize::MAX / 4,
        ensures
            r@ == eapi_body(url@, text@),
    {
        let mut message = String::from_str("nobody");
        message.append(url);
        message.append("use");
        message.append(text);
        message.append("md5forencrypt");
        let digest_bytes = md5_compute(message.as_str().as_bytes());
        let digest = hex_encode(&digest_bytes);
        let mut data = String::from_str(url);
        data.append("-36cd479b6b5-");
        data.append(text);
        data.append("-36cd479b6b5-");
        data.append(digest.as_str());
        proof {
            reveal_strlit("-36cd479b6b5-");
            let sep = "-36cd479b6b5-"@;
            assert(vstd::utf8::is_ascii_chars(sep));
            vstd::utf8::is_ascii_chars_encode_utf8(sep);
            lemma_hex_ascii(digest_bytes@);
            vstd::utf8::is_ascii_chars_encode_utf8(digest@);
            lemma_utf8_concat(url@, sep);
            lemma_utf8_concat(url@ + sep, text@);
            lemma_utf8_concat(url@ + sep + text@, sep);
            lemma_utf8_concat(url@ + sep + text@ + sep, digest@);
            assert(data@ =~= url@ + sep + text@ + sep + digest@);
        }
        let key = eapi_key_bytes();
        let iv = default_iv_bytes();
        let params = Crypto::aes_encrypt(
            data.as_str(),
            key.as_slice(),
            AesMode::Ecb,
            Some(iv.as_slice()),
            TextEncoding::HexUpper,
        );
        let encoded_params = url_encode(params.as_str());
        let mut body = String::from_str("params=");
        body.append(encoded_params.as_str());
        body
    }

    /// The weapi scheme with sixteen random bytes drawn for its secret key.
    pub fn weapi(text: &str) -> (r: String)
        requires
            text.spec_bytes().len() <= usize::MAX / 4,
        ensures
            exists|secret: Seq<u8>| secret.len() == 16 && r@ == weapi_body(text@, secret),
    {
        let secret = random_secret();
        let r = Crypto::weapi_with_secret(text, &secret);
        assert(secret@.len() == 16);
        r
    }

    /// The weapi scheme for given random bytes: the text is encrypted with
    /// AES-128-CBC twice, first under the preset key, then under a secret key
    /// drawn from the bytes, each time written in Base64; the reversed secret
    /// key is encrypted with raw RSA. The body is
    /// `params=<...>&encSecKey=<...>`, both URL encoded.
    pub fn weapi_with_secret(text: &str, secret: &[u8; 16]) -> (r: String)
        requires
            text.spec_bytes().len() <= usize::MAX / 4,
        ensures
            r@ == weapi_body(text@, secret@),
    {
        let mut key: Vec<u8> = Vec::new();
        let mut reversed = String::new();
        let mut i: usize = 0;
        while i < 16
            invariant
                i <= 16,
                secret@.len() == 16,
                key@ == weapi_key_bytes(secret@).take(i as int),
            decreases 16 - i,
        {
            let v = secret[i] % 62;
            key.push(base62_value(v));
            assert(key@ =~= weapi_key_bytes(secret@).take(i + 1));
            i = i + 1;
        }
        assert(key@ =~= weapi_key_bytes(secret@));
        let mut k: usize = 16;
        while k > 0
            invariant
                k <= 16,
                secret@.len() == 16,
                key@ == weapi_key_bytes(secret@),
                reversed@ == weapi_reversed_key(secret@).take(16 - k),
            decreases k,
        {
            k = k - 1;
            let c = key[k] as char;
            crate::strings::string_push(&mut reversed, c);
            assert(reversed@ =~= weapi_reversed_key(secret@).take(16 - k));
        }
        assert(reversed@ =~= weapi_reversed_key(secret@));
        let preset = preset_key_bytes();
        let iv = default_iv_bytes();
        let params1 = Crypto::aes_encrypt(
            text,
            preset.as_slice(),
            AesMode::Cbc,
            Some(iv.as_slice()),
            TextEncoding::Base64,
        );
        proof {
            lemma_base64_ascii(
                cipher_of(AesMode::Cbc, preset_key(), default_iv(), encode_utf8(text@)),
            );
            vstd::utf8::is_ascii_chars_encode_utf8(params1@);
            let n = text.spec_bytes().len();
            let m = padded_len(n);
            assert(4 * ((m + 2) / 3) + 16 <= usize::MAX) by (nonlinear_arith)
                requires
                    n <= usize::MAX / 4,
                    m == ((n / 16 + 1) * 16),
                    usize::MAX >= 0xffff_ffff,
            ;
        }
        let params = Crypto::aes_encrypt(
            params1.as_str(),
            key.as_slice(),
            AesMode::Cbc,
            Some(iv.as_slice()),
            TextEncoding::Base64,
        );
        proof {
            assert(vstd::utf8::is_ascii_chars(reversed@));
            vstd::utf8::is_ascii_chars_encode_utf8(reversed@);
        }
        let enc_sec_key = Crypto::rsa_encrypt(reversed.as_str());
        let mut body = String::from_str("params=");
        let p = url_encode(params.as_str());
        body.append(p.as_str());
        body.append("&encSecKey=");
        let q = url_encode(enc_sec_key.as_str());
        body.append(q.as_str());
        body
    }

    /// The linuxapi scheme: AES-128-ECB under the linuxapi key, written in
    /// hexadecimal and made uppercase; the body is `eparams=<...>`, URL
    /// encoded.
    pub fn linuxapi(text: &str) -> (r: String)
        requires
            paddable(encode_utf8(text@).len()),
        ensures
            r@ == linuxapi_body(text@),
    {
        let key = linux_api_key_bytes();
        let hex = Crypto::aes_encrypt(text, key.as_slice(), AesMode::Ecb, None, TextEncoding::Hex);
        let params = ascii_uppercase(hex.as_str());
        let encoded_params = url_encode(params.as_str());
        let mut body = String::from_str("eparams=");
        body.append(encoded_params.as_str());
        body
    }
}

/// The byte of the secret key alphabet at a position below 62.
fn base62_value(v: u8) -> (r: u8)
    requires
        v < 62,
    ensures
        r == base62_byte(v as int),
{
    if v < 26 {
        97 + v
    } else if v < 52 {
        65 + (v - 26)
    } else {
        48 + (v - 52)
    }
}

/// A character of the Base64 alphabet is an ASCII character.
proof fn lemma_base64_char_ascii(v: int)
    requires
        0 <= v < 64,
    ensures
        '\0' <= base64_char(v) <= '\u{7f}',
{
}

/// Base64 text is made of ASCII characters, so its UTF-8 bytes are as many as
/// its characters.
proof fn lemma_base64_ascii(d: Seq<u8>)
    ensures
        vstd::utf8::is_ascii_chars(base64_standard(d)),
        encode_utf8(base64_standard(d)).len() == base64_standard(d).len(),
    decreases d.len(),
{
    let b = base64_standard(d);
    if d.len() > 0 {
        lemma_base64_char_ascii((d[0] as int) / 4);
        lemma_base64_char_ascii(((d[0] as int) % 4) * 16);
        if d.len() >= 2 {
            lemma_base64_char_ascii(((d[0] as int) % 4) * 16 + (d[1] as int) / 16);
            lemma_base64_char_ascii(((d[1] as int) % 16) * 4);
        }
        if d.len() >= 3 {
            lemma_base64_char_ascii(((d[1] as int) % 16) * 4 + (d[2] as int) / 64);
            lemma_base64_char_ascii((d[2] as int) % 64);
        }
        if d.len() > 3 {
            lemma_base64_ascii(d.subrange(3, d.len() as int));
        }
        let c0 = base64_char((d[0] as int) / 4);
        if d.len() == 1 {
            let c1 = base64_char(((d[0] as int) % 4) * 16);
            assert(b =~= seq![c0, c1, '=', '=']);
        } else if d.len() == 2 {
            let c1 = base64_char(((d[0] as int) % 4) * 16 + (d[1] as int) / 16);
            let c2 = base64_char(((d[1] as int) % 16) * 4);
            assert(b =~= seq![c0, c1, c2, '=']);
        } else {
            let c1 = base64_char(((d[0] as int) % 4) * 16 + (d[1] as int) / 16);
            let c2 = base64_char(((d[1] as int) % 16) * 4 + (d[2] as int) / 64);
            let c3 = base64_char((d[2] as int) % 64);
            let rest = base64_standard(d.subrange(3, d.len() as int));
            assert(b =~= seq![c0, c1, c2, c3] + rest);
            assert forall|i| 0 <= i < b.len() implies '\0' <= #[trigger] b[i] <= '\u{7f}' by {
                if i >= 4 {
                    assert(b[i] == rest[i - 4]);
                }
            }
        }
    }
    vstd::utf8::is_ascii_chars_encode_utf8(b);
}


/// The length of Base64 text: four characters for every group of up to
/// three bytes.
proof fn lemma_base64_len(d: Seq<u8>)
    ensures
        base64_standard(d).len() == 4 * ((d.len() + 2) / 3),
    decreases d.len(),
{
    let n = d.len();
    if n >= 3 {
        let rest = d.subrange(3, n as int);
        lemma_base64_len(rest);
        assert(base64_standard(d).len() == 4 + base64_standard(rest).len());
        assert((n + 2) / 3 == (rest.len() + 2) / 3 + 1);
    }
}

/// A hexadecimal digit is an ASCII character.
proof fn lemma_hex_digits_ascii(v: int)
    requires
        0 <= v < 16,
    ensures
        '\0' <= hex_digit_lower(v) <= '\u{7f}',
        '\0' <= hex_digit_upper(v) <= '\u{7f}',
{
}

/// Hexadecimal text is ASCII, two characters per byte.
proof fn lemma_hex_ascii(d: Seq<u8>)
    ensures
        vstd::utf8::is_ascii_chars(hex_lower(d)),
        vstd::utf8::is_ascii_chars(hex_upper(d)),
        hex_lower(d).len() == 2 * d.len(),
        hex_upper(d).len() == 2 * d.len(),
    decreases d.len(),
{
    if d.len() > 0 {
        lemma_hex_ascii(d.drop_first());
        lemma_hex_digits_ascii((d[0] as int) / 16);
        lemma_hex_digits_ascii((d[0] as int) % 16);
        let l = hex_lower(d);
        let u = hex_upper(d);
        let lr = hex_lower(d.drop_first());
        let ur = hex_upper(d.drop_first());
        assert forall|i| 0 <= i < l.len() implies '\0' <= #[trigger] l[i] <= '\u{7f}' by {
            if i >= 2 {
                assert(l[i] == lr[i - 2]);
            }
        }
        assert forall|i| 0 <= i < u.len() implies '\0' <= #[trigger] u[i] <= '\u{7f}' by {
            if i >= 2 {
                assert(u[i] == ur[i - 2]);
            }
        }
    }
}

/// The UTF-8 bytes of joined texts are the joined bytes of the texts.
pub proof fn lemma_utf8_concat(a: Seq<char>, b: Seq<char>)
    ensures
        encode_utf8(a + b) == encode_utf8(a) + encode_utf8(b),
    decreases a.len(),
{
    if a.len() == 0 {
        assert(a + b =~= b);
        assert(encode_utf8(a) =~= Seq::<u8>::empty());
        assert(encode_utf8(a) + encode_utf8(b) =~= encode_utf8(b));
    } else {
        lemma_utf8_concat(a.drop_first(), b);
        assert((a + b).drop_first() =~= a.drop_first() + b);
        assert((a + b)[0] == a[0]);
        assert(encode_utf8(a + b) =~= encode_utf8(a) + encode_utf8(b));
    }
}

/// The length of text in an encoding, for a number of bytes.
pub open spec fn encoded_len(enc: TextEncoding, n: nat) -> nat {
    match enc {
        TextEncoding::Base64 => 4 * ((n + 2) / 3),
        TextEncoding::Hex | TextEncoding::HexUpper => 2 * n,
    }
}

} // verus!
