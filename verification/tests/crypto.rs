use rustle::crypto::{AesMode, Crypto, TextEncoding};

const PRESET: &[u8] = b"0CoJUm6Qyw8W8jud";
const LINUX: &[u8] = b"rFgB&h#%2?^eDg:Q";

#[test]
fn aes_known_vectors() {
    assert_eq!(
        Crypto::aes_encrypt("hello", PRESET, AesMode::Cbc, None, TextEncoding::Base64),
        "+J9Q3vLzLGFuqlWFQh3T3A=="
    );
    assert_eq!(
        Crypto::aes_encrypt("hello", LINUX, AesMode::Ecb, None, TextEncoding::Hex),
        "7c9d21fdfe1c9186ecab2a729f89a42d"
    );
    assert_eq!(
        Crypto::aes_encrypt("hello", LINUX, AesMode::Ecb, None, TextEncoding::HexUpper),
        "7C9D21FDFE1C9186ECAB2A729F89A42D"
    );
}

#[test]
fn linuxapi_body() {
    assert_eq!(Crypto::linuxapi(r#"{"a":1}"#), "eparams=6270E70FBBC25054048A37935D9EAAC6");
}

#[test]
fn eapi_body() {
    assert_eq!(
        Crypto::eapi("/api/song/enhance/player/url", r#"{"ids":"[1]","br":"999000"}"#),
        "params=FA90B329E9614F79E79598F37DC2EDB430F8378D2A2796338F0BFDEAEF824A22975CDA9D96D79E6DC4A59218CDB8199F0D3256C654A49D257D9E4BD7E20361E261F9B14EF2D45A3FDDB55A1B4108E50159C9788B69DFEEB8537E98FFC85CE7E539F7B5B1F651D691F82F008C14195BE66224D67A3F741BEFC55B6196540E7F7B"
    );
}

#[test]
fn weapi_body_for_fixed_secret() {
    let secret: [u8; 16] = [0, 1, 2, 3, 4, 5, 6, 7, 8, 9, 10, 11, 12, 13, 14, 15];
    assert_eq!(
        Crypto::weapi_with_secret(r#"{"type":"1"}"#, &secret),
        "params=WLk8YptrKy9jwbfE1G30YrKsykWt1kgdfuFhYG3tHeo%3D&encSecKey=d15a1683c992095d0c234c19966605c5c5964911268bbeda8cb8d08d834913e59d53b32358903a121b5fca784c1f5ae44951fd02524df58ecc98e52cc7cf8689b42c2e93ddf05b0592512d87f5960467e2f086c018849d76014d323500e30f13ef4cafbb0cf5a66731a3f1776c75ca35d0062dac70a3e33245afabcf47938487"
    );
}

#[test]
fn weapi_with_random_secret_has_both_parts() {
    let body = Crypto::weapi(r#"{"type":"1"}"#);
    assert!(body.starts_with("params="));
    let enc = body.split("&encSecKey=").nth(1).unwrap();
    assert_eq!(enc.len(), 256);
}

#[test]
fn rsa_known_vector() {
    assert_eq!(
        Crypto::rsa_encrypt("abc"),
        "914ca835d6aad6e42ff83451e6051dd354543bbc92f6ad0c51e0ff19df5e46796f6e73fe1cd6bb63b5cd90a522fb9b8b56510c480d8285c0e2e8fbb64f9b3c6116aeae58ada5d7f5f7675a10a9960fde9cbd68846db678c279a1cefaea3bdee27077b657a46b136bf02690cf262edb5f4892ec342672775f06be274d27905a8a"
    );
}
