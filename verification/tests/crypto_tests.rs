use aes_gcm::aead::{Aead, KeyInit};
use shamrock_it::crypto::{CryptoError, Decrypt, Encoded, Encrypt, Encryption};

fn hex(s: &str) -> Vec<u8> {
    (0..s.len() / 2).map(|i| u8::from_str_radix(&s[2 * i..2 * i + 2], 16).unwrap()).collect()
}

#[test]
fn new_then_decrypter_gives_message_back() {
    let e = <Encryption as Encrypt>::new("username = \"bob\"\npassword = \"pw\"");
    let text = <Encryption as Decrypt>::decrypter(e.encoded().clone()).unwrap();
    assert_eq!(text, "username = \"bob\"\npassword = \"pw\"");
}

#[test]
fn new_then_decrypter_on_non_ascii_text() {
    let e = <Encryption as Encrypt>::new("clé ✓ 🍀");
    assert_eq!(<Encryption as Decrypt>::decrypter(e.encoded().clone()), Ok("clé ✓ 🍀".to_string()));
}

#[test]
fn new_produces_key_nonce_and_tagged_ciphertext() {
    let e = <Encryption as Encrypt>::new("abc");
    assert_eq!(e.key().len(), 32);
    assert_eq!(e.nonce().len(), 12);
    assert_eq!(e.message().len(), 3 + 16);
    assert_eq!(e.encoded().key.len(), 44);
    assert_eq!(e.encoded().nonce.len(), 16);
}

#[test]
fn get_nonce_has_twelve_bytes() {
    assert_eq!(<Encryption as Encrypt>::get_nonce().len(), 12);
}

#[test]
fn encrypter_matches_known_answer() {
    // AES-256-GCM, zero key and nonce, sixteen zero bytes of plaintext.
    let key = [0u8; 32];
    let nonce = [0u8; 12];
    let c = <Encryption as Encrypt>::encrypter(&key, &nonce, "\0\0\0\0\0\0\0\0\0\0\0\0\0\0\0\0").unwrap();
    assert_eq!(c, hex("cea7403d4d606b6e074ec5d3baf39d18d0d1c8a799996bf0265b98b5d48ab919"));
}

#[test]
fn encrypter_of_empty_text_is_the_tag() {
    let c = <Encryption as Encrypt>::encrypter(&[0u8; 32], &[0u8; 12], "").unwrap();
    assert_eq!(c, hex("530f8afbc74536b9a963b4f1c4cb738b"));
}

#[test]
fn encoder_writes_standard_base64() {
    let key: Vec<u8> = (0..32).collect();
    let nonce: Vec<u8> = (0..12).collect();
    let e = <Encryption as Encrypt>::encoder(&key, &nonce, &vec![1, 2, 3]);
    assert_eq!(e.key, "AAECAwQFBgcICQoLDA0ODxAREhMUFRYXGBkaGxwdHh8=");
    assert_eq!(e.nonce, "AAECAwQFBgcICQoL");
    assert_eq!(e.message, "AQID");
    let e = <Encryption as Encrypt>::encoder(&[0u8; 32], &[0u8; 12], &vec![0xff]);
    assert_eq!(e.key, "AAAAAAAAAAAAAAAAAAAAAAAAAAAAAAAAAAAAAAAAAAA=");
    assert_eq!(e.nonce, "AAAAAAAAAAAAAAAA");
    assert_eq!(e.message, "/w==");
}

#[test]
fn decoder_inverts_encoder() {
    let key: Vec<u8> = (0..32).collect();
    let nonce: Vec<u8> = (100..112).collect();
    let ct = vec![9u8, 8, 7, 6, 5];
    let e = <Encryption as Encrypt>::encoder(&key, &nonce, &ct);
    let d = <Encryption as Decrypt>::decoder(e.clone());
    assert_eq!(d.key(), &key);
    assert_eq!(d.nonce(), &nonce);
    assert_eq!(d.message(), &ct);
    assert_eq!(d.encoded().message, e.message);
}

#[test]
fn decrypter_rejects_a_tampered_ciphertext() {
    let e = <Encryption as Encrypt>::new("secret");
    let mut ct = e.message().clone();
    ct[0] ^= 1;
    let tampered = <Encryption as Encrypt>::encoder(e.key(), e.nonce(), &ct);
    assert_eq!(<Encryption as Decrypt>::decrypter(tampered), Err(CryptoError::Rejected));
}

#[test]
fn try_decrypt_reports_undecodable_fields() {
    let e = <Encryption as Encrypt>::new("secret");
    let mut bad = e.encoded().clone();
    bad.key = "not base64!".to_string();
    assert_eq!(Encryption::try_decrypt(&bad), Err(CryptoError::Undecodable));
    let mut short = e.encoded().clone();
    short.key = "AAAA".to_string();
    assert_eq!(Encryption::try_decrypt(&short), Err(CryptoError::Undecodable));
    let mut noncanonical = e.encoded().clone();
    noncanonical.nonce = "AAAAAAAAAAAAAAA".to_string();
    assert_eq!(Encryption::try_decrypt(&noncanonical), Err(CryptoError::Undecodable));
}

#[test]
fn try_decrypt_reports_rejected_and_not_text() {
    let key = [7u8; 32];
    let nonce = [3u8; 12];
    let cipher = aes_gcm::Aes256Gcm::new(aes_gcm::Key::<aes_gcm::Aes256Gcm>::from_slice(&key));
    let ct = cipher.encrypt(aes_gcm::Nonce::from_slice(&nonce), &[0xffu8, 0xfe][..]).unwrap();
    let e = <Encryption as Encrypt>::encoder(&key, &nonce, &ct);
    assert_eq!(Encryption::try_decrypt(&e), Err(CryptoError::NotText));
    let other = <Encryption as Encrypt>::encoder(&[8u8; 32], &nonce, &ct);
    assert_eq!(Encryption::try_decrypt(&other), Err(CryptoError::Rejected));
}

#[test]
fn try_decrypt_gives_the_text() {
    let e = <Encryption as Encrypt>::new("hello");
    assert_eq!(Encryption::try_decrypt(e.encoded()), Ok("hello".to_string()));
}

#[test]
fn asset_file_reads_back_what_was_written() {
    let e = <Encryption as Encrypt>::new("[email]\nusername = \"x\"");
    let text = e.encoded().to_file_contents();
    let read = Encoded::from_lines(&text).unwrap();
    assert_eq!(read.key, e.encoded().key);
    assert_eq!(read.nonce, e.encoded().nonce);
    assert_eq!(read.message, e.encoded().message);
    assert_eq!(<Encryption as Decrypt>::decrypter(read), Ok("[email]\nusername = \"x\"".to_string()));
}

#[test]
fn to_file_contents_puts_one_field_per_line() {
    let e = Encoded { key: "K".to_string(), nonce: "N".to_string(), message: "M".to_string() };
    assert_eq!(e.to_file_contents(), "K\nN\nM");
}

#[test]
fn from_lines_needs_three_lines() {
    assert!(Encoded::from_lines("a\nb").is_none());
    assert!(Encoded::from_lines("a\nb\n").is_none());
    assert!(Encoded::from_lines("").is_none());
    let e = Encoded::from_lines("a\r\nb\r\n\r\nextra").unwrap();
    assert_eq!((e.key.as_str(), e.nonce.as_str(), e.message.as_str()), ("a", "b", ""));
}

#[test]
fn display_string_shows_the_base64_fields() {
    let key: Vec<u8> = (0..32).collect();
    let nonce: Vec<u8> = (0..12).collect();
    let e = <Encryption as Encrypt>::encoder(&key, &nonce, &vec![1, 2, 3]);
    let d = <Encryption as Decrypt>::decoder(e);
    assert_eq!(
        d.to_display_string(),
        "Key: AAECAwQFBgcICQoLDA0ODxAREhMUFRYXGBkaGxwdHh8=\nNonce: AAECAwQFBgcICQoL\nMessage: AQID"
    );
}

#[test]
fn new_ciphertext_is_sixteen_bytes_longer_than_the_utf8_text() {
    let e = <Encryption as Encrypt>::new("clé");
    assert_eq!(e.message().len(), "clé".len() + 16);
    assert_eq!(<Encryption as Encrypt>::new("").message().len(), 16);
}

#[test]
fn asset_file_text_decrypts_to_the_message() {
    let e = <Encryption as Encrypt>::new("[ninja]\nclient_id = \"abc\"");
    let read = Encoded::from_lines(&e.encoded().to_file_contents()).unwrap();
    assert_eq!(Encryption::try_decrypt(&read), Ok("[ninja]\nclient_id = \"abc\"".to_string()));
}
