//! AES-256-GCM through the `aes-gcm` crate, and the operating system's random generator.
use vstd::prelude::*;
use vstd::utf8::*;
use aes_gcm::aead::{Aead, AeadCore, KeyInit, OsRng};
use aes_gcm::{Aes256Gcm, Key, Nonce};

verus! {

/// The largest plaintext, in bytes, that AES-GCM encrypts (`aes_gcm::P_MAX`, 2^36).
pub const AES_GCM_MAX_PLAINTEXT: u64 = 68719476736u64;

/// The ciphertext (with its 16-byte tag appended) that `Aead::encrypt` of
/// `Aes256Gcm` gives for a key, a nonce and a plaintext, with no associated data.
pub uninterp spec fn aes256gcm_seal(key: Seq<u8>, nonce: Seq<u8>, plaintext: Seq<u8>) -> Seq<u8>;

/// What `Aead::decrypt` of `Aes256Gcm` gives for a key, a nonce and a ciphertext
/// (tag appended), with no associated data: the plaintext, or `None` when the
/// tag does not authenticate the ciphertext.
pub uninterp spec fn aes256gcm_open(key: Seq<u8>, nonce: Seq<u8>, ciphertext: Seq<u8>) -> Option<Seq<u8>>;

#[verifier::external_type_specification]
#[verifier::external_body]
pub struct ExAeadError(aes_gcm::Error);

/// `Aead::encrypt` of `Aes256Gcm` with no associated data. The crate refuses a
/// plaintext longer than `P_MAX` and otherwise returns the ciphertext followed
/// by a 16-byte tag; decrypting that output with the same key and nonce gives
/// the plaintext back. Building the key and nonce from slices panics on other
/// lengths, and the buffer of `len + 16` bytes must be allocatable: the
/// precondition leaves those inputs out.
#[verifier::external_body]
pub(crate) fn aes256gcm_encrypt(key: &[u8], nonce: &[u8], plaintext: &[u8]) -> (res: Result<
    Vec<u8>,
    aes_gcm::Error,
>)
    requires
        key@.len() == 32,
        nonce@.len() == 12,
        plaintext@.len() + 16 <= isize::MAX,
    ensures
        res is Ok <==> plaintext@.len() <= AES_GCM_MAX_PLAINTEXT,
        res matches Ok(c) ==> c@ == aes256gcm_seal(key@, nonce@, plaintext@),
        res matches Ok(c) ==> c@.len() == plaintext@.len() + 16,
        res matches Ok(c) ==> aes256gcm_open(key@, nonce@, c@) == Some(plaintext@),
{
    let cipher = Aes256Gcm::new(Key::<Aes256Gcm>::from_slice(key));
    cipher.encrypt(Nonce::from_slice(nonce), plaintext)
}

/// `Aead::decrypt` of `Aes256Gcm` with no associated data: the plaintext when
/// the tag authenticates the ciphertext, an error otherwise. Building the key
/// and nonce from slices panics on other lengths, which the precondition
/// leaves out.
#[verifier::external_body]
pub(crate) fn aes256gcm_decrypt(key: &[u8], nonce: &[u8], ciphertext: &[u8]) -> (res: Result<
    Vec<u8>,
    aes_gcm::Error,
>)
    requires
        key@.len() == 32,
        nonce@.len() == 12,
    ensures
        match res {
            Ok(p) => aes256gcm_open(key@, nonce@, ciphertext@) == Some(p@),
            Err(_) => aes256gcm_open(key@, nonce@, ciphertext@) is None,
        },
{
    let cipher = Aes256Gcm::new(Key::<Aes256Gcm>::from_slice(key));
    cipher.decrypt(Nonce::from_slice(nonce), ciphertext)
}

/// `KeyInit::generate_key` of `Aes256Gcm` with `OsRng`: 32 random bytes. The
/// bytes depend on the operating system's generator and are not stated; the
/// generator panics when the operating system cannot supply randomness.
#[verifier::external_body]
pub(crate) fn random_key() -> (key: Vec<u8>)
    ensures
        key@.len() == 32,
{
    Aes256Gcm::generate_key(OsRng).to_vec()
}

/// `AeadCore::generate_nonce` of `Aes256Gcm` with `OsRng`: 12 random bytes,
/// whose values are not stated; it panics as `random_key` does.
#[verifier::external_body]
pub(crate) fn random_nonce() -> (nonce: Vec<u8>)
    ensures
        nonce@.len() == 12,
{
    Aes256Gcm::generate_nonce(&mut OsRng).to_vec()
}

/// `String::from_utf8`: the text when the bytes are valid UTF-8, `None` otherwise.
#[verifier::external_body]
pub(crate) fn utf8_to_string(bytes: Vec<u8>) -> (res: Option<String>)
    ensures
        res is Some <==> valid_utf8(bytes@),
        res matches Some(s) ==> s@ == decode_utf8(bytes@),
{
    String::from_utf8(bytes).ok()
}

} // verus!
