//! The encrypted credentials asset: AES-256-GCM encryption of a text, with the
//! key, nonce and ciphertext carried as base64 text.
use vstd::prelude::*;
use vstd::utf8::*;
use crate::cipher::{
    aes256gcm_decrypt, aes256gcm_encrypt, aes256gcm_open, aes256gcm_seal, random_key,
    random_nonce, utf8_to_string, AES_GCM_MAX_PLAINTEXT,
};
use crate::codec::{b64_encodable, b64_encode, b64_symbol, base64_decode, base64_encode};
use crate::text::{
    lemma_lines_first, lemma_lines_single, line_safe, lines, split_lines, strip_cr,
};

verus! {

broadcast use {encode_utf8_valid_utf8, encode_utf8_decode_utf8, decode_utf8_encode_utf8};

/// Why an encryption or a decryption did not give a result.
#[derive(Debug, Clone, Copy, PartialEq, Eq, Structural)]
pub enum CryptoError {
    /// The text to encrypt is longer than AES-GCM accepts.
    TooLong,
    /// A field is not base64, or the key or nonce has the wrong length.
    Undecodable,
    /// The tag does not authenticate the ciphertext under the key and nonce.
    Rejected,
    /// The decrypted bytes are not UTF-8 text.
    NotText,
}

/// The base64 text of an encryption's key, nonce and ciphertext.
pub struct Encoded {
    pub key: String,
    pub nonce: String,
    pub message: String,
}

impl Clone for Encoded {
    fn clone(&self) -> (res: Self)
        ensures
            res == *self,
    {
        Encoded { key: self.key.clone(), nonce: self.nonce.clone(), message: self.message.clone() }
    }
}

/// `e` holds the base64 text of `key`, `nonce` and `ciphertext`.
pub open spec fn encodes(e: Encoded, key: Seq<u8>, nonce: Seq<u8>, ciphertext: Seq<u8>) -> bool {
    &&& b64_encode(key) == e.key@
    &&& b64_encode(nonce) == e.nonce@
    &&& b64_encode(ciphertext) == e.message@
}

/// Every field of `e` is base64, of a 32-byte key and a 12-byte nonce.
pub open spec fn decodable(e: Encoded) -> bool {
    exists|key: Seq<u8>, nonce: Seq<u8>, ciphertext: Seq<u8>|
        #![trigger encodes(e, key, nonce, ciphertext)]
        encodes(e, key, nonce, ciphertext) && key.len() == 32 && nonce.len() == 12
}

/// `e` is decodable, and what its ciphertext opens to, if anything, is UTF-8 text.
pub open spec fn decrypts_to_text(e: Encoded) -> bool {
    exists|key: Seq<u8>, nonce: Seq<u8>, ciphertext: Seq<u8>|
        #![trigger encodes(e, key, nonce, ciphertext)]
        {
            &&& encodes(e, key, nonce, ciphertext)
            &&& key.len() == 32
            &&& nonce.len() == 12
            &&& aes256gcm_open(key, nonce, ciphertext) matches Some(p) ==> valid_utf8(p)
        }
}

/// `res` is what decrypting `e` gives: the text whose UTF-8 bytes the
/// ciphertext opens to, or `Rejected` when it does not open.
pub open spec fn decryption(e: Encoded, res: Result<Seq<char>, CryptoError>) -> bool {
    forall|key: Seq<u8>, nonce: Seq<u8>, ciphertext: Seq<u8>|
        #[trigger] encodes(e, key, nonce, ciphertext) ==> match res {
            Ok(text) => aes256gcm_open(key, nonce, ciphertext) == Some(encode_utf8(text)),
            Err(err) => aes256gcm_open(key, nonce, ciphertext) is None && err == CryptoError::Rejected,
        }
}

proof fn lemma_b64_encodable(n: nat)
    requires
        n <= isize::MAX,
    ensures
        b64_encodable(n),
{
    assert(4 * ((n + 2) / 3) <= usize::MAX) by (nonlinear_arith)
        requires
            n <= isize::MAX,
            isize::MAX * 2 + 1 == usize::MAX,
    ;
}

/// `res` is what checked decryption of `e` gives: `Undecodable` exactly when
/// `e` is not decodable, and otherwise the text whose UTF-8 bytes the
/// ciphertext opens to, `Rejected` when it does not open, or `NotText` when
/// what it opens to is not UTF-8.
pub open spec fn try_decryption(e: Encoded, res: Result<Seq<char>, CryptoError>) -> bool {
    &&& res == Err::<Seq<char>, CryptoError>(CryptoError::Undecodable) <==> !decodable(e)
    &&& forall|key: Seq<u8>, nonce: Seq<u8>, ciphertext: Seq<u8>|
        #[trigger] encodes(e, key, nonce, ciphertext) && key.len() == 32 && nonce.len() == 12
            ==> match res {
            Ok(text) => aes256gcm_open(key, nonce, ciphertext) == Some(encode_utf8(text)),
            Err(CryptoError::Rejected) => aes256gcm_open(key, nonce, ciphertext) is None,
            Err(CryptoError::NotText) => aes256gcm_open(key, nonce, ciphertext) matches Some(p)
                && !valid_utf8(p),
            Err(_) => false,
        }
}

pub open spec fn text_result(res: Result<String, CryptoError>) -> Result<Seq<char>, CryptoError> {
    match res {
        Ok(s) => Ok(s@),
        Err(e) => Err(e),
    }
}

/// The text of an asset file: key, nonce and ciphertext, one per line.
pub open spec fn asset_text(e: Encoded) -> Seq<char> {
    e.key@ + "\n"@ + e.nonce@ + "\n"@ + e.message@
}

impl Encoded {
    /// The text written to an asset file: key, nonce and ciphertext, one per line.
    pub fn to_file_contents(&self) -> (res: String)
        ensures
            res@ == asset_text(*self),
    {
        let mut res = self.key.clone();
        res.append("\n");
        res.append(self.nonce.as_str());
        res.append("\n");
        res.append(self.message.as_str());
        res
    }

    /// The key, nonce and ciphertext held by the first three lines of `text`,
    /// or `None` when `text` has fewer than three lines.
    pub fn from_lines(text: &str) -> (res: Option<Encoded>)
        ensures
            res is Some <==> lines(text@).len() >= 3,
            res matches Some(e) ==> {
                &&& e.key@ == lines(text@)[0]
                &&& e.nonce@ == lines(text@)[1]
                &&& e.message@ == lines(text@)[2]
            },
    {
        let all = split_lines(text);
        if all.len() < 3 {
            None
        } else {
            Some(Encoded { key: all[0].clone(), nonce: all[1].clone(), message: all[2].clone() })
        }
    }
}

/// A key, a nonce and a ciphertext, with their base64 text.
pub struct Encryption {
    key: Vec<u8>,
    nonce: Vec<u8>,
    message: Vec<u8>,
    encoded: Encoded,
}

impl Encryption {
    pub closed spec fn key_bytes(&self) -> Seq<u8> {
        self.key@
    }

    pub closed spec fn nonce_bytes(&self) -> Seq<u8> {
        self.nonce@
    }

    pub closed spec fn ciphertext(&self) -> Seq<u8> {
        self.message@
    }

    pub closed spec fn encoded_view(&self) -> Encoded {
        self.encoded
    }

    /// A 32-byte key, a 12-byte nonce, and the base64 text of all three parts.
    pub open spec fn wf(&self) -> bool {
        &&& self.key_bytes().len() == 32
        &&& self.nonce_bytes().len() == 12
        &&& encodes(self.encoded_view(), self.key_bytes(), self.nonce_bytes(), self.ciphertext())
    }

    /// The ciphertext is the AES-256-GCM encryption of the UTF-8 bytes of `text`.
    pub open spec fn encrypts(&self, text: Seq<char>) -> bool {
        &&& self.wf()
        &&& self.ciphertext() == aes256gcm_seal(self.key_bytes(), self.nonce_bytes(), encode_utf8(text))
        &&& aes256gcm_open(self.key_bytes(), self.nonce_bytes(), self.ciphertext()) == Some(encode_utf8(text))
    }

    /// The key.
    pub fn key(&self) -> (k: &Vec<u8>)
        ensures
            k@ == self.key_bytes(),
    {
        &self.key
    }

    /// The nonce.
    pub fn nonce(&self) -> (n: &Vec<u8>)
        ensures
            n@ == self.nonce_bytes(),
    {
        &self.nonce
    }

    /// The ciphertext, with its tag.
    pub fn message(&self) -> (c: &Vec<u8>)
        ensures
            c@ == self.ciphertext(),
    {
        &self.message
    }

    /// The base64 text of the key, nonce and ciphertext.
    pub fn encoded(&self) -> (res: &Encoded)
        ensures
            *res == self.encoded_view(),
    {
        &self.encoded
    }

    /// The display form: `Key: <key>\nNonce: <nonce>\nMessage: <ciphertext>`, in base64.
    pub fn to_display_string(&self) -> (res: String)
        ensures
            res@ == "Key: "@ + self.encoded_view().key@ + "\nNonce: "@ + self.encoded_view().nonce@
                + "\nMessage: "@ + self.encoded_view().message@,
    {
        let mut res = String::from_str("Key: ");
        res.append(self.encoded.key.as_str());
        res.append("\nNonce: ");
        res.append(self.encoded.nonce.as_str());
        res.append("\nMessage: ");
        res.append(self.encoded.message.as_str());
        res
    }
}

/// Encryption of a text under a fresh random key and nonce.
pub trait Encrypt {
    /// Encrypts `message` under a random key and nonce.
    fn new(message: &str) -> (e: Encryption)
        requires
            encode_utf8(message@).len() <= AES_GCM_MAX_PLAINTEXT,
            encode_utf8(message@).len() + 16 <= isize::MAX,
        ensures
            e.encrypts(message@),
            e.ciphertext().len() == encode_utf8(message@).len() + 16,
    ;

    /// A random 12-byte nonce.
    fn get_nonce() -> (nonce: Vec<u8>)
        ensures
            nonce@.len() == 12,
    {
        random_nonce()
    }

    /// The AES-256-GCM encryption of the UTF-8 bytes of `message`.
    fn encrypter(key: &[u8], nonce: &[u8], message: &str) -> (res: Result<Vec<u8>, CryptoError>)
        requires
            key@.len() == 32,
            nonce@.len() == 12,
            encode_utf8(message@).len() + 16 <= isize::MAX,
        ensures
            res is Ok <==> encode_utf8(message@).len() <= AES_GCM_MAX_PLAINTEXT,
            res matches Ok(c) ==> {
                &&& c@ == aes256gcm_seal(key@, nonce@, encode_utf8(message@))
                &&& c@.len() == encode_utf8(message@).len() + 16
                &&& aes256gcm_open(key@, nonce@, c@) == Some(encode_utf8(message@))
            },
            res matches Err(err) ==> err == CryptoError::TooLong,
    {
        match aes256gcm_encrypt(key, nonce, message.as_bytes()) {
            Ok(c) => Ok(c),
            Err(_) => Err(CryptoError::TooLong),
        }
    }

    /// The base64 text of a key, a nonce and a ciphertext.
    fn encoder(key: &[u8], nonce: &[u8], message: &Vec<u8>) -> (e: Encoded)
        requires
            b64_encodable(key@.len()),
            b64_encodable(nonce@.len()),
            b64_encodable(message@.len()),
        ensures
            encodes(e, key@, nonce@, message@),
    {
        let key = base64_encode(key);
        let nonce = base64_encode(nonce);
        let message = base64_encode(message.as_slice());
        Encoded { key, nonce, message }
    }
}

/// Decryption of an encoded asset.
pub trait Decrypt {
    /// The text that the encoded ciphertext decrypts to, or `Rejected` when the
    /// tag does not authenticate it.
    fn decrypter(encoded: Encoded) -> (res: Result<String, CryptoError>)
        requires
            decrypts_to_text(encoded),
        ensures
            decryption(encoded, text_result(res)),
    ;

    /// The key, nonce and ciphertext that the encoded fields hold.
    fn decoder(encoded: Encoded) -> (e: Encryption)
        requires
            decodable(encoded),
        ensures
            e.wf(),
            e.encoded_view() == encoded,
            forall|key: Seq<u8>, nonce: Seq<u8>, ciphertext: Seq<u8>|
                #[trigger] encodes(encoded, key, nonce, ciphertext) ==> {
                    &&& e.key_bytes() == key
                    &&& e.nonce_bytes() == nonce
                    &&& e.ciphertext() == ciphertext
                },
    {
        let ghost (k, n, c) = choose|key: Seq<u8>, nonce: Seq<u8>, ciphertext: Seq<u8>|
            encodes(encoded, key, nonce, ciphertext) && key.len() == 32 && nonce.len() == 12;
        assert(b64_encode(k) == encoded.key@);
        assert(b64_encode(n) == encoded.nonce@);
        assert(b64_encode(c) == encoded.message@);
        let key = match base64_decode(encoded.key.as_str()) {
            Ok(v) => v,
            Err(_) => unreached(),
        };
        let nonce = match base64_decode(encoded.nonce.as_str()) {
            Ok(v) => v,
            Err(_) => unreached(),
        };
        let message = match base64_decode(encoded.message.as_str()) {
            Ok(v) => v,
            Err(_) => unreached(),
        };
        Encryption { key, nonce, message, encoded }
    }
}

impl Encrypt for Encryption {
    fn new(message: &str) -> (e: Encryption) {
        let key = random_key();
        let nonce = Self::get_nonce();
        let ciphertext = match Self::encrypter(key.as_slice(), nonce.as_slice(), message) {
            Ok(c) => c,
            Err(_) => unreached(),
        };
        proof {
            lemma_b64_encodable(ciphertext@.len());
        }
        let encoded = Self::encoder(key.as_slice(), nonce.as_slice(), &ciphertext);
        Encryption { key, nonce, message: ciphertext, encoded }
    }
}

impl Decrypt for Encryption {
    fn decrypter(encoded: Encoded) -> (res: Result<String, CryptoError>) {
        let ghost e = encoded;
        let encrypted = Self::decoder(encoded);
        let ghost (k, n, c) = choose|key: Seq<u8>, nonce: Seq<u8>, ciphertext: Seq<u8>|
            {
                &&& encodes(e, key, nonce, ciphertext)
                &&& key.len() == 32
                &&& nonce.len() == 12
                &&& aes256gcm_open(key, nonce, ciphertext) matches Some(p) ==> valid_utf8(p)
            };
        assert(encodes(e, k, n, c));
        match aes256gcm_decrypt(
            encrypted.key.as_slice(),
            encrypted.nonce.as_slice(),
            encrypted.message.as_slice(),
        ) {
            Ok(bytes) => {
                let ghost b = bytes@;
                match utf8_to_string(bytes) {
                    Some(s) => {
                        assert(encode_utf8(decode_utf8(b)) == b);
                        Ok(s)
                    },
                    None => unreached(),
                }
            },
            Err(_) => Err(CryptoError::Rejected),
        }
    }
}

impl Encryption {
    /// Decrypts `encoded`, reporting each way in which that can fail: a field
    /// that is not base64 of the right length, a ciphertext that does not
    /// open, or decrypted bytes that are not UTF-8.
    pub fn try_decrypt(encoded: &Encoded) -> (res: Result<String, CryptoError>)
        ensures
            try_decryption(*encoded, text_result(res)),
    {
        let key = match base64_decode(encoded.key.as_str()) {
            Ok(v) => v,
            Err(_) => {
                return Err(CryptoError::Undecodable);
            },
        };
        let nonce = match base64_decode(encoded.nonce.as_str()) {
            Ok(v) => v,
            Err(_) => {
                return Err(CryptoError::Undecodable);
            },
        };
        let message = match base64_decode(encoded.message.as_str()) {
            Ok(v) => v,
            Err(_) => {
                return Err(CryptoError::Undecodable);
            },
        };
        if key.len() != 32 || nonce.len() != 12 {
            assert forall|k: Seq<u8>, n: Seq<u8>, c: Seq<u8>|
                #[trigger] encodes(*encoded, k, n, c) implies !(k.len() == 32 && n.len() == 12) by {
                assert(b64_encode(k) == encoded.key@);
                assert(b64_encode(n) == encoded.nonce@);
            }
            return Err(CryptoError::Undecodable);
        }
        assert(encodes(*encoded, key@, nonce@, message@));
        assert forall|k: Seq<u8>, n: Seq<u8>, c: Seq<u8>|
            #[trigger] encodes(*encoded, k, n, c) implies k == key@ && n == nonce@ && c == message@ by {
            assert(b64_encode(k) == encoded.key@);
            assert(b64_encode(n) == encoded.nonce@);
            assert(b64_encode(c) == encoded.message@);
        }
        match aes256gcm_decrypt(key.as_slice(), nonce.as_slice(), message.as_slice()) {
            Ok(bytes) => {
                match utf8_to_string(bytes) {
                    Some(_) => Self::decrypter(encoded.clone()),
                    None => {
                        Err(CryptoError::NotText)
                    },
                }
            },
            Err(_) => {
                Err(CryptoError::Rejected)
            },
        }
    }
}

/// Decrypting what `Encrypt::new` produced from a text gives that text back:
/// the encoded asset meets `Decrypt::decrypter`'s precondition, and the only
/// result its contract allows is `Ok` of the original text.
pub proof fn lemma_decrypter_recovers_message(
    e: Encryption,
    text: Seq<char>,
    res: Result<Seq<char>, CryptoError>,
)
    requires
        e.encrypts(text),
        decryption(e.encoded_view(), res),
    ensures
        decrypts_to_text(e.encoded_view()),
        res == Ok::<Seq<char>, CryptoError>(text),
{
    assert(encodes(e.encoded_view(), e.key_bytes(), e.nonce_bytes(), e.ciphertext()));
    match res {
        Ok(t) => {
            assert(encode_utf8(t) == encode_utf8(text));
            assert(decode_utf8(encode_utf8(t)) == t);
            assert(decode_utf8(encode_utf8(text)) == text);
        },
        Err(_) => {},
    }
}

/// Decoding the base64 text that `Encrypt::encoder` produced gives back the
/// same key, nonce and ciphertext: the text meets `Decrypt::decoder`'s
/// precondition, and every result that its contract allows holds them.
pub proof fn lemma_decoder_inverts_encoder(
    key: Seq<u8>,
    nonce: Seq<u8>,
    ciphertext: Seq<u8>,
    e: Encoded,
    decoded: Encryption,
)
    requires
        key.len() == 32,
        nonce.len() == 12,
        encodes(e, key, nonce, ciphertext),
        forall|k: Seq<u8>, n: Seq<u8>, c: Seq<u8>|
            #[trigger] encodes(e, k, n, c) ==> {
                &&& decoded.key_bytes() == k
                &&& decoded.nonce_bytes() == n
                &&& decoded.ciphertext() == c
            },
    ensures
        decodable(e),
        decoded.key_bytes() == key,
        decoded.nonce_bytes() == nonce,
        decoded.ciphertext() == ciphertext,
{
}

proof fn lemma_b64_symbol_line_safe(v: int)
    requires
        0 <= v,
    ensures
        b64_symbol(v) != '\n',
        b64_symbol(v) != '\r',
{
}

/// Base64 text never holds a line break, and is empty only for no bytes.
pub proof fn lemma_b64_line_safe(b: Seq<u8>)
    ensures
        line_safe(b64_encode(b)),
        b.len() > 0 ==> b64_encode(b).len() > 0,
    decreases b.len(),
{
    if b.len() >= 3 {
        lemma_b64_line_safe(b.skip(3));
    }
    assert forall|i: int| 0 <= i < b64_encode(b).len() implies b64_encode(b)[i] != '\n'
        && b64_encode(b)[i] != '\r' by {
        if b.len() == 1 {
            lemma_b64_symbol_line_safe((b[0] >> 2u8) as int);
            lemma_b64_symbol_line_safe(((b[0] & 3u8) << 4u8) as int);
        } else if b.len() == 2 {
            lemma_b64_symbol_line_safe((b[0] >> 2u8) as int);
            lemma_b64_symbol_line_safe((((b[0] & 3u8) << 4u8) | (b[1] >> 4u8)) as int);
            lemma_b64_symbol_line_safe(((b[1] & 15u8) << 2u8) as int);
        } else if b.len() >= 3 {
            lemma_b64_symbol_line_safe((b[0] >> 2u8) as int);
            lemma_b64_symbol_line_safe((((b[0] & 3u8) << 4u8) | (b[1] >> 4u8)) as int);
            lemma_b64_symbol_line_safe((((b[1] & 15u8) << 2u8) | (b[2] >> 6u8)) as int);
            lemma_b64_symbol_line_safe((b[2] & 63u8) as int);
        }
    }
}

/// What `Encoded::to_file_contents` writes, `Encoded::from_lines` reads back:
/// the three lines of an asset text are its key, nonce and ciphertext, when
/// none of them holds a line break and the ciphertext is not empty.
pub proof fn lemma_asset_text_lines(e: Encoded)
    requires
        line_safe(e.key@),
        line_safe(e.nonce@),
        line_safe(e.message@),
        e.message@.len() > 0,
    ensures
        lines(asset_text(e)) == seq![e.key@, e.nonce@, e.message@],
{
    reveal_strlit("\n");
    let tail = e.nonce@ + seq!['\n'] + e.message@;
    assert(asset_text(e) =~= e.key@ + seq!['\n'] + tail);
    lemma_lines_first(e.key@, tail);
    lemma_lines_first(e.nonce@, e.message@);
    lemma_lines_single(e.message@);
    assert(strip_cr(e.key@) == e.key@);
    assert(strip_cr(e.nonce@) == e.nonce@);
    assert(lines(asset_text(e)) =~= seq![e.key@, e.nonce@, e.message@]);
}

/// The asset file of an encryption reads back as its own encoded fields,
/// whenever its ciphertext is not empty (as every output of `Encrypt::new` is).
pub proof fn lemma_asset_file_roundtrip(e: Encryption)
    requires
        e.wf(),
        e.ciphertext().len() > 0,
    ensures
        lines(asset_text(e.encoded_view())) == seq![
            e.encoded_view().key@,
            e.encoded_view().nonce@,
            e.encoded_view().message@,
        ],
{
    lemma_b64_line_safe(e.key_bytes());
    lemma_b64_line_safe(e.nonce_bytes());
    lemma_b64_line_safe(e.ciphertext());
    lemma_asset_text_lines(e.encoded_view());
}

/// Writing the asset of an encryption of `text` and reading it back gives
/// `text`: the asset text has three lines, and checked decryption of the
/// fields read from them can only give `Ok(text)`.
pub proof fn lemma_asset_file_decrypts(
    e: Encryption,
    text: Seq<char>,
    read: Encoded,
    res: Result<Seq<char>, CryptoError>,
)
    requires
        e.encrypts(text),
        e.ciphertext().len() > 0,
        lines(asset_text(e.encoded_view())).len() >= 3 ==> {
            &&& read.key@ == lines(asset_text(e.encoded_view()))[0]
            &&& read.nonce@ == lines(asset_text(e.encoded_view()))[1]
            &&& read.message@ == lines(asset_text(e.encoded_view()))[2]
        },
        try_decryption(read, res),
    ensures
        lines(asset_text(e.encoded_view())).len() >= 3,
        res == Ok::<Seq<char>, CryptoError>(text),
{
    lemma_asset_file_roundtrip(e);
    let k = e.key_bytes();
    let n = e.nonce_bytes();
    let c = e.ciphertext();
    assert(encodes(read, k, n, c));
    assert(decodable(read));
    match res {
        Ok(t) => {
            assert(encode_utf8(t) == encode_utf8(text));
            assert(decode_utf8(encode_utf8(t)) == t);
            assert(decode_utf8(encode_utf8(text)) == text);
        },
        Err(_) => {},
    }
}

} // verus!
