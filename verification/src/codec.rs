//! Base64 text for binary values, through the `base64` crate.
use vstd::prelude::*;
use base64::prelude::BASE64_STANDARD;
use base64::Engine;

verus! {

/// The symbol of the standard base64 alphabet (RFC 4648, table 1) for a 6-bit value.
pub open spec fn b64_symbol(v: int) -> char {
    if v < 26 {
        (65 + v) as char
    } else if v < 52 {
        (97 + (v - 26)) as char
    } else if v < 62 {
        (48 + (v - 52)) as char
    } else if v == 62 {
        '+'
    } else {
        '/'
    }
}

/// Standard base64 with `=` padding (RFC 4648, section 4): every three bytes
/// become four symbols, and a final group of one or two bytes is padded.
pub open spec fn b64_encode(b: Seq<u8>) -> Seq<char>
    decreases b.len(),
{
    if b.len() == 0 {
        Seq::empty()
    } else if b.len() == 1 {
        seq![b64_symbol((b[0] >> 2u8) as int), b64_symbol(((b[0] & 3u8) << 4u8) as int), '=', '=']
    } else if b.len() == 2 {
        seq![
            b64_symbol((b[0] >> 2u8) as int),
            b64_symbol((((b[0] & 3u8) << 4u8) | (b[1] >> 4u8)) as int),
            b64_symbol(((b[1] & 15u8) << 2u8) as int),
            '=',
        ]
    } else {
        seq![
            b64_symbol((b[0] >> 2u8) as int),
            b64_symbol((((b[0] & 3u8) << 4u8) | (b[1] >> 4u8)) as int),
            b64_symbol((((b[1] & 15u8) << 2u8) | (b[2] >> 6u8)) as int),
            b64_symbol((b[2] & 63u8) as int),
        ] + b64_encode(b.skip(3))
    }
}

/// The length of the padded encoding of `n` bytes fits in a `usize`.
pub open spec fn b64_encodable(n: nat) -> bool {
    4 * ((n + 2) / 3) <= usize::MAX
}

#[verifier::external_type_specification]
#[verifier::external_body]
pub struct ExDecodeError(base64::DecodeError);

/// `Engine::encode` of `base64::prelude::BASE64_STANDARD`: the padded
/// standard-alphabet encoding of `bytes`. The crate panics when the length of
/// the encoding overflows a `usize`, which the precondition leaves out.
#[verifier::external_body]
pub(crate) fn base64_encode(bytes: &[u8]) -> (res: String)
    requires
        b64_encodable(bytes@.len()),
    ensures
        res@ == b64_encode(bytes@),
{
    BASE64_STANDARD.encode(bytes)
}

/// `Engine::decode` of `base64::prelude::BASE64_STANDARD`. That engine requires
/// canonical padding and rejects non-zero trailing bits, so it succeeds exactly
/// on the texts that `base64_encode` produces, and gives back the bytes that
/// were encoded. Which `DecodeError` comes on a refused text is not stated.
#[verifier::external_body]
pub(crate) fn base64_decode(text: &str) -> (res: Result<Vec<u8>, base64::DecodeError>)
    ensures
        res is Ok <==> exists|b: Seq<u8>| b64_encode(b) == text@,
        res matches Ok(v) ==> b64_encode(v@) == text@ && forall|b: Seq<u8>|
            #[trigger] b64_encode(b) == text@ ==> b == v@,
{
    BASE64_STANDARD.decode(text)
}

} // verus!
