//! Ed25519 authentication of an interaction request.
//!
//! A request is authentic when the hex-encoded signature header is a valid
//! Ed25519 signature over the byte concatenation `timestamp || body` under
//! the configured hex-encoded public key. A malformed hex string, key or
//! signature is a rejection, never a failure.

use vstd::prelude::*;
use vstd::string::StrSliceExecFns;
use vstd::utf8::encode_utf8;

verus! {

/// A hexadecimal digit, upper or lower case.
pub open spec fn is_hex_digit(c: char) -> bool {
    ||| ('0' as u32) <= (c as u32) && (c as u32) <= ('9' as u32)
    ||| ('a' as u32) <= (c as u32) && (c as u32) <= ('f' as u32)
    ||| ('A' as u32) <= (c as u32) && (c as u32) <= ('F' as u32)
}

/// The numeric value of one hexadecimal digit.
pub open spec fn hex_digit_value(c: char) -> u8
    recommends
        is_hex_digit(c),
{
    if ('0' as u32) <= (c as u32) && (c as u32) <= ('9' as u32) {
        ((c as u32) - ('0' as u32)) as u8
    } else if ('a' as u32) <= (c as u32) && (c as u32) <= ('f' as u32) {
        ((c as u32) - ('a' as u32) + 10) as u8
    } else {
        ((c as u32) - ('A' as u32) + 10) as u8
    }
}

/// A well-formed hex string: an even count of hex digits.
pub open spec fn is_hex_str(s: Seq<char>) -> bool {
    s.len() % 2 == 0 && (forall|i: int| 0 <= i < s.len() ==> is_hex_digit(#[trigger] s[i]))
}

/// The bytes a hex string denotes: one byte per digit pair, high nibble first.
pub open spec fn hex_bytes_of(s: Seq<char>) -> Seq<u8>
    decreases s.len(),
{
    if s.len() < 2 {
        Seq::empty()
    } else {
        seq![(hex_digit_value(s[0]) * 16 + hex_digit_value(s[1])) as u8] + hex_bytes_of(s.skip(2))
    }
}

/// The outcome of the Ed25519 check on raw bytes: whether `key` parses as a
/// public key, `sig` as a signature, and the signature is valid over `msg`
/// under the key. A function of the three byte strings alone.
pub uninterp spec fn ed25519_valid(key: Seq<u8>, msg: Seq<u8>, sig: Seq<u8>) -> bool;

/// Relies on hex::decode: one byte per pair of hex digits, an error for an
/// odd length or for a character outside `[0-9a-fA-F]`.
#[verifier::external_body]
fn hex_decode(s: &str) -> (r: Option<Vec<u8>>)
    ensures
        r is Some <==> is_hex_str(s@),
        r matches Some(v) ==> v@ == hex_bytes_of(s@),
{
    hex::decode(s).ok()
}

/// Relies on ed25519_dalek's `PublicKey::from_bytes`, `Signature::from_bytes`
/// and `Verifier::verify`: true exactly when the bytes parse as a key and a
/// signature and the signature is valid over `msg`. Each step is a function
/// of the three byte strings alone, and a parse failure of either side is a
/// plain `false`.
#[verifier::external_body]
fn ed25519_verify(key: &Vec<u8>, msg: &Vec<u8>, sig: &Vec<u8>) -> (r: bool)
    ensures
        r == ed25519_valid(key@, msg@, sig@),
{
    let parsed_key = match ed25519_dalek::PublicKey::from_bytes(key.as_slice()) {
        Ok(parsed_key) => parsed_key,
        Err(_) => return false,
    };
    let parsed_sig = match ed25519_dalek::Signature::from_bytes(sig.as_slice()) {
        Ok(parsed_sig) => parsed_sig,
        Err(_) => return false,
    };
    ed25519_dalek::Verifier::verify(&parsed_key, msg.as_slice(), &parsed_sig).is_ok()
}

/// The byte string the platform signs: the UTF-8 bytes of the timestamp
/// header followed by those of the raw request body.
pub open spec fn signed_message(timestamp: Seq<char>, body: Seq<char>) -> Seq<u8> {
    encode_utf8(timestamp) + encode_utf8(body)
}

/// What `verify` decides: both hex fields are well formed and the decoded
/// signature is valid over the signed message under the decoded key.
pub open spec fn verify_spec(
    signature: Seq<char>,
    timestamp: Seq<char>,
    body: Seq<char>,
    public_key: Seq<char>,
) -> bool {
    &&& is_hex_str(public_key)
    &&& is_hex_str(signature)
    &&& ed25519_valid(
        hex_bytes_of(public_key),
        signed_message(timestamp, body),
        hex_bytes_of(signature),
    )
}

/// Decides whether `signature` (hex) is a valid Ed25519 signature over
/// `timestamp || body` under `public_key` (hex).
pub fn verify(signature: &String, timestamp: &String, body: &String, public_key: String) -> (r:
    bool)
    ensures
        r == verify_spec(signature@, timestamp@, body@, public_key@),
{
    let key_bytes = match hex_decode(public_key.as_str()) {
        Some(b) => b,
        None => {
            return false;
        },
    };
    let sig_bytes = match hex_decode(signature.as_str()) {
        Some(b) => b,
        None => {
            return false;
        },
    };
    let mut message = timestamp.as_str().as_bytes_vec();
    let mut body_bytes = body.as_str().as_bytes_vec();
    message.append(&mut body_bytes);
    ed25519_verify(&key_bytes, &message, &sig_bytes)
}

/// A signature or key that is not a well-formed hex string is always
/// rejected, whatever the timestamp and body.
pub proof fn lemma_malformed_hex_rejected(
    signature: Seq<char>,
    timestamp: Seq<char>,
    body: Seq<char>,
    public_key: Seq<char>,
)
    requires
        !is_hex_str(signature) || !is_hex_str(public_key),
    ensures
        !verify_spec(signature, timestamp, body, public_key),
{
}

} // verus!
