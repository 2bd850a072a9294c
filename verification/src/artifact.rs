//! The witness as it travels: encoded as text, with a placeholder key.

use crate::text::{push_signed_decimal, signed_decimal};
use base64::Engine;
use vstd::prelude::*;
use vstd::string::StringExecFns;

verus! {

/// The text that standard base64, with padding, gives for `bytes`.
pub uninterp spec fn standard_base64(bytes: Seq<u8>) -> Seq<char>;

/// How many characters padded base64 needs for `n` bytes: four for every
/// three bytes or part of three.
pub open spec fn encoded_length(n: nat) -> nat {
    4 * ((n + 2) / 3)
}

/// Whether `c` is one of the characters that standard base64 writes: a
/// letter, a digit, `+`, `/`, or the `=` of the padding.
pub open spec fn is_base64_char(c: char) -> bool {
    let code = c as u32;
    ||| 0x41 <= code <= 0x5A
    ||| 0x61 <= code <= 0x7A
    ||| 0x30 <= code <= 0x39
    ||| c == '+'
    ||| c == '/'
    ||| c == '='
}

/// Whether `text` holds nothing but characters that standard base64 writes.
pub open spec fn in_base64_alphabet(text: Seq<char>) -> bool {
    forall|i: int| 0 <= i < text.len() ==> is_base64_char(#[trigger] text[i])
}

/// The most bytes whose encoding can certainly be addressed on this machine.
pub open spec fn max_encodable() -> nat {
    ((usize::MAX / 4) * 3) as nat
}

/// `base64::DecodeError`, the reason a text was refused by the decoder. It is
/// carried and never looked into.
#[verifier::external_type_specification]
#[verifier::external_body]
pub struct ExDecodeError(base64::DecodeError);

/// `encode` of `base64::engine::general_purpose::STANDARD`.
///
/// Trusted: the text is the standard padded base64 of `bytes`; it is exactly
/// as long as that encoding is defined to be; and it holds only the
/// characters of the standard alphabet and the padding character. The call
/// panics when that length does not fit the machine's address range, which
/// the precondition rules out.
#[verifier::external_body]
fn base64_encode(bytes: &[u8]) -> (text: String)
    requires
        encoded_length(bytes@.len()) <= usize::MAX,
    ensures
        text@ == standard_base64(bytes@),
        text@.len() == encoded_length(bytes@.len()),
        in_base64_alphabet(text@),
{
    base64::engine::general_purpose::STANDARD.encode(bytes)
}

/// `decode` of `base64::engine::general_purpose::STANDARD`.
///
/// Trusted: decoding undoes encoding. Whatever byte sequence `text` is the
/// standard padded base64 of, the call succeeds and returns those bytes.
/// Nothing is claimed of any other text.
#[verifier::external_body]
fn base64_decode(text: &str) -> (decoded: Result<Vec<u8>, base64::DecodeError>)
    ensures
        forall|bytes: Seq<u8>|
            #![trigger standard_base64(bytes)]
            text@ == standard_base64(bytes) ==> decoded is Ok && decoded->Ok_0@ == bytes,
{
    base64::engine::general_purpose::STANDARD.decode(text)
}

/// `from` of `chrono::DateTime<chrono::Utc>` on the system clock's time, then
/// `timestamp`: the seconds from the start of 1970 to now, negative while the
/// clock is set before 1970.
///
/// No claim is made of the value, which differs from call to call.
#[verifier::external_body]
pub(crate) fn clock_seconds() -> (seconds: i64) {
    chrono::DateTime::<chrono::Utc>::from(std::time::SystemTime::now()).timestamp()
}

/// Encodes a witness as text, in standard base64 with padding. A witness
/// too long for its encoding to be addressed on this machine is refused.
pub fn encode_artifact(bytes: &[u8]) -> (text: Option<String>)
    ensures
        bytes@.len() <= max_encodable() ==> text is Some && text->Some_0@ == standard_base64(
            bytes@,
        ) && text->Some_0@.len() == encoded_length(bytes@.len()) && in_base64_alphabet(
            text->Some_0@,
        ),
        bytes@.len() > max_encodable() ==> text is None,
{
    if bytes.len() <= (usize::MAX / 4) * 3 {
        Some(base64_encode(bytes))
    } else {
        None
    }
}

/// Reads a witness back from its text.
///
/// Decoding undoes encoding: the text that [`encode_artifact`] gave for a
/// witness decodes to that witness, byte for byte. A text that no witness
/// encodes to may be refused.
pub fn decode_artifact(text: &str) -> (bytes: Option<Vec<u8>>)
    ensures
        forall|witness: Seq<u8>|
            text@ == #[trigger] standard_base64(witness) ==> (bytes matches Some(found) && found@
                == witness),
{
    match base64_decode(text) {
        Ok(found) => Some(found),
        Err(_) => None,
    }
}

/// The label that every placeholder key begins with.
pub open spec fn key_label() -> Seq<char> {
    "witness_verification_placeholder_"@
}

/// The placeholder key of an attempt made at `timestamp`.
pub open spec fn placeholder_key(timestamp: int) -> Seq<char> {
    key_label() + signed_decimal(timestamp)
}

/// The placeholder that stands where a verification key will stand: a fixed
/// label followed by the time of the attempt, in seconds since the start of
/// 1970. It is not a key and verifies nothing.
pub fn placeholder_verification_key(timestamp: i64) -> (key: String)
    ensures
        key@ == placeholder_key(timestamp as int),
{
    let mut key = String::from_str("witness_verification_placeholder_");
    push_signed_decimal(&mut key, timestamp);
    key
}

} // verus!
