//! What travels to and from the speech services as text: the recognition
//! payload, which carries a finished container in base64, and the audio
//! that a synthesis answer carries the same way.

use vstd::prelude::*;
use vstd::string::StringSliceAdditionalSpecFns;
use crate::container::AudioContainer;

verus! {

/// The character that stands for a 6-bit value in the standard base64
/// alphabet: `A`-`Z`, `a`-`z`, `0`-`9`, `+`, `/`.
pub open spec fn alphabet(value: int) -> char {
    if value < 26 {
        (65 + value) as char
    } else if value < 52 {
        (97 + (value - 26)) as char
    } else if value < 62 {
        (48 + (value - 52)) as char
    } else if value == 62 {
        '+'
    } else {
        '/'
    }
}

/// The byte at `index`, or 0 past the end.
pub open spec fn byte_or_zero(bytes: Seq<u8>, index: int) -> int {
    if 0 <= index < bytes.len() {
        bytes[index] as int
    } else {
        0
    }
}

/// The character at `position` of the base64 text of `bytes`. Each group of
/// three bytes gives four characters of six bits each, most significant
/// bits first; a last group of one or two bytes is filled with zero bits and
/// its unused characters are `=`.
pub open spec fn base64_char(bytes: Seq<u8>, position: int) -> char {
    let group = position / 4;
    let first = byte_or_zero(bytes, 3 * group);
    let second = byte_or_zero(bytes, 3 * group + 1);
    let third = byte_or_zero(bytes, 3 * group + 2);
    let place = position % 4;
    if place == 0 {
        alphabet(first / 4)
    } else if place == 1 {
        alphabet((first % 4) * 16 + second / 16)
    } else if place == 2 {
        if 3 * group + 1 < bytes.len() {
            alphabet((second % 16) * 4 + third / 64)
        } else {
            '='
        }
    } else {
        if 3 * group + 2 < bytes.len() {
            alphabet(third % 64)
        } else {
            '='
        }
    }
}

/// Length of the base64 text of `length` bytes: four characters for every
/// three bytes, the last group counted whole.
pub open spec fn base64_len(length: nat) -> nat {
    4 * ((length + 2) / 3)
}

/// The padded base64 text of `bytes` in the standard alphabet, without line
/// breaks.
pub open spec fn base64_text(bytes: Seq<u8>) -> Seq<char> {
    Seq::new(base64_len(bytes.len()), |position: int| base64_char(bytes, position))
}

/// What `base64::decode` makes of a text: the bytes it stands for, or
/// nothing where the decoder rejects it.
pub uninterp spec fn base64_decoded(text: Seq<char>) -> Option<Seq<u8>>;

/// Trusted: `base64::DecodeError`, the decoder's reason for rejecting a
/// text. It is carried through and never looked into.
#[verifier::external_type_specification]
#[verifier::external_body]
pub struct ExDecodeError(base64::DecodeError);

/// Trusted: `base64::encode`. It returns the padded base64 text of its input
/// in the standard alphabet, with no line breaks. It panics where the
/// length of that text cannot be allocated, which the precondition rules
/// out.
#[verifier::external_body]
fn base64_encode(bytes: &[u8]) -> (text: String)
    requires
        base64_len(bytes@.len()) <= isize::MAX,
    ensures
        text@ == base64_text(bytes@),
{
    base64::encode(bytes)
}

/// Trusted: `base64::decode`. Its answer depends on the text alone; the
/// contract gives that answer a name and claims nothing more of it. The
/// decoder sizes its buffer at four thirds of the text's byte length, which
/// the precondition keeps from overflowing.
#[verifier::external_body]
fn base64_decode(text: &str) -> (result: Result<Vec<u8>, base64::DecodeError>)
    requires
        text.spec_bytes().len() * 4 <= usize::MAX,
    ensures
        match result {
            Ok(bytes) => base64_decoded(text@) == Some(bytes@),
            Err(_) => base64_decoded(text@) is None,
        },
{
    base64::decode(text)
}

/// What is handed to the recognition service for one recording.
#[derive(Debug)]
pub struct RecognitionPayload {
    /// The container's bytes in base64.
    pub encoded_audio: String,
    /// The container's sample rate.
    pub sample_rate_hz: u32,
    /// How the audio is encoded: always `LINEAR16`.
    pub encoding_name: String,
}

/// Builds the recognition payload for a finished container. `image` holds
/// the container's bytes as they lie in storage; they are carried whole, in
/// base64. The sample rate is the one the container's header declares.
pub fn prepare(container: &AudioContainer, image: &[u8]) -> (payload: RecognitionPayload)
    requires
        base64_len(image@.len()) <= isize::MAX,
    ensures
        payload.encoded_audio@ == base64_text(image@),
        payload.sample_rate_hz == container@.spec.sample_rate,
        payload.encoding_name@ == "LINEAR16"@,
{
    RecognitionPayload {
        encoded_audio: base64_encode(image),
        sample_rate_hz: container.spec().sample_rate,
        encoding_name: "LINEAR16".to_owned(),
    }
}

/// Whether a text is short enough for the decoder's buffer arithmetic.
pub open spec fn decodable_length(text: &str) -> bool {
    text.spec_bytes().len() * 4 <= usize::MAX
}

/// Recovers the audio bytes that a synthesis answer carries as base64 text.
/// Returns nothing where the text is too long for the decoder or the
/// decoder rejects it.
pub fn decode_audio_content(content: &str) -> (audio: Option<Vec<u8>>)
    ensures
        !decodable_length(content) ==> audio is None,
        decodable_length(content) ==> match audio {
            Some(bytes) => base64_decoded(content@) == Some(bytes@),
            None => base64_decoded(content@) is None,
        },
{
    if content.as_bytes().len() > usize::MAX / 4 {
        return None;
    }
    match base64_decode(content) {
        Ok(bytes) => Some(bytes),
        Err(_) => None,
    }
}

} // verus!
