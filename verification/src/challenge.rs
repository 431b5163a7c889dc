//! The session challenge: 128 pseudorandom bytes, sent as 256 lowercase
//! hexadecimal characters.
//!
//! The challenge marks a session on the wire. It is not a cryptographic
//! proof of anything.

use crate::text::digit_char;
use vstd::prelude::*;

verus! {

/// How many bytes are drawn for one challenge.
pub const CHALLENGE_BYTES: usize = 128;

/// Every drawn byte lies below this bound.
pub const BYTE_BOUND: u8 = 0xFF;

/// The lowercase hexadecimal digit of a value below 16.
pub open spec fn hex_digit(nibble: int) -> char {
    if nibble < 10 {
        digit_char(nibble)
    } else if nibble == 10 {
        'a'
    } else if nibble == 11 {
        'b'
    } else if nibble == 12 {
        'c'
    } else if nibble == 13 {
        'd'
    } else if nibble == 14 {
        'e'
    } else {
        'f'
    }
}

/// Whether `c` is one of `0`-`9`, `a`-`f`.
pub open spec fn is_hex_digit(c: char) -> bool {
    exists|nibble: int| 0 <= nibble < 16 && c == #[trigger] hex_digit(nibble)
}

/// Two lowercase hexadecimal digits for each byte, high half first.
pub open spec fn hex_text(bytes: Seq<u8>) -> Seq<char> {
    Seq::new(
        2 * bytes.len(),
        |i: int|
            if i % 2 == 0 {
                hex_digit(bytes[i / 2] as int / 16)
            } else {
                hex_digit(bytes[i / 2] as int % 16)
            },
    )
}

/// Bytes that one draw of a challenge can produce.
pub open spec fn is_challenge_draw(bytes: Seq<u8>) -> bool {
    &&& bytes.len() == CHALLENGE_BYTES
    &&& forall|i: int| 0 <= i < bytes.len() ==> bytes[i] < BYTE_BOUND
}

/// Texts that can be sent as a challenge: the encoding of some draw.
pub open spec fn is_challenge(text: Seq<char>) -> bool {
    exists|bytes: Seq<u8>| is_challenge_draw(bytes) && text == #[trigger] hex_text(bytes)
}

/// `rand::rngs::ThreadRng`, the handle to a thread's generator. Nothing is
/// known of what is inside.
#[verifier::external_type_specification]
#[verifier::external_body]
pub struct ExThreadRng(rand::rngs::ThreadRng);

/// `rand::thread_rng` hands out the calling thread's generator. Nothing is
/// claimed of it.
pub assume_specification[ rand::thread_rng ]() -> rand::rngs::ThreadRng;

/// `Rng::sample` on `Uniform::new(low, high)`: a value of the half-open range
/// from `low` up to, not including, `high`. `Uniform::new` panics unless
/// `low < high`.
#[verifier::external_body]
fn sample_between(rng: &mut rand::rngs::ThreadRng, low: u8, high: u8) -> (byte: u8)
    requires
        low < high,
    ensures
        low <= byte < high,
{
    rand::Rng::sample(rng, rand::distributions::Uniform::new(low, high))
}

/// `hex::encode`: each byte becomes two characters of `0123456789abcdef`,
/// the high four bits first.
#[verifier::external_body]
fn hex_encode(bytes: &[u8]) -> (text: String)
    ensures
        text@ == hex_text(bytes@),
{
    hex::encode(bytes)
}

/// The wire text of drawn bytes.
pub fn challenge_text(bytes: &[u8]) -> (text: String)
    ensures
        text@ == hex_text(bytes@),
        is_challenge_draw(bytes@) ==> is_challenge(text@),
{
    hex_encode(bytes)
}

/// Draws a fresh challenge.
pub fn generate_hmac() -> (payload: String)
    ensures
        is_challenge(payload@),
{
    let mut rng = rand::thread_rng();
    let mut drawn: Vec<u8> = Vec::new();
    while drawn.len() < CHALLENGE_BYTES
        invariant
            drawn.len() <= CHALLENGE_BYTES,
            forall|i: int| 0 <= i < drawn.len() ==> drawn[i] < BYTE_BOUND,
        decreases CHALLENGE_BYTES - drawn.len(),
    {
        let byte = sample_between(&mut rng, 0x00, BYTE_BOUND);
        drawn.push(byte);
    }
    challenge_text(drawn.as_slice())
}

/// There are challenges: all zeros is one.
pub proof fn lemma_challenge_exists()
    ensures
        exists|text: Seq<char>| is_challenge(text),
{
    let zeros = Seq::new(CHALLENGE_BYTES as nat, |i: int| 0u8);
    assert(is_challenge_draw(zeros));
    assert(is_challenge(hex_text(zeros)));
}

/// A challenge is 256 characters long and made of lowercase hexadecimal
/// digits only.
pub proof fn lemma_challenge_shape(text: Seq<char>)
    requires
        is_challenge(text),
    ensures
        text.len() == 2 * CHALLENGE_BYTES,
        forall|i: int| 0 <= i < text.len() ==> is_hex_digit(#[trigger] text[i]),
{
    let bytes = choose|bytes: Seq<u8>| is_challenge_draw(bytes) && text == #[trigger] hex_text(bytes);
    assert forall|i: int| 0 <= i < text.len() implies is_hex_digit(#[trigger] text[i]) by {
        let byte = bytes[i / 2] as int;
        if i % 2 == 0 {
            assert(text[i] == hex_digit(byte / 16));
        } else {
            assert(text[i] == hex_digit(byte % 16));
        }
    }
}

} // verus!
