//! The effectful edges of the generator: randomness, wall-clock time and
//! synthetic payload text, each behind one thin trusted call.
//!
//! Nothing here promises a particular value — a random draw, the current
//! time and randomly generated text admit none — so every verified caller
//! takes these results as arguments and is proved for every value they
//! could have.

use vstd::prelude::*;

verus! {

/// Relies on rand::random: one machine word of randomness. Nothing can be
/// promised of the value.
#[verifier::external_body]
pub(crate) fn random_u64() -> u64 {
    rand::random::<u64>()
}

/// Relies on uuid::Uuid::new_v4 and Uuid::as_u128: 128 random bits with
/// the version nibble set to 4 and the variant bits set to the standard
/// one-zero pattern, big-endian.
#[verifier::external_body]
pub(crate) fn fresh_uuid_bits() -> (r: u128)
    ensures
        (r >> 76u128) & 0xf == 4,
        (r >> 62u128) & 0x3 == 2,
{
    uuid::Uuid::new_v4().as_u128()
}

/// Relies on chrono::Utc::now and DateTime::timestamp_millis: the current
/// wall-clock time in milliseconds since the epoch. Nothing can be
/// promised of the value.
#[verifier::external_body]
pub(crate) fn now_millis() -> i64 {
    chrono::Utc::now().timestamp_millis()
}

/// Relies on lipsum::lipsum_words_with_rng: `n` words of generated text,
/// randomized through rand::thread_rng, so nothing can be promised of the
/// value.
#[verifier::external_body]
pub(crate) fn lorem_words(n: usize) -> String {
    lipsum::lipsum_words_with_rng(rand::thread_rng(), n)
}

/// Clamps a signed epoch-milliseconds reading to the unsigned capture
/// timestamp carried by an envelope: a clock before the epoch reads 0.
pub fn clamp_epoch_millis(t: i64) -> (r: u64)
    ensures
        r == (if t < 0 {
            0u64
        } else {
            t as u64
        }),
{
    if t < 0 {
        0
    } else {
        t as u64
    }
}

/// The current wall-clock capture timestamp: non-negative epoch
/// milliseconds.
pub fn capture_timestamp() -> u64 {
    clamp_epoch_millis(now_millis())
}

} // verus!
