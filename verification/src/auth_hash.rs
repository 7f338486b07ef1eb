//! Fingerprints of identity strings.
//!
//! A fingerprint is the lookup key under which a nickname or an auth id is
//! stored. It is a function of the string's bytes alone and never changes:
//! changing it would orphan every registered user.

use vstd::prelude::*;
use vstd::bytes::*;
use vstd::string::*;

verus! {

/// Length of a fingerprint in bytes.
pub const FINGERPRINT_LEN: usize = 64;

/// Number of independent 64-bit lanes that make up a fingerprint.
pub const LANES: u8 = 8;

/// Initial state of a lane before its number is absorbed.
pub const OFFSET_BASIS: u64 = 0xcbf29ce484222325;

/// Multiplier applied after each absorbed byte.
pub const PRIME: u64 = 0x100000001b3;

/// One absorption step: fold the byte into the state and multiply modulo 2^64.
pub open spec fn absorb(state: u64, byte: u8) -> u64 {
    (state ^ (byte as u64)).wrapping_mul(PRIME)
}

/// State of lane `lane` after absorbing the lane number and then `input`.
pub open spec fn lane_digest(lane: u8, input: Seq<u8>) -> u64
    decreases input.len(),
{
    if input.len() == 0 {
        absorb(OFFSET_BASIS, lane)
    } else {
        absorb(lane_digest(lane, input.drop_last()), input.last())
    }
}

/// The little-endian words of the first `n` lanes, one after the other.
pub open spec fn lane_words(input: Seq<u8>, n: nat) -> Seq<u8>
    decreases n,
{
    if n == 0 {
        Seq::empty()
    } else {
        lane_words(input, (n - 1) as nat) + spec_u64_to_le_bytes(
            lane_digest((n - 1) as u8, input),
        )
    }
}

/// The fingerprint of a byte string: the words of all lanes.
pub open spec fn fingerprint(input: Seq<u8>) -> Seq<u8> {
    lane_words(input, LANES as nat)
}

/// A fingerprint has the same length whatever the input.
pub proof fn lemma_fingerprint_len(input: Seq<u8>)
    ensures
        fingerprint(input).len() == FINGERPRINT_LEN,
{
    lemma_lane_words_len(input, LANES as nat);
}

proof fn lemma_lane_words_len(input: Seq<u8>, n: nat)
    ensures
        lane_words(input, n).len() == 8 * n,
    decreases n,
{
    if n > 0 {
        lemma_lane_words_len(input, (n - 1) as nat);
        lemma_auto_spec_u64_to_from_le_bytes();
    }
}

fn absorb_byte(state: u64, byte: u8) -> (next: u64)
    ensures
        next == absorb(state, byte),
{
    (state ^ (byte as u64)).wrapping_mul(PRIME)
}

fn digest_lane(lane: u8, input: &[u8]) -> (state: u64)
    ensures
        state == lane_digest(lane, input@),
{
    let mut state: u64 = absorb_byte(OFFSET_BASIS, lane);
    let mut i: usize = 0;
    while i < input.len()
        invariant
            i <= input.len(),
            state == lane_digest(lane, input@.take(i as int)),
        decreases input.len() - i,
    {
        proof {
            assert(input@.take(i + 1).drop_last() == input@.take(i as int));
        }
        state = absorb_byte(state, input[i]);
        i += 1;
    }
    proof {
        assert(input@.take(i as int) == input@);
    }
    state
}

/// Writes the fingerprint of the bytes into `buf`, replacing what it held.
pub fn fingerprint_into(input: &[u8], buf: &mut Vec<u8>)
    ensures
        final(buf)@ == fingerprint(input@),
        final(buf)@.len() == FINGERPRINT_LEN,
{
    buf.clear();
    let mut lane: u8 = 0;
    while lane < LANES
        invariant
            lane <= LANES,
            buf@ == lane_words(input@, lane as nat),
        decreases LANES - lane,
    {
        let mut word = u64_to_le_bytes(digest_lane(lane, input));
        buf.append(&mut word);
        lane += 1;
    }
    proof {
        lemma_fingerprint_len(input@);
    }
}

/// Writes the fingerprint of an identity string into `buf`, replacing what
/// it held.
pub fn auth_id_hash(input: &str, buf: &mut Vec<u8>)
    ensures
        final(buf)@ == fingerprint(input.spec_bytes()),
        final(buf)@.len() == FINGERPRINT_LEN,
{
    fingerprint_into(input.as_bytes(), buf);
}

} // verus!
