//! The library's stated laws: what holds of every cell across whole
//! lifecycles — reveal round trips, one-shot consumption, the terminal and
//! idempotent character of a wipe, guaranteed expiry of a zero
//! time-to-live, and the two masking regimes.
use vstd::prelude::*;

use crate::cell::masked_spec;
use crate::cell::reveal_spec;
use crate::cell::ttl_expired;
use crate::cell::wipe_spec;
use crate::cell::CellError;
use crate::cell::CellView;
use crate::text::all_zero;
use crate::text::lossy_utf8;
use crate::text::stars;

verus! {

/// A full reveal of a readable (not all-zero), unexpired, non-volatile cell
/// returns exactly the buffer decoded as text and leaves the cell unchanged.
/// An all-zero buffer is the one exclusion: there the reveal reports the
/// cell empty instead.
pub proof fn lemma_reveal_returns_secret(c: CellView, e: u64)
    requires
        !all_zero(c.bytes),
        !c.volatile,
        !ttl_expired(c, e),
    ensures
        reveal_spec(c, e).1 == Ok::<Seq<char>, CellError>(lossy_utf8(c.bytes)),
        reveal_spec(c, e).0 == c,
{
}

/// A volatile cell is consumed by its one successful reveal: the first
/// unexpired reveal of a readable volatile cell yields the secret and wipes
/// the cell, and every later unexpired reveal fails with the empty-cell
/// error.
pub proof fn lemma_volatile_single_use(c: CellView, e1: u64, e2: u64)
    requires
        c.volatile,
        !all_zero(c.bytes),
        !ttl_expired(c, e1),
        !ttl_expired(c, e2),
    ensures
        reveal_spec(c, e1).1 == Ok::<Seq<char>, CellError>(lossy_utf8(c.bytes)),
        all_zero(reveal_spec(c, e1).0.bytes),
        reveal_spec(reveal_spec(c, e1).0, e2).1 == Err::<Seq<char>, CellError>(
            CellError::EmptyCell,
        ),
{
}

/// A wipe is terminal and idempotent: it zeroes every byte and drops the pin
/// grant; afterwards an unexpired full reveal and every masked reveal fail
/// with the empty-cell error and change nothing; and wiping again is the
/// identity. (An expired time-to-live is the one exclusion on the reveal:
/// there the failure is the expiry error, the state equally wiped.)
pub proof fn lemma_wipe_is_terminal(c: CellView, e: u64, suffix_len: int)
    requires
        !ttl_expired(c, e),
    ensures
        all_zero(wipe_spec(c).bytes),
        !wipe_spec(c).pinned,
        reveal_spec(wipe_spec(c), e).1 == Err::<Seq<char>, CellError>(CellError::EmptyCell),
        reveal_spec(wipe_spec(c), e).0 == wipe_spec(c),
        masked_spec(wipe_spec(c), suffix_len) == Err::<Seq<char>, CellError>(CellError::EmptyCell),
        wipe_spec(wipe_spec(c)) == wipe_spec(c),
{
    assert(wipe_spec(wipe_spec(c)).bytes =~= wipe_spec(c).bytes);
    assert(wipe_spec(wipe_spec(c)) =~= wipe_spec(c));
}

/// The lifecycle is one-directional: a wiped state (all-zero buffer, no pin
/// grant) is a fixed point. No operation returns content from it and none
/// changes it — a full reveal at any elapsed time fails, a masked reveal at
/// any suffix fails.
pub proof fn lemma_wiped_stays_wiped(c: CellView, e: u64, suffix_len: int)
    requires
        all_zero(c.bytes),
        !c.pinned,
    ensures
        reveal_spec(c, e).0 == c,
        reveal_spec(c, e).1 is Err,
        masked_spec(c, suffix_len) == Err::<Seq<char>, CellError>(CellError::EmptyCell),
{
    assert(wipe_spec(c).bytes =~= c.bytes);
    assert(wipe_spec(c) =~= c);
}

/// A zero time-to-live admits no reveal: at every positive elapsed time the
/// reveal fails with the expiry error and wipes the cell. (A reading of
/// exactly zero elapsed nanoseconds is the one exclusion: the deadline is
/// compared strictly.)
pub proof fn lemma_zero_ttl_always_expires(c: CellView, e: u64)
    requires
        c.ttl_sec == Some(0u64),
        e >= 1,
    ensures
        reveal_spec(c, e).1 == Err::<Seq<char>, CellError>(CellError::TTLExpired),
        reveal_spec(c, e).0 == wipe_spec(c),
        all_zero(reveal_spec(c, e).0.bytes),
{
}

/// A suffix at least as long as the buffer masks nothing: the masked reveal
/// of a readable cell returns the whole secret decoded as text.
pub proof fn lemma_masked_long_suffix_unmasked(c: CellView, suffix_len: int)
    requires
        !all_zero(c.bytes),
        suffix_len >= c.bytes.len(),
    ensures
        masked_spec(c, suffix_len) == Ok::<Seq<char>, CellError>(lossy_utf8(c.bytes)),
{
}

/// A shorter suffix masks the rest: the masked reveal of a readable cell is
/// one mask character for each hidden byte, followed by the trailing
/// `suffix_len` bytes decoded as text.
pub proof fn lemma_masked_short_suffix(c: CellView, suffix_len: int)
    requires
        !all_zero(c.bytes),
        0 <= suffix_len < c.bytes.len(),
    ensures
        masked_spec(c, suffix_len) == Ok::<Seq<char>, CellError>(
            stars(c.bytes.len() - suffix_len) + lossy_utf8(
                c.bytes.subrange(c.bytes.len() - suffix_len, c.bytes.len() as int),
            ),
        ),
{
}

} // verus!
