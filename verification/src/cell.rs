//! The secret cell itself: one owned byte buffer, its lifecycle
//! (active until wiped, wiped forever), its time-to-live and one-shot
//! discipline, and its full and masked reveals. Every terminal event —
//! explicit wipe, expiry discovered on access, one-shot consumption —
//! funnels through the single zeroizing wipe.
use vstd::prelude::*;
use vstd::slice::slice_subrange;
use vstd::slice::slice_to_vec;
use vstd::string::StringExecFns;

use crate::clock::elapsed_nanos;
use crate::clock::expired;
use crate::clock::instant_now;
use crate::clock::is_expired;
use crate::pin::unpin_spec;
use crate::pin::PinBudget;
use crate::text::all_zero;
use crate::text::bytes_all_zero;
use crate::text::lossy_string;
use crate::text::lossy_utf8;
use crate::text::make_mask;
use crate::text::stars;
use crate::text::zeroize_bytes;

verus! {

/// The two ways an access can fail. Both are recoverable: the caller may
/// create a fresh cell. A pin-budget refusal is never an error.
#[derive(Clone, Copy, Debug, PartialEq, Eq, Structural)]
pub enum CellError {
    /// A time-to-live-bearing cell was accessed past its deadline; the cell
    /// is wiped as a side effect of raising this.
    TTLExpired,
    /// The buffer was observed all-zero at access time — a prior wipe and a
    /// genuinely zero-valued secret are indistinguishable here.
    EmptyCell,
}

/// The mathematical state of a cell: what its buffer holds, whether a full
/// reveal consumes it, its time-to-live in seconds, and whether its pin
/// request was granted. The birth instant is opaque and stands outside the
/// view; elapsed time enters the model as an explicit value.
#[verifier::ext_equal]
pub struct CellView {
    pub bytes: Seq<u8>,
    pub volatile: bool,
    pub ttl_sec: Option<u64>,
    pub pinned: bool,
}

/// A hardened container for one sensitive byte sequence.
pub struct CypherCell {
    inner: Vec<u8>,
    volatile: bool,
    birth: std::time::Instant,
    ttl_sec: Option<u64>,
    pinned: bool,
}

impl View for CypherCell {
    type V = CellView;

    closed spec fn view(&self) -> CellView {
        CellView {
            bytes: self.inner@,
            volatile: self.volatile,
            ttl_sec: self.ttl_sec,
            pinned: self.pinned,
        }
    }
}

/// The state after a wipe: the buffer keeps its length, every byte is zero,
/// the pin grant is gone. Wiping changes nothing else, so a wiped state is a
/// fixed point of this map.
pub open spec fn wipe_spec(c: CellView) -> CellView {
    CellView { bytes: Seq::new(c.bytes.len(), |i: int| 0u8), pinned: false, ..c }
}

/// Whether the cell's time-to-live, if it has one, is exceeded after
/// `elapsed_ns` nanoseconds.
pub open spec fn ttl_expired(c: CellView, elapsed_ns: u64) -> bool {
    c.ttl_sec matches Some(t) && expired(t, elapsed_ns)
}

/// Whether a full reveal after `elapsed_ns` nanoseconds wipes the cell:
/// on expiry, and on the one-shot consumption of a readable volatile cell.
pub open spec fn reveal_wipes(c: CellView, elapsed_ns: u64) -> bool {
    ttl_expired(c, elapsed_ns) || (!all_zero(c.bytes) && c.volatile)
}

/// The outcome of a full reveal after `elapsed_ns` nanoseconds: the cell's
/// next state, and either the decoded secret or the error. Expiry is checked
/// first and wipes; an all-zero buffer fails; a volatile cell is wiped after
/// its content is taken.
pub open spec fn reveal_spec(c: CellView, elapsed_ns: u64) -> (CellView, Result<
    Seq<char>,
    CellError,
>) {
    if ttl_expired(c, elapsed_ns) {
        (wipe_spec(c), Err(CellError::TTLExpired))
    } else if all_zero(c.bytes) {
        (c, Err(CellError::EmptyCell))
    } else if c.volatile {
        (wipe_spec(c), Ok(lossy_utf8(c.bytes)))
    } else {
        (c, Ok(lossy_utf8(c.bytes)))
    }
}

/// The pin budget after a full reveal: a wipe of a pinned cell returns the
/// buffer's grant; otherwise the budget is untouched.
pub open spec fn budget_after(c: CellView, elapsed_ns: u64, b: PinBudget) -> PinBudget {
    if reveal_wipes(c, elapsed_ns) && c.pinned {
        unpin_spec(b, c.bytes.len() as int)
    } else {
        b
    }
}

/// The outcome of a masked reveal with `suffix_len` visible trailing bytes:
/// an all-zero buffer fails; a suffix at least as long as the buffer yields
/// the whole secret unmasked; otherwise mask characters followed by the
/// decoded trailing bytes. No state changes and no expiry check is made.
pub open spec fn masked_spec(c: CellView, suffix_len: int) -> Result<Seq<char>, CellError> {
    if all_zero(c.bytes) {
        Err(CellError::EmptyCell)
    } else if suffix_len >= c.bytes.len() {
        Ok(lossy_utf8(c.bytes))
    } else {
        Ok(
            stars(c.bytes.len() - suffix_len) + lossy_utf8(
                c.bytes.subrange(c.bytes.len() - suffix_len, c.bytes.len() as int),
            ),
        )
    }
}

/// A reveal result, with its text taken up to the character sequence it
/// denotes.
pub open spec fn res_view(r: Result<String, CellError>) -> Result<Seq<char>, CellError> {
    match r {
        Ok(s) => Ok(s@),
        Err(e) => Err(e),
    }
}

/// The one textual self-description a cell ever gives: a fixed literal,
/// derived from nothing.
pub open spec fn redacted() -> Seq<char> {
    "<CypherCell: [REDACTED]>"@
}

impl CypherCell {
    /// Creates an active cell holding a copy of `data`, recording its birth
    /// instant and requesting a pin grant for the buffer from `pins`. A
    /// refused grant degrades the cell (it runs unpinned), it never fails
    /// creation. Empty `data` is legal, and indistinguishable from a wiped
    /// buffer on later access.
    pub fn new(data: &[u8], volatile: bool, ttl_sec: Option<u64>, pins: &mut PinBudget) -> (c:
        CypherCell)
        ensures
            c@.bytes == data@,
            c@.volatile == volatile,
            c@.ttl_sec == ttl_sec,
            c@.pinned == (old(pins).used + data@.len() <= old(pins).limit),
            c@.pinned ==> *final(pins) == (PinBudget {
                used: (old(pins).used + data@.len()) as usize,
                ..*old(pins)
            }),
            !c@.pinned ==> *final(pins) == *old(pins),
    {
        let inner = slice_to_vec(data);
        let pinned = pins.pin(inner.len());
        CypherCell { inner, volatile, birth: instant_now(), ttl_sec, pinned }
    }

    /// Wipes the cell: returns its pin grant, then overwrites every byte of
    /// the buffer with zero through a non-elidable write. Idempotent — on an
    /// already wiped cell the same steps run harmlessly and change nothing.
    pub fn wipe(&mut self, pins: &mut PinBudget)
        ensures
            final(self)@ == wipe_spec(old(self)@),
            old(self)@.pinned ==> *final(pins) == unpin_spec(
                *old(pins),
                old(self)@.bytes.len() as int,
            ),
            !old(self)@.pinned ==> *final(pins) == *old(pins),
    {
        if self.pinned {
            pins.unpin(self.inner.len());
            self.pinned = false;
        }
        zeroize_bytes(&mut self.inner);
        proof {
            assert(self@.bytes =~= wipe_spec(old(self)@).bytes);
            assert(self@ =~= wipe_spec(old(self)@));
        }
    }

    /// Reveals the secret as text, given the elapsed time since birth in
    /// nanoseconds. The outcome — next state, result, and budget — is exactly
    /// `reveal_spec` and `budget_after` at that elapsed time: expiry wipes and
    /// fails, an all-zero buffer fails, and a volatile cell is consumed by its
    /// one successful reveal.
    pub fn reveal_at(&mut self, elapsed_ns: u64, pins: &mut PinBudget) -> (r: Result<
        String,
        CellError,
    >)
        ensures
            final(self)@ == reveal_spec(old(self)@, elapsed_ns).0,
            res_view(r) == reveal_spec(old(self)@, elapsed_ns).1,
            *final(pins) == budget_after(old(self)@, elapsed_ns, *old(pins)),
    {
        if let Some(limit) = self.ttl_sec {
            if is_expired(limit, elapsed_ns) {
                self.wipe(pins);
                return Err(CellError::TTLExpired);
            }
        }
        if bytes_all_zero(self.inner.as_slice()) {
            return Err(CellError::EmptyCell);
        }
        let secret = lossy_string(self.inner.as_slice());
        if self.volatile {
            self.wipe(pins);
        }
        Ok(secret)
    }

    /// Reveals the secret as text, reading the elapsed time from the clock.
    /// The clock's value is not promised, so the contract holds the outcome
    /// to `reveal_spec` at some elapsed time; `reveal_at` pins down every
    /// individual reading.
    pub fn reveal_now(&mut self, pins: &mut PinBudget) -> (r: Result<String, CellError>)
        ensures
            exists|e: u64|
                #![trigger reveal_spec(old(self)@, e)]
                (final(self)@ == reveal_spec(old(self)@, e).0 && res_view(r) == reveal_spec(
                    old(self)@,
                    e,
                ).1 && *final(pins) == budget_after(old(self)@, e, *old(pins))),
    {
        let e = elapsed_nanos(&self.birth);
        self.reveal_at(e, pins)
    }

    /// Reveals a masked form: every byte but the last `suffix_len` becomes a
    /// mask character, the trailing bytes are decoded as text. A suffix at
    /// least the buffer's length yields the whole secret. Checks emptiness
    /// exactly as a full reveal does, but — an intentional asymmetry — not
    /// the time-to-live; the cell never changes.
    pub fn reveal_masked(&self, suffix_len: usize) -> (r: Result<String, CellError>)
        ensures
            res_view(r) == masked_spec(self@, suffix_len as int),
    {
        if bytes_all_zero(self.inner.as_slice()) {
            return Err(CellError::EmptyCell);
        }
        let len = self.inner.len();
        if suffix_len >= len {
            return Ok(lossy_string(self.inner.as_slice()));
        }
        let mut out = make_mask(len - suffix_len);
        let visible = lossy_string(slice_subrange(self.inner.as_slice(), len - suffix_len, len));
        out.append(visible.as_str());
        Ok(out)
    }

    /// The cell's textual self-description: a fixed redacted literal,
    /// independent of the buffer, the state, and everything else.
    pub fn repr(&self) -> (r: String)
        ensures
            r@ == redacted(),
    {
        "<CypherCell: [REDACTED]>".to_owned()
    }

    /// Whether the buffer's pin request was granted — the diagnostics channel
    /// through which a degraded (swappable) cell is observable.
    pub fn is_pinned(&self) -> (r: bool)
        ensures
            r == self@.pinned,
    {
        self.pinned
    }

    /// Whether the buffer is observed all-zero, as the reveals observe it:
    /// true of a wiped cell and of a genuinely all-zero secret alike.
    pub fn is_empty(&self) -> (r: bool)
        ensures
            r == all_zero(self@.bytes),
    {
        bytes_all_zero(self.inner.as_slice())
    }

    /// The buffer's length, fixed at creation.
    pub fn len(&self) -> (r: usize)
        ensures
            r == self@.bytes.len(),
    {
        self.inner.len()
    }

    /// The byte region a host memory-pin facility should keep resident:
    /// the cell's own buffer.
    pub fn pin_region(&self) -> (r: &[u8])
        ensures
            r@ == self@.bytes,
    {
        self.inner.as_slice()
    }
}

impl CellError {
    /// The error's message, as a reveal reports it.
    pub fn message(&self) -> (r: String)
        ensures
            *self == CellError::TTLExpired ==> r@ == "TTL expired"@,
            *self == CellError::EmptyCell ==> r@ == "Cell is empty/wiped."@,
    {
        match self {
            CellError::TTLExpired => "TTL expired".to_owned(),
            CellError::EmptyCell => "Cell is empty/wiped.".to_owned(),
        }
    }
}

} // verus!
