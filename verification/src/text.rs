//! Byte-level predicates and the textual forms a cell can produce: the
//! all-zero test that detects a wiped buffer, best-effort UTF-8 decoding,
//! and the mask prefix used by partial disclosure.
use vstd::prelude::*;
use vstd::string::StringExecFns;
use zeroize::Zeroize;

verus! {

/// True when every byte of `s` is zero: the test by which a wiped buffer is
/// recognised. A genuinely all-zero secret is indistinguishable from a wiped
/// one by this test; that ambiguity is a deliberate simplification.
pub open spec fn all_zero(s: Seq<u8>) -> bool {
    forall|i: int| 0 <= i < s.len() ==> s[i] == 0
}

/// Reports whether every byte of `bytes` is zero.
pub fn bytes_all_zero(bytes: &[u8]) -> (r: bool)
    ensures
        r == all_zero(bytes@),
{
    let mut i: usize = 0;
    while i < bytes.len()
        invariant
            0 <= i <= bytes@.len(),
            forall|j: int| 0 <= j < i ==> bytes@[j] == 0,
        decreases bytes@.len() - i,
    {
        if bytes[i] != 0 {
            return false;
        }
        i = i + 1;
    }
    true
}

/// What best-effort UTF-8 decoding yields on `bytes`: valid sequences decode
/// as themselves, invalid ones become replacement markers. The exact character
/// sequence is a function of the bytes alone and is left unnamed beyond that.
pub uninterp spec fn lossy_utf8(bytes: Seq<u8>) -> Seq<char>;

/// Relies on `String::from_utf8_lossy` (std): decodes `bytes` as UTF-8,
/// substituting U+FFFD for invalid sequences; the result depends on the
/// bytes alone.
#[verifier::external_body]
pub fn lossy_string(bytes: &[u8]) -> (r: String)
    ensures
        r@ == lossy_utf8(bytes@),
{
    String::from_utf8_lossy(bytes).to_string()
}

/// Overwrites every byte of `buf` with zero, in place, keeping its length.
/// Relies on zeroize's slice implementation: the overwrite goes through a
/// volatile write with an optimization barrier, so the compiler cannot elide
/// it even though the buffer may never be read again.
#[verifier::external_body]
pub fn zeroize_bytes(buf: &mut Vec<u8>)
    ensures
        final(buf)@.len() == old(buf)@.len(),
        all_zero(final(buf)@),
{
    buf.as_mut_slice().zeroize()
}

/// `n` mask characters.
pub open spec fn stars(n: int) -> Seq<char> {
    Seq::new(n as nat, |i: int| '*')
}

/// Builds the mask prefix: a string of `n` mask characters.
pub fn make_mask(n: usize) -> (r: String)
    ensures
        r@ == stars(n as int),
{
    let mut s = String::new();
    proof {
        assert(s@ =~= stars(0));
    }
    let mut i: usize = 0;
    while i < n
        invariant
            0 <= i <= n,
            s@ == stars(i as int),
        decreases n - i,
    {
        s.append("*");
        proof {
            reveal_strlit("*");
            assert(s@ =~= stars(i as int + 1));
        }
        i = i + 1;
    }
    s
}

} // verus!
