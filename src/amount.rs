use vstd::prelude::*;
use crate::types::Amount;

verus! {

/// 2^64: the weight of one word of a wide amount over the previous one.
pub const WORD_BASE: u128 = 0x1_0000_0000_0000_0000;

/// Value of a little-endian sequence of 64-bit words.
pub open spec fn wide_value(w: Seq<u64>) -> int
    decreases w.len(),
{
    if w.len() == 0 {
        0
    } else {
        w[0] + WORD_BASE * wide_value(w.drop_first())
    }
}

/// One word and two: the value of `w` from its first two words and the rest.
proof fn lemma_wide_value_split(w: Seq<u64>)
    requires
        w.len() >= 2,
    ensures
        wide_value(w) == w[0] + WORD_BASE * (w[1] + WORD_BASE * wide_value(w.drop_first().drop_first())),
{
    let t = w.drop_first();
    assert(t.len() >= 1);
    assert(t[0] == w[1]);
    assert(wide_value(t) == t[0] + WORD_BASE * wide_value(t.drop_first()));
}

proof fn lemma_wide_value_zero(w: Seq<u64>)
    ensures
        wide_value(w) >= 0,
        (forall|i: int| 0 <= i < w.len() ==> w[i] == 0) ==> wide_value(w) == 0,
        (exists|i: int| 0 <= i < w.len() && w[i] != 0) ==> wide_value(w) >= 1,
    decreases w.len(),
{
    if w.len() > 0 {
        let t = w.drop_first();
        lemma_wide_value_zero(t);
        if forall|i: int| 0 <= i < w.len() ==> w[i] == 0 {
            assert forall|i: int| 0 <= i < t.len() implies t[i] == 0 by {
                assert(t[i] == w[i + 1]);
            }
        }
        if exists|i: int| 0 <= i < w.len() && w[i] != 0 {
            let i = choose|i: int| 0 <= i < w.len() && w[i] != 0;
            if i > 0 {
                assert(t[i - 1] != 0);
            }
        }
    }
}

/// Narrows a 512-bit host amount, as eight little-endian words, to an
/// `Amount`; `None` where the value does not fit.
pub fn amount_from_words(w: &[u64; 8]) -> (r: Option<Amount>)
    ensures
        r == (if wide_value(w@) <= u128::MAX {
            Some(wide_value(w@) as Amount)
        } else {
            None
        }),
{
    let ghost s = w@;
    let ghost high = s.drop_first().drop_first();
    proof {
        lemma_wide_value_split(s);
    }
    let mut k: usize = 2;
    while k < 8
        invariant
            2 <= k <= 8,
            s == w@,
            high == s.drop_first().drop_first(),
            forall|i: int| 0 <= i < k - 2 ==> high[i] == 0,
            wide_value(s) == s[0] + WORD_BASE * (s[1] + WORD_BASE * wide_value(high)),
        decreases 8 - k,
    {
        if w[k] != 0 {
            proof {
                assert(high[k - 2] != 0);
                lemma_wide_value_zero(high);
                assert(wide_value(high) >= 1);
                assert(wide_value(s) > u128::MAX) by (nonlinear_arith)
                    requires
                        wide_value(s) == s[0] + WORD_BASE * (s[1] + WORD_BASE * wide_value(high)),
                        wide_value(high) >= 1,
                        s[0] >= 0,
                        s[1] >= 0,
                        WORD_BASE == 0x1_0000_0000_0000_0000,
                ;
            }
            return None;
        }
        k = k + 1;
    }
    let lo = w[0] as u128;
    let hi = w[1] as u128;
    proof {
        lemma_wide_value_zero(high);
        assert(wide_value(high) == 0);
        assert(hi * WORD_BASE + lo <= u128::MAX) by (nonlinear_arith)
            requires
                hi <= 0xffff_ffff_ffff_ffff,
                lo <= 0xffff_ffff_ffff_ffff,
                WORD_BASE == 0x1_0000_0000_0000_0000,
        ;
    }
    Some(hi * WORD_BASE + lo)
}

/// Widens an `Amount` to a 512-bit host amount, as eight little-endian words.
pub fn amount_to_words(a: Amount) -> (r: [u64; 8])
    ensures
        wide_value(r@) == a,
{
    let lo = (a % WORD_BASE) as u64;
    let hi = (a / WORD_BASE) as u64;
    let r = [lo, hi, 0, 0, 0, 0, 0, 0];
    proof {
        let s = r@;
        let high = s.drop_first().drop_first();
        lemma_wide_value_split(s);
        assert forall|i: int| 0 <= i < high.len() implies high[i] == 0 by {
            assert(high[i] == s[i + 2]);
        }
        lemma_wide_value_zero(high);
        assert(a == hi * WORD_BASE + lo) by (nonlinear_arith)
            requires
                lo == a % WORD_BASE,
                hi == a / WORD_BASE,
                WORD_BASE > 0,
        ;
    }
    r
}

} // verus!
