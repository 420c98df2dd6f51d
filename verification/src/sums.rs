//! Saturating sums of counter pairs. Probe counters are unsigned and
//! can in principle be large enough that a plain sum would overflow, so
//! every aggregate in the engine clamps at the largest `u64` instead of
//! wrapping or failing.

use vstd::prelude::*;

verus! {

/// `a + b`, clamped to the largest `u64`.
pub open spec fn sat_add64(a: u64, b: u64) -> u64 {
    if a + b > u64::MAX {
        u64::MAX
    } else {
        (a + b) as u64
    }
}

/// The saturating sum of the first components of `s`.
pub open spec fn sat_sum_fst(s: Seq<(u64, u64)>) -> u64
    decreases s.len(),
{
    if s.len() == 0 {
        0
    } else {
        sat_add64(sat_sum_fst(s.drop_last()), s.last().0)
    }
}

/// The saturating sum of the second components of `s`.
pub open spec fn sat_sum_snd(s: Seq<(u64, u64)>) -> u64
    decreases s.len(),
{
    if s.len() == 0 {
        0
    } else {
        sat_add64(sat_sum_snd(s.drop_last()), s.last().1)
    }
}

/// Sums a list of counter pairs component-wise, saturating instead of
/// overflowing.
pub fn sum_counter_pairs(pairs: &Vec<(u64, u64)>) -> (r: (u64, u64))
    ensures
        r.0 == sat_sum_fst(pairs@),
        r.1 == sat_sum_snd(pairs@),
{
    let mut a: u64 = 0;
    let mut b: u64 = 0;
    let mut i: usize = 0;
    while i < pairs.len()
        invariant
            i <= pairs@.len(),
            a == sat_sum_fst(pairs@.take(i as int)),
            b == sat_sum_snd(pairs@.take(i as int)),
        decreases pairs@.len() - i,
    {
        proof {
            assert(pairs@.take(i + 1).drop_last() =~= pairs@.take(i as int));
            assert(pairs@.take(i + 1).last() == pairs@[i as int]);
        }
        a = if a <= u64::MAX - pairs[i].0 {
            a + pairs[i].0
        } else {
            u64::MAX
        };
        b = if b <= u64::MAX - pairs[i].1 {
            b + pairs[i].1
        } else {
            u64::MAX
        };
        i = i + 1;
    }
    proof {
        assert(pairs@.take(pairs@.len() as int) =~= pairs@);
    }
    (a, b)
}

} // verus!
