//! Windowed queries over the history: decimation by selection.
//!
//! Given a look-back window and a point budget, the query keeps every
//! `stride`-th snapshot of the most recent part of the history, where
//! `stride` is the look-back divided by the budget, rounded up. Picking
//! representative samples (rather than averaging) keeps the cost per
//! returned point constant.

use vstd::prelude::*;

use crate::history::History;
use crate::stats::SnapshotView;
use crate::stats::SystemUtilization;

verus! {

/// `a / b` rounded up (for `b >= 1`).
pub open spec fn ceil_div(a: nat, b: nat) -> nat {
    if a == 0 {
        0
    } else {
        (a - 1) as nat / b + 1
    }
}

/// The decimation stride for a query: the look-back divided by the
/// point budget, rounded up, and at least 1.
pub open spec fn window_stride(lookback: nat, budget: nat) -> nat {
    if lookback == 0 {
        1
    } else {
        ceil_div(lookback, budget)
    }
}

/// The stride is the look-back over the budget rounded up, in its
/// familiar shape, and never less than 1.
pub proof fn lemma_stride_is_ceil(lookback: nat, budget: nat)
    requires
        budget >= 1,
    ensures
        lookback >= 1 ==> window_stride(lookback, budget) == (lookback + budget - 1) as int / (
        budget as int),
        window_stride(lookback, budget) >= 1,
{
    if lookback >= 1 {
        vstd::arithmetic::div_mod::lemma_div_plus_one(lookback as int - 1, budget as int);
    }
}

/// What a window query returns, over the history contents `s` (oldest
/// first). With fewer samples than one stride, the single oldest sample
/// is returned (rather than an empty series, so that the caller keeps
/// valid axis bounds). Otherwise the query takes the `lookback` most
/// recent samples (or all available, if fewer), drops the remainder of
/// a stride group from the front so that the retained samples align to
/// stride boundaries counted back from the most recent sample, and
/// keeps every `stride`-th one of them, oldest first; for any positive
/// look-back the most recent sample is kept.
pub open spec fn spec_window(s: Seq<SnapshotView>, lookback: nat, budget: nat) -> Seq<
    SnapshotView,
> {
    let step = window_stride(lookback, budget) as int;
    let n = s.len() as int;
    if n < step {
        s.take(if n == 0 { 0int } else { 1int })
    } else {
        let w = if lookback <= n { lookback as int } else { n };
        let cnt = w / step;
        Seq::new(cnt as nat, |i: int| s[n - 1 - (cnt - 1 - i) * step])
    }
}

/// Every index the selection formula produces is inside the history.
proof fn lemma_window_indices(n: int, w: int, cnt: int, step: int)
    requires
        step >= 1,
        0 <= w <= n,
        cnt == w / step,
        cnt >= 1,
    ensures
        (cnt - 1) * step <= w - step,
        forall|i: int| 0 <= i < cnt ==> 0 <= n - 1 - #[trigger] ((cnt - 1 - i) * step) < n,
{
    vstd::arithmetic::div_mod::lemma_fundamental_div_mod(w, step);
    vstd::arithmetic::div_mod::lemma_remainder_lower(w, step);
    vstd::arithmetic::div_mod::lemma_remainder_upper(w, step);
    assert((cnt - 1) * step <= w - step) by (nonlinear_arith)
        requires
            step >= 1,
            w == step * (w / step) + w % step,
            w % step >= 0,
            cnt == w / step,
    ;
    assert forall|i: int| 0 <= i < cnt implies 0 <= n - 1 - #[trigger] ((cnt - 1 - i) * step)
        < n by {
        assert(0 <= (cnt - 1 - i) * step <= (cnt - 1) * step) by (nonlinear_arith)
            requires
                step >= 1,
                0 <= cnt - 1 - i <= cnt - 1,
        ;
    }
}

/// A windowed, decimated read of the history: at most `budget` points
/// spanning the `lookback` most recent samples, every `stride`-th one
/// counted back from the most recent sample, oldest first. With fewer
/// samples than one stride (in particular right after startup), the
/// single oldest sample is returned instead of an empty series.
pub fn window(h: &History, lookback: usize, budget: usize) -> (out: Vec<SystemUtilization>)
    requires
        budget >= 1,
    ensures
        out.deep_view() == spec_window(h.snapshots(), lookback as nat, budget as nat),
{
    let step: usize = if lookback == 0 {
        1
    } else {
        (lookback - 1) / budget + 1
    };
    let n = h.len();
    let ghost s = h.snapshots();
    assert(step == window_stride(lookback as nat, budget as nat));
    if n < step {
        let mut out: Vec<SystemUtilization> = Vec::new();
        if n > 0 {
            out.push(h.get(0).clone());
        }
        proof {
            assert(out.deep_view() =~= spec_window(s, lookback as nat, budget as nat));
        }
        out
    } else {
        let w = if lookback <= n {
            lookback
        } else {
            n
        };
        let cnt: usize = w / step;
        let mut out: Vec<SystemUtilization> = Vec::new();
        if cnt > 0 {
            proof {
                lemma_window_indices(n as int, w as int, cnt as int, step as int);
            }
            let start = n - 1 - (cnt - 1) * step;
            let mut idx = start;
            let mut i: usize = 0;
            while i < cnt
                invariant
                    0 <= i <= cnt,
                    cnt >= 1,
                    step >= 1,
                    s == h.snapshots(),
                    n == s.len(),
                    step <= w <= n,
                    (cnt - 1) * step <= w - step,
                    start == n - 1 - (cnt - 1) * step,
                    i < cnt ==> idx == start + i * step,
                    out@.len() == i,
                    forall|j: int|
                        0 <= j < i ==> (#[trigger] out@[j])@ == s[n - 1 - (cnt - 1 - j) * step],
                decreases cnt - i,
            {
                proof {
                    assert(i * step <= (cnt - 1) * step) by (nonlinear_arith)
                        requires
                            step >= 1,
                            0 <= i <= cnt - 1,
                    ;
                    assert(idx == n - 1 - (cnt - 1 - i) * step) by (nonlinear_arith)
                        requires
                            idx == n - 1 - (cnt - 1) * step + i * step,
                    ;
                    assert(0 <= idx < n);
                }
                out.push(h.get(idx).clone());
                if i + 1 < cnt {
                    proof {
                        assert((i + 1) * step <= (cnt - 1) * step) by (nonlinear_arith)
                            requires
                                step >= 1,
                                0 <= i + 1 <= cnt - 1,
                        ;
                        assert(idx + step == start + (i + 1) * step) by (nonlinear_arith)
                            requires
                                idx == start + i * step,
                        ;
                    }
                    idx = idx + step;
                }
                i = i + 1;
            }
        }
        proof {
            assert(out.deep_view() =~= spec_window(s, lookback as nat, budget as nat));
        }
        out
    }
}

/// The (download, upload) rate of each snapshot of `s`, as a pair.
pub open spec fn net_pairs_of(s: Seq<SnapshotView>) -> Seq<(u64, u64)> {
    s.map(|i: int, v: SnapshotView| (v.network.down, v.network.up))
}

/// The (read, written) disk counters of each snapshot of `s`, as a pair.
pub open spec fn disk_pairs_of(s: Seq<SnapshotView>) -> Seq<(u64, u64)> {
    s.map(|i: int, v: SnapshotView| (v.disk.read_bytes, v.disk.writen_bytes))
}

/// The total (download, upload) bytes per second summed over a series,
/// saturating; shown beside the network chart.
pub fn network_totals(snaps: &Vec<SystemUtilization>) -> (r: (u64, u64))
    ensures
        r.0 == crate::sums::sat_sum_fst(net_pairs_of(snaps.deep_view())),
        r.1 == crate::sums::sat_sum_snd(net_pairs_of(snaps.deep_view())),
{
    let mut pairs: Vec<(u64, u64)> = Vec::new();
    let mut i: usize = 0;
    while i < snaps.len()
        invariant
            i <= snaps@.len(),
            pairs@ =~= net_pairs_of(snaps.deep_view()).take(i as int),
        decreases snaps@.len() - i,
    {
        pairs.push((snaps[i].network.down, snaps[i].network.up));
        i = i + 1;
    }
    proof {
        assert(pairs@ =~= net_pairs_of(snaps.deep_view()));
    }
    crate::sums::sum_counter_pairs(&pairs)
}

/// The total (read, written) disk bytes summed over a series,
/// saturating; shown beside the disk chart.
pub fn disk_totals(snaps: &Vec<SystemUtilization>) -> (r: (u64, u64))
    ensures
        r.0 == crate::sums::sat_sum_fst(disk_pairs_of(snaps.deep_view())),
        r.1 == crate::sums::sat_sum_snd(disk_pairs_of(snaps.deep_view())),
{
    let mut pairs: Vec<(u64, u64)> = Vec::new();
    let mut i: usize = 0;
    while i < snaps.len()
        invariant
            i <= snaps@.len(),
            pairs@ =~= disk_pairs_of(snaps.deep_view()).take(i as int),
        decreases snaps@.len() - i,
    {
        pairs.push((snaps[i].disk.read_bytes, snaps[i].disk.writen_bytes));
        i = i + 1;
    }
    proof {
        assert(pairs@ =~= disk_pairs_of(snaps.deep_view()));
    }
    crate::sums::sum_counter_pairs(&pairs)
}

/// With a look-back of at least the budget, a window query never
/// returns more points than the budget asked for.
pub proof fn lemma_window_within_budget(s: Seq<SnapshotView>, lookback: nat, budget: nat)
    requires
        lookback >= budget,
        budget >= 1,
    ensures
        spec_window(s, lookback, budget).len() <= budget,
{
    let step = window_stride(lookback, budget) as int;
    let n = s.len() as int;
    if n < step {
        // at most one sample is returned
    } else {
        let w = if lookback <= n { lookback as int } else { n };
        let cnt = w / step;
        let ll = lookback as int;
        let bb = budget as int;
        let d = (ll - 1) / bb;
        assert(step == d + 1);
        vstd::arithmetic::div_mod::lemma_fundamental_div_mod(ll - 1, bb);
        vstd::arithmetic::div_mod::lemma_remainder_upper(ll - 1, bb);
        vstd::arithmetic::div_mod::lemma_remainder_lower(ll - 1, bb);
        // ll <= step * bb, so w / step <= ll / step <= bb
        assert(ll <= step * bb) by (nonlinear_arith)
            requires
                step == d + 1,
                bb >= 1,
                ll - 1 == bb * d + (ll - 1) % bb,
                (ll - 1) % bb < bb,
        ;
        vstd::arithmetic::div_mod::lemma_div_is_ordered(w, ll, step);
        vstd::arithmetic::div_mod::lemma_div_is_ordered(ll, step * bb, step);
        vstd::arithmetic::div_mod::lemma_div_multiples_vanish(bb, step);
        assert(cnt <= bb);
    }
}

/// A history below one stride is answered with its single oldest
/// sample: only an empty history yields an empty series.
pub proof fn lemma_window_degenerate(s: Seq<SnapshotView>, lookback: nat, budget: nat)
    requires
        budget >= 1,
        s.len() >= 1,
        s.len() < window_stride(lookback, budget),
    ensures
        spec_window(s, lookback, budget) == seq![s[0]],
{
    assert(spec_window(s, lookback, budget) =~= seq![s[0]]);
}

} // verus!
