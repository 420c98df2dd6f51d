//! Human-readable formatting of byte and duration magnitudes.
//!
//! Byte counts are scaled by powers of 1024 (B, KiB, MiB, GiB, TiB) and
//! shown with one decimal place; durations are scaled by powers of 60
//! (s, min, h) and shown as whole numbers. Once the largest unit is
//! reached the value is shown in that unit, however large.

use vstd::prelude::*;
use vstd::string::StringExecFns;

use crate::stats::CpuCore;

verus! {

/// The decimal digit character for `d` (meaningful for `0 <= d < 10`).
pub open spec fn dec_digit(d: int) -> char {
    if d == 0 {
        '0'
    } else if d == 1 {
        '1'
    } else if d == 2 {
        '2'
    } else if d == 3 {
        '3'
    } else if d == 4 {
        '4'
    } else if d == 5 {
        '5'
    } else if d == 6 {
        '6'
    } else if d == 7 {
        '7'
    } else if d == 8 {
        '8'
    } else {
        '9'
    }
}

/// The decimal representation of `n`, most significant digit first,
/// without leading zeros (except for `n == 0`, which is "0").
pub open spec fn spec_dec(n: nat) -> Seq<char>
    decreases n,
{
    if n < 10 {
        seq![dec_digit(n as int)]
    } else {
        spec_dec(n / 10).push(dec_digit((n % 10) as int))
    }
}

/// One decimal digit as a string slice.
fn digit_str(d: u64) -> (r: &'static str)
    requires
        d < 10,
    ensures
        r@ == seq![dec_digit(d as int)],
{
    let r: &'static str = if d == 0 {
        proof { reveal_strlit("0"); }
        "0"
    } else if d == 1 {
        proof { reveal_strlit("1"); }
        "1"
    } else if d == 2 {
        proof { reveal_strlit("2"); }
        "2"
    } else if d == 3 {
        proof { reveal_strlit("3"); }
        "3"
    } else if d == 4 {
        proof { reveal_strlit("4"); }
        "4"
    } else if d == 5 {
        proof { reveal_strlit("5"); }
        "5"
    } else if d == 6 {
        proof { reveal_strlit("6"); }
        "6"
    } else if d == 7 {
        proof { reveal_strlit("7"); }
        "7"
    } else if d == 8 {
        proof { reveal_strlit("8"); }
        "8"
    } else {
        proof { reveal_strlit("9"); }
        "9"
    };
    proof {
        assert(r@ =~= seq![dec_digit(d as int)]);
    }
    r
}

/// Renders `n` in decimal.
pub fn u64_to_dec(n: u64) -> (r: String)
    ensures
        r@ == spec_dec(n as nat),
    decreases n,
{
    if n < 10 {
        let r = digit_str(n).to_owned();
        proof {
            assert(r@ =~= spec_dec(n as nat));
        }
        r
    } else {
        let mut s = u64_to_dec(n / 10);
        s.append(digit_str(n % 10));
        proof {
            assert(s@ =~= spec_dec(n as nat));
        }
        s
    }
}

/// The integer nearest to `a / m`, ties going to the even neighbour
/// (meaningful for `a >= 0` and `m > 0`).
pub open spec fn round_nearest_even(a: int, m: int) -> int {
    let q = a / m;
    let r = a % m;
    if 2 * r > m {
        q + 1
    } else if 2 * r == m {
        if q % 2 == 0 {
            q
        } else {
            q + 1
        }
    } else {
        q
    }
}

/// Rounds `a / m` to the nearest integer, ties to even.
fn div_round_nearest_even(a: u128, m: u128) -> (r: u128)
    requires
        m > 0,
        a < u128::MAX,
    ensures
        r == round_nearest_even(a as int, m as int),
{
    let q = a / m;
    let rem = a % m;
    // rem > m - rem  <==>  2 * rem > m, without overflowing
    if rem > m - rem {
        q + 1
    } else if rem == m - rem {
        if q % 2 == 0 {
            q
        } else {
            q + 1
        }
    } else {
        q
    }
}

/// The unit index for a byte count: 0 for B up to 4 for TiB.
pub open spec fn byte_unit(v: nat) -> nat {
    if v < 0x400 {
        0
    } else if v < 0x100000 {
        1
    } else if v < 0x40000000 {
        2
    } else if v < 0x10000000000 {
        3
    } else {
        4
    }
}

/// The divisor that scales a byte count into unit `p`: `1024^p`.
pub open spec fn byte_unit_div(p: nat) -> nat {
    if p == 0 {
        1
    } else if p == 1 {
        0x400
    } else if p == 2 {
        0x100000
    } else if p == 3 {
        0x40000000
    } else {
        0x10000000000
    }
}

/// The suffix printed after a byte count in unit `p`.
pub open spec fn byte_unit_suffix(p: nat) -> Seq<char> {
    if p == 0 {
        seq!['B']
    } else if p == 1 {
        seq!['K', 'i', 'B']
    } else if p == 2 {
        seq!['M', 'i', 'B']
    } else if p == 3 {
        seq!['G', 'i', 'B']
    } else {
        seq!['T', 'i', 'B']
    }
}

/// What `print_bytes` returns: the count scaled into its unit, shown
/// with one decimal digit (rounded to nearest, ties to even), a space,
/// and the unit suffix.
pub open spec fn spec_print_bytes(v: nat) -> Seq<char> {
    let p = byte_unit(v);
    let t = round_nearest_even((v * 10) as int, byte_unit_div(p) as int);
    spec_dec((t / 10) as nat) + seq!['.'] + seq![dec_digit(t % 10)] + seq![' '] + byte_unit_suffix(
        p,
    )
}

/// The suffix for unit `p` as a string slice.
fn byte_suffix_str(p: u64) -> (r: &'static str)
    requires
        p <= 4,
    ensures
        r@ == byte_unit_suffix(p as nat),
{
    let r: &'static str = if p == 0 {
        proof { reveal_strlit("B"); }
        "B"
    } else if p == 1 {
        proof { reveal_strlit("KiB"); }
        "KiB"
    } else if p == 2 {
        proof { reveal_strlit("MiB"); }
        "MiB"
    } else if p == 3 {
        proof { reveal_strlit("GiB"); }
        "GiB"
    } else {
        proof { reveal_strlit("TiB"); }
        "TiB"
    };
    proof {
        assert(r@ =~= byte_unit_suffix(p as nat));
    }
    r
}

/// Formats a byte count with binary-prefixed units and one decimal
/// place, e.g. `0 -> "0.0 B"`, `1023 -> "1023.0 B"`, `1024 -> "1.0 KiB"`.
/// Counts at or above 1 TiB stay in TiB, however large.
pub fn print_bytes(value: u64) -> (r: String)
    ensures
        r@ == spec_print_bytes(value as nat),
{
    let (p, m): (u64, u64) = if value < 0x400 {
        (0, 1)
    } else if value < 0x100000 {
        (1, 0x400)
    } else if value < 0x40000000 {
        (2, 0x100000)
    } else if value < 0x10000000000 {
        (3, 0x40000000)
    } else {
        (4, 0x10000000000)
    };
    assert(p as nat == byte_unit(value as nat));
    assert(m as nat == byte_unit_div(p as nat));
    let t_wide = div_round_nearest_even((value as u128) * 10, m as u128);
    proof {
        // The rounded quotient is at most one above the scaled value,
        // which fits easily in 64 bits in every unit.
        let a = (value as int) * 10;
        let mi = m as int;
        if p < 4 {
            // in each of these branches, value < 1024 * m
            assert(a < 10240 * mi);
            assert(a / mi < 10240) by (nonlinear_arith)
                requires
                    mi > 0,
                    0 <= a < 10240 * mi,
            ;
        } else {
            assert(a / mi < 0x10000000) by (nonlinear_arith)
                requires
                    mi == 0x10000000000,
                    0 <= a < 0x100000000000000000,
            ;
        }
        assert(round_nearest_even(a, mi) <= a / mi + 1);
    }
    let t = t_wide as u64;
    let mut s = u64_to_dec(t / 10);
    proof { reveal_strlit("."); }
    s.append(".");
    s.append(digit_str(t % 10));
    proof { reveal_strlit(" "); }
    s.append(" ");
    s.append(byte_suffix_str(p));
    proof {
        assert(s@ =~= spec_print_bytes(value as nat));
    }
    s
}

/// The unit index for a duration in seconds: 0 for s, 1 for min, 2 for h.
pub open spec fn secs_unit(v: nat) -> nat {
    if v < 60 {
        0
    } else if v < 3600 {
        1
    } else {
        2
    }
}

/// The divisor that scales a second count into unit `p`.
pub open spec fn secs_unit_div(p: nat) -> nat {
    if p == 0 {
        1
    } else if p == 1 {
        60
    } else {
        3600
    }
}

/// The suffix printed after a duration in unit `p`.
pub open spec fn secs_unit_suffix(p: nat) -> Seq<char> {
    if p == 0 {
        seq!['s']
    } else if p == 1 {
        seq!['m', 'i', 'n']
    } else {
        seq!['h']
    }
}

/// What `print_secs` returns: the duration scaled into its unit by
/// integer division, a space, and the unit suffix.
pub open spec fn spec_print_secs(v: nat) -> Seq<char> {
    let p = secs_unit(v);
    spec_dec(v / secs_unit_div(p)) + seq![' '] + secs_unit_suffix(p)
}

/// Formats a duration in whole units of seconds, minutes or hours,
/// e.g. `59 -> "59 s"`, `60 -> "1 min"`, `86400 -> "24 h"`.
/// Durations of an hour or more stay in hours, however large.
pub fn print_secs(value: u64) -> (r: String)
    ensures
        r@ == spec_print_secs(value as nat),
{
    let (scaled, suffix): (u64, &'static str) = if value < 60 {
        proof { reveal_strlit("s"); }
        (value, "s")
    } else if value < 3600 {
        proof { reveal_strlit("min"); }
        (value / 60, "min")
    } else {
        proof { reveal_strlit("h"); }
        (value / 3600, "h")
    };
    proof {
        assert(suffix@ =~= secs_unit_suffix(secs_unit(value as nat)));
    }
    let mut s = u64_to_dec(scaled);
    proof { reveal_strlit(" "); }
    s.append(" ");
    s.append(suffix);
    proof {
        assert(s@ =~= spec_print_secs(value as nat));
    }
    s
}

/// The sum of the per-core usage percentages of `s`.
pub open spec fn sum_usage(s: Seq<CpuCore>) -> int
    decreases s.len(),
{
    if s.len() == 0 {
        0
    } else {
        sum_usage(s.drop_last()) + s.last().usage
    }
}

/// The sum of the per-core frequencies of `s`, in MHz.
pub open spec fn sum_freq(s: Seq<CpuCore>) -> int
    decreases s.len(),
{
    if s.len() == 0 {
        0
    } else {
        sum_freq(s.drop_last()) + s.last().freq
    }
}

/// What `cpu_summary` returns: the mean core usage in whole percent
/// (rounded to nearest, ties to even), then the mean core frequency in
/// GHz with two decimal places. The frequency mean is the integer mean
/// of the MHz readings, rounded to a hundredth of a GHz. An empty core
/// list reads as zero.
pub open spec fn spec_cpu_summary(s: Seq<CpuCore>) -> Seq<char> {
    let n = s.len() as int;
    let pct = if n == 0 {
        0int
    } else {
        round_nearest_even(sum_usage(s), n)
    };
    let mhz = if n == 0 {
        0int
    } else {
        sum_freq(s) / n
    };
    let centi = round_nearest_even(mhz, 10);
    spec_dec(pct as nat) + seq!['%', ' '] + spec_dec((centi / 100) as nat) + seq!['.'] + seq![
        dec_digit((centi % 100) / 10),
        dec_digit(centi % 10),
    ] + seq![' ', 'G', 'H', 'z']
}

/// One line of summary text for a core list: mean usage and mean
/// frequency, e.g. "12% 3.40 GHz". Used for display only; the per-core
/// readings stay as they are in the snapshot.
pub fn cpu_summary(cpus: &Vec<CpuCore>) -> (r: String)
    ensures
        r@ == spec_cpu_summary(cpus@),
{
    let n = cpus.len();
    let mut su: u128 = 0;
    let mut sf: u128 = 0;
    let mut i: usize = 0;
    while i < n
        invariant
            i <= n,
            n == cpus@.len(),
            su == sum_usage(cpus@.take(i as int)),
            sf == sum_freq(cpus@.take(i as int)),
            su <= i * 0xffffffff,
            sf <= i * 0xffffffffffffffff,
        decreases n - i,
    {
        proof {
            assert(cpus@.take(i + 1).drop_last() =~= cpus@.take(i as int));
            assert(cpus@.take(i + 1).last() == cpus@[i as int]);
            assert((i as int) * 0xffffffff + 0xffffffff == (i + 1) * 0xffffffff)
                by (nonlinear_arith);
            assert((i as int) * 0xffffffffffffffff + 0xffffffffffffffff == (i + 1)
                * 0xffffffffffffffff) by (nonlinear_arith);
        }
        su = su + cpus[i].usage as u128;
        sf = sf + cpus[i].freq as u128;
        i = i + 1;
    }
    proof {
        assert(cpus@.take(n as int) =~= cpus@);
    }
    let (pct, mhz): (u64, u64) = if n == 0 {
        (0, 0)
    } else {
        proof {
            vstd::arithmetic::div_mod::lemma_div_is_ordered(
                su as int,
                (n as int) * 0xffffffff,
                n as int,
            );
            vstd::arithmetic::div_mod::lemma_div_multiples_vanish(0xffffffff, n as int);
            vstd::arithmetic::div_mod::lemma_div_is_ordered(
                sf as int,
                (n as int) * 0xffffffffffffffff,
                n as int,
            );
            vstd::arithmetic::div_mod::lemma_div_multiples_vanish(0xffffffffffffffff, n as int);
            assert(round_nearest_even(su as int, n as int) <= su as int / n as int + 1);
        }
        let pct_wide = div_round_nearest_even(su, n as u128);
        let mhz_wide = sf / (n as u128);
        (pct_wide as u64, mhz_wide as u64)
    };
    let centi_wide = div_round_nearest_even(mhz as u128, 10);
    proof {
        assert(round_nearest_even(mhz as int, 10) <= mhz as int / 10 + 1);
    }
    let centi = centi_wide as u64;
    let mut s = u64_to_dec(pct);
    proof { reveal_strlit("% "); }
    s.append("% ");
    let whole = u64_to_dec(centi / 100);
    s.append(whole.as_str());
    proof { reveal_strlit("."); }
    s.append(".");
    s.append(digit_str((centi % 100) / 10));
    s.append(digit_str(centi % 10));
    proof { reveal_strlit(" GHz"); }
    s.append(" GHz");
    proof {
        assert("% "@ =~= seq!['%', ' ']);
        assert(" GHz"@ =~= seq![' ', 'G', 'H', 'z']);
        assert(s@ =~= spec_cpu_summary(cpus@));
    }
    s
}

} // verus!
