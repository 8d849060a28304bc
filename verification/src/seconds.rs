//! An elapsed time in seconds with three decimals, as a double shows it.
//!
//! The seconds are the whole seconds plus the nanoseconds divided by 10^9,
//! both as doubles: the quotient is rounded to the 53-bit significand of its
//! binade, the sum is rounded again to the significand of its own binade, and
//! the result is rounded to thousandths. Every rounding goes to the nearest
//! value, a tie to the even one. All of it is computed here exactly in
//! integers: a double is a significand scaled by a power of two.

use vstd::prelude::*;
use vstd::arithmetic::power2::{
    lemma2_to64, lemma2_to64_rest, lemma_pow2_adds, lemma_pow2_pos, lemma_pow2_strictly_increases,
    lemma_pow2_unfold, pow2,
};

verus! {

/// Nanoseconds in one second.
pub const NANOS_PER_SEC: u64 = 1_000_000_000;

/// `a / b` rounded to the nearest integer, a tie going to the even one.
pub open spec fn round_half_even(a: nat, b: nat) -> nat {
    let q = a / b;
    let r = a % b;
    if 2 * r > b || (2 * r == b && q % 2 == 1) {
        q + 1
    } else {
        q
    }
}

/// The least `k >= from` (40 at most) with `f * 2^k >= 10^9`: the scale that
/// brings the fraction `f / 10^9` into `[1, 2)`.
pub open spec fn fraction_scale(f: nat, from: nat) -> nat
    decreases 40 - from,
{
    if from >= 40 || f * pow2(from) >= NANOS_PER_SEC {
        from
    } else {
        fraction_scale(f, from + 1)
    }
}

/// The least `t >= from` (64 at most) with `s < 2^(t + 1)`: the place of the
/// top bit of `s`.
pub open spec fn top_bit(s: nat, from: nat) -> nat
    decreases 64 - from,
{
    if from >= 64 || s < pow2(from + 1) {
        from
    } else {
        top_bit(s, from + 1)
    }
}

/// The thousandths of a second shown for a time of `nanos` nanoseconds.
///
/// With `secs` whole seconds and `f` nanoseconds beyond them: the fraction is
/// the significand `mq` over `2^(k + 52)`; added to `secs`, whose top bit is
/// `t`, it becomes the significand `mv` over `2^(52 - t)`; that value is then
/// rounded to thousandths.
pub open spec fn shown_millis(nanos: u64) -> nat {
    let secs = (nanos / NANOS_PER_SEC) as nat;
    let f = (nanos % NANOS_PER_SEC) as nat;
    if f == 0 {
        secs * 1000
    } else {
        let k = fraction_scale(f, 1);
        let mq = round_half_even(f * pow2(k + 52), NANOS_PER_SEC as nat);
        if secs == 0 {
            round_half_even(mq * 1000, pow2(k + 52))
        } else {
            let t = top_bit(secs, 0);
            let mv = round_half_even(secs * pow2(k + 52) + mq, pow2(k + t));
            round_half_even(mv * 1000, pow2((52 - t) as nat))
        }
    }
}

/// Rounding to the nearest integer adds at most one to a bound of the quotient.
proof fn lemma_round_bound(a: nat, b: nat, c: nat)
    requires
        b > 0,
        a <= c * b,
    ensures
        round_half_even(a, b) <= c + 1,
{
    let q = a / b;
    assert(q * b <= a) by (nonlinear_arith)
        requires
            b > 0,
            q == a / b,
    ;
    assert(q <= c) by (nonlinear_arith)
        requires
            b > 0,
            q * b <= c * b,
    ;
}

fn round_half_even_exec(a: u128, b: u128) -> (r: u128)
    requires
        b > 0,
    ensures
        r == round_half_even(a as nat, b as nat),
{
    let q = a / b;
    let rem = a % b;
    if rem > b - rem || (rem == b - rem && q % 2 == 1) {
        assert(q < u128::MAX) by (nonlinear_arith)
            requires
                b >= 2,
                q == a / b,
                a <= u128::MAX,
        ;
        q + 1
    } else {
        q
    }
}

fn pow2_exec(n: u32) -> (r: u128)
    requires
        n <= 90,
    ensures
        r == pow2(n as nat),
{
    proof {
        lemma2_to64();
        lemma_pow2_adds(64, 26);
    }
    let mut r: u128 = 1;
    let mut i: u32 = 0;
    while i < n
        invariant
            i <= n <= 90,
            r == pow2(i as nat),
            pow2(90) == 1237940039285380274899124224,
        decreases n - i,
    {
        proof {
            lemma_pow2_unfold((i + 1) as nat);
            if i + 1 < 90 {
                lemma_pow2_strictly_increases((i + 1) as nat, 90);
            }
        }
        r = r * 2;
        i = i + 1;
    }
    r
}

fn fraction_scale_exec(f: u128) -> (k: u32)
    requires
        1 <= f < NANOS_PER_SEC,
    ensures
        k == fraction_scale(f as nat, 1),
        1 <= k <= 30,
{
    proof {
        lemma2_to64();
    }
    let mut k: u32 = 1;
    let mut p: u128 = 2;
    assert(f * p <= 1_000_000_000 * 0x40000000) by (nonlinear_arith)
        requires
            f < 1_000_000_000,
            p == 2,
    ;
    while f * p < 1_000_000_000
        invariant
            1 <= f < NANOS_PER_SEC,
            1 <= k <= 30,
            p == pow2(k as nat),
            p <= pow2(30),
            pow2(30) == 0x40000000,
            f * p <= 1_000_000_000 * 0x40000000,
            fraction_scale(f as nat, 1) == fraction_scale(f as nat, k as nat),
        decreases 30 - k,
    {
        assert(p <= f * p) by (nonlinear_arith)
            requires
                f >= 1,
        ;
        assert(k < 30);
        proof {
            lemma_pow2_unfold((k + 1) as nat);
            if k + 1 < 30 {
                lemma_pow2_strictly_increases((k + 1) as nat, 30);
            }
        }
        k = k + 1;
        p = p * 2;
        assert(f * p <= 1_000_000_000 * 0x40000000) by (nonlinear_arith)
            requires
                f < 1_000_000_000,
                p <= 0x40000000,
        ;
    }
    k
}

fn top_bit_exec(s: u128) -> (t: u32)
    requires
        1 <= s,
        s < pow2(35),
    ensures
        t == top_bit(s as nat, 0),
        t <= 34,
        s < pow2((t + 1) as nat),
{
    proof {
        lemma2_to64();
        lemma2_to64_rest();
    }
    let mut t: u32 = 0;
    let mut p: u128 = 2;
    while p <= s
        invariant
            t <= 34,
            p == pow2((t + 1) as nat),
            s < pow2(35),
            pow2(35) == 0x800000000,
            top_bit(s as nat, 0) == top_bit(s as nat, t as nat),
        decreases 34 - t,
    {
        assert(t < 34);
        proof {
            lemma_pow2_unfold((t + 2) as nat);
        }
        t = t + 1;
        p = p * 2;
    }
    t
}

/// The thousandths of a second shown for a time of `nanos` nanoseconds.
pub fn shown_millis_of(nanos: u64) -> (r: u64)
    ensures
        r == shown_millis(nanos),
{
    let secs: u64 = nanos / NANOS_PER_SEC;
    let f: u64 = nanos % NANOS_PER_SEC;
    if f == 0 {
        return secs * 1000;
    }
    proof {
        lemma2_to64();
        lemma2_to64_rest();
        lemma_pow2_adds(64, 18);
    }
    let k = fraction_scale_exec(f as u128);
    let p = pow2_exec(k + 52);
    proof {
        if k < 30 {
            lemma_pow2_strictly_increases((k + 52) as nat, 82);
        }
        lemma_pow2_pos((k + 52) as nat);
        assert(pow2(82) == 4835703278458516698824704);
    }
    assert((f as u128) * p <= 1_000_000_000 * 4835703278458516698824704) by (nonlinear_arith)
        requires
            f < 1_000_000_000,
            p <= 4835703278458516698824704,
    ;
    let a = (f as u128) * p;
    let mq = round_half_even_exec(a, 1_000_000_000);
    proof {
        assert(a <= p * 1_000_000_000) by (nonlinear_arith)
            requires
                a == f * p,
                f < 1_000_000_000,
        ;
        lemma_round_bound(a as nat, 1_000_000_000, p as nat);
    }
    if secs == 0 {
        assert(mq * 1000 <= 2000 * p) by (nonlinear_arith)
            requires
                mq <= p + 1,
                p >= 1,
        ;
        let r = round_half_even_exec(mq * 1000, p);
        proof {
            lemma_round_bound((mq * 1000) as nat, p as nat, 2000);
        }
        return r as u64;
    }
    assert(secs < pow2(35));
    let t = top_bit_exec(secs as u128);
    let d = pow2_exec(k + t);
    assert((secs as u128) * p <= 0x800000000 * 4835703278458516698824704) by (nonlinear_arith)
        requires
            secs < 0x800000000,
            p <= 4835703278458516698824704,
    ;
    let x = (secs as u128) * p + mq;
    let mv = round_half_even_exec(x, d);
    proof {
        let tp = pow2((t + 1) as nat);
        lemma_pow2_adds((t + 1) as nat, (k + 52) as nat);
        lemma_pow2_adds(53, (k + t) as nat);
        assert((t + 1) + (k + 52) == 53 + (k + t));
        lemma_pow2_pos((k + t) as nat);
        assert(x <= (pow2(53) + 1) * d) by (nonlinear_arith)
            requires
                x == secs * p + mq,
                mq <= p + 1,
                secs + 1 <= tp,
                tp * p == pow2(53) * d,
                d >= 1,
        ;
        lemma_round_bound(x as nat, d as nat, (pow2(53) + 1) as nat);
        assert(pow2(53) == 0x20000000000000);
    }
    let e = pow2_exec(52 - t);
    proof {
        lemma_pow2_pos((52 - t) as nat);
        assert(mv * 1000 <= (mv * 1000) * e) by (nonlinear_arith)
            requires
                e >= 1,
        ;
        lemma_round_bound((mv * 1000) as nat, e as nat, (mv * 1000) as nat);
    }
    let r = round_half_even_exec(mv * 1000, e);
    r as u64
}

} // verus!
