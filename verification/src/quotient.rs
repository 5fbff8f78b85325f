//! Rounding the quotient of two binary64 magnitudes, to nearest with ties to
//! even.
//!
//! A quotient is no dyadic rational in general. It is computed with a few more
//! digits than are kept and one digit below them that says whether anything is
//! left over; rounding cannot tell that from the quotient itself.
use crate::rounding::bit_len;
use crate::rounding::distance;
use crate::rounding::excess;
use crate::rounding::half_even;
use crate::rounding::lemma_bit_len_at_most;
use crate::rounding::lemma_bit_len_bounds;
use crate::rounding::lemma_bit_len_is;
use crate::rounding::lemma_bit_len_shift;
use crate::rounding::lemma_format_powers;
use crate::rounding::lemma_half_even_shift;
use crate::rounding::lemma_magnitude_parts;
use crate::rounding::lemma_pow2_le;
use crate::rounding::lemma_units_of_parts;
use crate::rounding::parts;
use crate::rounding::round_magnitude;
use crate::rounding::rounded;
use crate::rounding::scale_of;
use crate::rounding::significand_of;
use crate::rounding::units_of;
use crate::rounding::INFINITE;
use crate::rounding::STEP;
use vstd::arithmetic::div_mod::lemma_fundamental_div_mod;
use vstd::arithmetic::div_mod::lemma_fundamental_div_mod_converse;
use vstd::arithmetic::power2::lemma2_to64_rest;
use vstd::arithmetic::power2::lemma_pow2_adds;
use vstd::arithmetic::power2::lemma_pow2_pos;
use vstd::arithmetic::power2::lemma_pow2_unfold;
use vstd::arithmetic::power2::pow2;
use vstd::prelude::*;

verus! {

/// `n / d` rounded to the nearest integer, a half going to the even one.
pub open spec fn half_even_ratio(n: nat, d: nat) -> nat {
    let q = n / d;
    let r = n % d;
    if 2 * r < d || (2 * r == d && q % 2 == 0) {
        q
    } else {
        q + 1
    }
}

/// How many low digits of `n / d` do not fit a 53-digit significand.
pub open spec fn ratio_excess(n: nat, d: nat) -> nat {
    if bit_len(n / d) > 53 {
        (bit_len(n / d) - 53) as nat
    } else {
        0
    }
}

/// The magnitude nearest to `n / d` units, infinity where that is too large.
pub open spec fn rounded_ratio(n: nat, d: nat) -> u64 {
    let s = ratio_excess(n, d);
    let m = s * STEP + half_even_ratio(n, d * pow2(s));
    if m < INFINITE {
        m as u64
    } else {
        INFINITE
    }
}

/// `2 n / d` cut to an integer, made odd where something is cut off.
pub open spec fn with_sticky(n: nat, d: nat) -> nat {
    2 * (n / d) + if n % d == 0 {
        0nat
    } else {
        1nat
    }
}

proof fn lemma_division(n: nat, d: nat)
    requires
        d > 0,
    ensures
        n == d * (n / d) + n % d,
        0 <= n % d < d,
{
    lemma_fundamental_div_mod(n as int, d as int);
}

proof fn lemma_division_is(n: nat, d: nat, q: nat, r: nat)
    requires
        n == q * d + r,
        r < d,
    ensures
        n / d == q,
        n % d == r,
{
    lemma_fundamental_div_mod_converse(n as int, d as int, q as int, r as int);
}

/// A common factor cancels.
proof fn lemma_common_factor(n: nat, d: nat, c: nat)
    requires
        d > 0,
        c > 0,
    ensures
        (n * c) / (d * c) == n / d,
        half_even_ratio(n * c, d * c) == half_even_ratio(n, d),
{
    let q = n / d;
    let r = n % d;
    lemma_division(n, d);
    assert(n * c == q * (d * c) + r * c && r * c < d * c) by (nonlinear_arith)
        requires
            n == d * q + r,
            r < d,
            c > 0,
    ;
    assert(d * c > 0) by (nonlinear_arith)
        requires
            d > 0,
            c > 0,
    ;
    lemma_division_is(n * c, d * c, q, r * c);
    assert((2 * (r * c) < d * c <==> 2 * r < d) && (2 * (r * c) == d * c <==> 2 * r == d))
        by (nonlinear_arith)
        requires
            c > 0,
    ;
}

proof fn lemma_rounded_common_factor(n: nat, d: nat, c: nat)
    requires
        d > 0,
        c > 0,
    ensures
        rounded_ratio(n * c, d * c) == rounded_ratio(n, d),
{
    lemma_common_factor(n, d, c);
    let s = ratio_excess(n, d);
    let p = pow2(s);
    lemma_pow2_pos(s);
    assert(d * p > 0) by (nonlinear_arith)
        requires
            d > 0,
            p > 0,
    ;
    lemma_common_factor(n, d * p, c);
    assert((d * p) * c == (d * c) * p) by (nonlinear_arith);
}

/// Where at least two digits are dropped, rounding the cut value with its odd
/// digit is rounding the ratio.
proof fn lemma_sticky(n: nat, d: nat, j: nat)
    requires
        d > 0,
        j >= 2,
    ensures
        half_even(with_sticky(n, d), j) == half_even_ratio(n, d * pow2((j - 1) as nat)),
{
    let p = pow2((j - 1) as nat);
    let h = pow2((j - 2) as nat);
    lemma_pow2_pos((j - 2) as nat);
    lemma_pow2_unfold((j - 1) as nat);
    lemma_pow2_unfold(j);
    let (q, r) = (n / d, n % d);
    let (qq, rr) = (q / p, q % p);
    lemma_division(n, d);
    lemma_division(q, p);
    let st: nat = if r == 0 {
        0
    } else {
        1
    };
    let x = with_sticky(n, d);
    assert(x == qq * (2 * p) + (2 * rr + st)) by (nonlinear_arith)
        requires
            x == 2 * q + st,
            q == p * qq + rr,
    ;
    lemma_division_is(x, 2 * p, qq, 2 * rr + st);
    assert(n == qq * (d * p) + (d * rr + r) && d * rr + r < d * p) by (nonlinear_arith)
        requires
            n == d * q + r,
            r < d,
            q == p * qq + rr,
            rr + 1 <= p,
            d > 0,
    ;
    assert(d * rr >= 0) by (nonlinear_arith)
        requires
            d >= 0,
            rr >= 0,
    ;
    lemma_division_is(n, d * p, qq, (d * rr + r) as nat);
    assert(d * p == 2 * (d * h)) by (nonlinear_arith)
        requires
            p == 2 * h,
    ;
    if rr < h {
        assert(d * rr + r < d * h) by (nonlinear_arith)
            requires
                rr + 1 <= h,
                r < d,
                d > 0,
        ;
    } else if rr > h {
        assert(d * rr + r > d * h) by (nonlinear_arith)
            requires
                rr >= h + 1,
                r >= 0,
                d > 0,
        ;
    }
}

/// A ratio is rounded by way of its cut value.
proof fn lemma_by_sticky(n: nat, d: nat, e: nat, k: nat)
    requires
        d > 0,
        k >= 1,
        with_sticky(n, d) >= pow2(61),
    ensures
        rounded(with_sticky(n, d) * pow2(e), k) == rounded_ratio(
            n * pow2(e),
            d * pow2((k - 1) as nat),
        ),
{
    let x = with_sticky(n, d);
    let b = bit_len(x);
    lemma_pow2_pos(61);
    lemma_pow2_pos(e);
    lemma_pow2_pos((k - 1) as nat);
    lemma_bit_len_bounds(x);
    if b < 62 {
        lemma_pow2_le(b, 61);
    }
    lemma_bit_len_shift(x, e);
    let s = excess(x * pow2(e), k);
    lemma_pow2_pos(s);
    let j = (k + s - e) as nat;
    assert(j >= 9);
    lemma_half_even_shift(x, e, j);
    lemma_sticky(n, d, j);
    let (nn, dd) = (n * pow2(e), d * pow2((k - 1) as nat));
    // The same ratio at the same scale.
    lemma_pow2_pos((j - 1) as nat);
    assert(d * pow2((j - 1) as nat) > 0) by (nonlinear_arith)
        requires
            d > 0,
            pow2((j - 1) as nat) > 0,
    ;
    lemma_common_factor(n, d * pow2((j - 1) as nat), pow2(e));
    lemma_pow2_adds((j - 1) as nat, e);
    lemma_pow2_adds((k - 1) as nat, s);
    assert((j - 1) as nat + e == (k - 1) as nat + s);
    assert((d * pow2((j - 1) as nat)) * pow2(e) == dd * pow2(s)) by (nonlinear_arith)
        requires
            dd == d * pow2((k - 1) as nat),
            pow2((j - 1) as nat) * pow2(e) == pow2((k - 1) as nat) * pow2(s),
    ;
    // The same number of digits is dropped.
    lemma_division(n, d);
    let q = n / d;
    lemma_pow2_unfold(b);
    let top = pow2((b - 1) as nat);
    assert(q < top);
    assert(n < d * top) by (nonlinear_arith)
        requires
            n == d * q + n % d,
            n % d < d,
            q + 1 <= top,
            d > 0,
    ;
    lemma_pow2_adds((b - 1) as nat, e);
    lemma_pow2_le((b - 1) as nat + e, (52 + s + k) as nat);
    lemma_pow2_adds((k - 1) as nat, 53 + s);
    assert(dd > 0) by (nonlinear_arith)
        requires
            d > 0,
            pow2((k - 1) as nat) > 0,
            dd == d * pow2((k - 1) as nat),
    ;
    assert(nn < dd * pow2(53 + s)) by (nonlinear_arith)
        requires
            nn == n * pow2(e),
            n < d * top,
            pow2(e) > 0,
            d > 0,
            top * pow2(e) <= pow2((k - 1) as nat) * pow2(53 + s),
            dd == d * pow2((k - 1) as nat),
    ;
    lemma_division(nn, dd);
    let w = nn / dd;
    assert(w < pow2(53 + s)) by (nonlinear_arith)
        requires
            nn == dd * w + nn % dd,
            nn % dd >= 0,
            nn < dd * pow2(53 + s),
            dd > 0,
    ;
    lemma_bit_len_at_most(w, 53 + s);
    if s > 0 {
        let low = pow2((b - 2) as nat);
        lemma_pow2_unfold((b - 1) as nat);
        assert(q >= low);
        assert(n >= d * low) by (nonlinear_arith)
            requires
                n == d * q + n % d,
                n % d >= 0,
                q >= low,
                d > 0,
        ;
        lemma_pow2_adds((b - 2) as nat, e);
        lemma_pow2_adds((k - 1) as nat, 52 + s);
        assert((b - 2) as nat + e == (k - 1) as nat + (52 + s));
        assert(nn >= dd * pow2(52 + s)) by (nonlinear_arith)
            requires
                nn == n * pow2(e),
                n >= d * low,
                pow2(e) > 0,
                low * pow2(e) == pow2((k - 1) as nat) * pow2(52 + s),
                dd == d * pow2((k - 1) as nat),
        ;
        assert(w >= pow2(52 + s)) by (nonlinear_arith)
            requires
                nn == dd * w + nn % dd,
                nn % dd < dd,
                nn >= dd * pow2(52 + s),
                dd > 0,
        ;
        assert((53 + s - 1) as nat == 52 + s);
        lemma_bit_len_is(w, 53 + s);
    }
    assert(ratio_excess(nn, dd) == s);
}

fn doubled_to_full(sig: u64) -> (r: (u64, u32))
    requires
        0 < sig < pow2(53),
    ensures
        r.0 == sig * pow2(r.1 as nat),
        pow2(52) <= r.0 < pow2(53),
        r.1 <= 52,
{
    let mut t: u64 = sig;
    let mut z: u32 = 0;
    proof {
        lemma_format_powers();
        assert(sig * 1 == sig);
    }
    while t < STEP
        invariant
            0 < t < pow2(53),
            t == sig * pow2(z as nat),
            pow2(52) == STEP,
            pow2(53) == 2 * STEP,
            sig > 0,
        decreases 2 * STEP - t,
    {
        proof {
            lemma_pow2_unfold((z + 1) as nat);
            if z >= 52 {
                lemma_pow2_le(52, z as nat);
                assert(sig * pow2(z as nat) >= STEP) by (nonlinear_arith)
                    requires
                        sig >= 1,
                        pow2(z as nat) >= STEP,
                ;
            }
            assert(2 * (sig * pow2(z as nat)) == sig * (2 * pow2(z as nat))) by (nonlinear_arith);
        }
        t = t * 2;
        z = z + 1;
    }
    proof {
        if z > 52 {
            lemma_pow2_le(53, z as nat);
            assert(sig * pow2(z as nat) >= pow2(53)) by (nonlinear_arith)
                requires
                    sig >= 1,
                    pow2(z as nat) >= pow2(53),
            ;
        }
    }
    (t, z)
}

/// The magnitude nearest to the quotient of two finite magnitudes.
pub fn round_quotient(a: u64, b: u64) -> (m: u64)
    requires
        a < INFINITE,
        0 < b < INFINITE,
    ensures
        units_of(b) > 0,
        m == rounded_ratio(units_of(a) * pow2(1074), units_of(b)),
{
    let (sa, ea) = parts(a);
    let (sb, eb) = parts(b);
    proof {
        lemma_format_powers();
        lemma_pow2_pos(eb as nat);
        lemma_pow2_pos(ea as nat);
        lemma_magnitude_parts(b);
        assert(sb > 0);
        assert(sb * pow2(eb as nat) > 0) by (nonlinear_arith)
            requires
                sb > 0,
                pow2(eb as nat) > 0,
        ;
    }
    let ghost d = units_of(b);
    if sa == 0 {
        proof {
            assert(0 * pow2(ea as nat) == 0);
            assert(0 * pow2(1074) == 0);
            lemma_division_is(0, d, 0, 0);
            assert(bit_len(0) == 0);
            assert(d * 1 == d);
        }
        return 0;
    }
    let (t, z) = doubled_to_full(sa);
    let p: u128 = 0x4000_0000_0000_0000;
    proof {
        lemma2_to64_rest();
        lemma_pow2_adds(53, 62);
        lemma_pow2_adds(52, 62);
        lemma_pow2_le(116, 120);
        lemma_pow2_unfold(116);
        lemma_pow2_le(115, 127);
        assert(p == pow2(62));
        assert(t * p < pow2(53) * p && t * p >= pow2(52) * p) by (nonlinear_arith)
            requires
                pow2(52) <= t < pow2(53),
                p > 0,
        ;
    }
    let n: u128 = t as u128 * p;
    let whole: u128 = n / sb as u128;
    let rest: u128 = n % sb as u128;
    proof {
        lemma_division(n as nat, sb as nat);
        lemma_pow2_adds(53, 61);
        assert(whole >= pow2(61)) by (nonlinear_arith)
            requires
                n == sb * whole + rest,
                rest < sb,
                sb < pow2(53),
                n >= pow2(53) * pow2(61),
                whole >= 0,
        ;
        assert(whole <= n) by (nonlinear_arith)
            requires
                n == sb * whole + rest,
                rest >= 0,
                sb >= 1,
                whole >= 0,
        ;
    }
    let x: u128 = if rest == 0 {
        whole * 2
    } else {
        whole * 2 + 1
    };
    assert(x == with_sticky(n as nat, sb as nat));
    let e: u32 = ea + 1074;
    let k: u32 = z + eb + 63;
    proof {
        lemma_by_sticky(n as nat, sb as nat, e as nat, k as nat);
        // The ratio of the significands is that of the magnitudes.
        let c = pow2((z + 62) as nat);
        lemma_pow2_pos((z + 62) as nat);
        lemma_pow2_adds(z as nat, 62);
        lemma_pow2_adds(ea as nat, 1074);
        lemma_pow2_adds(eb as nat, (z + 62) as nat);
        assert((k - 1) as nat == eb as nat + (z + 62) as nat);
        assert(n as nat * pow2(e as nat) == (units_of(a) * pow2(1074)) * c) by (nonlinear_arith)
            requires
                n == (sa * pow2(z as nat)) * pow2(62),
                units_of(a) == sa * pow2(ea as nat),
                pow2(e as nat) == pow2(ea as nat) * pow2(1074),
                c == pow2(z as nat) * pow2(62),
        ;
        assert(sb as nat * pow2((k - 1) as nat) == d * c) by (nonlinear_arith)
            requires
                d == sb * pow2(eb as nat),
                pow2((k - 1) as nat) == pow2(eb as nat) * c,
        ;
        lemma_rounded_common_factor(units_of(a) * pow2(1074), d, c);
    }
    round_magnitude(x, e, k)
}

/// Rounding goes to the nearest: no finite magnitude is nearer to `n / d` units
/// than the one that it is rounded to.
pub proof fn law_rounded_ratio_is_nearest(n: nat, d: nat, m: u64)
    requires
        d > 0,
        rounded_ratio(n, d) < INFINITE,
        m < INFINITE,
    ensures
        distance((units_of(rounded_ratio(n, d)) * d) as int, n as int) <= distance(
            (units_of(m) * d) as int,
            n as int,
        ),
{
    let s = ratio_excess(n, d);
    let p = (d * pow2(s)) as int;
    let q = n as int / p;
    let r = n as int % p;
    let h = half_even_ratio(n, d * pow2(s));
    lemma_format_powers();
    lemma_pow2_pos(s);
    assert(p > 0) by (nonlinear_arith)
        requires
            d > 0,
            pow2(s) > 0,
            p == d * pow2(s),
    ;
    lemma_fundamental_div_mod(n as int, p);
    lemma_division(n, d);
    let w = n / d;
    if w > 0 {
        lemma_bit_len_bounds(w);
    }
    // The quotient has at most 53 digits, and all of them where some were cut.
    lemma_pow2_le(bit_len(w), 53 + s);
    lemma_pow2_adds(53, s);
    assert(n < d * (pow2(53) * pow2(s))) by (nonlinear_arith)
        requires
            n == d * w + n % d,
            n % d < d,
            w + 1 <= pow2(53) * pow2(s),
            d > 0,
    ;
    assert(q < pow2(53)) by (nonlinear_arith)
        requires
            n == p * q + r,
            r >= 0,
            n < d * (pow2(53) * pow2(s)),
            p == d * pow2(s),
            p > 0,
    ;
    if s > 0 {
        assert((bit_len(w) - 1) as nat == 52 + s);
        lemma_pow2_adds(52, s);
        assert(n >= d * (pow2(52) * pow2(s))) by (nonlinear_arith)
            requires
                n == d * w + n % d,
                n % d >= 0,
                w >= pow2(52) * pow2(s),
                d > 0,
        ;
        assert(q >= pow2(52)) by (nonlinear_arith)
            requires
                n == p * q + r,
                r < p,
                n >= d * (pow2(52) * pow2(s)),
                p == d * pow2(s),
                p > 0,
        ;
    }
    assert(0 <= q) by (nonlinear_arith)
        requires
            n == p * q + r,
            r < p,
            n >= 0,
            p > 0,
    ;
    lemma_units_of_parts(h, s);
    assert((h * pow2(s)) * d == h * p) by (nonlinear_arith)
        requires
            p == d * pow2(s),
    ;
    assert(q * p == p * q) by (nonlinear_arith);
    assert((q + 1) * p == q * p + p) by (nonlinear_arith);
    // The magnitude it is compared with.
    let e = scale_of(m);
    let sig = significand_of(m);
    lemma_magnitude_parts(m);
    lemma_pow2_pos(e);
    let u = units_of(m) * d;
    if e >= s {
        // A multiple of the same step.
        lemma_pow2_adds(s, (e - s) as nat);
        let t = sig * pow2((e - s) as nat);
        assert(u == t * p) by (nonlinear_arith)
            requires
                u == (sig * pow2(e)) * d,
                pow2(e) == pow2(s) * pow2((e - s) as nat),
                p == d * pow2(s),
                t == sig * pow2((e - s) as nat),
        ;
        if t <= q {
            assert(t * p <= q * p) by (nonlinear_arith)
                requires
                    t <= q,
                    p > 0,
            ;
        } else {
            assert(t * p >= (q + 1) * p) by (nonlinear_arith)
                requires
                    t >= q + 1,
                    p > 0,
            ;
        }
    } else {
        // Too small to reach the first step below.
        lemma_pow2_adds(53, e);
        lemma_pow2_le(53 + e, 52 + s);
        lemma_pow2_adds(52, s);
        assert(sig * pow2(e) < pow2(53) * pow2(e)) by (nonlinear_arith)
            requires
                sig < pow2(53),
                pow2(e) > 0,
        ;
        assert(u <= (pow2(52) * pow2(s)) * d) by (nonlinear_arith)
            requires
                u == (sig * pow2(e)) * d,
                sig * pow2(e) <= pow2(52) * pow2(s),
                d > 0,
        ;
        assert((pow2(52) * pow2(s)) * d == pow2(52) * p) by (nonlinear_arith)
            requires
                p == d * pow2(s),
        ;
        assert(pow2(52) * p <= q * p) by (nonlinear_arith)
            requires
                pow2(52) <= q,
                p > 0,
        ;
    }
}

} // verus!
