//! Rounding a non-negative dyadic rational to a binary64 magnitude, to nearest
//! with ties to even.
//!
//! A finite binary64 magnitude is `significand * 2^scale` in units of the
//! smallest subnormal, with a significand below `2^53` and, where the scale is
//! positive, at least `2^52`. Its bit pattern without the sign is then
//! `scale * 2^52 + significand`, which is why a carry out of the significand
//! needs no separate treatment.
use vstd::arithmetic::div_mod::lemma_fundamental_div_mod;
use vstd::arithmetic::div_mod::lemma_fundamental_div_mod_converse;
use vstd::arithmetic::power2::lemma2_to64;
use vstd::arithmetic::power2::lemma2_to64_rest;
use vstd::arithmetic::power2::lemma_pow2_adds;
use vstd::arithmetic::power2::lemma_pow2_pos;
use vstd::arithmetic::power2::lemma_pow2_strictly_increases;
use vstd::arithmetic::power2::lemma_pow2_unfold;
use vstd::arithmetic::power2::pow2;
use vstd::prelude::*;

verus! {

/// The weight of one step of the exponent field: `2^52`.
pub const STEP: u64 = 0x0010_0000_0000_0000;

/// The magnitude of an infinity. Larger magnitudes are NaNs.
pub const INFINITE: u64 = 0x7ff0_0000_0000_0000;

/// The number of binary digits of `n`; zero has none.
pub open spec fn bit_len(n: nat) -> nat
    decreases n,
{
    if n == 0 {
        0
    } else {
        1 + bit_len(n / 2)
    }
}

/// `n / 2^d` rounded to the nearest integer, a half going to the even one.
pub open spec fn half_even(n: nat, d: nat) -> nat {
    let p = pow2(d);
    let q = n / p;
    let r = n % p;
    if 2 * r < p || (2 * r == p && q % 2 == 0) {
        q
    } else {
        q + 1
    }
}

/// How many low digits of `n / 2^k` do not fit a 53-digit significand.
pub open spec fn excess(n: nat, k: nat) -> nat {
    if bit_len(n) > 53 + k {
        (bit_len(n) - (53 + k)) as nat
    } else {
        0
    }
}

/// The magnitude nearest to `n / 2^k` units, infinity where that is too large.
pub open spec fn rounded(n: nat, k: nat) -> u64 {
    let s = excess(n, k);
    let m = s * STEP + half_even(n, k + s);
    if m < INFINITE {
        m as u64
    } else {
        INFINITE
    }
}

/// The scale of a finite magnitude.
pub open spec fn scale_of(m: u64) -> nat {
    if m < STEP {
        0
    } else {
        (m / STEP - 1) as nat
    }
}

/// The significand of a finite magnitude.
pub open spec fn significand_of(m: u64) -> nat {
    (m - scale_of(m) * STEP) as nat
}

/// The value of a finite magnitude in units of the smallest subnormal.
pub open spec fn units_of(m: u64) -> nat {
    significand_of(m) * pow2(scale_of(m))
}

/// The powers of two that the format is made of.
pub proof fn lemma_format_powers()
    ensures
        pow2(0) == 1,
        pow2(1) == 2,
        pow2(52) == STEP,
        pow2(53) == 2 * STEP,
        pow2(121) * 64 == 0x8000_0000_0000_0000_0000_0000_0000_0000,
        pow2(127) == 0x8000_0000_0000_0000_0000_0000_0000_0000,
        pow2(128) == 0x1_0000_0000_0000_0000_0000_0000_0000_0000int,
{
    lemma2_to64();
    lemma2_to64_rest();
    lemma_pow2_adds(64, 63);
    lemma_pow2_unfold(128);
    lemma_pow2_adds(121, 6);
    assert(0x1_0000_0000_0000_0000int * 0x8000_0000_0000_0000int
        == 0x8000_0000_0000_0000_0000_0000_0000_0000int) by (nonlinear_arith);
}

/// A number of so many digits lies between two powers of two.
pub proof fn lemma_bit_len_bounds(n: nat)
    requires
        n > 0,
    ensures
        bit_len(n) >= 1,
        pow2((bit_len(n) - 1) as nat) <= n < pow2(bit_len(n)),
    decreases n,
{
    lemma2_to64();
    if n / 2 == 0 {
        assert(n == 1);
        assert(bit_len(0) == 0);
        assert(bit_len(n) == 1 + bit_len(n / 2));
    } else {
        lemma_bit_len_bounds(n / 2);
        let l = bit_len(n / 2);
        assert(bit_len(n) == 1 + l);
        lemma_pow2_unfold(l);
        lemma_pow2_unfold(l + 1);
    }
}

/// Powers of two keep the order of their exponents.
pub proof fn lemma_pow2_le(a: nat, b: nat)
    requires
        a <= b,
    ensures
        pow2(a) <= pow2(b),
{
    if a < b {
        lemma_pow2_strictly_increases(a, b);
    }
}

/// A number between two neighbouring powers of two has so many digits.
pub proof fn lemma_bit_len_is(n: nat, l: nat)
    requires
        l >= 1,
        pow2((l - 1) as nat) <= n < pow2(l),
    ensures
        bit_len(n) == l,
{
    lemma_pow2_pos((l - 1) as nat);
    lemma_bit_len_bounds(n);
    let b = bit_len(n);
    if b < l {
        lemma_pow2_le(b, (l - 1) as nat);
    }
    if b > l {
        lemma_pow2_le(l, (b - 1) as nat);
    }
}

/// A number below a power of two has no more digits than its exponent.
pub proof fn lemma_bit_len_at_most(n: nat, l: nat)
    requires
        n < pow2(l),
    ensures
        bit_len(n) <= l,
{
    if n > 0 {
        lemma_bit_len_bounds(n);
        if bit_len(n) > l {
            lemma_pow2_le(l, (bit_len(n) - 1) as nat);
        }
    }
}

/// Multiplying by a power of two shifts the digits.
pub proof fn lemma_bit_len_shift(n: nat, e: nat)
    requires
        n > 0,
    ensures
        bit_len(n * pow2(e)) == bit_len(n) + e,
{
    lemma_bit_len_bounds(n);
    let l = bit_len(n);
    let c = pow2(e);
    lemma_pow2_pos(e);
    lemma_pow2_adds((l - 1) as nat, e);
    lemma_pow2_adds(l, e);
    assert(pow2((l - 1) as nat) * c <= n * c) by (nonlinear_arith)
        requires
            pow2((l - 1) as nat) <= n,
            c > 0,
    ;
    assert(n * c < pow2(l) * c) by (nonlinear_arith)
        requires
            n < pow2(l),
            c > 0,
    ;
    lemma_bit_len_is(n * c, l + e);
}

/// Rounding sees only the ratio: a common power of two cancels.
pub proof fn lemma_half_even_shift(x: nat, e: nat, d: nat)
    ensures
        half_even(x * pow2(e), e + d) == half_even(x, d),
{
    let c = pow2(e);
    let p = pow2(d);
    let q = x / p;
    let r = x % p;
    lemma_pow2_pos(e);
    lemma_pow2_pos(d);
    lemma_pow2_adds(e, d);
    lemma_fundamental_div_mod(x as int, p as int);
    assert(x * c == q * (c * p) + r * c && 0 <= r * c < c * p) by (nonlinear_arith)
        requires
            x == p * q + r,
            0 <= r < p,
            c > 0,
    ;
    lemma_fundamental_div_mod_converse(
        (x * c) as int,
        (c * p) as int,
        q as int,
        (r * c) as int,
    );
    assert((2 * (r * c) < c * p <==> 2 * r < p) && (2 * (r * c) == c * p <==> 2 * r == p))
        by (nonlinear_arith)
        requires
            c > 0,
    ;
}

/// A value that needs no shift is kept as it is.
proof fn lemma_half_even_exact(x: nat, e: nat, d: nat)
    requires
        d <= e,
    ensures
        half_even(x * pow2(e), d) == x * pow2((e - d) as nat),
{
    let p = pow2(d);
    let y = x * pow2((e - d) as nat);
    lemma_pow2_pos(d);
    lemma_pow2_adds(d, (e - d) as nat);
    assert(x * pow2(e) == p * y) by (nonlinear_arith)
        requires
            pow2(e) == p * pow2((e - d) as nat),
            y == x * pow2((e - d) as nat),
    ;
    assert(p * y == y * p) by (nonlinear_arith);
    lemma_fundamental_div_mod_converse((x * pow2(e)) as int, p as int, y as int, 0);
}

fn bit_length(x: u128) -> (l: u32)
    ensures
        l == bit_len(x as nat),
{
    let mut y: u128 = x;
    let mut l: u32 = 0;
    while y > 0
        invariant
            l + bit_len(y as nat) == bit_len(x as nat),
        decreases y,
    {
        proof {
            lemma_format_powers();
            lemma_bit_len_at_most(x as nat, 128);
        }
        y = y / 2;
        l = l + 1;
    }
    l
}

fn two_to(d: u32) -> (p: u128)
    requires
        d < 128,
    ensures
        p == pow2(d as nat),
{
    let mut p: u128 = 1;
    let mut i: u32 = 0;
    proof {
        lemma2_to64();
    }
    while i < d
        invariant
            i <= d < 128,
            p == pow2(i as nat),
        decreases d - i,
    {
        proof {
            lemma_pow2_unfold((i + 1) as nat);
            lemma_pow2_le((i + 1) as nat, 127);
            lemma_format_powers();
        }
        p = p * 2;
        i = i + 1;
    }
    p
}

/// The magnitude nearest to `x * 2^e / 2^k` units.
pub fn round_magnitude(x: u128, e: u32, k: u32) -> (m: u64)
    requires
        x < pow2(120),
        e <= 5000,
        k <= 3000,
    ensures
        m == rounded(x as nat * pow2(e as nat), k as nat),
{
    if x == 0 {
        proof {
            lemma_pow2_pos(k as nat);
            vstd::arithmetic::div_mod::lemma_small_mod(0, pow2(k as nat));
            vstd::arithmetic::div_mod::lemma_div_of0(pow2(k as nat) as int);
            assert(0 * pow2(e as nat) == 0);
            assert(bit_len(0) == 0);
        }
        return 0;
    }
    let l: u32 = bit_length(x);
    let ghost n = x as nat * pow2(e as nat);
    proof {
        lemma_bit_len_at_most(x as nat, 120);
        lemma_bit_len_bounds(x as nat);
        lemma_bit_len_shift(x as nat, e as nat);
    }
    let s: u32 = if l + e > 53 + k {
        l + e - 53 - k
    } else {
        0
    };
    assert(s == excess(n, k as nat));
    let q: u64;
    if k + s >= e {
        let d: u32 = k + s - e;
        proof {
            lemma_half_even_shift(x as nat, e as nat, d as nat);
            assert(e as nat + d as nat == k as nat + s as nat);
            lemma_pow2_pos(d as nat);
            lemma_fundamental_div_mod(x as int, pow2(d as nat) as int);
        }
        if d >= 122 {
            proof {
                lemma_pow2_le(121, d as nat);
                lemma_pow2_unfold(121);
                vstd::arithmetic::div_mod::lemma_small_mod(x as nat, pow2(d as nat));
                vstd::arithmetic::div_mod::lemma_basic_div(x as int, pow2(d as nat) as int);
            }
            q = 0;
        } else {
            let p: u128 = two_to(d);
            let whole: u128 = x / p;
            let rest: u128 = x % p;
            proof {
                lemma_pow2_le(l as nat, 53 + d as nat);
                lemma_pow2_adds(53, d as nat);
                lemma_format_powers();
                assert(whole < pow2(53)) by (nonlinear_arith)
                    requires
                        x == p * whole + rest,
                        rest >= 0,
                        x < pow2(53) * p,
                        p > 0,
                ;
                lemma_pow2_le(d as nat, 121);
            }
            let double: u128 = rest + rest;
            if double < p || (double == p && whole % 2 == 0) {
                q = whole as u64;
            } else {
                q = whole as u64 + 1;
            }
        }
    } else {
        let d: u32 = e - k - s;
        proof {
            lemma_half_even_exact(x as nat, e as nat, (k + s) as nat);
            lemma_pow2_le((l + d) as nat, 53);
            lemma_pow2_adds(l as nat, d as nat);
            lemma_pow2_pos(d as nat);
            lemma_format_powers();
            assert(x * pow2(d as nat) < pow2(l as nat) * pow2(d as nat)) by (nonlinear_arith)
                requires
                    x < pow2(l as nat),
                    pow2(d as nat) > 0,
            ;
        }
        let p: u128 = two_to(d);
        assert(p == pow2(d as nat));
        let shifted: u128 = x * p;
        q = shifted as u64;
    }
    assert(q == half_even(n, (k + s) as nat));
    assert(q <= 0x20_0000_0000_0000);
    if s > 2046 {
        return INFINITE;
    }
    let m: u64 = s as u64 * STEP + q;
    if m < INFINITE {
        m
    } else {
        INFINITE
    }
}

/// A finite magnitude is made of its scale and its significand.
pub proof fn lemma_magnitude_parts(m: u64)
    requires
        m < INFINITE,
    ensures
        m == scale_of(m) * STEP + significand_of(m),
        significand_of(m) < pow2(53),
        scale_of(m) > 0 ==> significand_of(m) >= pow2(52),
        scale_of(m) <= 2045,
{
    lemma_format_powers();
}

/// Magnitudes are ordered as the values they stand for.
pub proof fn lemma_units_order(a: u64, b: u64)
    requires
        a < INFINITE,
        b < INFINITE,
    ensures
        a < b <==> units_of(a) < units_of(b),
        a == b <==> units_of(a) == units_of(b),
{
    if a < b {
        lemma_units_increase(a, b);
    } else if b < a {
        lemma_units_increase(b, a);
    }
}

proof fn lemma_units_increase(a: u64, b: u64)
    requires
        a < b < INFINITE,
    ensures
        units_of(a) < units_of(b),
{
    lemma_magnitude_parts(a);
    lemma_magnitude_parts(b);
    let (sa, sb) = (significand_of(a), significand_of(b));
    let (ea, eb) = (scale_of(a), scale_of(b));
    lemma_pow2_pos(ea);
    lemma_pow2_pos(eb);
    if ea == eb {
        assert(sa * pow2(ea) < sb * pow2(ea)) by (nonlinear_arith)
            requires
                sa < sb,
                pow2(ea) > 0,
        ;
    } else {
        lemma_pow2_adds(53, ea);
        lemma_pow2_adds(52, eb);
        lemma_pow2_le(53 + ea, 52 + eb);
        assert(sa * pow2(ea) < pow2(53) * pow2(ea)) by (nonlinear_arith)
            requires
                sa < pow2(53),
                pow2(ea) > 0,
        ;
        assert(sb * pow2(eb) >= pow2(52) * pow2(eb)) by (nonlinear_arith)
            requires
                sb >= pow2(52),
        ;
    }
}

/// A value that a finite magnitude stands for is rounded to that magnitude.
pub proof fn lemma_rounded_exact(m: u64, k: nat)
    requires
        m < INFINITE,
    ensures
        rounded(units_of(m) * pow2(k), k) == m,
{
    let e = scale_of(m);
    let sig = significand_of(m);
    lemma_magnitude_parts(m);
    lemma_pow2_adds(e, k);
    assert(sig * pow2(e) * pow2(k) == sig * (pow2(e) * pow2(k))) by (nonlinear_arith);
    let n = sig * pow2(e + k);
    if sig == 0 {
        assert(e == 0);
        lemma_pow2_pos(k);
        vstd::arithmetic::div_mod::lemma_small_mod(0, pow2(k));
        vstd::arithmetic::div_mod::lemma_div_of0(pow2(k) as int);
        assert(n == 0) by (nonlinear_arith)
            requires
                n == sig * pow2(e + k),
                sig == 0,
        ;
        assert(bit_len(0) == 0);
    } else {
        lemma_bit_len_shift(sig, e + k);
        lemma_bit_len_at_most(sig, 53);
        if e > 0 {
            lemma_bit_len_is(sig, 53);
        }
        assert(excess(n, k) == e);
        lemma_half_even_exact(sig, e + k, k + e);
        lemma_format_powers();
        assert(((e + k) - (k + e)) as nat == 0);
        assert(sig * pow2(0) == sig) by (nonlinear_arith)
            requires
                pow2(0) == 1,
        ;
        assert(half_even(n, k + e) == sig);
    }
}

/// Adding or taking away less than a thousandth of the last digit of a large
/// magnitude changes nothing.
proof fn lemma_absorbed(m: u64, t: nat)
    requires
        m < INFINITE,
        scale_of(m) >= 65,
        t < pow2((scale_of(m) - 12) as nat),
    ensures
        rounded(units_of(m) + t, 0) == m,
        t <= units_of(m),
        rounded((units_of(m) - t) as nat, 0) == m,
{
    let e = scale_of(m);
    let sig = significand_of(m);
    let p = pow2(e);
    lemma_magnitude_parts(m);
    lemma_format_powers();
    lemma_pow2_pos(e);
    lemma_pow2_pos((e - 12) as nat);
    lemma_pow2_adds((e - 12) as nat, 12);
    lemma2_to64();
    lemma_pow2_adds(52, e);
    lemma_pow2_adds(53, e);
    lemma_pow2_unfold(53 + e);
    let u = sig * p;
    assert(4096 * t < p);
    assert(u >= pow2(52) * p) by (nonlinear_arith)
        requires
            sig >= pow2(52),
            u == sig * p,
    ;
    assert(u + p <= pow2(53) * p) by (nonlinear_arith)
        requires
            sig + 1 <= pow2(53),
            u == sig * p,
    ;
    assert(pow2(52) * p >= p) by (nonlinear_arith)
        requires
            pow2(52) >= 1,
            p > 0,
    ;
    assert(p * sig == u) by (nonlinear_arith)
        requires
            u == sig * p,
    ;
    // Adding.
    lemma_bit_len_is(u + t, 53 + e);
    lemma_fundamental_div_mod_converse((u + t) as int, p as int, sig as int, t as int);
    // Taking away.
    if t == 0 {
    } else if sig > pow2(52) {
        let v = (u - t) as nat;
        assert(u >= pow2(52) * p + p) by (nonlinear_arith)
            requires
                sig >= pow2(52) + 1,
                u == sig * p,
        ;
        lemma_bit_len_is(v, 53 + e);
        assert(p * (sig - 1) + (p - t) == v) by (nonlinear_arith)
            requires
                u == sig * p,
                v == u - t,
        ;
        lemma_fundamental_div_mod_converse(v as int, p as int, sig - 1, p - t);
    } else {
        let v = (u - t) as nat;
        let h = pow2((e - 1) as nat);
        lemma_pow2_unfold(e);
        assert(p == 2 * h);
        lemma_pow2_unfold(52 + e);
        lemma_bit_len_is(v, (52 + e) as nat);
        assert(h * (2 * sig - 1) + (h - t) == v) by (nonlinear_arith)
            requires
                u == sig * p,
                p == 2 * h,
                v == u - t,
        ;
        lemma_fundamental_div_mod_converse(v as int, h as int, 2 * sig - 1, h - t);
        assert(excess(v, 0) == e - 1);
        assert(half_even(v, (e - 1) as nat) == 2 * sig);
    }
}

proof fn lemma_half_even_monotone(a: nat, b: nat, d: nat)
    requires
        a <= b,
    ensures
        half_even(a, d) <= half_even(b, d),
{
    let p = pow2(d);
    lemma_pow2_pos(d);
    lemma_fundamental_div_mod(a as int, p as int);
    lemma_fundamental_div_mod(b as int, p as int);
    vstd::arithmetic::div_mod::lemma_div_is_ordered(a as int, b as int, p as int);
    if a / p == b / p {
        assert(a % p <= b % p);
    } else {
        assert(a / p + 1 <= b / p);
    }
}

/// Rounding keeps the order.
pub proof fn lemma_rounded_monotone(a: nat, b: nat, k: nat)
    requires
        a <= b,
    ensures
        rounded(a, k) <= rounded(b, k),
{
    let (sa, sb) = (excess(a, k), excess(b, k));
    lemma_format_powers();
    if b == 0 {
        return ;
    }
    lemma_bit_len_bounds(b);
    assert(bit_len(a) <= bit_len(b)) by {
        if a > 0 {
            lemma_bit_len_at_most(a, bit_len(b));
        }
    }
    if sa == sb {
        lemma_half_even_monotone(a, b, k + sa);
    } else {
        let (da, db) = (k + sa, k + sb);
        // The smaller value fills at most 53 digits.
        assert(half_even(a, da) <= pow2(53)) by {
            lemma_pow2_pos(da);
            lemma_pow2_le(bit_len(a), 53 + da);
            lemma_pow2_adds(53, da);
            lemma_fundamental_div_mod(a as int, pow2(da) as int);
            if a > 0 {
                lemma_bit_len_bounds(a);
            }
            let (q, p) = (a as int / pow2(da) as int, pow2(da) as int);
            assert(q < pow2(53)) by (nonlinear_arith)
                requires
                    a == p * q + (a as int % p),
                    a as int % p >= 0,
                    a < pow2(53) * p,
                    p > 0,
            ;
        }
        // The larger one fills all of them.
        assert(half_even(b, db) >= pow2(52)) by {
            lemma_pow2_pos(db);
            assert((bit_len(b) - 1) as nat == 52 + db);
            lemma_pow2_adds(52, db);
            lemma_fundamental_div_mod(b as int, pow2(db) as int);
            let (q, p) = (b as int / pow2(db) as int, pow2(db) as int);
            assert(q >= pow2(52)) by (nonlinear_arith)
                requires
                    b == p * q + (b as int % p),
                    b as int % p < p,
                    b >= pow2(52) * p,
                    p > 0,
            ;
        }
    }
}

/// A significand of at most `2^53` at a scale stands for its multiple of the
/// scale, also where it carries into the next one.
pub proof fn lemma_units_of_parts(h: nat, e: nat)
    requires
        h <= pow2(53),
        e > 0 ==> h >= pow2(52),
        e * STEP + h < INFINITE,
    ensures
        units_of((e * STEP + h) as u64) == h * pow2(e),
{
    lemma_format_powers();
    let m = (e * STEP + h) as u64;
    if h == pow2(53) {
        assert(m / STEP == e + 2);
        assert(scale_of(m) == e + 1);
        assert(significand_of(m) == STEP);
        lemma_pow2_unfold(e + 1);
        assert(STEP * (2 * pow2(e)) == (2 * STEP) * pow2(e)) by (nonlinear_arith);
    } else if h < pow2(52) {
        assert(e == 0);
        assert(m < STEP);
    } else {
        assert(m / STEP == e + 1);
        assert(scale_of(m) == e);
        assert(significand_of(m) == h);
    }
}

/// The distance of two integers.
pub open spec fn distance(a: int, b: int) -> int {
    if a <= b {
        b - a
    } else {
        a - b
    }
}

/// Rounding goes to the nearest: no finite magnitude is nearer to `n / 2^k`
/// units than the one that it is rounded to.
pub proof fn law_rounded_is_nearest(n: nat, k: nat, m: u64)
    requires
        rounded(n, k) < INFINITE,
        m < INFINITE,
    ensures
        distance((units_of(rounded(n, k)) * pow2(k)) as int, n as int) <= distance(
            (units_of(m) * pow2(k)) as int,
            n as int,
        ),
{
    let s = excess(n, k);
    let d = k + s;
    let p = pow2(d) as int;
    let q = n as int / p;
    let r = n as int % p;
    let h = half_even(n, d);
    lemma_format_powers();
    lemma_pow2_pos(d);
    lemma_pow2_pos(k);
    lemma_pow2_pos(s);
    lemma_fundamental_div_mod(n as int, p);
    lemma_pow2_adds(k, s);
    if n > 0 {
        lemma_bit_len_bounds(n);
    }
    // The quotient has at most 53 digits, and all of them where some were cut.
    lemma_pow2_le(bit_len(n), 53 + d);
    lemma_pow2_adds(53, d);
    assert(q < pow2(53)) by (nonlinear_arith)
        requires
            n == p * q + r,
            r >= 0,
            n < pow2(53) * p,
            p > 0,
    ;
    if s > 0 {
        assert((bit_len(n) - 1) as nat == 52 + d);
        lemma_pow2_adds(52, d);
        assert(q >= pow2(52)) by (nonlinear_arith)
            requires
                n == p * q + r,
                r < p,
                n >= pow2(52) * p,
                p > 0,
        ;
    }
    assert(0 <= q) by (nonlinear_arith)
        requires
            n == p * q + r,
            r < p,
            n >= 0,
            p > 0,
    ;
    lemma_units_of_parts(h, s);
    assert((h * pow2(s)) * pow2(k) == h * p) by (nonlinear_arith)
        requires
            p == pow2(k) * pow2(s),
    ;
    assert(q * p == p * q) by (nonlinear_arith);
    assert((q + 1) * p == q * p + p) by (nonlinear_arith);
    // The magnitude it is compared with.
    let e = scale_of(m);
    let sig = significand_of(m);
    lemma_magnitude_parts(m);
    lemma_pow2_pos(e);
    let u = units_of(m) * pow2(k);
    if e >= s {
        // A multiple of the same step.
        lemma_pow2_adds(s, (e - s) as nat);
        let t = sig * pow2((e - s) as nat);
        assert(u == t * p) by (nonlinear_arith)
            requires
                u == (sig * pow2(e)) * pow2(k),
                pow2(e) == pow2(s) * pow2((e - s) as nat),
                p == pow2(k) * pow2(s),
                t == sig * pow2((e - s) as nat),
        ;
        if t <= q {
            assert(t * p <= q * p) by (nonlinear_arith)
                requires
                    t <= q,
                    p > 0,
            ;
        } else {
            assert(t * p >= (q + 1) * p) by (nonlinear_arith)
                requires
                    t >= q + 1,
                    p > 0,
            ;
        }
    } else {
        // Too small to reach the first step below.
        lemma_pow2_adds(53, e);
        lemma_pow2_le(53 + e, 52 + s);
        lemma_pow2_adds(52, s);
        assert(sig * pow2(e) < pow2(53) * pow2(e)) by (nonlinear_arith)
            requires
                sig < pow2(53),
                pow2(e) > 0,
        ;
        assert(u <= (pow2(52) * pow2(s)) * pow2(k)) by (nonlinear_arith)
            requires
                u == (sig * pow2(e)) * pow2(k),
                sig * pow2(e) <= pow2(52) * pow2(s),
        ;
        assert((pow2(52) * pow2(s)) * pow2(k) == pow2(52) * p) by (nonlinear_arith)
            requires
                p == pow2(k) * pow2(s),
        ;
        assert(pow2(52) * p <= q * p) by (nonlinear_arith)
            requires
                pow2(52) <= q,
                p > 0,
        ;
    }
}

/// The significand and the scale of a finite magnitude.
pub fn parts(m: u64) -> (r: (u64, u32))
    requires
        m < INFINITE,
    ensures
        r.0 == significand_of(m),
        r.1 == scale_of(m),
        r.0 < pow2(53),
        r.1 <= 2045,
        r.1 > 0 ==> r.0 >= pow2(52),
{
    proof {
        lemma_magnitude_parts(m);
    }
    if m < STEP {
        (m, 0)
    } else {
        let e: u64 = m / STEP - 1;
        (m - e * STEP, e as u32)
    }
}

/// The magnitude nearest to the product of two finite magnitudes.
pub fn round_product(a: u64, b: u64) -> (m: u64)
    requires
        a < INFINITE,
        b < INFINITE,
    ensures
        m == rounded(units_of(a) * units_of(b), 1074),
{
    let (sa, ea) = parts(a);
    let (sb, eb) = parts(b);
    proof {
        lemma_pow2_adds(53, 53);
        lemma_pow2_le(106, 120);
        lemma_pow2_le(120, 128);
        lemma_format_powers();
        assert(sa * sb < pow2(53) * pow2(53)) by (nonlinear_arith)
            requires
                0 <= sa < pow2(53),
                0 <= sb < pow2(53),
        ;
        lemma_pow2_adds(ea as nat, eb as nat);
        assert((sa * pow2(ea as nat)) * (sb * pow2(eb as nat)) == (sa * sb) * (pow2(ea as nat)
            * pow2(eb as nat))) by (nonlinear_arith);
        assert(0 <= sa * sb) by (nonlinear_arith)
            requires
                0 <= sa,
                0 <= sb,
        ;
    }
    let x: u128 = sa as u128 * sb as u128;
    assert(x as nat * pow2((ea + eb) as nat) == units_of(a) * units_of(b));
    round_magnitude(x, ea + eb, 1074)
}

/// The magnitude nearest to `hi + lo`, or to `hi - lo` where `apart` says that
/// the signs differ.
pub fn round_sum(hi: u64, lo: u64, apart: bool) -> (m: u64)
    requires
        lo <= hi < INFINITE,
    ensures
        units_of(lo) <= units_of(hi),
        !apart ==> m == rounded(units_of(hi) + units_of(lo), 0),
        apart ==> m == rounded((units_of(hi) - units_of(lo)) as nat, 0),
{
    let (sh, eh) = parts(hi);
    let (sl, el) = parts(lo);
    proof {
        lemma_units_order(lo, hi);
        lemma_magnitude_parts(hi);
        lemma_magnitude_parts(lo);
        lemma_format_powers();
        lemma_pow2_pos(el as nat);
    }
    let d: u32 = eh - el;
    if d > 64 {
        proof {
            lemma_pow2_adds(53, el as nat);
            lemma_pow2_le((53 + el) as nat, (eh - 12) as nat);
            assert(sl * pow2(el as nat) < pow2(53) * pow2(el as nat)) by (nonlinear_arith)
                requires
                    sl < pow2(53),
                    pow2(el as nat) > 0,
            ;
            lemma_absorbed(hi, units_of(lo));
        }
        return hi;
    }
    let p: u128 = two_to(d);
    proof {
        lemma_pow2_adds(53, d as nat);
        lemma_pow2_le((53 + d) as nat, 117);
        lemma_pow2_unfold(118);
        lemma_pow2_le(118, 120);
        lemma_pow2_le(53, 117);
        lemma_pow2_le(120, 128);
        lemma_pow2_pos(d as nat);
        assert(sh * p < pow2(53) * p) by (nonlinear_arith)
            requires
                sh < pow2(53),
                p > 0,
        ;
        assert(0 <= sh * p) by (nonlinear_arith)
            requires
                0 <= sh,
                0 <= p,
        ;
        lemma_pow2_adds(d as nat, el as nat);
        let (c, h, l) = (pow2(el as nat), sh as int, sl as int);
        assert((h * p) * c == h * (p * c)) by (nonlinear_arith);
        assert((h * p + l) * c == (h * p) * c + l * c) by (nonlinear_arith);
        assert((h * p - l) * c == (h * p) * c - l * c) by (nonlinear_arith);
        if h * p < l {
            assert((h * p) * c < l * c) by (nonlinear_arith)
                requires
                    h * p < l,
                    c > 0,
            ;
        }
    }
    let big: u128 = sh as u128 * p;
    if apart {
        round_magnitude(big - sl as u128, el, 0)
    } else {
        round_magnitude(big + sl as u128, el, 0)
    }
}

/// The whole part of a finite magnitude, at most the largest `u64`.
pub fn whole_part(m: u64) -> (w: u64)
    requires
        m < INFINITE,
    ensures
        units_of(m) / pow2(1074) > u64::MAX ==> w == u64::MAX,
        units_of(m) / pow2(1074) <= u64::MAX ==> w == units_of(m) / pow2(1074),
{
    let (sig, e) = parts(m);
    proof {
        lemma_pow2_pos(1074);
        lemma_format_powers();
    }
    if e >= 1074 {
        let d: u32 = e - 1074;
        proof {
            lemma_pow2_adds(1074, d as nat);
            lemma_pow2_pos(d as nat);
            assert(sig * pow2(e as nat) == pow2(1074) * (sig * pow2(d as nat))) by (nonlinear_arith)
                requires
                    pow2(e as nat) == pow2(1074) * pow2(d as nat),
            ;
            assert((sig * pow2(d as nat)) * pow2(1074) == pow2(1074) * (sig * pow2(d as nat)))
                by (nonlinear_arith);
            lemma_fundamental_div_mod_converse(
                units_of(m) as int,
                pow2(1074) as int,
                (sig * pow2(d as nat)) as int,
                0,
            );
        }
        if d > 11 {
            proof {
                lemma_pow2_le(12, d as nat);
                lemma2_to64();
                assert(sig * pow2(d as nat) >= pow2(52) * pow2(12)) by (nonlinear_arith)
                    requires
                        sig >= pow2(52),
                        pow2(d as nat) >= pow2(12),
                ;
                lemma_pow2_adds(52, 12);
            }
            return u64::MAX;
        }
        let p: u128 = two_to(d);
        proof {
            lemma_pow2_le(d as nat, 11);
            lemma2_to64();
            assert(0 <= sig * p <= 0x20_0000_0000_0000 * 2048) by (nonlinear_arith)
                requires
                    0 <= sig <= 0x20_0000_0000_0000,
                    0 <= p <= 2048,
            ;
            lemma_pow2_adds(53, 11);
            assert(sig * p < pow2(53) * pow2(11)) by (nonlinear_arith)
                requires
                    0 <= sig < pow2(53),
                    0 < p <= pow2(11),
            ;
        }
        (sig as u128 * p) as u64
    } else {
        let d: u32 = 1074 - e;
        proof {
            lemma_pow2_adds(d as nat, e as nat);
            lemma_pow2_pos(d as nat);
            lemma_pow2_pos(e as nat);
            let (c, p) = (pow2(e as nat) as int, pow2(d as nat) as int);
            lemma_fundamental_div_mod(sig as int, p);
            let q = sig as int / p;
            let r = sig as int % p;
            assert(sig * c == q * (p * c) + r * c && 0 <= r * c < p * c) by (nonlinear_arith)
                requires
                    sig == p * q + r,
                    0 <= r < p,
                    c > 0,
            ;
            lemma_fundamental_div_mod_converse(sig * c, p * c, q, r * c);
        }
        if d >= 64 {
            proof {
                lemma_pow2_le(64, d as nat);
                lemma2_to64();
                vstd::arithmetic::div_mod::lemma_basic_div(sig as int, pow2(d as nat) as int);
            }
            return 0;
        }
        let p: u128 = two_to(d);
        proof {
            assert(sig as int / (p as int) <= sig) by (nonlinear_arith)
                requires
                    sig >= 0,
                    p >= 1,
            ;
        }
        (sig as u128 / p) as u64
    }
}

} // verus!
