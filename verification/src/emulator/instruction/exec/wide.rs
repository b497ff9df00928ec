use vstd::prelude::*;
use vstd::arithmetic::div_mod::{lemma_mod_breakdown, lemma_mod_mod, lemma_mul_mod_noop, lemma_mod_multiples_vanish,
    lemma_fundamental_div_mod, lemma_div_multiples_vanish_fancy};
use super::flag::{signed, msb};
use super::super::opcode::Width;

verus! {

/// The modulus of width `w`, as an integer.
pub open spec fn span(w: Width) -> int {
    w.modulus() as int
}

/// The product that a one-operand multiplication forms: the data:accumulator pair `h:l` of
/// width `w` times the operand `s`, each read as unsigned, or as signed when `sgn`.
pub open spec fn wide_product(w: Width, sgn: bool, h: u64, l: u64, s: u64) -> int {
    let m = w.modulus() as int;
    if sgn {
        (signed(w, h) * m + signed(w, l)) * signed(w, s)
    } else {
        (h * m + l) * s
    }
}

/// The upper of the two `w`-wide halves of the product `p`, taken modulo twice the width.
pub open spec fn high_half(w: Width, p: int) -> u64 {
    let m = w.modulus() as int;
    ((p % (m * m)) / m) as u64
}

/// The lower `w`-wide half of the product `p`.
pub open spec fn low_half(w: Width, p: int) -> u64 {
    (p % (w.modulus() as int)) as u64
}

/// The dividend that a one-operand division reads from the data:accumulator pair `h:l`:
/// unsigned, but for a signed division of width 64, which reads the pair as a signed
/// 128-bit number.
pub open spec fn wide_dividend(w: Width, sgn: bool, h: u64, l: u64) -> int {
    let m = w.modulus() as int;
    if sgn && w == Width::W64 && msb(w, h) {
        h * m + l - m * m
    } else {
        h * m + l
    }
}

/// The quotient of `x` by `d`, rounded toward zero.
pub open spec fn quot_toward_zero(x: int, d: int) -> int {
    if x < 0 { -((-x) / d) } else { x / d }
}

/// The remainder of `x` by `d` that goes with rounding toward zero: it has the sign of `x`.
pub open spec fn rem_toward_zero(x: int, d: int) -> int {
    if x < 0 { -((-x) % d) } else { x % d }
}

/// The value `x` cut to width `w`, read as unsigned.
pub open spec fn cut(w: Width, x: int) -> u64 {
    (x % (w.modulus() as int)) as u64
}

/// Two numbers that agree modulo `m * m` have the same halves of width `m`.
pub proof fn lemma_halves(v: int, p: int, m: int)
    requires
        0 <= v,
        0 < m,
        v % (m * m) == p % (m * m),
    ensures
        (v / m) % m == (p % (m * m)) / m,
        v % m == p % m,
{
    lemma_mod_breakdown(v, m, m);
    let a = (v / m) % m;
    let b = v % m;
    assert(0 <= b < m);
    assert(v % (m * m) == m * a + b);
    lemma_div_multiples_vanish_fancy(a, b, m);
    assert((m * a + b) / m == a);
    lemma_mod_mod(v, m, m);
    lemma_mod_mod(p, m, m);
}

/// Reducing modulo 2^128 keeps what a product is modulo `m * m`, for a width's modulus `m`.
pub proof fn lemma_wrap_keeps(w: Width, x: int)
    ensures
        (x % 0x1_0000_0000_0000_0000_0000_0000_0000_0000int) % (span(w) * span(w)) == x % (span(w) * span(w)),
{
    let m = w.modulus() as int;
    let k: int = match w {
        Width::W8 => 0x1_0000_0000_0000_0000_0000_0000_0000int,
        Width::W16 => 0x1_0000_0000_0000_0000_0000_0000int,
        Width::W32 => 0x1_0000_0000_0000_0000int,
        Width::W64 => 1int,
    };
    assert(m * m * k == 0x1_0000_0000_0000_0000_0000_0000_0000_0000int);
    lemma_mod_mod(x, m * m, k);
}

/// `x` and `x + n * k` agree modulo `n`.
pub proof fn lemma_shift_mod(x: int, k: int, n: int)
    requires
        0 < n,
    ensures
        (x + n * k) % n == x % n,
{
    lemma_mod_multiples_vanish(k, x, n);
    assert(n * k + x == x + n * k);
}

/// Products of numbers that agree modulo `n` agree modulo `n`.
pub proof fn lemma_mul_congruent(x: int, y: int, xx: int, yy: int, n: int)
    requires
        0 < n,
        x % n == xx % n,
        y % n == yy % n,
    ensures
        (x * y) % n == (xx * yy) % n,
{
    lemma_mul_mod_noop(x, y, n);
    lemma_mul_mod_noop(xx, yy, n);
}

/// The upper half `x` that the signed multiplication uses (one less than `h`, modulo `m`, when
/// the lower half `l` is negative) makes `x * m + l` agree with the signed pair modulo `m * m`.
pub proof fn lemma_signed_pair(w: Width, h: u64, l: u64, x: int)
    requires
        h < w.modulus(),
        l < w.modulus(),
        x == (if msb(w, l) { (h + span(w) - 1) % span(w) } else { h as int }),
    ensures
        (x * span(w) + l) % (span(w) * span(w)) == (signed(w, h) * span(w) + signed(w, l)) % (span(w) * span(w)),
{
    let m = w.modulus() as int;
    assert(w.half() * 2 == m);
    let sh = signed(w, h);
    let e: int = if msb(w, h) { 1 } else { 0 };
    assert(sh == h - e * m);
    if msb(w, l) {
        let t = h + m - 1;
        lemma_fundamental_div_mod(t, m);
        let q = t / m;
        assert(t == m * q + x);
        let c = q - 1 - e;
        assert(sh - 1 == x + m * c) by (nonlinear_arith)
            requires
                sh == h - e * m,
                h + m - 1 == m * q + x,
                c == q - 1 - e,
        ;
        assert(sh * m + signed(w, l) == (x * m + l) + (m * m) * c) by (nonlinear_arith)
            requires
                sh - 1 == x + m * c,
                signed(w, l) == l - m,
        ;
        lemma_shift_mod(x * m + l, c, m * m);
    } else {
        assert(sh * m + signed(w, l) == (h * m + l) + (m * m) * (-e)) by (nonlinear_arith)
            requires
                sh == h - e * m,
                signed(w, l) == l,
        ;
        lemma_shift_mod(h * m + l, -e, m * m);
    }
}

/// Dividing a product by its factor gives the other factor back: with a clear data register,
/// an unsigned multiplication of the accumulator `l` by a nonzero `s` leaves in the pair a
/// dividend whose division by `s` has the quotient `l` and no remainder.
pub proof fn law_mul_div_inverse(w: Width, l: u64, s: u64)
    requires
        l < w.modulus(),
        0 < s < w.modulus(),
    ensures
        ({
            let p = wide_product(w, false, 0, l, s);
            &&& wide_dividend(w, false, high_half(w, p), low_half(w, p)) == p
            &&& cut(w, quot_toward_zero(p, s as int)) == l
            &&& rem_toward_zero(p, s as int) == 0
        }),
{
    let m = span(w);
    let p = wide_product(w, false, 0, l, s);
    assert(p == l * s);
    assert(0 <= p < m * m) by (nonlinear_arith)
        requires
            p == l * s,
            0 <= l < m,
            0 < s < m,
    ;
    vstd::arithmetic::div_mod::lemma_small_mod(p as nat, (m * m) as nat);
    lemma_fundamental_div_mod(p, m);
    assert(p / m < m) by (nonlinear_arith)
        requires
            p == m * (p / m) + p % m,
            0 <= p % m,
            p < m * m,
            m > 0,
    ;
    assert(p / m >= 0) by (nonlinear_arith)
        requires
            p == m * (p / m) + p % m,
            p % m < m,
            p >= 0,
            m > 0,
    ;
    assert(high_half(w, p) == p / m);
    assert(low_half(w, p) == p % m);
    assert(wide_dividend(w, false, high_half(w, p), low_half(w, p)) == (p / m) * m + p % m);
    assert((p / m) * m == m * (p / m)) by (nonlinear_arith);
    vstd::arithmetic::div_mod::lemma_div_multiples_vanish(l as int, s as int);
    assert(s * l == l * s) by (nonlinear_arith);
    vstd::arithmetic::div_mod::lemma_mod_multiples_basic(l as int, s as int);
    vstd::arithmetic::div_mod::lemma_small_mod(l as nat, m as nat);
}

} // verus!
