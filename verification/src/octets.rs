//! Numbers and their bytes.
//!
//! An address is kept as a number whose most significant byte is the first
//! octet.  On the wire the first octet goes first, while numbers go with
//! their least significant byte first; so an address goes on the wire as the
//! number with the bytes reversed.

use vstd::prelude::*;
use vstd::arithmetic::div_mod::lemma_fundamental_div_mod_converse;

verus! {

/// The number with the four digits `a`, `b`, `c` and `d` to the base
/// `base`, `a` the most significant.
pub open spec fn digits(base: int, a: int, b: int, c: int, d: int) -> int {
    ((a * base + b) * base + c) * base + d
}

/// The number whose four bytes are those of `x` in the opposite order.
pub open spec fn reversed32(x: u32) -> u32 {
    digits(
        0x100,
        x as int % 0x100,
        x as int / 0x100 % 0x100,
        x as int / 0x1_0000 % 0x100,
        x as int / 0x100_0000,
    ) as u32
}

/// The number whose sixteen bytes are those of `x` in the opposite order.
pub open spec fn reversed128(x: u128) -> u128 {
    digits(
        0x1_0000_0000,
        reversed32((x as int % 0x1_0000_0000) as u32) as int,
        reversed32((x as int / 0x1_0000_0000 % 0x1_0000_0000) as u32) as int,
        reversed32((x as int / 0x1_0000_0000_0000_0000 % 0x1_0000_0000) as u32) as int,
        reversed32((x as int / 0x1_0000_0000_0000_0000_0000_0000) as u32) as int,
    ) as u128
}

/// A number of four digits has those digits.
proof fn lemma_digits(base: int, a: int, b: int, c: int, d: int)
    requires
        base > 0,
        0 <= a,
        0 <= b < base,
        0 <= c < base,
        0 <= d < base,
    ensures
        digits(base, a, b, c, d) % base == d,
        digits(base, a, b, c, d) / base % base == c,
        digits(base, a, b, c, d) / (base * base) % base == b,
        digits(base, a, b, c, d) / (base * base * base) == a,
        0 <= digits(base, a, b, c, d),
        a < base ==> digits(base, a, b, c, d) < base * base * base * base,
{
    let y = digits(base, a, b, c, d);
    let upper = (a * base + b) * base + c;
    assert(0 <= a * base) by (nonlinear_arith)
        requires
            0 <= a,
            0 < base,
    ;
    assert(0 <= (a * base + b) * base) by (nonlinear_arith)
        requires
            0 <= a * base + b,
            0 < base,
    ;
    assert(0 <= upper * base) by (nonlinear_arith)
        requires
            0 <= upper,
            0 < base,
    ;
    lemma_fundamental_div_mod_converse(y, base, upper, d);
    lemma_fundamental_div_mod_converse(upper, base, a * base + b, c);
    assert(y == (a * base + b) * (base * base) + (c * base + d)) by (nonlinear_arith)
        requires
            y == ((a * base + b) * base + c) * base + d,
    ;
    assert(0 <= c * base + d < base * base) by (nonlinear_arith)
        requires
            0 <= c < base,
            0 <= d < base,
    ;
    lemma_fundamental_div_mod_converse(y, base * base, a * base + b, c * base + d);
    lemma_fundamental_div_mod_converse(a * base + b, base, a, b);
    assert(y == a * (base * base * base) + ((b * base + c) * base + d)) by (nonlinear_arith)
        requires
            y == ((a * base + b) * base + c) * base + d,
    ;
    assert(0 <= (b * base + c) * base + d < base * base * base) by (nonlinear_arith)
        requires
            0 <= b < base,
            0 <= c < base,
            0 <= d < base,
    ;
    assert(base * base * base > 0) by (nonlinear_arith)
        requires
            base > 0,
    ;
    lemma_fundamental_div_mod_converse(y, base * base * base, a, (b * base + c) * base + d);
    if a < base {
        assert(y < base * base * base * base) by (nonlinear_arith)
            requires
                y == a * (base * base * base) + ((b * base + c) * base + d),
                (b * base + c) * base + d < base * base * base,
                0 <= a < base,
        ;
    }
}

/// A number below the fourth power of the base is made of its four digits.
proof fn lemma_digits_of(base: int, x: int)
    requires
        base > 0,
        0 <= x,
    ensures
        x == digits(base, x / (base * base * base), x / (base * base) % base, x / base % base, x % base),
{
    let a = x / (base * base * base);
    let high = x / (base * base);
    let upper = x / base;
    vstd::arithmetic::div_mod::lemma_fundamental_div_mod(x, base);
    vstd::arithmetic::div_mod::lemma_fundamental_div_mod(upper, base);
    vstd::arithmetic::div_mod::lemma_fundamental_div_mod(high, base);
    vstd::arithmetic::div_mod::lemma_div_denominator(x, base, base);
    assert(base * base > 0) by (nonlinear_arith)
        requires
            base > 0,
    ;
    vstd::arithmetic::div_mod::lemma_div_denominator(x, base * base, base);
    assert(upper / base == high);
    assert(high / base == a);
    assert(high == a * base + high % base) by (nonlinear_arith)
        requires
            high == base * a + high % base,
    ;
    assert(upper == high * base + upper % base) by (nonlinear_arith)
        requires
            upper == base * high + upper % base,
    ;
    assert(x == upper * base + x % base) by (nonlinear_arith)
        requires
            x == base * upper + x % base,
    ;
}

/// Reversing the bytes of a number twice gives the number.
pub proof fn lemma_reversed32_twice(x: u32)
    ensures
        reversed32(reversed32(x)) == x,
{
    let a = x as int % 0x100;
    let b = x as int / 0x100 % 0x100;
    let c = x as int / 0x1_0000 % 0x100;
    let d = x as int / 0x100_0000;
    lemma_digits(0x100, a, b, c, d);
    lemma_digits_of(0x100, x as int);
}

/// Reversing the bytes of a number twice gives the number.
pub proof fn lemma_reversed128_twice(x: u128)
    ensures
        reversed128(reversed128(x)) == x,
{
    let base = 0x1_0000_0000int;
    let first = (x as int % base) as u32;
    let second = (x as int / base % base) as u32;
    let third = (x as int / (base * base) % base) as u32;
    let fourth = (x as int / (base * base * base)) as u32;
    lemma_digits_of(base, x as int);
    lemma_reversed32_twice(first);
    lemma_reversed32_twice(second);
    lemma_reversed32_twice(third);
    lemma_reversed32_twice(fourth);
    lemma_digits(
        base,
        reversed32(first) as int,
        reversed32(second) as int,
        reversed32(third) as int,
        reversed32(fourth) as int,
    );
}

/// The number whose four bytes are those of `x` in the opposite order.
pub fn reverse32(x: u32) -> (y: u32)
    ensures
        y == reversed32(x),
{
    proof {
        lemma_digits(
            0x100,
            x as int % 0x100,
            x as int / 0x100 % 0x100,
            x as int / 0x1_0000 % 0x100,
            x as int / 0x100_0000,
        );
    }
    let high: u32 = ((x % 0x100) * 0x100 + x / 0x100 % 0x100) * 0x1_0000;
    let low: u32 = (x / 0x1_0000 % 0x100) * 0x100 + x / 0x100_0000;
    high + low
}

/// The number whose sixteen bytes are those of `x` in the opposite order.
pub fn reverse128(x: u128) -> (y: u128)
    ensures
        y == reversed128(x),
{
    let first: u32 = (x % 0x1_0000_0000) as u32;
    let second: u32 = (x / 0x1_0000_0000 % 0x1_0000_0000) as u32;
    let third: u32 = (x / 0x1_0000_0000_0000_0000 % 0x1_0000_0000) as u32;
    let fourth: u32 = (x / 0x1_0000_0000_0000_0000_0000_0000) as u32;
    let high: u128 = (reverse32(first) as u128 * 0x1_0000_0000 + reverse32(second) as u128)
        * 0x1_0000_0000_0000_0000;
    let low: u128 = reverse32(third) as u128 * 0x1_0000_0000 + reverse32(fourth) as u128;
    high + low
}

} // verus!
