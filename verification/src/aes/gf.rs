//! Arithmetic in GF(2^8) with the reducing polynomial x^8 + x^4 + x^3 + x + 1.

use vstd::prelude::*;

verus! {

/// Multiplication by x: shift left, folding the bit that leaves the byte back
/// in with the low byte of the reducing polynomial.
pub open spec fn xtime(a: u8) -> u8 {
    if a & 0x80 == 0x80 {
        (a << 1) ^ 0x1b
    } else {
        a << 1
    }
}

/// `a` if bit `i` of `b` is set, 0 otherwise.
pub open spec fn gf_term(a: u8, b: u8, i: u8) -> u8 {
    if (b >> i) & 1 == 1 {
        a
    } else {
        0
    }
}

/// The product of `a` and `b` in GF(2^8): the sum (XOR) of `a * x^i` over the
/// bits `i` that are set in `b`.
pub open spec fn gf_mul(a: u8, b: u8) -> u8 {
    gf_term(a, b, 0)
        ^ gf_term(xtime(a), b, 1)
        ^ gf_term(xtime(xtime(a)), b, 2)
        ^ gf_term(xtime(xtime(xtime(a))), b, 3)
        ^ gf_term(xtime(xtime(xtime(xtime(a)))), b, 4)
        ^ gf_term(xtime(xtime(xtime(xtime(xtime(a))))), b, 5)
        ^ gf_term(xtime(xtime(xtime(xtime(xtime(xtime(a)))))), b, 6)
        ^ gf_term(xtime(xtime(xtime(xtime(xtime(xtime(xtime(a))))))), b, 7)
}

/// Zero annihilates and one is neutral, on either side.
pub proof fn lemma_gf_mul_zero_one(a: u8)
    ensures
        gf_mul(a, 0) == 0,
        gf_mul(0, a) == 0,
        gf_mul(a, 1) == a,
        gf_mul(1, a) == a,
{
    assert(gf_mul(a, 0) == 0 && gf_mul(0, a) == 0) by (bit_vector);
    assert(gf_mul(a, 1) == a && gf_mul(1, a) == a) by (bit_vector);
}

/// `xtime` is linear: it maps a sum to the sum of the images.
pub proof fn lemma_xtime_linear(a: u8, b: u8)
    ensures
        xtime(a ^ b) == xtime(a) ^ xtime(b),
{
    assert(xtime(a ^ b) == xtime(a) ^ xtime(b)) by (bit_vector);
}

proof fn lemma_gf_term_linear(a: u8, b: u8, c: u8, i: u8)
    ensures
        gf_term(a ^ b, c, i) == gf_term(a, c, i) ^ gf_term(b, c, i),
{
    assert(a ^ 0 == a && 0 ^ b == b && 0u8 ^ 0u8 == 0u8) by (bit_vector);
}

proof fn lemma_xor_regroup(
    a0: u8, a1: u8, a2: u8, a3: u8, a4: u8, a5: u8, a6: u8, a7: u8,
    b0: u8, b1: u8, b2: u8, b3: u8, b4: u8, b5: u8, b6: u8, b7: u8,
)
    ensures
        (a0 ^ b0) ^ (a1 ^ b1) ^ (a2 ^ b2) ^ (a3 ^ b3) ^ (a4 ^ b4) ^ (a5 ^ b5) ^ (a6 ^ b6) ^ (a7
            ^ b7) == (a0 ^ a1 ^ a2 ^ a3 ^ a4 ^ a5 ^ a6 ^ a7) ^ (b0 ^ b1 ^ b2 ^ b3 ^ b4 ^ b5 ^ b6
            ^ b7),
{
    assert((a0 ^ b0) ^ (a1 ^ b1) ^ (a2 ^ b2) ^ (a3 ^ b3) ^ (a4 ^ b4) ^ (a5 ^ b5) ^ (a6 ^ b6) ^ (a7
        ^ b7) == (a0 ^ a1 ^ a2 ^ a3 ^ a4 ^ a5 ^ a6 ^ a7) ^ (b0 ^ b1 ^ b2 ^ b3 ^ b4 ^ b5 ^ b6
        ^ b7)) by (bit_vector);
}

proof fn lemma_gf_term_linear_in_bits(x: u8, a: u8, b: u8)
    ensures
        gf_term(x, a ^ b, 0) == gf_term(x, a, 0) ^ gf_term(x, b, 0),
        gf_term(x, a ^ b, 1) == gf_term(x, a, 1) ^ gf_term(x, b, 1),
        gf_term(x, a ^ b, 2) == gf_term(x, a, 2) ^ gf_term(x, b, 2),
        gf_term(x, a ^ b, 3) == gf_term(x, a, 3) ^ gf_term(x, b, 3),
        gf_term(x, a ^ b, 4) == gf_term(x, a, 4) ^ gf_term(x, b, 4),
        gf_term(x, a ^ b, 5) == gf_term(x, a, 5) ^ gf_term(x, b, 5),
        gf_term(x, a ^ b, 6) == gf_term(x, a, 6) ^ gf_term(x, b, 6),
        gf_term(x, a ^ b, 7) == gf_term(x, a, 7) ^ gf_term(x, b, 7),
{
    assert(gf_term(x, a ^ b, 0) == gf_term(x, a, 0) ^ gf_term(x, b, 0) && gf_term(x, a ^ b, 1)
        == gf_term(x, a, 1) ^ gf_term(x, b, 1) && gf_term(x, a ^ b, 2) == gf_term(x, a, 2)
        ^ gf_term(x, b, 2) && gf_term(x, a ^ b, 3) == gf_term(x, a, 3) ^ gf_term(x, b, 3)
        && gf_term(x, a ^ b, 4) == gf_term(x, a, 4) ^ gf_term(x, b, 4) && gf_term(x, a ^ b, 5)
        == gf_term(x, a, 5) ^ gf_term(x, b, 5) && gf_term(x, a ^ b, 6) == gf_term(x, a, 6)
        ^ gf_term(x, b, 6) && gf_term(x, a ^ b, 7) == gf_term(x, a, 7) ^ gf_term(x, b, 7))
        by (bit_vector);
}

/// Multiplication distributes over addition (XOR) in its second operand.
pub proof fn lemma_gf_mul_distributes_right(c: u8, a: u8, b: u8)
    ensures
        gf_mul(c, a ^ b) == gf_mul(c, a) ^ gf_mul(c, b),
{
    let c1 = xtime(c);
    let c2 = xtime(c1);
    let c3 = xtime(c2);
    let c4 = xtime(c3);
    let c5 = xtime(c4);
    let c6 = xtime(c5);
    let c7 = xtime(c6);
    lemma_gf_term_linear_in_bits(c, a, b);
    lemma_gf_term_linear_in_bits(c1, a, b);
    lemma_gf_term_linear_in_bits(c2, a, b);
    lemma_gf_term_linear_in_bits(c3, a, b);
    lemma_gf_term_linear_in_bits(c4, a, b);
    lemma_gf_term_linear_in_bits(c5, a, b);
    lemma_gf_term_linear_in_bits(c6, a, b);
    lemma_gf_term_linear_in_bits(c7, a, b);
    lemma_xor_regroup(
        gf_term(c, a, 0), gf_term(c1, a, 1), gf_term(c2, a, 2), gf_term(c3, a, 3),
        gf_term(c4, a, 4), gf_term(c5, a, 5), gf_term(c6, a, 6), gf_term(c7, a, 7),
        gf_term(c, b, 0), gf_term(c1, b, 1), gf_term(c2, b, 2), gf_term(c3, b, 3),
        gf_term(c4, b, 4), gf_term(c5, b, 5), gf_term(c6, b, 6), gf_term(c7, b, 7),
    );
}

/// Multiplication distributes over addition (XOR) in its first operand.
pub proof fn lemma_gf_mul_distributes_left(a: u8, b: u8, c: u8)
    ensures
        gf_mul(a ^ b, c) == gf_mul(a, c) ^ gf_mul(b, c),
{
    let a1 = xtime(a);
    let a2 = xtime(a1);
    let a3 = xtime(a2);
    let a4 = xtime(a3);
    let a5 = xtime(a4);
    let a6 = xtime(a5);
    let a7 = xtime(a6);
    let b1 = xtime(b);
    let b2 = xtime(b1);
    let b3 = xtime(b2);
    let b4 = xtime(b3);
    let b5 = xtime(b4);
    let b6 = xtime(b5);
    let b7 = xtime(b6);
    lemma_xtime_linear(a, b);
    lemma_xtime_linear(a1, b1);
    lemma_xtime_linear(a2, b2);
    lemma_xtime_linear(a3, b3);
    lemma_xtime_linear(a4, b4);
    lemma_xtime_linear(a5, b5);
    lemma_xtime_linear(a6, b6);
    lemma_gf_term_linear(a, b, c, 0);
    lemma_gf_term_linear(a1, b1, c, 1);
    lemma_gf_term_linear(a2, b2, c, 2);
    lemma_gf_term_linear(a3, b3, c, 3);
    lemma_gf_term_linear(a4, b4, c, 4);
    lemma_gf_term_linear(a5, b5, c, 5);
    lemma_gf_term_linear(a6, b6, c, 6);
    lemma_gf_term_linear(a7, b7, c, 7);
    lemma_xor_regroup(
        gf_term(a, c, 0), gf_term(a1, c, 1), gf_term(a2, c, 2), gf_term(a3, c, 3),
        gf_term(a4, c, 4), gf_term(a5, c, 5), gf_term(a6, c, 6), gf_term(a7, c, 7),
        gf_term(b, c, 0), gf_term(b1, c, 1), gf_term(b2, c, 2), gf_term(b3, c, 3),
        gf_term(b4, c, 4), gf_term(b5, c, 5), gf_term(b6, c, 6), gf_term(b7, c, 7),
    );
}

/// Doubling is `xtime`; tripling adds the value itself.
pub proof fn lemma_gf_mul_two_three(a: u8)
    ensures
        gf_mul(a, 2) == xtime(a),
        gf_mul(2, a) == xtime(a),
        gf_mul(a, 3) == xtime(a) ^ a,
        gf_mul(3, a) == xtime(a) ^ a,
{
    assert(gf_mul(a, 2) == xtime(a)) by (bit_vector);
    assert(gf_mul(2, a) == xtime(a)) by (bit_vector);
    assert(gf_mul(a, 3) == xtime(a) ^ a) by (bit_vector);
    assert(gf_mul(3, a) == xtime(a) ^ a) by (bit_vector);
}

/// What `gf_multiply` holds after `n` of its eight steps: the partial sum and
/// the two shifted operands.
spec fn gf_steps(a: u8, b: u8, n: nat) -> (u8, u8, u8)
    decreases n,
{
    if n == 0 {
        (0, a, b)
    } else {
        let (acc, x, y) = gf_steps(a, b, (n - 1) as nat);
        (acc ^ gf_term(x, y, 0), xtime(x), y >> 1)
    }
}

proof fn lemma_gf_term_shifted(x: u8, b: u8)
    ensures
        gf_term(x, b >> 1, 0) == gf_term(x, b, 1),
        gf_term(x, (b >> 1) >> 1, 0) == gf_term(x, b, 2),
        gf_term(x, ((b >> 1) >> 1) >> 1, 0) == gf_term(x, b, 3),
        gf_term(x, (((b >> 1) >> 1) >> 1) >> 1, 0) == gf_term(x, b, 4),
        gf_term(x, ((((b >> 1) >> 1) >> 1) >> 1) >> 1, 0) == gf_term(x, b, 5),
        gf_term(x, (((((b >> 1) >> 1) >> 1) >> 1) >> 1) >> 1, 0) == gf_term(x, b, 6),
        gf_term(x, ((((((b >> 1) >> 1) >> 1) >> 1) >> 1) >> 1) >> 1, 0) == gf_term(x, b, 7),
{
    assert(gf_term(x, b >> 1, 0) == gf_term(x, b, 1)) by (bit_vector);
    assert(gf_term(x, (b >> 1) >> 1, 0) == gf_term(x, b, 2)) by (bit_vector);
    assert(gf_term(x, ((b >> 1) >> 1) >> 1, 0) == gf_term(x, b, 3)) by (bit_vector);
    assert(gf_term(x, (((b >> 1) >> 1) >> 1) >> 1, 0) == gf_term(x, b, 4)) by (bit_vector);
    assert(gf_term(x, ((((b >> 1) >> 1) >> 1) >> 1) >> 1, 0) == gf_term(x, b, 5))
        by (bit_vector);
    assert(gf_term(x, (((((b >> 1) >> 1) >> 1) >> 1) >> 1) >> 1, 0) == gf_term(x, b, 6))
        by (bit_vector);
    assert(gf_term(x, ((((((b >> 1) >> 1) >> 1) >> 1) >> 1) >> 1) >> 1, 0) == gf_term(x, b, 7))
        by (bit_vector);
}

proof fn lemma_gf_steps_eight(a: u8, b: u8)
    ensures
        gf_steps(a, b, 8).0 == gf_mul(a, b),
{
    reveal_with_fuel(gf_steps, 9);
    let x1 = xtime(a);
    let x2 = xtime(x1);
    let x3 = xtime(x2);
    let x4 = xtime(x3);
    let x5 = xtime(x4);
    let x6 = xtime(x5);
    let x7 = xtime(x6);
    lemma_gf_term_shifted(x1, b);
    lemma_gf_term_shifted(x2, b);
    lemma_gf_term_shifted(x3, b);
    lemma_gf_term_shifted(x4, b);
    lemma_gf_term_shifted(x5, b);
    lemma_gf_term_shifted(x6, b);
    lemma_gf_term_shifted(x7, b);
    let t0 = gf_term(a, b, 0);
    assert(0u8 ^ t0 == t0) by (bit_vector);
}

/// Multiplies two elements of GF(2^8) by shift-and-add over the eight bits of
/// `b`.
pub fn gf_multiply(a: u8, b: u8) -> (product: u8)
    ensures
        product == gf_mul(a, b),
{
    let mut acc: u8 = 0;
    let mut x: u8 = a;
    let mut y: u8 = b;
    let mut i: u8 = 0;
    while i < 8
        invariant
            i <= 8,
            (acc, x, y) == gf_steps(a, b, i as nat),
        decreases 8 - i,
    {
        let ghost x0 = x;
        let ghost y0 = y;
        if y & 1 == 1 {
            acc = acc ^ x;
        }
        let carry: bool = x & 0x80 == 0x80;
        x = x << 1;
        if carry {
            x = x ^ 0x1b;
        }
        y = y >> 1;
        proof {
            assert((y0 >> 0u8) & 1 == y0 & 1) by (bit_vector);
            assert(acc ^ 0u8 == acc) by (bit_vector);
        }
        i = i + 1;
    }
    proof {
        lemma_gf_steps_eight(a, b);
    }
    acc
}

} // verus!
