//! Positions on screen as integers.
//!
//! Layout computes in single-precision numbers, but most questions about a layout
//! only compare positions.  Those questions are asked here of integers that are
//! ordered as the numbers are.

use vstd::arithmetic::power2::{lemma_pow2_pos, lemma_pow2_strictly_increases, lemma_pow2_unfold, pow2};
use vstd::prelude::*;

verus! {

/// A position, ordered as the number that it was made from.
pub type Coordinate = i32;

/// The magnitude of the single-precision number with these bits, sign aside, as
/// a multiple of the smallest such number's half.
pub open spec fn float_magnitude(bits: nat) -> nat
    recommends
        bits < 0x8000_0000,
{
    let exponent = bits / 0x80_0000;
    let fraction = bits % 0x80_0000;
    if exponent == 0 {
        2 * fraction
    } else {
        (0x80_0000 + fraction) * pow2(exponent)
    }
}

/// The number with these bits, as a multiple of the smallest number's half.
pub open spec fn float_value(bits: u32) -> int {
    if bits < 0x8000_0000 {
        float_magnitude(bits as nat) as int
    } else {
        -(float_magnitude((bits - 0x8000_0000) as nat) as int)
    }
}

/// The bits stand for no number.
pub open spec fn is_nan_bits(bits: u32) -> bool {
    (bits % 0x8000_0000) > 0x7f80_0000
}

/// The position with the given bits.
pub open spec fn bits_coordinate(bits: u32) -> int {
    if bits < 0x8000_0000 {
        bits as int
    } else {
        0x8000_0000 - bits
    }
}

/// The position of the single-precision number with these bits.
pub fn coordinate_from_bits(bits: u32) -> (coordinate: Option<Coordinate>)
    ensures
        coordinate is Some <==> !is_nan_bits(bits),
        coordinate matches Some(c) ==> c == bits_coordinate(bits),
{
    if bits % 0x8000_0000 > 0x7f80_0000 {
        None
    } else if bits < 0x8000_0000 {
        Some(bits as i32)
    } else {
        Some(-((bits - 0x8000_0000) as i32))
    }
}

/// More bits, larger magnitude.
proof fn lemma_magnitude_increases(a: nat, b: nat)
    requires
        a < b,
    ensures
        float_magnitude(a) < float_magnitude(b),
{
    let ea = a / 0x80_0000;
    let eb = b / 0x80_0000;
    let fa = a % 0x80_0000;
    let fb = b % 0x80_0000;
    assert(ea <= eb);
    assert(a == 0x80_0000 * ea + fa);
    assert(b == 0x80_0000 * eb + fb);
    if ea == eb {
        assert(fa < fb);
        if ea > 0 {
            lemma_pow2_pos(ea);
            assert((0x80_0000 + fa) * pow2(ea) < (0x80_0000 + fb) * pow2(ea)) by (nonlinear_arith)
                requires
                    fa < fb,
                    pow2(ea) > 0,
            ;
        }
    } else {
        lemma_pow2_pos(eb);
        assert((0x80_0000 + fb) * pow2(eb) >= 0x80_0000 * pow2(eb)) by (nonlinear_arith)
            requires
                pow2(eb) > 0,
        ;
        if ea == 0 {
            vstd::arithmetic::power2::lemma2_to64();
            if eb > 1 {
                lemma_pow2_strictly_increases(1, eb);
            }
        } else {
            lemma_pow2_pos(ea);
            lemma_pow2_unfold(ea + 1);
            if eb > ea + 1 {
                lemma_pow2_strictly_increases(ea + 1, eb);
            }
            assert((0x80_0000 + fa) * pow2(ea) < 0x100_0000 * pow2(ea)) by (nonlinear_arith)
                requires
                    fa < 0x80_0000,
                    pow2(ea) > 0,
            ;
        }
    }
}

/// Positions are ordered as the numbers that they were made from; the two zeros
/// are one position.
pub proof fn law_coordinates_order_as_floats(a: u32, b: u32)
    requires
        !is_nan_bits(a),
        !is_nan_bits(b),
    ensures
        bits_coordinate(a) < bits_coordinate(b) <==> float_value(a) < float_value(b),
        bits_coordinate(a) == bits_coordinate(b) <==> float_value(a) == float_value(b),
{
    let ma = (a % 0x8000_0000) as nat;
    let mb = (b % 0x8000_0000) as nat;
    assert(float_magnitude(0) == 0);
    if ma < mb {
        lemma_magnitude_increases(ma, mb);
    }
    if mb < ma {
        lemma_magnitude_increases(mb, ma);
    }
    if 0 < ma {
        lemma_magnitude_increases(0, ma);
    }
    if 0 < mb {
        lemma_magnitude_increases(0, mb);
    }
}

/// Numbers with opposite signs have opposite positions, and zero is in the middle.
pub proof fn law_positions_mirror_the_sign(bits: u32, coordinate: Option<Coordinate>, mirrored: Option<
    Coordinate,
>)
    requires
        bits < 0x8000_0000,
        call_ensures(coordinate_from_bits, (bits,), coordinate),
        call_ensures(coordinate_from_bits, ((bits + 0x8000_0000) as u32,), mirrored),
    ensures
        coordinate is Some <==> mirrored is Some,
        coordinate is Some <==> bits <= 0x7f80_0000,
        coordinate matches Some(c) ==> c == bits && mirrored->0 == -c,
        bits == 0 ==> coordinate == Some(0i32) && mirrored == Some(0i32),
{
}

/// Of two numbers the smaller has the smaller position.
pub proof fn law_smaller_numbers_come_first(
    a: u32,
    b: u32,
    first: Option<Coordinate>,
    second: Option<Coordinate>,
)
    requires
        call_ensures(coordinate_from_bits, (a,), first),
        call_ensures(coordinate_from_bits, (b,), second),
        first is Some,
        second is Some,
    ensures
        first->0 < second->0 <==> float_value(a) < float_value(b),
        first->0 == second->0 <==> float_value(a) == float_value(b),
{
    law_coordinates_order_as_floats(a, b);
}

} // verus!
