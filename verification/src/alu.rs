//! The arithmetic-logic unit: 16-bit addition with carry-in, producing the
//! wrapped sum together with the unsigned carry-out and the two's-complement
//! signed-overflow flag, plus a bitwise NAND mode.

use vstd::prelude::*;
use crate::decode::AluMode;

verus! {

/// The exact integer sum of the two operands and the carry-in bit.
pub open spec fn exact_sum(left: u16, carry_in: u16, right: u16) -> int {
    left + right + carry_in
}

/// The sum reduced modulo 2^16: the 16-bit result of the adder.
pub open spec fn wrapped_sum(left: u16, carry_in: u16, right: u16) -> u16 {
    (exact_sum(left, carry_in, right) % 0x10000) as u16
}

/// The unsigned carry-out: set exactly when the integer sum does not fit in
/// 16 bits.
pub open spec fn carry_of_sum(left: u16, carry_in: u16, right: u16) -> bool {
    exact_sum(left, carry_in, right) >= 0x10000
}

/// The classic two's-complement signed-overflow condition: the operands share
/// a sign bit and the result's sign bit differs from theirs.
pub open spec fn overflow_of_sum(left: u16, carry_in: u16, right: u16) -> bool {
    &&& (left & 0x8000) == (right & 0x8000)
    &&& (wrapped_sum(left, carry_in, right) & 0x8000) != (left & 0x8000)
}

/// The adder at the heart of the ALU. The lower 15 bits are summed first so
/// that the carry into bit 15 can be isolated; a 3-input full adder on the
/// two top bits and that carry then yields the result's top bit, the
/// carry-out, and (as carry-out XOR carry-in-to-bit-15) the signed overflow.
pub fn add_with_flags(alu_input_left: u16, carry_in: u16, alu_input_right: u16) -> (r: (
    u16,
    bool,
    bool,
))
    requires
        carry_in <= 1,
    ensures
        r.0 == wrapped_sum(alu_input_left, carry_in, alu_input_right),
        r.1 == carry_of_sum(alu_input_left, carry_in, alu_input_right),
        r.2 == overflow_of_sum(alu_input_left, carry_in, alu_input_right),
{
    proof {
        assert((alu_input_left & 0x7FFF) + (alu_input_right & 0x7FFF) + carry_in <= 0xFFFF)
            by (bit_vector)
            requires
                carry_in <= 1,
        ;
    }
    let add_15bit: u16 = (alu_input_left & 0x7FFF) + (alu_input_right & 0x7FFF) + carry_in;

    // a full adder for the top bit, kept wide enough to observe its carry-out
    let c15: u16 = add_15bit & 0x8000;
    let in15: u16 = alu_input_left & 0x8000;
    let a15: u16 = alu_input_right & 0x8000;
    let last_adder: u32 = (in15 as u32) + (a15 as u32) + (c15 as u32);

    let result: u16 = (add_15bit & 0x7FFF) | (last_adder as u16);
    let carry: bool = (last_adder >> 16) != 0;
    let overflow: bool = carry != (c15 != 0);

    proof {
        assert(result == (alu_input_left + alu_input_right + carry_in) % 0x10000
            && ((last_adder >> 16 != 0) <==> alu_input_left + alu_input_right + carry_in >= 0x10000)
            && (((last_adder >> 16 != 0) != (c15 != 0)) <==> ((alu_input_left & 0x8000) == (
            alu_input_right & 0x8000) && (((alu_input_left + alu_input_right + carry_in) % 0x10000)
                as u16 & 0x8000) != (alu_input_left & 0x8000)))) by (bit_vector)
            requires
                carry_in <= 1,
                add_15bit == (alu_input_left & 0x7FFF) + (alu_input_right & 0x7FFF) + carry_in,
                c15 == add_15bit & 0x8000,
                last_adder == ((alu_input_left & 0x8000) as u32) + ((alu_input_right & 0x8000)
                    as u32) + (c15 as u32),
                result == (add_15bit & 0x7FFF) | (last_adder as u16),
        ;
    }
    (result, carry, overflow)
}

/// The numeric value of the carry-in bit.
pub open spec fn carry_val(carry_in: bool) -> u16 {
    if carry_in {
        1
    } else {
        0
    }
}

/// What the ALU produces in each mode: result, carry-out, overflow. NAND
/// mode bypasses the adder entirely and never raises a flag.
pub open spec fn alu_spec(mode: AluMode, left: u16, carry_in: bool, right: u16) -> (u16, bool, bool) {
    match mode {
        AluMode::Nand => (!(left & right), false, false),
        AluMode::Add => (
            wrapped_sum(left, carry_val(carry_in), right),
            carry_of_sum(left, carry_val(carry_in), right),
            overflow_of_sum(left, carry_val(carry_in), right),
        ),
    }
}

/// One ALU evaluation. In NAND mode the result is the complement of the
/// bitwise AND of the operands, with both flags false, whatever the carry-in
/// field holds; NAND takes precedence over every other field by construction.
pub fn alu_eval(mode: AluMode, left: u16, carry_in: bool, right: u16) -> (r: (u16, bool, bool))
    ensures
        r == alu_spec(mode, left, carry_in, right),
        mode is Nand ==> (r.0 == !(left & right) && r.1 == false && r.2 == false),
{
    match mode {
        AluMode::Nand => (!(left & right), false, false),
        AluMode::Add => add_with_flags(left, if carry_in { 1 } else { 0 }, right),
    }
}

/// NAND mode is independent of the carry-in field: any two carry-in values
/// give the same ALU output.
pub proof fn lemma_nand_ignores_carry(left: u16, right: u16, c1: bool, c2: bool)
    ensures
        alu_spec(AluMode::Nand, left, c1, right) == alu_spec(AluMode::Nand, left, c2, right),
{
}

/// An independent re-derivation of the same adder, kept as a cross-check on
/// [`add_with_flags`]: the top-bit terms are isolated before the 15-bit sum
/// is formed, and both formulations are proved against the same contract.
pub fn add(alu_input_left: u16, carry_in: u16, a: u16) -> (r: (u16, bool, bool))
    requires
        carry_in <= 1,
    ensures
        r.0 == wrapped_sum(alu_input_left, carry_in, a),
        r.1 == carry_of_sum(alu_input_left, carry_in, a),
        r.2 == overflow_of_sum(alu_input_left, carry_in, a),
{
    let in15: u16 = alu_input_left & 0x8000;
    let a15: u16 = a & 0x8000;

    proof {
        assert((alu_input_left & 0x7FFF) + (a & 0x7FFF) + carry_in <= 0xFFFF) by (bit_vector)
            requires
                carry_in <= 1,
        ;
    }
    let add_15bit: u16 = (alu_input_left & 0x7FFF) + (a & 0x7FFF) + carry_in;

    let c15: u16 = add_15bit & 0x8000;

    let last_adder: u32 = (in15 as u32) + (a15 as u32) + (c15 as u32);

    let result: u16 = (add_15bit & 0x7FFF) | (last_adder as u16);

    let c16: bool = (last_adder >> 16) != 0;

    let overflow: bool = c16 != (c15 != 0);

    proof {
        assert(result == (alu_input_left + a + carry_in) % 0x10000 && ((last_adder >> 16 != 0)
            <==> alu_input_left + a + carry_in >= 0x10000) && (((last_adder >> 16 != 0) != (c15
            != 0)) <==> ((alu_input_left & 0x8000) == (a & 0x8000) && (((alu_input_left + a
            + carry_in) % 0x10000) as u16 & 0x8000) != (alu_input_left & 0x8000)))) by (bit_vector)
            requires
                carry_in <= 1,
                add_15bit == (alu_input_left & 0x7FFF) + (a & 0x7FFF) + carry_in,
                c15 == add_15bit & 0x8000,
                last_adder == ((alu_input_left & 0x8000) as u32) + ((a & 0x8000) as u32) + (c15
                    as u32),
                result == (add_15bit & 0x7FFF) | (last_adder as u16),
        ;
    }
    (result, c16, overflow)
}

} // verus!
