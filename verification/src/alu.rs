//! Arithmetic core: add-with-carry, subtract-with-borrow (binary and
//! BCD), and the shared rotate helpers, together with their laws.

use vstd::prelude::*;

use crate::arith::wrap8;
use crate::cpu::Cpu;
use crate::flags::{bit_val, Flags};

verus! {

/// The 9-bit binary sum an ADC computes: `A + operand + carry-in`.
pub open spec fn adc_sum(a: u8, v: u8, c: bool) -> int {
    a + v + bit_val(c)
}

/// Signed overflow of an 8-bit addition: the operands share a sign and
/// the result's sign differs from it.
pub open spec fn add_overflow(a: u8, v: u8, r: u8) -> bool {
    ((a >= 0x80) == (v >= 0x80)) && ((a >= 0x80) != (r >= 0x80))
}

/// Result and carry of a decimal-mode ADC: each nibble is added as a
/// base-10 digit, carrying ten into the next place.
pub open spec fn adc_decimal(a: u8, v: u8, c: bool) -> (u8, bool) {
    let lo_sum = a as int % 16 + v as int % 16 + bit_val(c);
    let lo_digit = if lo_sum > 9 {
        lo_sum - 10
    } else {
        lo_sum
    };
    let hi_sum = a as int / 16 + v as int / 16 + (if lo_sum > 9 {
        1int
    } else {
        0int
    });
    let hi_digit = if hi_sum > 9 {
        hi_sum - 10
    } else {
        hi_sum
    };
    ((hi_digit * 16 + lo_digit) as u8, hi_sum > 9)
}

/// Result and carry of a decimal-mode SBC: each nibble is subtracted as
/// a base-10 digit, borrowing ten from the next place; carry clear on a
/// final borrow.  A digit that still underflows after the borrow of ten
/// wraps within its nibble.
pub open spec fn sbc_decimal(a: u8, v: u8, c: bool) -> (u8, bool) {
    let borrow_lo = 1 - bit_val(c);
    let lo_digit = if a as int % 16 >= v as int % 16 + borrow_lo {
        a as int % 16 - (v as int % 16 + borrow_lo)
    } else {
        (a as int % 16 + 10 - (v as int % 16 + borrow_lo)) % 16
    };
    let borrow_hi = if a as int % 16 >= v as int % 16 + borrow_lo {
        0int
    } else {
        1int
    };
    let hi_digit = if a as int / 16 >= v as int / 16 + borrow_hi {
        a as int / 16 - (v as int / 16 + borrow_hi)
    } else {
        (a as int / 16 + 10 - (v as int / 16 + borrow_hi)) % 16
    };
    ((hi_digit * 16 + lo_digit) as u8, a as int / 16 >= v as int / 16 + borrow_hi)
}

/// The accumulator and flags an add-with-carry leaves behind.  In
/// binary mode the result is the 8-bit sum with C the ninth bit; with
/// decimal mode engaged the result and carry come from the BCD
/// correction while Z, N and V still reflect the binary-domain sum.
pub open spec fn spec_add_with_carry(cpu: Cpu, v: u8) -> Cpu {
    let bin = wrap8(adc_sum(cpu.a, v, cpu.p.carry));
    let decimal = cpu.table.decimal_enabled && cpu.p.decimal_mode;
    let result = if decimal {
        adc_decimal(cpu.a, v, cpu.p.carry).0
    } else {
        bin
    };
    let carry = if decimal {
        adc_decimal(cpu.a, v, cpu.p.carry).1
    } else {
        adc_sum(cpu.a, v, cpu.p.carry) > 0xFF
    };
    Cpu {
        a: result,
        p: Flags {
            carry,
            overflow: add_overflow(cpu.a, v, bin),
            zero: bin == 0,
            sign: bin >= 0x80,
            ..cpu.p
        },
        ..cpu
    }
}

/// The accumulator and flags a subtract-with-borrow leaves behind:
/// an add-with-carry of the complemented operand, except that with
/// decimal mode engaged the result and carry come from per-digit
/// subtraction.
pub open spec fn spec_sub_with_borrow(cpu: Cpu, v: u8) -> Cpu {
    let comp = (0xFF - v) as u8;
    let bin = wrap8(adc_sum(cpu.a, comp, cpu.p.carry));
    let decimal = cpu.table.decimal_enabled && cpu.p.decimal_mode;
    let result = if decimal {
        sbc_decimal(cpu.a, v, cpu.p.carry).0
    } else {
        bin
    };
    let carry = if decimal {
        sbc_decimal(cpu.a, v, cpu.p.carry).1
    } else {
        adc_sum(cpu.a, comp, cpu.p.carry) > 0xFF
    };
    Cpu {
        a: result,
        p: Flags {
            carry,
            overflow: add_overflow(cpu.a, comp, bin),
            zero: bin == 0,
            sign: bin >= 0x80,
            ..cpu.p
        },
        ..cpu
    }
}

/// Add `value` and the carry flag into the accumulator, with BCD
/// correction when the variant supports it and D is set.
#[verifier::rlimit(100)]
pub fn add_with_carry(cpu: &mut Cpu, value: u8)
    ensures
        *final(cpu) == spec_add_with_carry(*old(cpu), value),
{
    let carry_in: u16 = if cpu.p.carry {
        1
    } else {
        0
    };
    let decimal: bool = cpu.table.decimal_enabled && cpu.p.decimal_mode;
    let sum: u16 = cpu.a as u16 + value as u16 + carry_in;
    let bin: u8 = (sum % 0x100) as u8;

    cpu.p.set_overflow(
        (cpu.a >= 0x80) == (value >= 0x80) && (cpu.a >= 0x80) != (bin >= 0x80),
    );
    cpu.p.set_zero(bin == 0);
    cpu.p.set_signed(bin >= 0x80);

    if decimal {
        let mut lo_sum: u16 = (cpu.a % 16) as u16 + (value % 16) as u16 + carry_in;
        let mut carry_10: u16 = 0;
        if lo_sum > 9 {
            lo_sum = lo_sum - 10;
            carry_10 = 1;
        }
        let mut hi_sum: u16 = (cpu.a / 16) as u16 + (value / 16) as u16 + carry_10;
        let mut carry_out: bool = false;
        if hi_sum > 9 {
            hi_sum = hi_sum - 10;
            carry_out = true;
        }
        cpu.a = (hi_sum * 16 + lo_sum) as u8;
        cpu.p.set_carry(carry_out);
    } else {
        cpu.a = bin;
        cpu.p.set_carry(sum > 0xFF);
    }
}

/// Subtract `value` from the accumulator via the complement, honouring
/// the carry flag as inverted borrow, with per-digit BCD correction
/// when the variant supports it and D is set.
#[verifier::rlimit(100)]
pub fn sub_with_borrow(cpu: &mut Cpu, value: u8)
    ensures
        *final(cpu) == spec_sub_with_borrow(*old(cpu), value),
{
    let carry_in: u16 = if cpu.p.carry {
        1
    } else {
        0
    };
    let decimal: bool = cpu.table.decimal_enabled && cpu.p.decimal_mode;
    let comp: u8 = 0xFF - value;
    let sum: u16 = cpu.a as u16 + comp as u16 + carry_in;
    let bin: u8 = (sum % 0x100) as u8;

    cpu.p.set_overflow(
        (cpu.a >= 0x80) == (comp >= 0x80) && (cpu.a >= 0x80) != (bin >= 0x80),
    );
    cpu.p.set_zero(bin == 0);
    cpu.p.set_signed(bin >= 0x80);

    if decimal {
        let borrow_lo: u16 = 1 - carry_in;
        let a_lo: u16 = (cpu.a % 16) as u16;
        let v_lo: u16 = (value % 16) as u16;
        let a_hi: u16 = (cpu.a / 16) as u16;
        let v_hi: u16 = (value / 16) as u16;

        let lo_digit: u16;
        let borrow_hi: u16;
        if a_lo >= v_lo + borrow_lo {
            lo_digit = a_lo - (v_lo + borrow_lo);
            borrow_hi = 0;
        } else {
            lo_digit = (a_lo + 26 - (v_lo + borrow_lo)) % 16;
            borrow_hi = 1;
            proof {
                vstd::arithmetic::div_mod::lemma_mod_add_multiples_vanish(
                    a_lo + 10 - (v_lo + borrow_lo),
                    16,
                );
            }
        }

        let hi_digit: u16;
        let carry_out: bool;
        if a_hi >= v_hi + borrow_hi {
            hi_digit = a_hi - (v_hi + borrow_hi);
            carry_out = true;
        } else {
            hi_digit = (a_hi + 26 - (v_hi + borrow_hi)) % 16;
            carry_out = false;
            proof {
                vstd::arithmetic::div_mod::lemma_mod_add_multiples_vanish(
                    a_hi + 10 - (v_hi + borrow_hi),
                    16,
                );
            }
        }

        cpu.a = (hi_digit * 16 + lo_digit) as u8;
        cpu.p.set_carry(carry_out);
    } else {
        cpu.a = bin;
        cpu.p.set_carry(sum > 0xFF);
    }
}

/// The value and flags a left rotation produces: the old carry enters
/// bit 0 and bit 7 becomes the new carry.
pub open spec fn spec_rol(v: u8, c: bool) -> (u8, bool) {
    (wrap8(2 * v + bit_val(c)), v >= 0x80)
}

/// The value and flags a right rotation produces: the old carry enters
/// bit 7 and bit 0 becomes the new carry.
pub open spec fn spec_ror(v: u8, c: bool) -> (u8, bool) {
    ((v / 2 + 0x80 * bit_val(c)) as u8, v % 2 == 1)
}

/// The flags register after a rotate: carry from the shifted-out bit,
/// Z and N from the rotated value.
pub open spec fn rotate_flags(p: Flags, rotated: u8, carry: bool) -> Flags {
    Flags { carry, zero: rotated == 0, sign: rotated >= 0x80, ..p }
}

/// Rotate `val` left through the carry flag, updating C, Z and N.
pub fn rotate_left(cpu: &mut Cpu, val: u8) -> (r: u8)
    ensures
        r == spec_rol(val, old(cpu).p.carry).0,
        *final(cpu) == (Cpu {
            p: rotate_flags(old(cpu).p, r, spec_rol(val, old(cpu).p.carry).1),
            ..*old(cpu)
        }),
{
    let old_carry: u8 = cpu.p.bit(crate::flags::Flag::Carry);
    cpu.p.set_carry(val >= 0x80);
    let rotated: u8 = ((2 * (val as u16) + old_carry as u16) % 0x100) as u8;
    cpu.p.set_zero(rotated == 0);
    cpu.p.set_signed(rotated >= 0x80);
    rotated
}

/// Rotate `val` right through the carry flag, updating C, Z and N.
pub fn rotate_right(cpu: &mut Cpu, val: u8) -> (r: u8)
    ensures
        r == spec_ror(val, old(cpu).p.carry).0,
        *final(cpu) == (Cpu {
            p: rotate_flags(old(cpu).p, r, spec_ror(val, old(cpu).p.carry).1),
            ..*old(cpu)
        }),
{
    let old_carry: u8 = cpu.p.bit(crate::flags::Flag::Carry);
    cpu.p.set_carry(val % 2 == 1);
    let rotated: u8 = val / 2 + 0x80 * old_carry;
    cpu.p.set_zero(rotated == 0);
    cpu.p.set_signed(rotated >= 0x80);
    rotated
}

/// Binary ADC computes the 9-bit unsigned sum: the result plus 256
/// when the carry is set equals `A + operand + carry-in`, and the same
/// holds of SBC with the complemented operand in place of the operand.
pub proof fn lemma_adc_sbc_nine_bit_sum(cpu: Cpu, v: u8)
    requires
        !(cpu.table.decimal_enabled && cpu.p.decimal_mode),
    ensures
        spec_add_with_carry(cpu, v).a + 0x100 * bit_val(spec_add_with_carry(cpu, v).p.carry)
            == adc_sum(cpu.a, v, cpu.p.carry),
        spec_sub_with_borrow(cpu, v).a + 0x100 * bit_val(spec_sub_with_borrow(cpu, v).p.carry)
            == adc_sum(cpu.a, (0xFF - v) as u8, cpu.p.carry),
{
    lemma_wrap8_split(adc_sum(cpu.a, v, cpu.p.carry));
    lemma_wrap8_split(adc_sum(cpu.a, (0xFF - v) as u8, cpu.p.carry));
}

/// For a 9-bit quantity, reducing modulo 256 either keeps it or takes
/// exactly 256 away.
proof fn lemma_wrap8_split(s: int)
    requires
        0 <= s <= 0x1FF,
    ensures
        wrap8(s) == (if s > 0xFF {
            s - 0x100
        } else {
            s
        }),
{
}

/// Binary ADC and SBC set V exactly when the operands (for SBC, the
/// accumulator and the complemented operand) agree in sign and the
/// result's sign differs: the signed reading of the result disagrees
/// with the signed sum.
pub proof fn lemma_adc_sbc_overflow_flag(cpu: Cpu, v: u8)
    requires
        !(cpu.table.decimal_enabled && cpu.p.decimal_mode),
    ensures
        spec_add_with_carry(cpu, v).p.overflow == (add_overflow(
            cpu.a,
            v,
            spec_add_with_carry(cpu, v).a,
        )),
        spec_sub_with_borrow(cpu, v).p.overflow == (add_overflow(
            cpu.a,
            (0xFF - v) as u8,
            spec_sub_with_borrow(cpu, v).a,
        )),
{
}

/// The signed 8-bit reading of a byte.
pub open spec fn signed_val(v: u8) -> int {
    crate::arith::signed8(v)
}

/// In binary mode, V is set exactly when the true signed sum of the
/// accumulator, the (complemented, for SBC) operand and the carry falls
/// outside the signed 8-bit range.
pub proof fn lemma_overflow_is_signed_range(cpu: Cpu, v: u8)
    requires
        !(cpu.table.decimal_enabled && cpu.p.decimal_mode),
    ensures
        spec_add_with_carry(cpu, v).p.overflow == !(-128 <= signed_val(cpu.a) + signed_val(v)
            + bit_val(cpu.p.carry) <= 127),
        spec_sub_with_borrow(cpu, v).p.overflow == !(-128 <= signed_val(cpu.a) + signed_val(
            (0xFF - v) as u8,
        ) + bit_val(cpu.p.carry) <= 127),
{
    lemma_wrap8_split(adc_sum(cpu.a, v, cpu.p.carry));
    lemma_wrap8_split(adc_sum(cpu.a, (0xFF - v) as u8, cpu.p.carry));
}

/// Rotating left through the carry is one step of a 9-bit rotation, so
/// nine of them restore the byte and the carry exactly; the same holds
/// of nine right rotations.  (Eight do not: the rotated word is nine
/// bits wide, not eight, so eight steps leave it rotated by one.)
pub proof fn lemma_rotate_nine_fold_identity(v: u8, c: bool)
    ensures
        iter_rol(v, c, 9) == (v, c),
        iter_ror(v, c, 9) == (v, c),
{
    reveal_with_fuel(iter_rol, 10);
    reveal_with_fuel(iter_ror, 10);
    let c0: u8 = bit_val(c);
    let v1: u8 = iter_rol(v, c, 1).0;
    let c1: u8 = bit_val(iter_rol(v, c, 1).1);
    let v2: u8 = iter_rol(v, c, 2).0;
    let c2: u8 = bit_val(iter_rol(v, c, 2).1);
    let v3: u8 = iter_rol(v, c, 3).0;
    let c3: u8 = bit_val(iter_rol(v, c, 3).1);
    let v4: u8 = iter_rol(v, c, 4).0;
    let c4: u8 = bit_val(iter_rol(v, c, 4).1);
    let v5: u8 = iter_rol(v, c, 5).0;
    let c5: u8 = bit_val(iter_rol(v, c, 5).1);
    let v6: u8 = iter_rol(v, c, 6).0;
    let c6: u8 = bit_val(iter_rol(v, c, 6).1);
    let v7: u8 = iter_rol(v, c, 7).0;
    let c7: u8 = bit_val(iter_rol(v, c, 7).1);
    let v8: u8 = iter_rol(v, c, 8).0;
    let c8: u8 = bit_val(iter_rol(v, c, 8).1);
    let v9: u8 = iter_rol(v, c, 9).0;
    let c9: u8 = bit_val(iter_rol(v, c, 9).1);
    assert(v9 == v && c9 == c0) by (bit_vector)
        requires
            c0 <= 1,
            v1 as int == (2 * v + c0) % 0x100 && c1 == (if v >= 0x80 { 1u8 } else { 0u8 }),
            v2 as int == (2 * v1 + c1) % 0x100 && c2 == (if v1 >= 0x80 { 1u8 } else { 0u8 }),
            v3 as int == (2 * v2 + c2) % 0x100 && c3 == (if v2 >= 0x80 { 1u8 } else { 0u8 }),
            v4 as int == (2 * v3 + c3) % 0x100 && c4 == (if v3 >= 0x80 { 1u8 } else { 0u8 }),
            v5 as int == (2 * v4 + c4) % 0x100 && c5 == (if v4 >= 0x80 { 1u8 } else { 0u8 }),
            v6 as int == (2 * v5 + c5) % 0x100 && c6 == (if v5 >= 0x80 { 1u8 } else { 0u8 }),
            v7 as int == (2 * v6 + c6) % 0x100 && c7 == (if v6 >= 0x80 { 1u8 } else { 0u8 }),
            v8 as int == (2 * v7 + c7) % 0x100 && c8 == (if v7 >= 0x80 { 1u8 } else { 0u8 }),
            v9 as int == (2 * v8 + c8) % 0x100 && c9 == (if v8 >= 0x80 { 1u8 } else { 0u8 }),
    ;
    assert(iter_rol(v, c, 9).1 == c);
    let w1: u8 = iter_ror(v, c, 1).0;
    let d1: u8 = bit_val(iter_ror(v, c, 1).1);
    let w2: u8 = iter_ror(v, c, 2).0;
    let d2: u8 = bit_val(iter_ror(v, c, 2).1);
    let w3: u8 = iter_ror(v, c, 3).0;
    let d3: u8 = bit_val(iter_ror(v, c, 3).1);
    let w4: u8 = iter_ror(v, c, 4).0;
    let d4: u8 = bit_val(iter_ror(v, c, 4).1);
    let w5: u8 = iter_ror(v, c, 5).0;
    let d5: u8 = bit_val(iter_ror(v, c, 5).1);
    let w6: u8 = iter_ror(v, c, 6).0;
    let d6: u8 = bit_val(iter_ror(v, c, 6).1);
    let w7: u8 = iter_ror(v, c, 7).0;
    let d7: u8 = bit_val(iter_ror(v, c, 7).1);
    let w8: u8 = iter_ror(v, c, 8).0;
    let d8: u8 = bit_val(iter_ror(v, c, 8).1);
    let w9: u8 = iter_ror(v, c, 9).0;
    let d9: u8 = bit_val(iter_ror(v, c, 9).1);
    assert(w9 == v && d9 == c0) by (bit_vector)
        requires
            c0 <= 1,
            w1 as int == v / 2 + 0x80 * c0 && d1 == (if v % 2 == 1 { 1u8 } else { 0u8 }),
            w2 as int == w1 / 2 + 0x80 * d1 && d2 == (if w1 % 2 == 1 { 1u8 } else { 0u8 }),
            w3 as int == w2 / 2 + 0x80 * d2 && d3 == (if w2 % 2 == 1 { 1u8 } else { 0u8 }),
            w4 as int == w3 / 2 + 0x80 * d3 && d4 == (if w3 % 2 == 1 { 1u8 } else { 0u8 }),
            w5 as int == w4 / 2 + 0x80 * d4 && d5 == (if w4 % 2 == 1 { 1u8 } else { 0u8 }),
            w6 as int == w5 / 2 + 0x80 * d5 && d6 == (if w5 % 2 == 1 { 1u8 } else { 0u8 }),
            w7 as int == w6 / 2 + 0x80 * d6 && d7 == (if w6 % 2 == 1 { 1u8 } else { 0u8 }),
            w8 as int == w7 / 2 + 0x80 * d7 && d8 == (if w7 % 2 == 1 { 1u8 } else { 0u8 }),
            w9 as int == w8 / 2 + 0x80 * d8 && d9 == (if w8 % 2 == 1 { 1u8 } else { 0u8 }),
    ;
    assert(iter_ror(v, c, 9).1 == c);
}

/// `n` left rotations through the carry.
pub open spec fn iter_rol(v: u8, c: bool, n: nat) -> (u8, bool)
    decreases n,
{
    if n == 0 {
        (v, c)
    } else {
        let prev = iter_rol(v, c, (n - 1) as nat);
        spec_rol(prev.0, prev.1)
    }
}

/// `n` right rotations through the carry.
pub open spec fn iter_ror(v: u8, c: bool, n: nat) -> (u8, bool)
    decreases n,
{
    if n == 0 {
        (v, c)
    } else {
        let prev = iter_ror(v, c, (n - 1) as nat);
        spec_ror(prev.0, prev.1)
    }
}

/// A right rotation undoes a left rotation, and vice versa.
pub proof fn lemma_rol_ror_inverse(v: u8, c: bool)
    ensures
        spec_ror(spec_rol(v, c).0, spec_rol(v, c).1) == (v, c),
        spec_rol(spec_ror(v, c).0, spec_ror(v, c).1) == (v, c),
{
}

} // verus!
