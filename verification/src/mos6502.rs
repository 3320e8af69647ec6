//! The MOS 6502 instruction set: per-operation semantics and the
//! 256-entry base table, documented opcodes and the common undocumented
//! ones included.

use vstd::prelude::*;

use crate::access::AccessType;
use crate::alu::{add_with_carry, rotate_flags, rotate_left, rotate_right, spec_add_with_carry,
    spec_rol, spec_ror, spec_sub_with_borrow, sub_with_borrow};
use crate::arith::{bit_n, hi, lo, make_word, page, signed8, wadd16, wadd16_signed, wadd8, word,
    wrap16, wrap8, wsub8};
use crate::bus::Bus;
use crate::cpu::{Cpu, RunState, IRQ_VECTOR_HI, IRQ_VECTOR_LO, STACK_SPACE_START};
use crate::flags::Flags;
use crate::instruction::{Instruction, InstructionTable, Op};
use crate::mode::AddressingMode;

verus! {

/// The byte a mode's effective address selects.
pub open spec fn operand(cpu: Cpu, mem: Seq<u8>, mode: AddressingMode) -> u8 {
    mem[mode.spec_addr(cpu, mem) as int]
}

/// The program counter advanced past an instruction of this mode.
pub open spec fn advanced(cpu: Cpu, mode: AddressingMode) -> u16 {
    wrap16(cpu.pc + mode.spec_bytes())
}

/// The flags register with Z and N reflecting `v`.
pub open spec fn with_zn(p: Flags, v: u8) -> Flags {
    Flags { zero: v == 0, sign: v >= 0x80, ..p }
}

/// The flags a compare leaves: C when the register is at least the
/// operand, Z on equality, N from bit 7 of the wrapped difference.
pub open spec fn spec_compare(p: Flags, reg: u8, m: u8) -> Flags {
    Flags { carry: reg >= m, zero: reg == m, sign: wrap8(reg - m) >= 0x80, ..p }
}

/// Load the accumulator and set Z/N from it.
pub fn lda<B: Bus>(cpu: &mut Cpu, bus: &mut B, mode: AddressingMode)
    requires
        old(bus).inv(),
    ensures
        final(bus).inv(),
        final(bus).dma() == old(bus).dma(),
        final(bus).ticks() == old(bus).ticks(),
        final(bus).mem() == old(bus).mem(),
        ({
            let m = operand(*old(cpu), old(bus).mem(), mode);
            *final(cpu) == (Cpu {
                a: m,
                p: with_zn(old(cpu).p, m),
                pc: advanced(*old(cpu), mode),
                ..*old(cpu)
            })
        }),
{
    let addr = mode.fetch_address(cpu, bus);
    let val = bus.read(addr, AccessType::DataRead);
    cpu.a = val;
    cpu.p.set_zero(val == 0);
    cpu.p.set_signed(val >= 0x80);
    cpu.pc = wadd16(cpu.pc, mode.bytes());
}

/// Load the X register and set Z/N from it.
pub fn ldx<B: Bus>(cpu: &mut Cpu, bus: &mut B, mode: AddressingMode)
    requires
        old(bus).inv(),
    ensures
        final(bus).inv(),
        final(bus).dma() == old(bus).dma(),
        final(bus).ticks() == old(bus).ticks(),
        final(bus).mem() == old(bus).mem(),
        ({
            let m = operand(*old(cpu), old(bus).mem(), mode);
            *final(cpu) == (Cpu {
                x: m,
                p: with_zn(old(cpu).p, m),
                pc: advanced(*old(cpu), mode),
                ..*old(cpu)
            })
        }),
{
    let addr = mode.fetch_address(cpu, bus);
    let val = bus.read(addr, AccessType::DataRead);
    cpu.x = val;
    cpu.p.set_zero(val == 0);
    cpu.p.set_signed(val >= 0x80);
    cpu.pc = wadd16(cpu.pc, mode.bytes());
}

/// Load the Y register and set Z/N from it.
pub fn ldy<B: Bus>(cpu: &mut Cpu, bus: &mut B, mode: AddressingMode)
    requires
        old(bus).inv(),
    ensures
        final(bus).inv(),
        final(bus).dma() == old(bus).dma(),
        final(bus).ticks() == old(bus).ticks(),
        final(bus).mem() == old(bus).mem(),
        ({
            let m = operand(*old(cpu), old(bus).mem(), mode);
            *final(cpu) == (Cpu {
                y: m,
                p: with_zn(old(cpu).p, m),
                pc: advanced(*old(cpu), mode),
                ..*old(cpu)
            })
        }),
{
    let addr = mode.fetch_address(cpu, bus);
    let val = bus.read(addr, AccessType::DataRead);
    cpu.y = val;
    cpu.p.set_zero(val == 0);
    cpu.p.set_signed(val >= 0x80);
    cpu.pc = wadd16(cpu.pc, mode.bytes());
}

/// Store the accumulator at the effective address.
pub fn sta<B: Bus>(cpu: &mut Cpu, bus: &mut B, mode: AddressingMode)
    requires
        old(bus).inv(),
    ensures
        final(bus).inv(),
        final(bus).dma() == old(bus).dma(),
        final(bus).ticks() == old(bus).ticks(),
        final(bus).mem() == old(bus).mem().update(
            mode.spec_addr(*old(cpu), old(bus).mem()) as int,
            old(cpu).a,
        ),
        *final(cpu) == (Cpu { pc: advanced(*old(cpu), mode), ..*old(cpu) }),
{
    let addr = mode.fetch_address(cpu, bus);
    bus.write(addr, cpu.a, AccessType::DataWrite);
    cpu.pc = wadd16(cpu.pc, mode.bytes());
}

/// Store the X register at the effective address.
pub fn stx<B: Bus>(cpu: &mut Cpu, bus: &mut B, mode: AddressingMode)
    requires
        old(bus).inv(),
    ensures
        final(bus).inv(),
        final(bus).dma() == old(bus).dma(),
        final(bus).ticks() == old(bus).ticks(),
        final(bus).mem() == old(bus).mem().update(
            mode.spec_addr(*old(cpu), old(bus).mem()) as int,
            old(cpu).x,
        ),
        *final(cpu) == (Cpu { pc: advanced(*old(cpu), mode), ..*old(cpu) }),
{
    let addr = mode.fetch_address(cpu, bus);
    bus.write(addr, cpu.x, AccessType::DataWrite);
    cpu.pc = wadd16(cpu.pc, mode.bytes());
}

/// Store the Y register at the effective address.
pub fn sty<B: Bus>(cpu: &mut Cpu, bus: &mut B, mode: AddressingMode)
    requires
        old(bus).inv(),
    ensures
        final(bus).inv(),
        final(bus).dma() == old(bus).dma(),
        final(bus).ticks() == old(bus).ticks(),
        final(bus).mem() == old(bus).mem().update(
            mode.spec_addr(*old(cpu), old(bus).mem()) as int,
            old(cpu).y,
        ),
        *final(cpu) == (Cpu { pc: advanced(*old(cpu), mode), ..*old(cpu) }),
{
    let addr = mode.fetch_address(cpu, bus);
    bus.write(addr, cpu.y, AccessType::DataWrite);
    cpu.pc = wadd16(cpu.pc, mode.bytes());
}

/// Copy A into X, setting Z/N.
pub fn tax<B: Bus>(cpu: &mut Cpu, _bus: &mut B)
    ensures
        *final(_bus) == *old(_bus),
        *final(cpu) == (Cpu {
            x: old(cpu).a,
            p: with_zn(old(cpu).p, old(cpu).a),
            pc: wrap16(old(cpu).pc + 1),
            ..*old(cpu)
        }),
{
    cpu.x = cpu.a;
    cpu.p.set_zero(cpu.x == 0);
    cpu.p.set_signed(cpu.x >= 0x80);
    cpu.pc = wadd16(cpu.pc, 1);
}

/// Copy A into Y, setting Z/N.
pub fn tay<B: Bus>(cpu: &mut Cpu, _bus: &mut B)
    ensures
        *final(_bus) == *old(_bus),
        *final(cpu) == (Cpu {
            y: old(cpu).a,
            p: with_zn(old(cpu).p, old(cpu).a),
            pc: wrap16(old(cpu).pc + 1),
            ..*old(cpu)
        }),
{
    cpu.y = cpu.a;
    cpu.p.set_zero(cpu.y == 0);
    cpu.p.set_signed(cpu.y >= 0x80);
    cpu.pc = wadd16(cpu.pc, 1);
}

/// Copy SP into X, setting Z/N.
pub fn tsx<B: Bus>(cpu: &mut Cpu, _bus: &mut B)
    ensures
        *final(_bus) == *old(_bus),
        *final(cpu) == (Cpu {
            x: old(cpu).sp,
            p: with_zn(old(cpu).p, old(cpu).sp),
            pc: wrap16(old(cpu).pc + 1),
            ..*old(cpu)
        }),
{
    cpu.x = cpu.sp;
    cpu.p.set_zero(cpu.x == 0);
    cpu.p.set_signed(cpu.x >= 0x80);
    cpu.pc = wadd16(cpu.pc, 1);
}

/// Copy X into A, setting Z/N.
pub fn txa<B: Bus>(cpu: &mut Cpu, _bus: &mut B)
    ensures
        *final(_bus) == *old(_bus),
        *final(cpu) == (Cpu {
            a: old(cpu).x,
            p: with_zn(old(cpu).p, old(cpu).x),
            pc: wrap16(old(cpu).pc + 1),
            ..*old(cpu)
        }),
{
    cpu.a = cpu.x;
    cpu.p.set_zero(cpu.a == 0);
    cpu.p.set_signed(cpu.a >= 0x80);
    cpu.pc = wadd16(cpu.pc, 1);
}

/// Copy X into SP; no flags change.
pub fn txs<B: Bus>(cpu: &mut Cpu, _bus: &mut B)
    ensures
        *final(_bus) == *old(_bus),
        *final(cpu) == (Cpu { sp: old(cpu).x, pc: wrap16(old(cpu).pc + 1), ..*old(cpu) }),
{
    cpu.sp = cpu.x;
    cpu.pc = wadd16(cpu.pc, 1);
}

/// Copy Y into A, setting Z/N.
pub fn tya<B: Bus>(cpu: &mut Cpu, _bus: &mut B)
    ensures
        *final(_bus) == *old(_bus),
        *final(cpu) == (Cpu {
            a: old(cpu).y,
            p: with_zn(old(cpu).p, old(cpu).y),
            pc: wrap16(old(cpu).pc + 1),
            ..*old(cpu)
        }),
{
    cpu.a = cpu.y;
    cpu.p.set_zero(cpu.a == 0);
    cpu.p.set_signed(cpu.a >= 0x80);
    cpu.pc = wadd16(cpu.pc, 1);
}

/// Push the accumulator.
pub fn pha<B: Bus>(cpu: &mut Cpu, bus: &mut B)
    requires
        old(bus).inv(),
    ensures
        final(bus).inv(),
        final(bus).dma() == old(bus).dma(),
        final(bus).ticks() == old(bus).ticks(),
        final(bus).mem() == old(bus).mem().update(
            STACK_SPACE_START + old(cpu).sp as int,
            old(cpu).a,
        ),
        *final(cpu) == (Cpu {
            sp: wrap8(old(cpu).sp - 1),
            pc: wrap16(old(cpu).pc + 1),
            ..*old(cpu)
        }),
{
    let val = cpu.a;
    cpu.push(bus, val);
    cpu.pc = wadd16(cpu.pc, 1);
}

/// Push the status register with B and E forced to 1.
pub fn php<B: Bus>(cpu: &mut Cpu, bus: &mut B)
    requires
        old(bus).inv(),
    ensures
        final(bus).inv(),
        final(bus).dma() == old(bus).dma(),
        final(bus).ticks() == old(bus).ticks(),
        final(bus).mem() == old(bus).mem().update(
            STACK_SPACE_START + old(cpu).sp as int,
            (Flags { break_flag: true, expansion: true, ..old(cpu).p }).spec_bits(),
        ),
        *final(cpu) == (Cpu {
            sp: wrap8(old(cpu).sp - 1),
            pc: wrap16(old(cpu).pc + 1),
            ..*old(cpu)
        }),
{
    let mut pushed = cpu.p;
    pushed.break_flag = true;
    pushed.expansion = true;
    let bits = pushed.bits();
    cpu.push(bus, bits);
    cpu.pc = wadd16(cpu.pc, 1);
}

/// Pull the accumulator, setting Z/N.
pub fn pla<B: Bus>(cpu: &mut Cpu, bus: &mut B)
    requires
        old(bus).inv(),
    ensures
        final(bus).inv(),
        final(bus).dma() == old(bus).dma(),
        final(bus).ticks() == old(bus).ticks(),
        final(bus).mem() == old(bus).mem(),
        ({
            let m = old(bus).mem()[STACK_SPACE_START + wrap8(old(cpu).sp + 1) as int];
            *final(cpu) == (Cpu {
                a: m,
                p: with_zn(old(cpu).p, m),
                sp: wrap8(old(cpu).sp + 1),
                pc: wrap16(old(cpu).pc + 1),
                ..*old(cpu)
            })
        }),
{
    let val = cpu.pop(bus);
    cpu.a = val;
    cpu.p.set_zero(val == 0);
    cpu.p.set_signed(val >= 0x80);
    cpu.pc = wadd16(cpu.pc, 1);
}

/// Pull the status register, forcing E to 1 and B to 0.
pub fn plp<B: Bus>(cpu: &mut Cpu, bus: &mut B)
    requires
        old(bus).inv(),
    ensures
        final(bus).inv(),
        final(bus).dma() == old(bus).dma(),
        final(bus).ticks() == old(bus).ticks(),
        final(bus).mem() == old(bus).mem(),
        ({
            let m = old(bus).mem()[STACK_SPACE_START + wrap8(old(cpu).sp + 1) as int];
            *final(cpu) == (Cpu {
                p: Flags { expansion: true, break_flag: false, ..Flags::spec_from_bits(m) },
                sp: wrap8(old(cpu).sp + 1),
                pc: wrap16(old(cpu).pc + 1),
                ..*old(cpu)
            })
        }),
{
    let val = cpu.pop(bus);
    let mut p = Flags::from_bits(val);
    p.expansion = true;
    p.break_flag = false;
    cpu.p = p;
    cpu.pc = wadd16(cpu.pc, 1);
}

/// AND the operand into the accumulator, setting Z/N.
pub fn and<B: Bus>(cpu: &mut Cpu, bus: &mut B, mode: AddressingMode)
    requires
        old(bus).inv(),
    ensures
        final(bus).inv(),
        final(bus).dma() == old(bus).dma(),
        final(bus).ticks() == old(bus).ticks(),
        final(bus).mem() == old(bus).mem(),
        ({
            let r = old(cpu).a & operand(*old(cpu), old(bus).mem(), mode);
            *final(cpu) == (Cpu {
                a: r,
                p: with_zn(old(cpu).p, r),
                pc: advanced(*old(cpu), mode),
                ..*old(cpu)
            })
        }),
{
    let addr = mode.fetch_address(cpu, bus);
    let val = bus.read(addr, AccessType::DataRead);
    cpu.a = cpu.a & val;
    cpu.p.set_zero(cpu.a == 0);
    cpu.p.set_signed(cpu.a >= 0x80);
    cpu.pc = wadd16(cpu.pc, mode.bytes());
}

/// OR the operand into the accumulator, setting Z/N.
pub fn ora<B: Bus>(cpu: &mut Cpu, bus: &mut B, mode: AddressingMode)
    requires
        old(bus).inv(),
    ensures
        final(bus).inv(),
        final(bus).dma() == old(bus).dma(),
        final(bus).ticks() == old(bus).ticks(),
        final(bus).mem() == old(bus).mem(),
        ({
            let r = old(cpu).a | operand(*old(cpu), old(bus).mem(), mode);
            *final(cpu) == (Cpu {
                a: r,
                p: with_zn(old(cpu).p, r),
                pc: advanced(*old(cpu), mode),
                ..*old(cpu)
            })
        }),
{
    let addr = mode.fetch_address(cpu, bus);
    let val = bus.read(addr, AccessType::DataRead);
    cpu.a = cpu.a | val;
    cpu.p.set_zero(cpu.a == 0);
    cpu.p.set_signed(cpu.a >= 0x80);
    cpu.pc = wadd16(cpu.pc, mode.bytes());
}

/// XOR the operand into the accumulator, setting Z/N.
pub fn eor<B: Bus>(cpu: &mut Cpu, bus: &mut B, mode: AddressingMode)
    requires
        old(bus).inv(),
    ensures
        final(bus).inv(),
        final(bus).dma() == old(bus).dma(),
        final(bus).ticks() == old(bus).ticks(),
        final(bus).mem() == old(bus).mem(),
        ({
            let r = old(cpu).a ^ operand(*old(cpu), old(bus).mem(), mode);
            *final(cpu) == (Cpu {
                a: r,
                p: with_zn(old(cpu).p, r),
                pc: advanced(*old(cpu), mode),
                ..*old(cpu)
            })
        }),
{
    let addr = mode.fetch_address(cpu, bus);
    let val = bus.read(addr, AccessType::DataRead);
    cpu.a = cpu.a ^ val;
    cpu.p.set_zero(cpu.a == 0);
    cpu.p.set_signed(cpu.a >= 0x80);
    cpu.pc = wadd16(cpu.pc, mode.bytes());
}

/// Test bits: Z from `A & operand`, N from bit 7 and V from bit 6 of
/// the operand.
pub fn bit<B: Bus>(cpu: &mut Cpu, bus: &mut B, mode: AddressingMode)
    requires
        old(bus).inv(),
    ensures
        final(bus).inv(),
        final(bus).dma() == old(bus).dma(),
        final(bus).ticks() == old(bus).ticks(),
        final(bus).mem() == old(bus).mem(),
        ({
            let m = operand(*old(cpu), old(bus).mem(), mode);
            *final(cpu) == (Cpu {
                p: Flags {
                    zero: old(cpu).a & m == 0,
                    sign: m >= 0x80,
                    overflow: bit_n(m, 6),
                    ..old(cpu).p
                },
                pc: advanced(*old(cpu), mode),
                ..*old(cpu)
            })
        }),
{
    let addr = mode.fetch_address(cpu, bus);
    let val = bus.read(addr, AccessType::DataRead);
    cpu.p.set_zero(cpu.a & val == 0);
    cpu.p.set_signed(val >= 0x80);
    cpu.p.set_overflow(crate::arith::test_bit(val, 6));
    cpu.pc = wadd16(cpu.pc, mode.bytes());
}

/// The byte an arithmetic shift left produces.
pub open spec fn spec_asl(v: u8) -> u8 {
    wrap8(2 * v)
}

/// The byte a logical shift right produces.
pub open spec fn spec_lsr(v: u8) -> u8 {
    v / 2
}

/// Shift the addressed byte left; C takes bit 7, Z/N from the result.
pub fn asl<B: Bus>(cpu: &mut Cpu, bus: &mut B, mode: AddressingMode)
    requires
        old(bus).inv(),
    ensures
        final(bus).inv(),
        final(bus).dma() == old(bus).dma(),
        final(bus).ticks() == old(bus).ticks(),
        ({
            let m = operand(*old(cpu), old(bus).mem(), mode);
            let r = spec_asl(m);
            final(bus).mem() == old(bus).mem().update(
                mode.spec_addr(*old(cpu), old(bus).mem()) as int,
                r,
            ) && *final(cpu) == (Cpu {
                p: Flags { carry: m >= 0x80, zero: r == 0, sign: r >= 0x80, ..old(cpu).p },
                pc: advanced(*old(cpu), mode),
                ..*old(cpu)
            })
        }),
{
    let addr = mode.fetch_address(cpu, bus);
    let val = bus.read(addr, AccessType::DataRead);
    cpu.p.set_carry(val >= 0x80);
    let shifted: u8 = ((2 * (val as u16)) % 0x100) as u8;
    bus.write(addr, shifted, AccessType::DataWrite);
    cpu.p.set_zero(shifted == 0);
    cpu.p.set_signed(shifted >= 0x80);
    cpu.pc = wadd16(cpu.pc, mode.bytes());
}

/// Shift the accumulator left; C takes bit 7, Z/N from the result.
pub fn asl_a<B: Bus>(cpu: &mut Cpu, _bus: &mut B)
    ensures
        *final(_bus) == *old(_bus),
        ({
            let r = spec_asl(old(cpu).a);
            *final(cpu) == (Cpu {
                a: r,
                p: Flags { carry: old(cpu).a >= 0x80, zero: r == 0, sign: r >= 0x80, ..old(cpu).p },
                pc: wrap16(old(cpu).pc + 1),
                ..*old(cpu)
            })
        }),
{
    cpu.p.set_carry(cpu.a >= 0x80);
    cpu.a = ((2 * (cpu.a as u16)) % 0x100) as u8;
    cpu.p.set_zero(cpu.a == 0);
    cpu.p.set_signed(cpu.a >= 0x80);
    cpu.pc = wadd16(cpu.pc, 1);
}

/// Shift the addressed byte right; C takes bit 0, Z from the result,
/// N necessarily clear.
pub fn lsr<B: Bus>(cpu: &mut Cpu, bus: &mut B, mode: AddressingMode)
    requires
        old(bus).inv(),
    ensures
        final(bus).inv(),
        final(bus).dma() == old(bus).dma(),
        final(bus).ticks() == old(bus).ticks(),
        ({
            let m = operand(*old(cpu), old(bus).mem(), mode);
            let r = spec_lsr(m);
            final(bus).mem() == old(bus).mem().update(
                mode.spec_addr(*old(cpu), old(bus).mem()) as int,
                r,
            ) && *final(cpu) == (Cpu {
                p: Flags { carry: m % 2 == 1, zero: r == 0, sign: r >= 0x80, ..old(cpu).p },
                pc: advanced(*old(cpu), mode),
                ..*old(cpu)
            })
        }),
{
    let addr = mode.fetch_address(cpu, bus);
    let val = bus.read(addr, AccessType::DataRead);
    cpu.p.set_carry(val % 2 == 1);
    let shifted: u8 = val / 2;
    bus.write(addr, shifted, AccessType::DataWrite);
    cpu.p.set_zero(shifted == 0);
    cpu.p.set_signed(shifted >= 0x80);
    cpu.pc = wadd16(cpu.pc, mode.bytes());
}

/// Shift the accumulator right; C takes bit 0, Z from the result.
pub fn lsr_a<B: Bus>(cpu: &mut Cpu, _bus: &mut B)
    ensures
        *final(_bus) == *old(_bus),
        ({
            let r = spec_lsr(old(cpu).a);
            *final(cpu) == (Cpu {
                a: r,
                p: Flags {
                    carry: old(cpu).a % 2 == 1,
                    zero: r == 0,
                    sign: r >= 0x80,
                    ..old(cpu).p
                },
                pc: wrap16(old(cpu).pc + 1),
                ..*old(cpu)
            })
        }),
{
    cpu.p.set_carry(cpu.a % 2 == 1);
    cpu.a = cpu.a / 2;
    cpu.p.set_zero(cpu.a == 0);
    cpu.p.set_signed(cpu.a >= 0x80);
    cpu.pc = wadd16(cpu.pc, 1);
}

/// Rotate the addressed byte left through the carry.
pub fn rol<B: Bus>(cpu: &mut Cpu, bus: &mut B, mode: AddressingMode)
    requires
        old(bus).inv(),
    ensures
        final(bus).inv(),
        final(bus).dma() == old(bus).dma(),
        final(bus).ticks() == old(bus).ticks(),
        ({
            let m = operand(*old(cpu), old(bus).mem(), mode);
            let r = spec_rol(m, old(cpu).p.carry);
            final(bus).mem() == old(bus).mem().update(
                mode.spec_addr(*old(cpu), old(bus).mem()) as int,
                r.0,
            ) && *final(cpu) == (Cpu {
                p: rotate_flags(old(cpu).p, r.0, r.1),
                pc: advanced(*old(cpu), mode),
                ..*old(cpu)
            })
        }),
{
    let addr = mode.fetch_address(cpu, bus);
    let val = bus.read(addr, AccessType::DataRead);
    let rotated = rotate_left(cpu, val);
    bus.write(addr, rotated, AccessType::DataWrite);
    cpu.pc = wadd16(cpu.pc, mode.bytes());
}

/// Rotate the accumulator left through the carry.
pub fn rol_a<B: Bus>(cpu: &mut Cpu, _bus: &mut B)
    ensures
        *final(_bus) == *old(_bus),
        ({
            let r = spec_rol(old(cpu).a, old(cpu).p.carry);
            *final(cpu) == (Cpu {
                a: r.0,
                p: rotate_flags(old(cpu).p, r.0, r.1),
                pc: wrap16(old(cpu).pc + 1),
                ..*old(cpu)
            })
        }),
{
    let val = cpu.a;
    cpu.a = rotate_left(cpu, val);
    cpu.pc = wadd16(cpu.pc, 1);
}

/// Rotate the addressed byte right through the carry.
pub fn ror<B: Bus>(cpu: &mut Cpu, bus: &mut B, mode: AddressingMode)
    requires
        old(bus).inv(),
    ensures
        final(bus).inv(),
        final(bus).dma() == old(bus).dma(),
        final(bus).ticks() == old(bus).ticks(),
        ({
            let m = operand(*old(cpu), old(bus).mem(), mode);
            let r = spec_ror(m, old(cpu).p.carry);
            final(bus).mem() == old(bus).mem().update(
                mode.spec_addr(*old(cpu), old(bus).mem()) as int,
                r.0,
            ) && *final(cpu) == (Cpu {
                p: rotate_flags(old(cpu).p, r.0, r.1),
                pc: advanced(*old(cpu), mode),
                ..*old(cpu)
            })
        }),
{
    let addr = mode.fetch_address(cpu, bus);
    let val = bus.read(addr, AccessType::DataRead);
    let rotated = rotate_right(cpu, val);
    bus.write(addr, rotated, AccessType::DataWrite);
    cpu.pc = wadd16(cpu.pc, mode.bytes());
}

/// Rotate the accumulator right through the carry.
pub fn ror_a<B: Bus>(cpu: &mut Cpu, _bus: &mut B)
    ensures
        *final(_bus) == *old(_bus),
        ({
            let r = spec_ror(old(cpu).a, old(cpu).p.carry);
            *final(cpu) == (Cpu {
                a: r.0,
                p: rotate_flags(old(cpu).p, r.0, r.1),
                pc: wrap16(old(cpu).pc + 1),
                ..*old(cpu)
            })
        }),
{
    let val = cpu.a;
    cpu.a = rotate_right(cpu, val);
    cpu.pc = wadd16(cpu.pc, 1);
}

/// Decrement the addressed byte, setting Z/N.
pub fn dec<B: Bus>(cpu: &mut Cpu, bus: &mut B, mode: AddressingMode)
    requires
        old(bus).inv(),
    ensures
        final(bus).inv(),
        final(bus).dma() == old(bus).dma(),
        final(bus).ticks() == old(bus).ticks(),
        ({
            let r = wrap8(operand(*old(cpu), old(bus).mem(), mode) - 1);
            final(bus).mem() == old(bus).mem().update(
                mode.spec_addr(*old(cpu), old(bus).mem()) as int,
                r,
            ) && *final(cpu) == (Cpu {
                p: with_zn(old(cpu).p, r),
                pc: advanced(*old(cpu), mode),
                ..*old(cpu)
            })
        }),
{
    let addr = mode.fetch_address(cpu, bus);
    let val = wsub8(bus.read(addr, AccessType::DataRead), 1);
    bus.write(addr, val, AccessType::DataWrite);
    cpu.p.set_zero(val == 0);
    cpu.p.set_signed(val >= 0x80);
    cpu.pc = wadd16(cpu.pc, mode.bytes());
}

/// Increment the addressed byte, setting Z/N.
pub fn inc<B: Bus>(cpu: &mut Cpu, bus: &mut B, mode: AddressingMode)
    requires
        old(bus).inv(),
    ensures
        final(bus).inv(),
        final(bus).dma() == old(bus).dma(),
        final(bus).ticks() == old(bus).ticks(),
        ({
            let r = wrap8(operand(*old(cpu), old(bus).mem(), mode) + 1);
            final(bus).mem() == old(bus).mem().update(
                mode.spec_addr(*old(cpu), old(bus).mem()) as int,
                r,
            ) && *final(cpu) == (Cpu {
                p: with_zn(old(cpu).p, r),
                pc: advanced(*old(cpu), mode),
                ..*old(cpu)
            })
        }),
{
    let addr = mode.fetch_address(cpu, bus);
    let val = wadd8(bus.read(addr, AccessType::DataRead), 1);
    bus.write(addr, val, AccessType::DataWrite);
    cpu.p.set_zero(val == 0);
    cpu.p.set_signed(val >= 0x80);
    cpu.pc = wadd16(cpu.pc, mode.bytes());
}

/// Decrement X, setting Z/N.
pub fn dex<B: Bus>(cpu: &mut Cpu, _bus: &mut B)
    ensures
        *final(_bus) == *old(_bus),
        *final(cpu) == (Cpu {
            x: wrap8(old(cpu).x - 1),
            p: with_zn(old(cpu).p, wrap8(old(cpu).x - 1)),
            pc: wrap16(old(cpu).pc + 1),
            ..*old(cpu)
        }),
{
    cpu.x = wsub8(cpu.x, 1);
    cpu.p.set_zero(cpu.x == 0);
    cpu.p.set_signed(cpu.x >= 0x80);
    cpu.pc = wadd16(cpu.pc, 1);
}

/// Decrement Y, setting Z/N.
pub fn dey<B: Bus>(cpu: &mut Cpu, _bus: &mut B)
    ensures
        *final(_bus) == *old(_bus),
        *final(cpu) == (Cpu {
            y: wrap8(old(cpu).y - 1),
            p: with_zn(old(cpu).p, wrap8(old(cpu).y - 1)),
            pc: wrap16(old(cpu).pc + 1),
            ..*old(cpu)
        }),
{
    cpu.y = wsub8(cpu.y, 1);
    cpu.p.set_zero(cpu.y == 0);
    cpu.p.set_signed(cpu.y >= 0x80);
    cpu.pc = wadd16(cpu.pc, 1);
}

/// Increment X, setting Z/N.
pub fn inx<B: Bus>(cpu: &mut Cpu, _bus: &mut B)
    ensures
        *final(_bus) == *old(_bus),
        *final(cpu) == (Cpu {
            x: wrap8(old(cpu).x + 1),
            p: with_zn(old(cpu).p, wrap8(old(cpu).x + 1)),
            pc: wrap16(old(cpu).pc + 1),
            ..*old(cpu)
        }),
{
    cpu.x = wadd8(cpu.x, 1);
    cpu.p.set_zero(cpu.x == 0);
    cpu.p.set_signed(cpu.x >= 0x80);
    cpu.pc = wadd16(cpu.pc, 1);
}

/// Increment Y, setting Z/N.
pub fn iny<B: Bus>(cpu: &mut Cpu, _bus: &mut B)
    ensures
        *final(_bus) == *old(_bus),
        *final(cpu) == (Cpu {
            y: wrap8(old(cpu).y + 1),
            p: with_zn(old(cpu).p, wrap8(old(cpu).y + 1)),
            pc: wrap16(old(cpu).pc + 1),
            ..*old(cpu)
        }),
{
    cpu.y = wadd8(cpu.y, 1);
    cpu.p.set_zero(cpu.y == 0);
    cpu.p.set_signed(cpu.y >= 0x80);
    cpu.pc = wadd16(cpu.pc, 1);
}

/// Compare A with the operand: C iff `A >= operand`, Z iff equal, N
/// from bit 7 of the difference.
pub fn cmp<B: Bus>(cpu: &mut Cpu, bus: &mut B, mode: AddressingMode)
    requires
        old(bus).inv(),
    ensures
        final(bus).inv(),
        final(bus).dma() == old(bus).dma(),
        final(bus).ticks() == old(bus).ticks(),
        final(bus).mem() == old(bus).mem(),
        *final(cpu) == (Cpu {
            p: spec_compare(old(cpu).p, old(cpu).a, operand(*old(cpu), old(bus).mem(), mode)),
            pc: advanced(*old(cpu), mode),
            ..*old(cpu)
        }),
{
    let addr = mode.fetch_address(cpu, bus);
    let val = bus.read(addr, AccessType::DataRead);
    let diff = wsub8(cpu.a, val);
    cpu.p.set_zero(diff == 0);
    cpu.p.set_signed(diff >= 0x80);
    cpu.p.set_carry(cpu.a >= val);
    cpu.pc = wadd16(cpu.pc, mode.bytes());
}

/// Compare X with the operand, as [`cmp`] does for A.
pub fn cpx<B: Bus>(cpu: &mut Cpu, bus: &mut B, mode: AddressingMode)
    requires
        old(bus).inv(),
    ensures
        final(bus).inv(),
        final(bus).dma() == old(bus).dma(),
        final(bus).ticks() == old(bus).ticks(),
        final(bus).mem() == old(bus).mem(),
        *final(cpu) == (Cpu {
            p: spec_compare(old(cpu).p, old(cpu).x, operand(*old(cpu), old(bus).mem(), mode)),
            pc: advanced(*old(cpu), mode),
            ..*old(cpu)
        }),
{
    let addr = mode.fetch_address(cpu, bus);
    let val = bus.read(addr, AccessType::DataRead);
    let diff = wsub8(cpu.x, val);
    cpu.p.set_zero(diff == 0);
    cpu.p.set_signed(diff >= 0x80);
    cpu.p.set_carry(cpu.x >= val);
    cpu.pc = wadd16(cpu.pc, mode.bytes());
}

/// Compare Y with the operand, as [`cmp`] does for A.
pub fn cpy<B: Bus>(cpu: &mut Cpu, bus: &mut B, mode: AddressingMode)
    requires
        old(bus).inv(),
    ensures
        final(bus).inv(),
        final(bus).dma() == old(bus).dma(),
        final(bus).ticks() == old(bus).ticks(),
        final(bus).mem() == old(bus).mem(),
        *final(cpu) == (Cpu {
            p: spec_compare(old(cpu).p, old(cpu).y, operand(*old(cpu), old(bus).mem(), mode)),
            pc: advanced(*old(cpu), mode),
            ..*old(cpu)
        }),
{
    let addr = mode.fetch_address(cpu, bus);
    let val = bus.read(addr, AccessType::DataRead);
    let diff = wsub8(cpu.y, val);
    cpu.p.set_zero(diff == 0);
    cpu.p.set_signed(diff >= 0x80);
    cpu.p.set_carry(cpu.y >= val);
    cpu.pc = wadd16(cpu.pc, mode.bytes());
}

/// Add the operand with carry into A; BCD-corrected when the variant
/// supports decimal mode and D is set.
pub fn adc<B: Bus>(cpu: &mut Cpu, bus: &mut B, mode: AddressingMode)
    requires
        old(bus).inv(),
    ensures
        final(bus).inv(),
        final(bus).dma() == old(bus).dma(),
        final(bus).ticks() == old(bus).ticks(),
        final(bus).mem() == old(bus).mem(),
        *final(cpu) == (Cpu {
            pc: advanced(*old(cpu), mode),
            ..spec_add_with_carry(*old(cpu), operand(*old(cpu), old(bus).mem(), mode))
        }),
{
    let addr = mode.fetch_address(cpu, bus);
    let value = bus.read(addr, AccessType::DataRead);
    add_with_carry(cpu, value);
    cpu.pc = wadd16(cpu.pc, mode.bytes());
}

/// Subtract the operand with borrow from A; BCD-corrected when the
/// variant supports decimal mode and D is set.
pub fn sbc<B: Bus>(cpu: &mut Cpu, bus: &mut B, mode: AddressingMode)
    requires
        old(bus).inv(),
    ensures
        final(bus).inv(),
        final(bus).dma() == old(bus).dma(),
        final(bus).ticks() == old(bus).ticks(),
        final(bus).mem() == old(bus).mem(),
        *final(cpu) == (Cpu {
            pc: advanced(*old(cpu), mode),
            ..spec_sub_with_borrow(*old(cpu), operand(*old(cpu), old(bus).mem(), mode))
        }),
{
    let addr = mode.fetch_address(cpu, bus);
    let value = bus.read(addr, AccessType::DataRead);
    sub_with_borrow(cpu, value);
    cpu.pc = wadd16(cpu.pc, mode.bytes());
}

/// The processor after a conditional branch.  When the condition
/// fails, PC advances by two and nothing else changes.  When it holds,
/// PC moves to `PC+2` plus the signed displacement at `PC+1`, one extra
/// cycle is charged, and one more if the target lies on another page
/// than `PC+2`.
pub open spec fn spec_branch(cpu: Cpu, mem: Seq<u8>, cond: bool) -> Cpu {
    let base = wrap16(cpu.pc + 2);
    if !cond {
        Cpu { pc: base, ..cpu }
    } else {
        let off = mem[wrap16(cpu.pc + 1) as int];
        let target = wrap16(base + signed8(off));
        let extra: int = if page(base) != page(target) {
            2
        } else {
            1
        };
        Cpu { pc: target, cycles: (cpu.cycles + extra) as u64, ..cpu }
    }
}

/// Advance past the branch, or take it with the cycle penalties, per
/// [`spec_branch`].
fn branch_on<B: Bus>(cpu: &mut Cpu, bus: &mut B, cond: bool)
    requires
        old(bus).inv(),
        old(cpu).cycles + 2 <= u64::MAX,
    ensures
        final(bus).inv(),
        final(bus).dma() == old(bus).dma(),
        final(bus).ticks() == old(bus).ticks(),
        final(bus).mem() == old(bus).mem(),
        *final(cpu) == spec_branch(*old(cpu), old(bus).mem(), cond),
{
    let base = wadd16(cpu.pc, 2);
    if !cond {
        cpu.pc = base;
        return ;
    }
    let offset = bus.read(wadd16(cpu.pc, 1), AccessType::DataRead);
    let target = wadd16_signed(base, offset);
    cpu.cycles = cpu.cycles + 1;
    if cpu.crosses_page(base, target) {
        cpu.cycles = cpu.cycles + 1;
    }
    cpu.pc = target;
}

/// Branch when the carry flag is clear.
pub fn bcc<B: Bus>(cpu: &mut Cpu, bus: &mut B)
    requires
        old(bus).inv(),
        old(cpu).cycles + 2 <= u64::MAX,
    ensures
        final(bus).inv(),
        final(bus).dma() == old(bus).dma(),
        final(bus).ticks() == old(bus).ticks(),
        final(bus).mem() == old(bus).mem(),
        *final(cpu) == spec_branch(*old(cpu), old(bus).mem(), !old(cpu).p.carry),
{
    let cond = !cpu.p.carry;
    branch_on(cpu, bus, cond);
}

/// Branch when the carry flag is set.
pub fn bcs<B: Bus>(cpu: &mut Cpu, bus: &mut B)
    requires
        old(bus).inv(),
        old(cpu).cycles + 2 <= u64::MAX,
    ensures
        final(bus).inv(),
        final(bus).dma() == old(bus).dma(),
        final(bus).ticks() == old(bus).ticks(),
        final(bus).mem() == old(bus).mem(),
        *final(cpu) == spec_branch(*old(cpu), old(bus).mem(), old(cpu).p.carry),
{
    let cond = cpu.p.carry;
    branch_on(cpu, bus, cond);
}

/// Branch when the zero flag is set.
pub fn beq<B: Bus>(cpu: &mut Cpu, bus: &mut B)
    requires
        old(bus).inv(),
        old(cpu).cycles + 2 <= u64::MAX,
    ensures
        final(bus).inv(),
        final(bus).dma() == old(bus).dma(),
        final(bus).ticks() == old(bus).ticks(),
        final(bus).mem() == old(bus).mem(),
        *final(cpu) == spec_branch(*old(cpu), old(bus).mem(), old(cpu).p.zero),
{
    let cond = cpu.p.zero;
    branch_on(cpu, bus, cond);
}

/// Branch when the zero flag is clear.
pub fn bne<B: Bus>(cpu: &mut Cpu, bus: &mut B)
    requires
        old(bus).inv(),
        old(cpu).cycles + 2 <= u64::MAX,
    ensures
        final(bus).inv(),
        final(bus).dma() == old(bus).dma(),
        final(bus).ticks() == old(bus).ticks(),
        final(bus).mem() == old(bus).mem(),
        *final(cpu) == spec_branch(*old(cpu), old(bus).mem(), !old(cpu).p.zero),
{
    let cond = !cpu.p.zero;
    branch_on(cpu, bus, cond);
}

/// Branch when the sign flag is set.
pub fn bmi<B: Bus>(cpu: &mut Cpu, bus: &mut B)
    requires
        old(bus).inv(),
        old(cpu).cycles + 2 <= u64::MAX,
    ensures
        final(bus).inv(),
        final(bus).dma() == old(bus).dma(),
        final(bus).ticks() == old(bus).ticks(),
        final(bus).mem() == old(bus).mem(),
        *final(cpu) == spec_branch(*old(cpu), old(bus).mem(), old(cpu).p.sign),
{
    let cond = cpu.p.sign;
    branch_on(cpu, bus, cond);
}

/// Branch when the sign flag is clear.
pub fn bpl<B: Bus>(cpu: &mut Cpu, bus: &mut B)
    requires
        old(bus).inv(),
        old(cpu).cycles + 2 <= u64::MAX,
    ensures
        final(bus).inv(),
        final(bus).dma() == old(bus).dma(),
        final(bus).ticks() == old(bus).ticks(),
        final(bus).mem() == old(bus).mem(),
        *final(cpu) == spec_branch(*old(cpu), old(bus).mem(), !old(cpu).p.sign),
{
    let cond = !cpu.p.sign;
    branch_on(cpu, bus, cond);
}

/// Branch when the overflow flag is clear.
pub fn bvc<B: Bus>(cpu: &mut Cpu, bus: &mut B)
    requires
        old(bus).inv(),
        old(cpu).cycles + 2 <= u64::MAX,
    ensures
        final(bus).inv(),
        final(bus).dma() == old(bus).dma(),
        final(bus).ticks() == old(bus).ticks(),
        final(bus).mem() == old(bus).mem(),
        *final(cpu) == spec_branch(*old(cpu), old(bus).mem(), !old(cpu).p.overflow),
{
    let cond = !cpu.p.overflow;
    branch_on(cpu, bus, cond);
}

/// Branch when the overflow flag is set.
pub fn bvs<B: Bus>(cpu: &mut Cpu, bus: &mut B)
    requires
        old(bus).inv(),
        old(cpu).cycles + 2 <= u64::MAX,
    ensures
        final(bus).inv(),
        final(bus).dma() == old(bus).dma(),
        final(bus).ticks() == old(bus).ticks(),
        final(bus).mem() == old(bus).mem(),
        *final(cpu) == spec_branch(*old(cpu), old(bus).mem(), old(cpu).p.overflow),
{
    let cond = cpu.p.overflow;
    branch_on(cpu, bus, cond);
}

/// Jump: PC takes the mode's effective address.
pub fn jmp<B: Bus>(cpu: &mut Cpu, bus: &mut B, mode: AddressingMode)
    requires
        old(bus).inv(),
    ensures
        final(bus).inv(),
        final(bus).dma() == old(bus).dma(),
        final(bus).ticks() == old(bus).ticks(),
        final(bus).mem() == old(bus).mem(),
        *final(cpu) == (Cpu { pc: mode.spec_addr(*old(cpu), old(bus).mem()), ..*old(cpu) }),
{
    cpu.pc = mode.fetch_address(cpu, bus);
}

/// Jump to subroutine: push `PC+2` (the address of the JSR's own last
/// byte) high then low, and jump to the target.
pub fn jsr<B: Bus>(cpu: &mut Cpu, bus: &mut B, mode: AddressingMode)
    requires
        old(bus).inv(),
    ensures
        final(bus).inv(),
        final(bus).dma() == old(bus).dma(),
        final(bus).ticks() == old(bus).ticks(),
        ({
            let ret = wrap16(old(cpu).pc + mode.spec_bytes() - 1);
            final(bus).mem() == old(bus).mem().update(
                STACK_SPACE_START + old(cpu).sp as int,
                hi(ret),
            ).update(STACK_SPACE_START + wrap8(old(cpu).sp - 1) as int, lo(ret)) && *final(cpu)
                == (Cpu {
                sp: wrap8(old(cpu).sp - 2),
                pc: mode.spec_addr(*old(cpu), old(bus).mem()),
                ..*old(cpu)
            })
        }),
{
    let addr = mode.fetch_address(cpu, bus);
    let return_addr = wadd16(cpu.pc, mode.bytes() - 1);
    let ret_hi = crate::arith::hi_byte(return_addr);
    let ret_lo = crate::arith::lo_byte(return_addr);
    cpu.push(bus, ret_hi);
    cpu.push(bus, ret_lo);
    cpu.pc = addr;
}

/// Return from subroutine: pull PC low then high and advance past the
/// JSR's last byte.
pub fn rts<B: Bus>(cpu: &mut Cpu, bus: &mut B)
    requires
        old(bus).inv(),
    ensures
        final(bus).inv(),
        final(bus).dma() == old(bus).dma(),
        final(bus).ticks() == old(bus).ticks(),
        final(bus).mem() == old(bus).mem(),
        ({
            let lo_b = old(bus).mem()[STACK_SPACE_START + wrap8(old(cpu).sp + 1) as int];
            let hi_b = old(bus).mem()[STACK_SPACE_START + wrap8(old(cpu).sp + 2) as int];
            *final(cpu) == (Cpu {
                sp: wrap8(old(cpu).sp + 2),
                pc: wrap16(word(lo_b, hi_b) + 1),
                ..*old(cpu)
            })
        }),
{
    let lo_b = cpu.pop(bus);
    let hi_b = cpu.pop(bus);
    cpu.pc = wadd16(make_word(lo_b, hi_b), 1);
}

/// Return from interrupt: pull P (E forced on, B forced off), then PC
/// low and high, with no increment.
#[verifier::rlimit(100)]
pub fn rti<B: Bus>(cpu: &mut Cpu, bus: &mut B)
    requires
        old(bus).inv(),
    ensures
        final(bus).inv(),
        final(bus).dma() == old(bus).dma(),
        final(bus).ticks() == old(bus).ticks(),
        final(bus).mem() == old(bus).mem(),
        ({
            let p_b = old(bus).mem()[STACK_SPACE_START + wrap8(old(cpu).sp + 1) as int];
            let lo_b = old(bus).mem()[STACK_SPACE_START + wrap8(old(cpu).sp + 2) as int];
            let hi_b = old(bus).mem()[STACK_SPACE_START + wrap8(old(cpu).sp + 3) as int];
            *final(cpu) == (Cpu {
                p: Flags { expansion: true, break_flag: false, ..Flags::spec_from_bits(p_b) },
                sp: wrap8(old(cpu).sp + 3),
                pc: word(lo_b, hi_b),
                ..*old(cpu)
            })
        }),
{
    let p_b = cpu.pop(bus);
    let mut p = Flags::from_bits(p_b);
    p.expansion = true;
    p.break_flag = false;
    cpu.p = p;
    let lo_b = cpu.pop(bus);
    let hi_b = cpu.pop(bus);
    cpu.pc = make_word(lo_b, hi_b);
}

/// The processor and memory after a BRK: `PC+2` pushed high then low,
/// then P with B and E forced on; I set (and D cleared when the variant
/// does so); PC loaded from the IRQ/BRK vector out of the post-push
/// memory.
pub open spec fn spec_brk(cpu: Cpu, mem: Seq<u8>, clear_decimal: bool) -> (Cpu, Seq<u8>) {
    let ret = wrap16(cpu.pc + 2);
    let pushed = (Flags { break_flag: true, expansion: true, ..cpu.p }).spec_bits();
    let m = mem.update(STACK_SPACE_START + cpu.sp as int, hi(ret)).update(
        STACK_SPACE_START + wrap8(cpu.sp - 1) as int,
        lo(ret),
    ).update(STACK_SPACE_START + wrap8(cpu.sp - 2) as int, pushed);
    let c = Cpu {
        sp: wrap8(cpu.sp - 3),
        p: Flags {
            interrupt_disabled: true,
            decimal_mode: !clear_decimal && cpu.p.decimal_mode,
            ..cpu.p
        },
        pc: word(m[IRQ_VECTOR_LO as int], m[IRQ_VECTOR_HI as int]),
        ..cpu
    };
    (c, m)
}

/// Software interrupt: push `PC+2` and `P | B | E`, set I, and load PC
/// from `$FFFE`/`$FFFF`.  Decimal mode is left alone, as the NMOS
/// leaves it.
#[verifier::rlimit(100)]
pub fn brk<B: Bus>(cpu: &mut Cpu, bus: &mut B)
    requires
        old(bus).inv(),
    ensures
        final(bus).inv(),
        final(bus).dma() == old(bus).dma(),
        final(bus).ticks() == old(bus).ticks(),
        *final(cpu) == spec_brk(*old(cpu), old(bus).mem(), false).0,
        final(bus).mem() == spec_brk(*old(cpu), old(bus).mem(), false).1,
{
    let return_pc = wadd16(cpu.pc, 2);
    let r_hi = crate::arith::hi_byte(return_pc);
    let r_lo = crate::arith::lo_byte(return_pc);
    cpu.push(bus, r_hi);
    cpu.push(bus, r_lo);

    let mut pushed = cpu.p;
    pushed.break_flag = true;
    pushed.expansion = true;
    let bits = pushed.bits();
    cpu.push(bus, bits);

    cpu.p.set_interrupt_disabled(true);

    let lo_b = bus.read(IRQ_VECTOR_LO, AccessType::InterruptVectorRead);
    let hi_b = bus.read(IRQ_VECTOR_HI, AccessType::InterruptVectorRead);
    cpu.pc = make_word(lo_b, hi_b);
}

/// Clear the carry flag.
pub fn clc<B: Bus>(cpu: &mut Cpu, _bus: &mut B)
    ensures
        *final(_bus) == *old(_bus),
        *final(cpu) == (Cpu {
            p: Flags { carry: false, ..old(cpu).p },
            pc: wrap16(old(cpu).pc + 1),
            ..*old(cpu)
        }),
{
    cpu.p.set_carry(false);
    cpu.pc = wadd16(cpu.pc, 1);
}

/// Clear decimal mode.
pub fn cld<B: Bus>(cpu: &mut Cpu, _bus: &mut B)
    ensures
        *final(_bus) == *old(_bus),
        *final(cpu) == (Cpu {
            p: Flags { decimal_mode: false, ..old(cpu).p },
            pc: wrap16(old(cpu).pc + 1),
            ..*old(cpu)
        }),
{
    cpu.p.set_decimal_mode(false);
    cpu.pc = wadd16(cpu.pc, 1);
}

/// Clear the interrupt-disable flag, unmasking IRQs.
pub fn cli<B: Bus>(cpu: &mut Cpu, _bus: &mut B)
    ensures
        *final(_bus) == *old(_bus),
        *final(cpu) == (Cpu {
            p: Flags { interrupt_disabled: false, ..old(cpu).p },
            pc: wrap16(old(cpu).pc + 1),
            ..*old(cpu)
        }),
{
    cpu.p.set_interrupt_disabled(false);
    cpu.pc = wadd16(cpu.pc, 1);
}

/// Clear the overflow flag.
pub fn clv<B: Bus>(cpu: &mut Cpu, _bus: &mut B)
    ensures
        *final(_bus) == *old(_bus),
        *final(cpu) == (Cpu {
            p: Flags { overflow: false, ..old(cpu).p },
            pc: wrap16(old(cpu).pc + 1),
            ..*old(cpu)
        }),
{
    cpu.p.set_overflow(false);
    cpu.pc = wadd16(cpu.pc, 1);
}

/// Set the carry flag.
pub fn sec<B: Bus>(cpu: &mut Cpu, _bus: &mut B)
    ensures
        *final(_bus) == *old(_bus),
        *final(cpu) == (Cpu {
            p: Flags { carry: true, ..old(cpu).p },
            pc: wrap16(old(cpu).pc + 1),
            ..*old(cpu)
        }),
{
    cpu.p.set_carry(true);
    cpu.pc = wadd16(cpu.pc, 1);
}

/// Set decimal mode.
pub fn sed<B: Bus>(cpu: &mut Cpu, _bus: &mut B)
    ensures
        *final(_bus) == *old(_bus),
        *final(cpu) == (Cpu {
            p: Flags { decimal_mode: true, ..old(cpu).p },
            pc: wrap16(old(cpu).pc + 1),
            ..*old(cpu)
        }),
{
    cpu.p.set_decimal_mode(true);
    cpu.pc = wadd16(cpu.pc, 1);
}

/// Set the interrupt-disable flag, masking IRQs.
pub fn sei<B: Bus>(cpu: &mut Cpu, _bus: &mut B)
    ensures
        *final(_bus) == *old(_bus),
        *final(cpu) == (Cpu {
            p: Flags { interrupt_disabled: true, ..old(cpu).p },
            pc: wrap16(old(cpu).pc + 1),
            ..*old(cpu)
        }),
{
    cpu.p.set_interrupt_disabled(true);
    cpu.pc = wadd16(cpu.pc, 1);
}

/// No operation: advance PC by one.
pub fn nop<B: Bus>(cpu: &mut Cpu, _bus: &mut B)
    ensures
        *final(_bus) == *old(_bus),
        *final(cpu) == (Cpu { pc: wrap16(old(cpu).pc + 1), ..*old(cpu) }),
{
    cpu.pc = wadd16(cpu.pc, 1);
}

/// Undocumented LAS: A, X and SP all take `operand & SP`, with Z/N.
pub fn las<B: Bus>(cpu: &mut Cpu, bus: &mut B, mode: AddressingMode)
    requires
        old(bus).inv(),
    ensures
        final(bus).inv(),
        final(bus).dma() == old(bus).dma(),
        final(bus).ticks() == old(bus).ticks(),
        final(bus).mem() == old(bus).mem(),
        ({
            let r = operand(*old(cpu), old(bus).mem(), mode) & old(cpu).sp;
            *final(cpu) == (Cpu {
                a: r,
                x: r,
                sp: r,
                p: with_zn(old(cpu).p, r),
                pc: advanced(*old(cpu), mode),
                ..*old(cpu)
            })
        }),
{
    let addr = mode.fetch_address(cpu, bus);
    let val = bus.read(addr, AccessType::DataRead);
    let result = val & cpu.sp;
    cpu.a = result;
    cpu.x = result;
    cpu.sp = result;
    cpu.p.set_zero(result == 0);
    cpu.p.set_signed(result >= 0x80);
    cpu.pc = wadd16(cpu.pc, mode.bytes());
}

/// Undocumented LAX: load A and X together, with Z/N.
pub fn lax<B: Bus>(cpu: &mut Cpu, bus: &mut B, mode: AddressingMode)
    requires
        old(bus).inv(),
    ensures
        final(bus).inv(),
        final(bus).dma() == old(bus).dma(),
        final(bus).ticks() == old(bus).ticks(),
        final(bus).mem() == old(bus).mem(),
        ({
            let m = operand(*old(cpu), old(bus).mem(), mode);
            *final(cpu) == (Cpu {
                a: m,
                x: m,
                p: with_zn(old(cpu).p, m),
                pc: advanced(*old(cpu), mode),
                ..*old(cpu)
            })
        }),
{
    let addr = mode.fetch_address(cpu, bus);
    let val = bus.read(addr, AccessType::DataRead);
    cpu.a = val;
    cpu.x = val;
    cpu.p.set_zero(val == 0);
    cpu.p.set_signed(val >= 0x80);
    cpu.pc = wadd16(cpu.pc, mode.bytes());
}

/// Undocumented SAX: store `A & X`; no flags change.
pub fn sax<B: Bus>(cpu: &mut Cpu, bus: &mut B, mode: AddressingMode)
    requires
        old(bus).inv(),
    ensures
        final(bus).inv(),
        final(bus).dma() == old(bus).dma(),
        final(bus).ticks() == old(bus).ticks(),
        final(bus).mem() == old(bus).mem().update(
            mode.spec_addr(*old(cpu), old(bus).mem()) as int,
            old(cpu).a & old(cpu).x,
        ),
        *final(cpu) == (Cpu { pc: advanced(*old(cpu), mode), ..*old(cpu) }),
{
    let addr = mode.fetch_address(cpu, bus);
    bus.write(addr, cpu.a & cpu.x, AccessType::DataWrite);
    cpu.pc = wadd16(cpu.pc, mode.bytes());
}

/// Undocumented SHA: store `A & X & (high byte of address + 1)`.
pub fn sha<B: Bus>(cpu: &mut Cpu, bus: &mut B, mode: AddressingMode)
    requires
        old(bus).inv(),
    ensures
        final(bus).inv(),
        final(bus).dma() == old(bus).dma(),
        final(bus).ticks() == old(bus).ticks(),
        ({
            let addr = mode.spec_addr(*old(cpu), old(bus).mem());
            final(bus).mem() == old(bus).mem().update(
                addr as int,
                wrap8(hi(addr) + 1) & (old(cpu).x & old(cpu).a),
            )
        }),
        *final(cpu) == (Cpu { pc: advanced(*old(cpu), mode), ..*old(cpu) }),
{
    let addr = mode.fetch_address(cpu, bus);
    let val = wadd8(crate::arith::hi_byte(addr), 1);
    bus.write(addr, val & (cpu.x & cpu.a), AccessType::DataWrite);
    cpu.pc = wadd16(cpu.pc, mode.bytes());
}

/// Undocumented SHX: store `X & (high byte of address + 1)`.
pub fn shx<B: Bus>(cpu: &mut Cpu, bus: &mut B, mode: AddressingMode)
    requires
        old(bus).inv(),
    ensures
        final(bus).inv(),
        final(bus).dma() == old(bus).dma(),
        final(bus).ticks() == old(bus).ticks(),
        ({
            let addr = mode.spec_addr(*old(cpu), old(bus).mem());
            final(bus).mem() == old(bus).mem().update(
                addr as int,
                wrap8(hi(addr) + 1) & old(cpu).x,
            )
        }),
        *final(cpu) == (Cpu { pc: advanced(*old(cpu), mode), ..*old(cpu) }),
{
    let addr = mode.fetch_address(cpu, bus);
    let val = wadd8(crate::arith::hi_byte(addr), 1);
    bus.write(addr, val & cpu.x, AccessType::DataWrite);
    cpu.pc = wadd16(cpu.pc, mode.bytes());
}

/// Undocumented SHY: store `Y & (high byte of address + 1)`.
pub fn shy<B: Bus>(cpu: &mut Cpu, bus: &mut B, mode: AddressingMode)
    requires
        old(bus).inv(),
    ensures
        final(bus).inv(),
        final(bus).dma() == old(bus).dma(),
        final(bus).ticks() == old(bus).ticks(),
        ({
            let addr = mode.spec_addr(*old(cpu), old(bus).mem());
            final(bus).mem() == old(bus).mem().update(
                addr as int,
                wrap8(hi(addr) + 1) & old(cpu).y,
            )
        }),
        *final(cpu) == (Cpu { pc: advanced(*old(cpu), mode), ..*old(cpu) }),
{
    let addr = mode.fetch_address(cpu, bus);
    let val = wadd8(crate::arith::hi_byte(addr), 1);
    bus.write(addr, val & cpu.y, AccessType::DataWrite);
    cpu.pc = wadd16(cpu.pc, mode.bytes());
}

/// Undocumented SHS: SP takes `A & X`, and `SP & (high byte of address
/// + 1)` is stored.
pub fn shs<B: Bus>(cpu: &mut Cpu, bus: &mut B, mode: AddressingMode)
    requires
        old(bus).inv(),
    ensures
        final(bus).inv(),
        final(bus).dma() == old(bus).dma(),
        final(bus).ticks() == old(bus).ticks(),
        ({
            let addr = mode.spec_addr(*old(cpu), old(bus).mem());
            final(bus).mem() == old(bus).mem().update(
                addr as int,
                (old(cpu).x & old(cpu).a) & wrap8(hi(addr) + 1),
            )
        }),
        *final(cpu) == (Cpu {
            sp: old(cpu).x & old(cpu).a,
            pc: advanced(*old(cpu), mode),
            ..*old(cpu)
        }),
{
    let addr = mode.fetch_address(cpu, bus);
    cpu.sp = cpu.x & cpu.a;
    let masked = cpu.sp & wadd8(crate::arith::hi_byte(addr), 1);
    bus.write(addr, masked, AccessType::DataWrite);
    cpu.pc = wadd16(cpu.pc, mode.bytes());
}

/// Undocumented ANC: AND into A with Z/N, and C mirrors N.
pub fn anc<B: Bus>(cpu: &mut Cpu, bus: &mut B, mode: AddressingMode)
    requires
        old(bus).inv(),
    ensures
        final(bus).inv(),
        final(bus).dma() == old(bus).dma(),
        final(bus).ticks() == old(bus).ticks(),
        final(bus).mem() == old(bus).mem(),
        ({
            let r = operand(*old(cpu), old(bus).mem(), mode) & old(cpu).a;
            *final(cpu) == (Cpu {
                a: r,
                p: Flags { carry: r >= 0x80, zero: r == 0, sign: r >= 0x80, ..old(cpu).p },
                pc: advanced(*old(cpu), mode),
                ..*old(cpu)
            })
        }),
{
    let addr = mode.fetch_address(cpu, bus);
    let val = bus.read(addr, AccessType::DataRead);
    let result = val & cpu.a;
    cpu.a = result;
    cpu.p.set_zero(result == 0);
    cpu.p.set_signed(result >= 0x80);
    cpu.p.set_carry(result >= 0x80);
    cpu.pc = wadd16(cpu.pc, mode.bytes());
}

/// The accumulator and flags the undocumented ARR leaves: the operand
/// is ANDed into A and rotated right through the carry; C and V come
/// from bits of the intermediate, with a BCD fix-up when D is set.
pub open spec fn spec_arr(cpu: Cpu, m: u8) -> Cpu {
    let anded = cpu.a & m;
    let rotated = spec_ror(anded, cpu.p.carry).0;
    if cpu.p.decimal_mode {
        let fixed_lo = if rotated as int % 16 + (rotated as int % 16) % 2 > 5 {
            wrap8(rotated + 6)
        } else {
            rotated
        };
        let fixed = if rotated >= 0x50 {
            wrap8(fixed_lo + 0x60)
        } else {
            fixed_lo
        };
        Cpu {
            a: fixed,
            p: Flags {
                carry: rotated >= 0x50,
                overflow: bit_n(rotated, 6) != bit_n(rotated, 5),
                zero: fixed == 0,
                sign: fixed >= 0x80,
                ..cpu.p
            },
            ..cpu
        }
    } else {
        Cpu {
            a: rotated,
            p: Flags {
                carry: bit_n(anded, 6),
                overflow: bit_n(rotated, 5) != bit_n(rotated, 6),
                zero: rotated == 0,
                sign: rotated >= 0x80,
                ..cpu.p
            },
            ..cpu
        }
    }
}

/// Undocumented ARR: AND then rotate right, with its own carry and
/// overflow rules and a BCD correction in decimal mode.
#[verifier::rlimit(100)]
pub fn arr<B: Bus>(cpu: &mut Cpu, bus: &mut B, mode: AddressingMode)
    requires
        old(bus).inv(),
    ensures
        final(bus).inv(),
        final(bus).dma() == old(bus).dma(),
        final(bus).ticks() == old(bus).ticks(),
        final(bus).mem() == old(bus).mem(),
        *final(cpu) == (Cpu {
            pc: advanced(*old(cpu), mode),
            ..spec_arr(*old(cpu), operand(*old(cpu), old(bus).mem(), mode))
        }),
{
    let addr = mode.fetch_address(cpu, bus);
    let val = bus.read(addr, AccessType::DataRead);
    let anded = cpu.a & val;

    let carry_in: u8 = if cpu.p.carry {
        1
    } else {
        0
    };
    let rotated: u8 = anded / 2 + 0x80 * carry_in;

    let result: u8;
    if cpu.p.decimal_mode {
        let low: u8 = rotated % 16;
        cpu.p.set_carry(rotated >= 0x50);
        cpu.p.set_overflow(crate::arith::test_bit(rotated, 6) != crate::arith::test_bit(rotated, 5));
        let fixed_lo: u8 = if low + low % 2 > 5 {
            wadd8(rotated, 6)
        } else {
            rotated
        };
        result = if rotated >= 0x50 {
            wadd8(fixed_lo, 0x60)
        } else {
            fixed_lo
        };
    } else {
        cpu.p.set_carry(crate::arith::test_bit(anded, 6));
        cpu.p.set_overflow(crate::arith::test_bit(rotated, 5) != crate::arith::test_bit(rotated, 6));
        result = rotated;
    }

    cpu.a = result;
    cpu.p.set_zero(result == 0);
    cpu.p.set_signed(result >= 0x80);
    cpu.pc = wadd16(cpu.pc, mode.bytes());
}

/// Undocumented ASR: AND into A, then shift right; C from the dropped
/// bit, N necessarily clear.
pub fn asr<B: Bus>(cpu: &mut Cpu, bus: &mut B, mode: AddressingMode)
    requires
        old(bus).inv(),
    ensures
        final(bus).inv(),
        final(bus).dma() == old(bus).dma(),
        final(bus).ticks() == old(bus).ticks(),
        final(bus).mem() == old(bus).mem(),
        ({
            let anded = old(cpu).a & operand(*old(cpu), old(bus).mem(), mode);
            *final(cpu) == (Cpu {
                a: anded / 2,
                p: Flags {
                    carry: anded % 2 == 1,
                    zero: anded / 2 == 0,
                    sign: false,
                    ..old(cpu).p
                },
                pc: advanced(*old(cpu), mode),
                ..*old(cpu)
            })
        }),
{
    let addr = mode.fetch_address(cpu, bus);
    let val = bus.read(addr, AccessType::DataRead);
    let result = cpu.a & val;
    cpu.p.set_carry(result % 2 == 1);
    cpu.a = result / 2;
    cpu.p.set_zero(cpu.a == 0);
    cpu.p.set_signed(false);
    cpu.pc = wadd16(cpu.pc, mode.bytes());
}

/// Undocumented DCP: decrement the addressed byte, then compare A with
/// it.
pub fn dcp<B: Bus>(cpu: &mut Cpu, bus: &mut B, mode: AddressingMode)
    requires
        old(bus).inv(),
    ensures
        final(bus).inv(),
        final(bus).dma() == old(bus).dma(),
        final(bus).ticks() == old(bus).ticks(),
        ({
            let r = wrap8(operand(*old(cpu), old(bus).mem(), mode) - 1);
            final(bus).mem() == old(bus).mem().update(
                mode.spec_addr(*old(cpu), old(bus).mem()) as int,
                r,
            ) && *final(cpu) == (Cpu {
                p: spec_compare(old(cpu).p, old(cpu).a, r),
                pc: advanced(*old(cpu), mode),
                ..*old(cpu)
            })
        }),
{
    let addr = mode.fetch_address(cpu, bus);
    let val = bus.read(addr, AccessType::DataRead);
    let decremented = wsub8(val, 1);
    bus.write(addr, decremented, AccessType::DataWrite);
    let result = wsub8(cpu.a, decremented);
    cpu.p.set_zero(result == 0);
    cpu.p.set_signed(result >= 0x80);
    cpu.p.set_carry(cpu.a >= decremented);
    cpu.pc = wadd16(cpu.pc, mode.bytes());
}

/// Undocumented ISC: increment the addressed byte, then subtract it
/// with borrow from A.
pub fn isc<B: Bus>(cpu: &mut Cpu, bus: &mut B, mode: AddressingMode)
    requires
        old(bus).inv(),
    ensures
        final(bus).inv(),
        final(bus).dma() == old(bus).dma(),
        final(bus).ticks() == old(bus).ticks(),
        ({
            let r = wrap8(operand(*old(cpu), old(bus).mem(), mode) + 1);
            final(bus).mem() == old(bus).mem().update(
                mode.spec_addr(*old(cpu), old(bus).mem()) as int,
                r,
            ) && *final(cpu) == (Cpu {
                pc: advanced(*old(cpu), mode),
                ..spec_sub_with_borrow(*old(cpu), r)
            })
        }),
{
    let addr = mode.fetch_address(cpu, bus);
    let value = wadd8(bus.read(addr, AccessType::DataRead), 1);
    bus.write(addr, value, AccessType::DataWrite);
    sub_with_borrow(cpu, value);
    cpu.pc = wadd16(cpu.pc, mode.bytes());
}

/// Undocumented RLA: rotate the addressed byte left, then AND it into
/// A with Z/N from the accumulator.
pub fn rla<B: Bus>(cpu: &mut Cpu, bus: &mut B, mode: AddressingMode)
    requires
        old(bus).inv(),
    ensures
        final(bus).inv(),
        final(bus).dma() == old(bus).dma(),
        final(bus).ticks() == old(bus).ticks(),
        ({
            let m = operand(*old(cpu), old(bus).mem(), mode);
            let r = spec_rol(m, old(cpu).p.carry);
            let a2 = old(cpu).a & r.0;
            final(bus).mem() == old(bus).mem().update(
                mode.spec_addr(*old(cpu), old(bus).mem()) as int,
                r.0,
            ) && *final(cpu) == (Cpu {
                a: a2,
                p: Flags { carry: r.1, zero: a2 == 0, sign: a2 >= 0x80, ..old(cpu).p },
                pc: advanced(*old(cpu), mode),
                ..*old(cpu)
            })
        }),
{
    let addr = mode.fetch_address(cpu, bus);
    let val = bus.read(addr, AccessType::DataRead);
    let rotated = rotate_left(cpu, val);
    bus.write(addr, rotated, AccessType::DataWrite);
    cpu.a = cpu.a & rotated;
    cpu.p.set_zero(cpu.a == 0);
    cpu.p.set_signed(cpu.a >= 0x80);
    cpu.pc = wadd16(cpu.pc, mode.bytes());
}

/// Undocumented RRA: rotate the addressed byte right, then add it with
/// the fresh carry into A.
pub fn rra<B: Bus>(cpu: &mut Cpu, bus: &mut B, mode: AddressingMode)
    requires
        old(bus).inv(),
    ensures
        final(bus).inv(),
        final(bus).dma() == old(bus).dma(),
        final(bus).ticks() == old(bus).ticks(),
        ({
            let m = operand(*old(cpu), old(bus).mem(), mode);
            let r = spec_ror(m, old(cpu).p.carry);
            let mid = Cpu { p: rotate_flags(old(cpu).p, r.0, r.1), ..*old(cpu) };
            final(bus).mem() == old(bus).mem().update(
                mode.spec_addr(*old(cpu), old(bus).mem()) as int,
                r.0,
            ) && *final(cpu) == (Cpu {
                pc: advanced(*old(cpu), mode),
                ..spec_add_with_carry(mid, r.0)
            })
        }),
{
    let addr = mode.fetch_address(cpu, bus);
    let val = bus.read(addr, AccessType::DataRead);
    let rotated = rotate_right(cpu, val);
    bus.write(addr, rotated, AccessType::DataWrite);
    add_with_carry(cpu, rotated);
    cpu.pc = wadd16(cpu.pc, mode.bytes());
}

/// Undocumented SBX: X takes `(A & X) - operand` with compare-style
/// carry and Z/N.
pub fn sbx<B: Bus>(cpu: &mut Cpu, bus: &mut B, mode: AddressingMode)
    requires
        old(bus).inv(),
    ensures
        final(bus).inv(),
        final(bus).dma() == old(bus).dma(),
        final(bus).ticks() == old(bus).ticks(),
        final(bus).mem() == old(bus).mem(),
        ({
            let m = operand(*old(cpu), old(bus).mem(), mode);
            let masked = old(cpu).a & old(cpu).x;
            let r = wrap8(masked - m);
            *final(cpu) == (Cpu {
                x: r,
                p: Flags { carry: masked >= m, zero: r == 0, sign: r >= 0x80, ..old(cpu).p },
                pc: advanced(*old(cpu), mode),
                ..*old(cpu)
            })
        }),
{
    let addr = mode.fetch_address(cpu, bus);
    let val = bus.read(addr, AccessType::DataRead);
    let masked = cpu.a & cpu.x;
    let result = wsub8(masked, val);
    cpu.x = result;
    cpu.p.set_carry(masked >= val);
    cpu.p.set_zero(result == 0);
    cpu.p.set_signed(result >= 0x80);
    cpu.pc = wadd16(cpu.pc, mode.bytes());
}

/// Undocumented SLO: rotate the addressed byte left, then OR it into A
/// with Z/N from the accumulator.
pub fn slo<B: Bus>(cpu: &mut Cpu, bus: &mut B, mode: AddressingMode)
    requires
        old(bus).inv(),
    ensures
        final(bus).inv(),
        final(bus).dma() == old(bus).dma(),
        final(bus).ticks() == old(bus).ticks(),
        ({
            let m = operand(*old(cpu), old(bus).mem(), mode);
            let r = spec_rol(m, old(cpu).p.carry);
            let a2 = old(cpu).a | r.0;
            final(bus).mem() == old(bus).mem().update(
                mode.spec_addr(*old(cpu), old(bus).mem()) as int,
                r.0,
            ) && *final(cpu) == (Cpu {
                a: a2,
                p: Flags { carry: r.1, zero: a2 == 0, sign: a2 >= 0x80, ..old(cpu).p },
                pc: advanced(*old(cpu), mode),
                ..*old(cpu)
            })
        }),
{
    let addr = mode.fetch_address(cpu, bus);
    let val = bus.read(addr, AccessType::DataRead);
    let result = rotate_left(cpu, val);
    bus.write(addr, result, AccessType::DataWrite);
    cpu.a = cpu.a | result;
    cpu.p.set_zero(cpu.a == 0);
    cpu.p.set_signed(cpu.a >= 0x80);
    cpu.pc = wadd16(cpu.pc, mode.bytes());
}

/// Undocumented SRE: rotate the addressed byte right, then XOR it into
/// A with Z/N from the accumulator.
pub fn sre<B: Bus>(cpu: &mut Cpu, bus: &mut B, mode: AddressingMode)
    requires
        old(bus).inv(),
    ensures
        final(bus).inv(),
        final(bus).dma() == old(bus).dma(),
        final(bus).ticks() == old(bus).ticks(),
        ({
            let m = operand(*old(cpu), old(bus).mem(), mode);
            let r = spec_ror(m, old(cpu).p.carry);
            let a2 = old(cpu).a ^ r.0;
            final(bus).mem() == old(bus).mem().update(
                mode.spec_addr(*old(cpu), old(bus).mem()) as int,
                r.0,
            ) && *final(cpu) == (Cpu {
                a: a2,
                p: Flags { carry: r.1, zero: a2 == 0, sign: a2 >= 0x80, ..old(cpu).p },
                pc: advanced(*old(cpu), mode),
                ..*old(cpu)
            })
        }),
{
    let addr = mode.fetch_address(cpu, bus);
    let val = bus.read(addr, AccessType::DataRead);
    let result = rotate_right(cpu, val);
    bus.write(addr, result, AccessType::DataWrite);
    cpu.a = cpu.a ^ result;
    cpu.p.set_zero(cpu.a == 0);
    cpu.p.set_signed(cpu.a >= 0x80);
    cpu.pc = wadd16(cpu.pc, mode.bytes());
}

/// Undocumented XAA, whose real behaviour is magic-byte dependent and
/// unstable: treated as a single-byte no-operation.
pub fn xaa<B: Bus>(cpu: &mut Cpu, bus: &mut B, mode: AddressingMode)
    requires
        old(bus).inv(),
    ensures
        final(bus).inv(),
        final(bus).dma() == old(bus).dma(),
        final(bus).ticks() == old(bus).ticks(),
        final(bus).mem() == old(bus).mem(),
        *final(cpu) == (Cpu { pc: wrap16(old(cpu).pc + 1), ..*old(cpu) }),
{
    illegal_a(cpu, bus);
}

/// JAM/KIL: halt the processor; only a reset revives it.
pub fn jam<B: Bus>(cpu: &mut Cpu, _bus: &mut B)
    ensures
        *final(_bus) == *old(_bus),
        *final(cpu) == (Cpu { run_state: RunState::Halted, ..*old(cpu) }),
{
    cpu.run_state = RunState::Halted;
}

/// A vacant slot treated as a no-operation of the mode's length.
pub fn illegal<B: Bus>(cpu: &mut Cpu, _bus: &mut B, mode: AddressingMode)
    ensures
        *final(_bus) == *old(_bus),
        *final(cpu) == (Cpu { pc: advanced(*old(cpu), mode), ..*old(cpu) }),
{
    cpu.pc = wadd16(cpu.pc, mode.bytes());
}

/// A vacant slot treated as a single-byte no-operation.
pub fn illegal_a<B: Bus>(cpu: &mut Cpu, _bus: &mut B)
    ensures
        *final(_bus) == *old(_bus),
        *final(cpu) == (Cpu { pc: wrap16(old(cpu).pc + 1), ..*old(cpu) }),
{
    cpu.pc = wadd16(cpu.pc, 1);
}

/// The compare flags read exactly as documented: C set iff the
/// register is at least the operand, Z iff they are equal, N from bit 7
/// of the wrapped difference.
pub proof fn lemma_compare_flags(p: Flags, reg: u8, m: u8)
    ensures
        spec_compare(p, reg, m).carry == (reg >= m),
        spec_compare(p, reg, m).zero == (reg == m),
        spec_compare(p, reg, m).sign == (wrap8(reg - m) >= 0x80),
{
}

/// ASL followed by LSR restores any byte whose high bit is clear (the
/// shift out of bit 7 loses information only there).
pub proof fn lemma_asl_lsr_round_trip(v: u8)
    requires
        v < 0x80,
    ensures
        spec_lsr(spec_asl(v)) == v,
{
}

/// What a branch does to PC and the cycle counter: not taken, PC
/// advances by exactly two and no cycles are charged; taken, PC moves
/// to the displaced target and one extra cycle is charged, two when the
/// target sits on another page than the fall-through address.
pub proof fn lemma_branch_behaviour(cpu: Cpu, mem: Seq<u8>, cond: bool)
    requires
        cpu.cycles + 2 <= u64::MAX,
    ensures
        !cond ==> spec_branch(cpu, mem, cond) == (Cpu { pc: wrap16(cpu.pc + 2), ..cpu }),
        !cond ==> spec_branch(cpu, mem, cond).cycles == cpu.cycles,
        cond ==> ({
            let base = wrap16(cpu.pc + 2);
            let target = wrap16(base + signed8(mem[wrap16(cpu.pc + 1) as int]));
            &&& spec_branch(cpu, mem, cond).pc == target
            &&& spec_branch(cpu, mem, cond).cycles == cpu.cycles + (if page(base) != page(target) {
                2int
            } else {
                1int
            })
        }),
{
}

/// JSR to a target followed immediately by RTS returns to the
/// instruction after the JSR, with the stack pointer restored and the
/// return address sitting just above the restored pointer.
pub proof fn lemma_jsr_rts_round_trip(cpu: Cpu, mem: Seq<u8>, target: u16)
    requires
        mem.len() == 0x10000,
    ensures
        ({
            // What JSR leaves behind: the address of its own last byte
            // pushed high then low, SP down two, PC at the target.
            let ret = wrap16(cpu.pc + 2);
            let m1 = mem.update(STACK_SPACE_START + cpu.sp as int, hi(ret)).update(
                STACK_SPACE_START + wrap8(cpu.sp - 1) as int,
                lo(ret),
            );
            let sp1 = wrap8(cpu.sp - 2);
            // What RTS then computes: the pulled word plus one.
            let pulled_lo = m1[STACK_SPACE_START + wrap8(sp1 + 1) as int];
            let pulled_hi = m1[STACK_SPACE_START + wrap8(sp1 + 2) as int];
            &&& wrap16(word(pulled_lo, pulled_hi) + 1) == wrap16(cpu.pc + 3)
            &&& wrap8(sp1 + 2) == cpu.sp
        }),
{
    let ret = wrap16(cpu.pc + 2);
    crate::arith::lemma_wrap8_shift(cpu.sp - 2, 1);
    crate::arith::lemma_wrap8_shift(cpu.sp - 2, 2);
    assert(wrap8(cpu.sp as int) == cpu.sp);
    assert(wrap8(cpu.sp - 2 + 1) == wrap8(cpu.sp - 1));
    crate::arith::lemma_word_lo_hi(ret);
    crate::arith::lemma_wrap16_chain(wrap16(cpu.pc + 1));
    crate::arith::lemma_wrap16_chain(cpu.pc);
    assert(wrap16(ret + 1) == wrap16(cpu.pc + 3)) by {
        crate::arith::lemma_wrap16_shift(cpu.pc + 2, 1);
    }
}

/// The canonical MOS 6502 slots for opcodes 0x00 through 0x3F.
pub open spec fn spec_mos_entry_q0(opcode: u8) -> Instruction {
    if opcode == 0x00 {
        Instruction { cycles: 7, op: Op::Brk }
    } else if opcode == 0x01 {
        Instruction { cycles: 6, op: Op::Ora(AddressingMode::ZeroPageXIndirect) }
    } else if opcode == 0x02 {
        Instruction { cycles: 0, op: Op::Jam }
    } else if opcode == 0x03 {
        Instruction { cycles: 8, op: Op::Slo(AddressingMode::ZeroPageXIndirect) }
    } else if opcode == 0x04 {
        Instruction { cycles: 3, op: Op::Illegal(AddressingMode::ZeroPage) }
    } else if opcode == 0x05 {
        Instruction { cycles: 3, op: Op::Ora(AddressingMode::ZeroPage) }
    } else if opcode == 0x06 {
        Instruction { cycles: 5, op: Op::Asl(AddressingMode::ZeroPage) }
    } else if opcode == 0x07 {
        Instruction { cycles: 5, op: Op::Slo(AddressingMode::ZeroPage) }
    } else if opcode == 0x08 {
        Instruction { cycles: 3, op: Op::Php }
    } else if opcode == 0x09 {
        Instruction { cycles: 2, op: Op::Ora(AddressingMode::Immediate) }
    } else if opcode == 0x0A {
        Instruction { cycles: 2, op: Op::AslA }
    } else if opcode == 0x0B {
        Instruction { cycles: 2, op: Op::Anc(AddressingMode::Immediate) }
    } else if opcode == 0x0C {
        Instruction { cycles: 4, op: Op::Illegal(AddressingMode::Absolute) }
    } else if opcode == 0x0D {
        Instruction { cycles: 4, op: Op::Ora(AddressingMode::Absolute) }
    } else if opcode == 0x0E {
        Instruction { cycles: 6, op: Op::Asl(AddressingMode::Absolute) }
    } else if opcode == 0x0F {
        Instruction { cycles: 6, op: Op::Slo(AddressingMode::Absolute) }
    } else if opcode == 0x10 {
        Instruction { cycles: 2, op: Op::Bpl }
    } else if opcode == 0x11 {
        Instruction { cycles: 5, op: Op::Ora(AddressingMode::ZeroPageIndirectY) }
    } else if opcode == 0x12 {
        Instruction { cycles: 0, op: Op::Jam }
    } else if opcode == 0x13 {
        Instruction { cycles: 8, op: Op::Slo(AddressingMode::ZeroPageIndirectY) }
    } else if opcode == 0x14 {
        Instruction { cycles: 4, op: Op::Illegal(AddressingMode::ZeroPageX) }
    } else if opcode == 0x15 {
        Instruction { cycles: 4, op: Op::Ora(AddressingMode::ZeroPageX) }
    } else if opcode == 0x16 {
        Instruction { cycles: 6, op: Op::Asl(AddressingMode::ZeroPageX) }
    } else if opcode == 0x17 {
        Instruction { cycles: 6, op: Op::Slo(AddressingMode::ZeroPageX) }
    } else if opcode == 0x18 {
        Instruction { cycles: 2, op: Op::Clc }
    } else if opcode == 0x19 {
        Instruction { cycles: 4, op: Op::Ora(AddressingMode::AbsoluteY) }
    } else if opcode == 0x1A {
        Instruction { cycles: 2, op: Op::IllegalA }
    } else if opcode == 0x1B {
        Instruction { cycles: 7, op: Op::Slo(AddressingMode::AbsoluteY) }
    } else if opcode == 0x1C {
        Instruction { cycles: 4, op: Op::Illegal(AddressingMode::AbsoluteX) }
    } else if opcode == 0x1D {
        Instruction { cycles: 4, op: Op::Ora(AddressingMode::AbsoluteX) }
    } else if opcode == 0x1E {
        Instruction { cycles: 7, op: Op::Asl(AddressingMode::AbsoluteX) }
    } else if opcode == 0x1F {
        Instruction { cycles: 7, op: Op::Slo(AddressingMode::AbsoluteX) }
    } else if opcode == 0x20 {
        Instruction { cycles: 6, op: Op::Jsr(AddressingMode::Absolute) }
    } else if opcode == 0x21 {
        Instruction { cycles: 6, op: Op::And(AddressingMode::ZeroPageXIndirect) }
    } else if opcode == 0x22 {
        Instruction { cycles: 0, op: Op::Jam }
    } else if opcode == 0x23 {
        Instruction { cycles: 8, op: Op::Rla(AddressingMode::ZeroPageXIndirect) }
    } else if opcode == 0x24 {
        Instruction { cycles: 3, op: Op::Bit(AddressingMode::ZeroPage) }
    } else if opcode == 0x25 {
        Instruction { cycles: 3, op: Op::And(AddressingMode::ZeroPage) }
    } else if opcode == 0x26 {
        Instruction { cycles: 5, op: Op::Rol(AddressingMode::ZeroPage) }
    } else if opcode == 0x27 {
        Instruction { cycles: 5, op: Op::Rla(AddressingMode::ZeroPage) }
    } else if opcode == 0x28 {
        Instruction { cycles: 4, op: Op::Plp }
    } else if opcode == 0x29 {
        Instruction { cycles: 2, op: Op::And(AddressingMode::Immediate) }
    } else if opcode == 0x2A {
        Instruction { cycles: 2, op: Op::RolA }
    } else if opcode == 0x2B {
        Instruction { cycles: 2, op: Op::Anc(AddressingMode::Immediate) }
    } else if opcode == 0x2C {
        Instruction { cycles: 4, op: Op::Bit(AddressingMode::Absolute) }
    } else if opcode == 0x2D {
        Instruction { cycles: 4, op: Op::And(AddressingMode::Absolute) }
    } else if opcode == 0x2E {
        Instruction { cycles: 6, op: Op::Rol(AddressingMode::Absolute) }
    } else if opcode == 0x2F {
        Instruction { cycles: 6, op: Op::Rla(AddressingMode::Absolute) }
    } else if opcode == 0x30 {
        Instruction { cycles: 2, op: Op::Bmi }
    } else if opcode == 0x31 {
        Instruction { cycles: 5, op: Op::And(AddressingMode::ZeroPageIndirectY) }
    } else if opcode == 0x32 {
        Instruction { cycles: 0, op: Op::Jam }
    } else if opcode == 0x33 {
        Instruction { cycles: 8, op: Op::Rla(AddressingMode::ZeroPageIndirectY) }
    } else if opcode == 0x34 {
        Instruction { cycles: 4, op: Op::Illegal(AddressingMode::ZeroPageX) }
    } else if opcode == 0x35 {
        Instruction { cycles: 4, op: Op::And(AddressingMode::ZeroPageX) }
    } else if opcode == 0x36 {
        Instruction { cycles: 6, op: Op::Rol(AddressingMode::ZeroPageX) }
    } else if opcode == 0x37 {
        Instruction { cycles: 6, op: Op::Rla(AddressingMode::ZeroPageX) }
    } else if opcode == 0x38 {
        Instruction { cycles: 2, op: Op::Sec }
    } else if opcode == 0x39 {
        Instruction { cycles: 4, op: Op::And(AddressingMode::AbsoluteY) }
    } else if opcode == 0x3A {
        Instruction { cycles: 2, op: Op::IllegalA }
    } else if opcode == 0x3B {
        Instruction { cycles: 7, op: Op::Rla(AddressingMode::AbsoluteY) }
    } else if opcode == 0x3C {
        Instruction { cycles: 4, op: Op::Illegal(AddressingMode::AbsoluteX) }
    } else if opcode == 0x3D {
        Instruction { cycles: 4, op: Op::And(AddressingMode::AbsoluteX) }
    } else if opcode == 0x3E {
        Instruction { cycles: 7, op: Op::Rol(AddressingMode::AbsoluteX) }
    } else {
        Instruction { cycles: 7, op: Op::Rla(AddressingMode::AbsoluteX) }
    }
}

/// Build the canonical MOS 6502 slot for one of opcodes 0x00 through 0x3F.
fn mos_entry_q0(opcode: u8) -> (r: Instruction)
    requires
        0x00 <= opcode <= 0x3F,
    ensures
        r == spec_mos_entry_q0(opcode),
{
    match opcode {
        0x00 => Instruction { cycles: 7, op: Op::Brk },
        0x01 => Instruction { cycles: 6, op: Op::Ora(AddressingMode::ZeroPageXIndirect) },
        0x02 => Instruction { cycles: 0, op: Op::Jam },
        0x03 => Instruction { cycles: 8, op: Op::Slo(AddressingMode::ZeroPageXIndirect) },
        0x04 => Instruction { cycles: 3, op: Op::Illegal(AddressingMode::ZeroPage) },
        0x05 => Instruction { cycles: 3, op: Op::Ora(AddressingMode::ZeroPage) },
        0x06 => Instruction { cycles: 5, op: Op::Asl(AddressingMode::ZeroPage) },
        0x07 => Instruction { cycles: 5, op: Op::Slo(AddressingMode::ZeroPage) },
        0x08 => Instruction { cycles: 3, op: Op::Php },
        0x09 => Instruction { cycles: 2, op: Op::Ora(AddressingMode::Immediate) },
        0x0A => Instruction { cycles: 2, op: Op::AslA },
        0x0B => Instruction { cycles: 2, op: Op::Anc(AddressingMode::Immediate) },
        0x0C => Instruction { cycles: 4, op: Op::Illegal(AddressingMode::Absolute) },
        0x0D => Instruction { cycles: 4, op: Op::Ora(AddressingMode::Absolute) },
        0x0E => Instruction { cycles: 6, op: Op::Asl(AddressingMode::Absolute) },
        0x0F => Instruction { cycles: 6, op: Op::Slo(AddressingMode::Absolute) },
        0x10 => Instruction { cycles: 2, op: Op::Bpl },
        0x11 => Instruction { cycles: 5, op: Op::Ora(AddressingMode::ZeroPageIndirectY) },
        0x12 => Instruction { cycles: 0, op: Op::Jam },
        0x13 => Instruction { cycles: 8, op: Op::Slo(AddressingMode::ZeroPageIndirectY) },
        0x14 => Instruction { cycles: 4, op: Op::Illegal(AddressingMode::ZeroPageX) },
        0x15 => Instruction { cycles: 4, op: Op::Ora(AddressingMode::ZeroPageX) },
        0x16 => Instruction { cycles: 6, op: Op::Asl(AddressingMode::ZeroPageX) },
        0x17 => Instruction { cycles: 6, op: Op::Slo(AddressingMode::ZeroPageX) },
        0x18 => Instruction { cycles: 2, op: Op::Clc },
        0x19 => Instruction { cycles: 4, op: Op::Ora(AddressingMode::AbsoluteY) },
        0x1A => Instruction { cycles: 2, op: Op::IllegalA },
        0x1B => Instruction { cycles: 7, op: Op::Slo(AddressingMode::AbsoluteY) },
        0x1C => Instruction { cycles: 4, op: Op::Illegal(AddressingMode::AbsoluteX) },
        0x1D => Instruction { cycles: 4, op: Op::Ora(AddressingMode::AbsoluteX) },
        0x1E => Instruction { cycles: 7, op: Op::Asl(AddressingMode::AbsoluteX) },
        0x1F => Instruction { cycles: 7, op: Op::Slo(AddressingMode::AbsoluteX) },
        0x20 => Instruction { cycles: 6, op: Op::Jsr(AddressingMode::Absolute) },
        0x21 => Instruction { cycles: 6, op: Op::And(AddressingMode::ZeroPageXIndirect) },
        0x22 => Instruction { cycles: 0, op: Op::Jam },
        0x23 => Instruction { cycles: 8, op: Op::Rla(AddressingMode::ZeroPageXIndirect) },
        0x24 => Instruction { cycles: 3, op: Op::Bit(AddressingMode::ZeroPage) },
        0x25 => Instruction { cycles: 3, op: Op::And(AddressingMode::ZeroPage) },
        0x26 => Instruction { cycles: 5, op: Op::Rol(AddressingMode::ZeroPage) },
        0x27 => Instruction { cycles: 5, op: Op::Rla(AddressingMode::ZeroPage) },
        0x28 => Instruction { cycles: 4, op: Op::Plp },
        0x29 => Instruction { cycles: 2, op: Op::And(AddressingMode::Immediate) },
        0x2A => Instruction { cycles: 2, op: Op::RolA },
        0x2B => Instruction { cycles: 2, op: Op::Anc(AddressingMode::Immediate) },
        0x2C => Instruction { cycles: 4, op: Op::Bit(AddressingMode::Absolute) },
        0x2D => Instruction { cycles: 4, op: Op::And(AddressingMode::Absolute) },
        0x2E => Instruction { cycles: 6, op: Op::Rol(AddressingMode::Absolute) },
        0x2F => Instruction { cycles: 6, op: Op::Rla(AddressingMode::Absolute) },
        0x30 => Instruction { cycles: 2, op: Op::Bmi },
        0x31 => Instruction { cycles: 5, op: Op::And(AddressingMode::ZeroPageIndirectY) },
        0x32 => Instruction { cycles: 0, op: Op::Jam },
        0x33 => Instruction { cycles: 8, op: Op::Rla(AddressingMode::ZeroPageIndirectY) },
        0x34 => Instruction { cycles: 4, op: Op::Illegal(AddressingMode::ZeroPageX) },
        0x35 => Instruction { cycles: 4, op: Op::And(AddressingMode::ZeroPageX) },
        0x36 => Instruction { cycles: 6, op: Op::Rol(AddressingMode::ZeroPageX) },
        0x37 => Instruction { cycles: 6, op: Op::Rla(AddressingMode::ZeroPageX) },
        0x38 => Instruction { cycles: 2, op: Op::Sec },
        0x39 => Instruction { cycles: 4, op: Op::And(AddressingMode::AbsoluteY) },
        0x3A => Instruction { cycles: 2, op: Op::IllegalA },
        0x3B => Instruction { cycles: 7, op: Op::Rla(AddressingMode::AbsoluteY) },
        0x3C => Instruction { cycles: 4, op: Op::Illegal(AddressingMode::AbsoluteX) },
        0x3D => Instruction { cycles: 4, op: Op::And(AddressingMode::AbsoluteX) },
        0x3E => Instruction { cycles: 7, op: Op::Rol(AddressingMode::AbsoluteX) },
        _ => Instruction { cycles: 7, op: Op::Rla(AddressingMode::AbsoluteX) },
    }
}

/// The canonical MOS 6502 slots for opcodes 0x40 through 0x7F.
pub open spec fn spec_mos_entry_q1(opcode: u8) -> Instruction {
    if opcode == 0x40 {
        Instruction { cycles: 6, op: Op::Rti }
    } else if opcode == 0x41 {
        Instruction { cycles: 6, op: Op::Eor(AddressingMode::ZeroPageXIndirect) }
    } else if opcode == 0x42 {
        Instruction { cycles: 0, op: Op::Jam }
    } else if opcode == 0x43 {
        Instruction { cycles: 8, op: Op::Sre(AddressingMode::ZeroPageXIndirect) }
    } else if opcode == 0x44 {
        Instruction { cycles: 3, op: Op::Illegal(AddressingMode::ZeroPage) }
    } else if opcode == 0x45 {
        Instruction { cycles: 3, op: Op::Eor(AddressingMode::ZeroPage) }
    } else if opcode == 0x46 {
        Instruction { cycles: 5, op: Op::Lsr(AddressingMode::ZeroPage) }
    } else if opcode == 0x47 {
        Instruction { cycles: 5, op: Op::Sre(AddressingMode::ZeroPage) }
    } else if opcode == 0x48 {
        Instruction { cycles: 3, op: Op::Pha }
    } else if opcode == 0x49 {
        Instruction { cycles: 2, op: Op::Eor(AddressingMode::Immediate) }
    } else if opcode == 0x4A {
        Instruction { cycles: 2, op: Op::LsrA }
    } else if opcode == 0x4B {
        Instruction { cycles: 2, op: Op::Asr(AddressingMode::Immediate) }
    } else if opcode == 0x4C {
        Instruction { cycles: 3, op: Op::Jmp(AddressingMode::Absolute) }
    } else if opcode == 0x4D {
        Instruction { cycles: 4, op: Op::Eor(AddressingMode::Absolute) }
    } else if opcode == 0x4E {
        Instruction { cycles: 6, op: Op::Lsr(AddressingMode::Absolute) }
    } else if opcode == 0x4F {
        Instruction { cycles: 6, op: Op::Sre(AddressingMode::Absolute) }
    } else if opcode == 0x50 {
        Instruction { cycles: 2, op: Op::Bvc }
    } else if opcode == 0x51 {
        Instruction { cycles: 5, op: Op::Eor(AddressingMode::ZeroPageIndirectY) }
    } else if opcode == 0x52 {
        Instruction { cycles: 0, op: Op::Jam }
    } else if opcode == 0x53 {
        Instruction { cycles: 8, op: Op::Sre(AddressingMode::ZeroPageIndirectY) }
    } else if opcode == 0x54 {
        Instruction { cycles: 4, op: Op::Illegal(AddressingMode::ZeroPageX) }
    } else if opcode == 0x55 {
        Instruction { cycles: 4, op: Op::Eor(AddressingMode::ZeroPageX) }
    } else if opcode == 0x56 {
        Instruction { cycles: 6, op: Op::Lsr(AddressingMode::ZeroPageX) }
    } else if opcode == 0x57 {
        Instruction { cycles: 6, op: Op::Sre(AddressingMode::ZeroPageX) }
    } else if opcode == 0x58 {
        Instruction { cycles: 2, op: Op::Cli }
    } else if opcode == 0x59 {
        Instruction { cycles: 4, op: Op::Eor(AddressingMode::AbsoluteY) }
    } else if opcode == 0x5A {
        Instruction { cycles: 2, op: Op::IllegalA }
    } else if opcode == 0x5B {
        Instruction { cycles: 7, op: Op::Sre(AddressingMode::AbsoluteY) }
    } else if opcode == 0x5C {
        Instruction { cycles: 4, op: Op::Illegal(AddressingMode::AbsoluteX) }
    } else if opcode == 0x5D {
        Instruction { cycles: 4, op: Op::Eor(AddressingMode::AbsoluteX) }
    } else if opcode == 0x5E {
        Instruction { cycles: 7, op: Op::Lsr(AddressingMode::AbsoluteX) }
    } else if opcode == 0x5F {
        Instruction { cycles: 7, op: Op::Sre(AddressingMode::AbsoluteX) }
    } else if opcode == 0x60 {
        Instruction { cycles: 6, op: Op::Rts }
    } else if opcode == 0x61 {
        Instruction { cycles: 6, op: Op::Adc(AddressingMode::ZeroPageXIndirect) }
    } else if opcode == 0x62 {
        Instruction { cycles: 0, op: Op::Jam }
    } else if opcode == 0x63 {
        Instruction { cycles: 8, op: Op::Rra(AddressingMode::ZeroPageXIndirect) }
    } else if opcode == 0x64 {
        Instruction { cycles: 3, op: Op::Illegal(AddressingMode::ZeroPage) }
    } else if opcode == 0x65 {
        Instruction { cycles: 3, op: Op::Adc(AddressingMode::ZeroPage) }
    } else if opcode == 0x66 {
        Instruction { cycles: 5, op: Op::Ror(AddressingMode::ZeroPage) }
    } else if opcode == 0x67 {
        Instruction { cycles: 5, op: Op::Rra(AddressingMode::ZeroPage) }
    } else if opcode == 0x68 {
        Instruction { cycles: 4, op: Op::Pla }
    } else if opcode == 0x69 {
        Instruction { cycles: 2, op: Op::Adc(AddressingMode::Immediate) }
    } else if opcode == 0x6A {
        Instruction { cycles: 2, op: Op::RorA }
    } else if opcode == 0x6B {
        Instruction { cycles: 2, op: Op::Arr(AddressingMode::Immediate) }
    } else if opcode == 0x6C {
        Instruction { cycles: 5, op: Op::Jmp(AddressingMode::AbsoluteIndirect) }
    } else if opcode == 0x6D {
        Instruction { cycles: 4, op: Op::Adc(AddressingMode::Absolute) }
    } else if opcode == 0x6E {
        Instruction { cycles: 6, op: Op::Ror(AddressingMode::Absolute) }
    } else if opcode == 0x6F {
        Instruction { cycles: 6, op: Op::Rra(AddressingMode::Absolute) }
    } else if opcode == 0x70 {
        Instruction { cycles: 2, op: Op::Bvs }
    } else if opcode == 0x71 {
        Instruction { cycles: 5, op: Op::Adc(AddressingMode::ZeroPageIndirectY) }
    } else if opcode == 0x72 {
        Instruction { cycles: 0, op: Op::Jam }
    } else if opcode == 0x73 {
        Instruction { cycles: 8, op: Op::Rra(AddressingMode::ZeroPageIndirectY) }
    } else if opcode == 0x74 {
        Instruction { cycles: 4, op: Op::Illegal(AddressingMode::ZeroPageX) }
    } else if opcode == 0x75 {
        Instruction { cycles: 4, op: Op::Adc(AddressingMode::ZeroPageX) }
    } else if opcode == 0x76 {
        Instruction { cycles: 6, op: Op::Ror(AddressingMode::ZeroPageX) }
    } else if opcode == 0x77 {
        Instruction { cycles: 6, op: Op::Rra(AddressingMode::ZeroPageX) }
    } else if opcode == 0x78 {
        Instruction { cycles: 2, op: Op::Sei }
    } else if opcode == 0x79 {
        Instruction { cycles: 4, op: Op::Adc(AddressingMode::AbsoluteY) }
    } else if opcode == 0x7A {
        Instruction { cycles: 2, op: Op::IllegalA }
    } else if opcode == 0x7B {
        Instruction { cycles: 7, op: Op::Rra(AddressingMode::AbsoluteY) }
    } else if opcode == 0x7C {
        Instruction { cycles: 4, op: Op::Illegal(AddressingMode::AbsoluteX) }
    } else if opcode == 0x7D {
        Instruction { cycles: 4, op: Op::Adc(AddressingMode::AbsoluteX) }
    } else if opcode == 0x7E {
        Instruction { cycles: 7, op: Op::Ror(AddressingMode::AbsoluteX) }
    } else {
        Instruction { cycles: 7, op: Op::Rra(AddressingMode::AbsoluteX) }
    }
}

/// Build the canonical MOS 6502 slot for one of opcodes 0x40 through 0x7F.
fn mos_entry_q1(opcode: u8) -> (r: Instruction)
    requires
        0x40 <= opcode <= 0x7F,
    ensures
        r == spec_mos_entry_q1(opcode),
{
    match opcode {
        0x40 => Instruction { cycles: 6, op: Op::Rti },
        0x41 => Instruction { cycles: 6, op: Op::Eor(AddressingMode::ZeroPageXIndirect) },
        0x42 => Instruction { cycles: 0, op: Op::Jam },
        0x43 => Instruction { cycles: 8, op: Op::Sre(AddressingMode::ZeroPageXIndirect) },
        0x44 => Instruction { cycles: 3, op: Op::Illegal(AddressingMode::ZeroPage) },
        0x45 => Instruction { cycles: 3, op: Op::Eor(AddressingMode::ZeroPage) },
        0x46 => Instruction { cycles: 5, op: Op::Lsr(AddressingMode::ZeroPage) },
        0x47 => Instruction { cycles: 5, op: Op::Sre(AddressingMode::ZeroPage) },
        0x48 => Instruction { cycles: 3, op: Op::Pha },
        0x49 => Instruction { cycles: 2, op: Op::Eor(AddressingMode::Immediate) },
        0x4A => Instruction { cycles: 2, op: Op::LsrA },
        0x4B => Instruction { cycles: 2, op: Op::Asr(AddressingMode::Immediate) },
        0x4C => Instruction { cycles: 3, op: Op::Jmp(AddressingMode::Absolute) },
        0x4D => Instruction { cycles: 4, op: Op::Eor(AddressingMode::Absolute) },
        0x4E => Instruction { cycles: 6, op: Op::Lsr(AddressingMode::Absolute) },
        0x4F => Instruction { cycles: 6, op: Op::Sre(AddressingMode::Absolute) },
        0x50 => Instruction { cycles: 2, op: Op::Bvc },
        0x51 => Instruction { cycles: 5, op: Op::Eor(AddressingMode::ZeroPageIndirectY) },
        0x52 => Instruction { cycles: 0, op: Op::Jam },
        0x53 => Instruction { cycles: 8, op: Op::Sre(AddressingMode::ZeroPageIndirectY) },
        0x54 => Instruction { cycles: 4, op: Op::Illegal(AddressingMode::ZeroPageX) },
        0x55 => Instruction { cycles: 4, op: Op::Eor(AddressingMode::ZeroPageX) },
        0x56 => Instruction { cycles: 6, op: Op::Lsr(AddressingMode::ZeroPageX) },
        0x57 => Instruction { cycles: 6, op: Op::Sre(AddressingMode::ZeroPageX) },
        0x58 => Instruction { cycles: 2, op: Op::Cli },
        0x59 => Instruction { cycles: 4, op: Op::Eor(AddressingMode::AbsoluteY) },
        0x5A => Instruction { cycles: 2, op: Op::IllegalA },
        0x5B => Instruction { cycles: 7, op: Op::Sre(AddressingMode::AbsoluteY) },
        0x5C => Instruction { cycles: 4, op: Op::Illegal(AddressingMode::AbsoluteX) },
        0x5D => Instruction { cycles: 4, op: Op::Eor(AddressingMode::AbsoluteX) },
        0x5E => Instruction { cycles: 7, op: Op::Lsr(AddressingMode::AbsoluteX) },
        0x5F => Instruction { cycles: 7, op: Op::Sre(AddressingMode::AbsoluteX) },
        0x60 => Instruction { cycles: 6, op: Op::Rts },
        0x61 => Instruction { cycles: 6, op: Op::Adc(AddressingMode::ZeroPageXIndirect) },
        0x62 => Instruction { cycles: 0, op: Op::Jam },
        0x63 => Instruction { cycles: 8, op: Op::Rra(AddressingMode::ZeroPageXIndirect) },
        0x64 => Instruction { cycles: 3, op: Op::Illegal(AddressingMode::ZeroPage) },
        0x65 => Instruction { cycles: 3, op: Op::Adc(AddressingMode::ZeroPage) },
        0x66 => Instruction { cycles: 5, op: Op::Ror(AddressingMode::ZeroPage) },
        0x67 => Instruction { cycles: 5, op: Op::Rra(AddressingMode::ZeroPage) },
        0x68 => Instruction { cycles: 4, op: Op::Pla },
        0x69 => Instruction { cycles: 2, op: Op::Adc(AddressingMode::Immediate) },
        0x6A => Instruction { cycles: 2, op: Op::RorA },
        0x6B => Instruction { cycles: 2, op: Op::Arr(AddressingMode::Immediate) },
        0x6C => Instruction { cycles: 5, op: Op::Jmp(AddressingMode::AbsoluteIndirect) },
        0x6D => Instruction { cycles: 4, op: Op::Adc(AddressingMode::Absolute) },
        0x6E => Instruction { cycles: 6, op: Op::Ror(AddressingMode::Absolute) },
        0x6F => Instruction { cycles: 6, op: Op::Rra(AddressingMode::Absolute) },
        0x70 => Instruction { cycles: 2, op: Op::Bvs },
        0x71 => Instruction { cycles: 5, op: Op::Adc(AddressingMode::ZeroPageIndirectY) },
        0x72 => Instruction { cycles: 0, op: Op::Jam },
        0x73 => Instruction { cycles: 8, op: Op::Rra(AddressingMode::ZeroPageIndirectY) },
        0x74 => Instruction { cycles: 4, op: Op::Illegal(AddressingMode::ZeroPageX) },
        0x75 => Instruction { cycles: 4, op: Op::Adc(AddressingMode::ZeroPageX) },
        0x76 => Instruction { cycles: 6, op: Op::Ror(AddressingMode::ZeroPageX) },
        0x77 => Instruction { cycles: 6, op: Op::Rra(AddressingMode::ZeroPageX) },
        0x78 => Instruction { cycles: 2, op: Op::Sei },
        0x79 => Instruction { cycles: 4, op: Op::Adc(AddressingMode::AbsoluteY) },
        0x7A => Instruction { cycles: 2, op: Op::IllegalA },
        0x7B => Instruction { cycles: 7, op: Op::Rra(AddressingMode::AbsoluteY) },
        0x7C => Instruction { cycles: 4, op: Op::Illegal(AddressingMode::AbsoluteX) },
        0x7D => Instruction { cycles: 4, op: Op::Adc(AddressingMode::AbsoluteX) },
        0x7E => Instruction { cycles: 7, op: Op::Ror(AddressingMode::AbsoluteX) },
        _ => Instruction { cycles: 7, op: Op::Rra(AddressingMode::AbsoluteX) },
    }
}

/// The canonical MOS 6502 slots for opcodes 0x80 through 0xBF.
pub open spec fn spec_mos_entry_q2(opcode: u8) -> Instruction {
    if opcode == 0x80 {
        Instruction { cycles: 2, op: Op::Illegal(AddressingMode::Immediate) }
    } else if opcode == 0x81 {
        Instruction { cycles: 6, op: Op::Sta(AddressingMode::ZeroPageXIndirect) }
    } else if opcode == 0x82 {
        Instruction { cycles: 2, op: Op::Illegal(AddressingMode::Immediate) }
    } else if opcode == 0x83 {
        Instruction { cycles: 6, op: Op::Sax(AddressingMode::ZeroPageXIndirect) }
    } else if opcode == 0x84 {
        Instruction { cycles: 3, op: Op::Sty(AddressingMode::ZeroPage) }
    } else if opcode == 0x85 {
        Instruction { cycles: 3, op: Op::Sta(AddressingMode::ZeroPage) }
    } else if opcode == 0x86 {
        Instruction { cycles: 3, op: Op::Stx(AddressingMode::ZeroPage) }
    } else if opcode == 0x87 {
        Instruction { cycles: 3, op: Op::Sax(AddressingMode::ZeroPage) }
    } else if opcode == 0x88 {
        Instruction { cycles: 2, op: Op::Dey }
    } else if opcode == 0x89 {
        Instruction { cycles: 2, op: Op::Illegal(AddressingMode::Immediate) }
    } else if opcode == 0x8A {
        Instruction { cycles: 2, op: Op::Txa }
    } else if opcode == 0x8B {
        Instruction { cycles: 2, op: Op::Xaa(AddressingMode::Immediate) }
    } else if opcode == 0x8C {
        Instruction { cycles: 4, op: Op::Sty(AddressingMode::Absolute) }
    } else if opcode == 0x8D {
        Instruction { cycles: 4, op: Op::Sta(AddressingMode::Absolute) }
    } else if opcode == 0x8E {
        Instruction { cycles: 4, op: Op::Stx(AddressingMode::Absolute) }
    } else if opcode == 0x8F {
        Instruction { cycles: 4, op: Op::Sax(AddressingMode::Absolute) }
    } else if opcode == 0x90 {
        Instruction { cycles: 2, op: Op::Bcc }
    } else if opcode == 0x91 {
        Instruction { cycles: 6, op: Op::Sta(AddressingMode::ZeroPageIndirectY) }
    } else if opcode == 0x92 {
        Instruction { cycles: 0, op: Op::Jam }
    } else if opcode == 0x93 {
        Instruction { cycles: 6, op: Op::Sha(AddressingMode::ZeroPageIndirectY) }
    } else if opcode == 0x94 {
        Instruction { cycles: 4, op: Op::Sty(AddressingMode::ZeroPageX) }
    } else if opcode == 0x95 {
        Instruction { cycles: 4, op: Op::Sta(AddressingMode::ZeroPageX) }
    } else if opcode == 0x96 {
        Instruction { cycles: 4, op: Op::Stx(AddressingMode::ZeroPageY) }
    } else if opcode == 0x97 {
        Instruction { cycles: 4, op: Op::Sax(AddressingMode::ZeroPageY) }
    } else if opcode == 0x98 {
        Instruction { cycles: 2, op: Op::Tya }
    } else if opcode == 0x99 {
        Instruction { cycles: 5, op: Op::Sta(AddressingMode::AbsoluteY) }
    } else if opcode == 0x9A {
        Instruction { cycles: 2, op: Op::Txs }
    } else if opcode == 0x9B {
        Instruction { cycles: 5, op: Op::Shs(AddressingMode::AbsoluteY) }
    } else if opcode == 0x9C {
        Instruction { cycles: 5, op: Op::Shy(AddressingMode::AbsoluteX) }
    } else if opcode == 0x9D {
        Instruction { cycles: 5, op: Op::Sta(AddressingMode::AbsoluteX) }
    } else if opcode == 0x9E {
        Instruction { cycles: 5, op: Op::Shx(AddressingMode::AbsoluteY) }
    } else if opcode == 0x9F {
        Instruction { cycles: 5, op: Op::Sha(AddressingMode::AbsoluteY) }
    } else if opcode == 0xA0 {
        Instruction { cycles: 2, op: Op::Ldy(AddressingMode::Immediate) }
    } else if opcode == 0xA1 {
        Instruction { cycles: 6, op: Op::Lda(AddressingMode::ZeroPageXIndirect) }
    } else if opcode == 0xA2 {
        Instruction { cycles: 2, op: Op::Ldx(AddressingMode::Immediate) }
    } else if opcode == 0xA3 {
        Instruction { cycles: 6, op: Op::Lax(AddressingMode::ZeroPageXIndirect) }
    } else if opcode == 0xA4 {
        Instruction { cycles: 3, op: Op::Ldy(AddressingMode::ZeroPage) }
    } else if opcode == 0xA5 {
        Instruction { cycles: 3, op: Op::Lda(AddressingMode::ZeroPage) }
    } else if opcode == 0xA6 {
        Instruction { cycles: 3, op: Op::Ldx(AddressingMode::ZeroPage) }
    } else if opcode == 0xA7 {
        Instruction { cycles: 3, op: Op::Lax(AddressingMode::ZeroPage) }
    } else if opcode == 0xA8 {
        Instruction { cycles: 2, op: Op::Tay }
    } else if opcode == 0xA9 {
        Instruction { cycles: 2, op: Op::Lda(AddressingMode::Immediate) }
    } else if opcode == 0xAA {
        Instruction { cycles: 2, op: Op::Tax }
    } else if opcode == 0xAB {
        Instruction { cycles: 2, op: Op::Illegal(AddressingMode::Immediate) }
    } else if opcode == 0xAC {
        Instruction { cycles: 4, op: Op::Ldy(AddressingMode::Absolute) }
    } else if opcode == 0xAD {
        Instruction { cycles: 4, op: Op::Lda(AddressingMode::Absolute) }
    } else if opcode == 0xAE {
        Instruction { cycles: 4, op: Op::Ldx(AddressingMode::Absolute) }
    } else if opcode == 0xAF {
        Instruction { cycles: 4, op: Op::Lax(AddressingMode::Absolute) }
    } else if opcode == 0xB0 {
        Instruction { cycles: 2, op: Op::Bcs }
    } else if opcode == 0xB1 {
        Instruction { cycles: 5, op: Op::Lda(AddressingMode::ZeroPageIndirectY) }
    } else if opcode == 0xB2 {
        Instruction { cycles: 0, op: Op::Jam }
    } else if opcode == 0xB3 {
        Instruction { cycles: 5, op: Op::Lax(AddressingMode::ZeroPageIndirectY) }
    } else if opcode == 0xB4 {
        Instruction { cycles: 4, op: Op::Ldy(AddressingMode::ZeroPageX) }
    } else if opcode == 0xB5 {
        Instruction { cycles: 4, op: Op::Lda(AddressingMode::ZeroPageX) }
    } else if opcode == 0xB6 {
        Instruction { cycles: 4, op: Op::Ldx(AddressingMode::ZeroPageY) }
    } else if opcode == 0xB7 {
        Instruction { cycles: 4, op: Op::Lax(AddressingMode::ZeroPageY) }
    } else if opcode == 0xB8 {
        Instruction { cycles: 2, op: Op::Clv }
    } else if opcode == 0xB9 {
        Instruction { cycles: 4, op: Op::Lda(AddressingMode::AbsoluteY) }
    } else if opcode == 0xBA {
        Instruction { cycles: 2, op: Op::Tsx }
    } else if opcode == 0xBB {
        Instruction { cycles: 4, op: Op::Las(AddressingMode::AbsoluteY) }
    } else if opcode == 0xBC {
        Instruction { cycles: 4, op: Op::Ldy(AddressingMode::AbsoluteX) }
    } else if opcode == 0xBD {
        Instruction { cycles: 4, op: Op::Lda(AddressingMode::AbsoluteX) }
    } else if opcode == 0xBE {
        Instruction { cycles: 4, op: Op::Ldx(AddressingMode::AbsoluteY) }
    } else {
        Instruction { cycles: 4, op: Op::Lax(AddressingMode::AbsoluteY) }
    }
}

/// Build the canonical MOS 6502 slot for one of opcodes 0x80 through 0xBF.
fn mos_entry_q2(opcode: u8) -> (r: Instruction)
    requires
        0x80 <= opcode <= 0xBF,
    ensures
        r == spec_mos_entry_q2(opcode),
{
    match opcode {
        0x80 => Instruction { cycles: 2, op: Op::Illegal(AddressingMode::Immediate) },
        0x81 => Instruction { cycles: 6, op: Op::Sta(AddressingMode::ZeroPageXIndirect) },
        0x82 => Instruction { cycles: 2, op: Op::Illegal(AddressingMode::Immediate) },
        0x83 => Instruction { cycles: 6, op: Op::Sax(AddressingMode::ZeroPageXIndirect) },
        0x84 => Instruction { cycles: 3, op: Op::Sty(AddressingMode::ZeroPage) },
        0x85 => Instruction { cycles: 3, op: Op::Sta(AddressingMode::ZeroPage) },
        0x86 => Instruction { cycles: 3, op: Op::Stx(AddressingMode::ZeroPage) },
        0x87 => Instruction { cycles: 3, op: Op::Sax(AddressingMode::ZeroPage) },
        0x88 => Instruction { cycles: 2, op: Op::Dey },
        0x89 => Instruction { cycles: 2, op: Op::Illegal(AddressingMode::Immediate) },
        0x8A => Instruction { cycles: 2, op: Op::Txa },
        0x8B => Instruction { cycles: 2, op: Op::Xaa(AddressingMode::Immediate) },
        0x8C => Instruction { cycles: 4, op: Op::Sty(AddressingMode::Absolute) },
        0x8D => Instruction { cycles: 4, op: Op::Sta(AddressingMode::Absolute) },
        0x8E => Instruction { cycles: 4, op: Op::Stx(AddressingMode::Absolute) },
        0x8F => Instruction { cycles: 4, op: Op::Sax(AddressingMode::Absolute) },
        0x90 => Instruction { cycles: 2, op: Op::Bcc },
        0x91 => Instruction { cycles: 6, op: Op::Sta(AddressingMode::ZeroPageIndirectY) },
        0x92 => Instruction { cycles: 0, op: Op::Jam },
        0x93 => Instruction { cycles: 6, op: Op::Sha(AddressingMode::ZeroPageIndirectY) },
        0x94 => Instruction { cycles: 4, op: Op::Sty(AddressingMode::ZeroPageX) },
        0x95 => Instruction { cycles: 4, op: Op::Sta(AddressingMode::ZeroPageX) },
        0x96 => Instruction { cycles: 4, op: Op::Stx(AddressingMode::ZeroPageY) },
        0x97 => Instruction { cycles: 4, op: Op::Sax(AddressingMode::ZeroPageY) },
        0x98 => Instruction { cycles: 2, op: Op::Tya },
        0x99 => Instruction { cycles: 5, op: Op::Sta(AddressingMode::AbsoluteY) },
        0x9A => Instruction { cycles: 2, op: Op::Txs },
        0x9B => Instruction { cycles: 5, op: Op::Shs(AddressingMode::AbsoluteY) },
        0x9C => Instruction { cycles: 5, op: Op::Shy(AddressingMode::AbsoluteX) },
        0x9D => Instruction { cycles: 5, op: Op::Sta(AddressingMode::AbsoluteX) },
        0x9E => Instruction { cycles: 5, op: Op::Shx(AddressingMode::AbsoluteY) },
        0x9F => Instruction { cycles: 5, op: Op::Sha(AddressingMode::AbsoluteY) },
        0xA0 => Instruction { cycles: 2, op: Op::Ldy(AddressingMode::Immediate) },
        0xA1 => Instruction { cycles: 6, op: Op::Lda(AddressingMode::ZeroPageXIndirect) },
        0xA2 => Instruction { cycles: 2, op: Op::Ldx(AddressingMode::Immediate) },
        0xA3 => Instruction { cycles: 6, op: Op::Lax(AddressingMode::ZeroPageXIndirect) },
        0xA4 => Instruction { cycles: 3, op: Op::Ldy(AddressingMode::ZeroPage) },
        0xA5 => Instruction { cycles: 3, op: Op::Lda(AddressingMode::ZeroPage) },
        0xA6 => Instruction { cycles: 3, op: Op::Ldx(AddressingMode::ZeroPage) },
        0xA7 => Instruction { cycles: 3, op: Op::Lax(AddressingMode::ZeroPage) },
        0xA8 => Instruction { cycles: 2, op: Op::Tay },
        0xA9 => Instruction { cycles: 2, op: Op::Lda(AddressingMode::Immediate) },
        0xAA => Instruction { cycles: 2, op: Op::Tax },
        0xAB => Instruction { cycles: 2, op: Op::Illegal(AddressingMode::Immediate) },
        0xAC => Instruction { cycles: 4, op: Op::Ldy(AddressingMode::Absolute) },
        0xAD => Instruction { cycles: 4, op: Op::Lda(AddressingMode::Absolute) },
        0xAE => Instruction { cycles: 4, op: Op::Ldx(AddressingMode::Absolute) },
        0xAF => Instruction { cycles: 4, op: Op::Lax(AddressingMode::Absolute) },
        0xB0 => Instruction { cycles: 2, op: Op::Bcs },
        0xB1 => Instruction { cycles: 5, op: Op::Lda(AddressingMode::ZeroPageIndirectY) },
        0xB2 => Instruction { cycles: 0, op: Op::Jam },
        0xB3 => Instruction { cycles: 5, op: Op::Lax(AddressingMode::ZeroPageIndirectY) },
        0xB4 => Instruction { cycles: 4, op: Op::Ldy(AddressingMode::ZeroPageX) },
        0xB5 => Instruction { cycles: 4, op: Op::Lda(AddressingMode::ZeroPageX) },
        0xB6 => Instruction { cycles: 4, op: Op::Ldx(AddressingMode::ZeroPageY) },
        0xB7 => Instruction { cycles: 4, op: Op::Lax(AddressingMode::ZeroPageY) },
        0xB8 => Instruction { cycles: 2, op: Op::Clv },
        0xB9 => Instruction { cycles: 4, op: Op::Lda(AddressingMode::AbsoluteY) },
        0xBA => Instruction { cycles: 2, op: Op::Tsx },
        0xBB => Instruction { cycles: 4, op: Op::Las(AddressingMode::AbsoluteY) },
        0xBC => Instruction { cycles: 4, op: Op::Ldy(AddressingMode::AbsoluteX) },
        0xBD => Instruction { cycles: 4, op: Op::Lda(AddressingMode::AbsoluteX) },
        0xBE => Instruction { cycles: 4, op: Op::Ldx(AddressingMode::AbsoluteY) },
        _ => Instruction { cycles: 4, op: Op::Lax(AddressingMode::AbsoluteY) },
    }
}

/// The canonical MOS 6502 slots for opcodes 0xC0 through 0xFF.
pub open spec fn spec_mos_entry_q3(opcode: u8) -> Instruction {
    if opcode == 0xC0 {
        Instruction { cycles: 2, op: Op::Cpy(AddressingMode::Immediate) }
    } else if opcode == 0xC1 {
        Instruction { cycles: 6, op: Op::Cmp(AddressingMode::ZeroPageXIndirect) }
    } else if opcode == 0xC2 {
        Instruction { cycles: 2, op: Op::Illegal(AddressingMode::Immediate) }
    } else if opcode == 0xC3 {
        Instruction { cycles: 8, op: Op::Dcp(AddressingMode::ZeroPageXIndirect) }
    } else if opcode == 0xC4 {
        Instruction { cycles: 3, op: Op::Cpy(AddressingMode::ZeroPage) }
    } else if opcode == 0xC5 {
        Instruction { cycles: 3, op: Op::Cmp(AddressingMode::ZeroPage) }
    } else if opcode == 0xC6 {
        Instruction { cycles: 5, op: Op::Dec(AddressingMode::ZeroPage) }
    } else if opcode == 0xC7 {
        Instruction { cycles: 5, op: Op::Dcp(AddressingMode::ZeroPage) }
    } else if opcode == 0xC8 {
        Instruction { cycles: 2, op: Op::Iny }
    } else if opcode == 0xC9 {
        Instruction { cycles: 2, op: Op::Cmp(AddressingMode::Immediate) }
    } else if opcode == 0xCA {
        Instruction { cycles: 2, op: Op::Dex }
    } else if opcode == 0xCB {
        Instruction { cycles: 2, op: Op::Sbx(AddressingMode::Immediate) }
    } else if opcode == 0xCC {
        Instruction { cycles: 4, op: Op::Cpy(AddressingMode::Absolute) }
    } else if opcode == 0xCD {
        Instruction { cycles: 4, op: Op::Cmp(AddressingMode::Absolute) }
    } else if opcode == 0xCE {
        Instruction { cycles: 6, op: Op::Dec(AddressingMode::Absolute) }
    } else if opcode == 0xCF {
        Instruction { cycles: 6, op: Op::Dcp(AddressingMode::Absolute) }
    } else if opcode == 0xD0 {
        Instruction { cycles: 2, op: Op::Bne }
    } else if opcode == 0xD1 {
        Instruction { cycles: 5, op: Op::Cmp(AddressingMode::ZeroPageIndirectY) }
    } else if opcode == 0xD2 {
        Instruction { cycles: 0, op: Op::Jam }
    } else if opcode == 0xD3 {
        Instruction { cycles: 8, op: Op::Dcp(AddressingMode::ZeroPageIndirectY) }
    } else if opcode == 0xD4 {
        Instruction { cycles: 4, op: Op::Illegal(AddressingMode::ZeroPageX) }
    } else if opcode == 0xD5 {
        Instruction { cycles: 4, op: Op::Cmp(AddressingMode::ZeroPageX) }
    } else if opcode == 0xD6 {
        Instruction { cycles: 6, op: Op::Dec(AddressingMode::ZeroPageX) }
    } else if opcode == 0xD7 {
        Instruction { cycles: 6, op: Op::Dcp(AddressingMode::ZeroPageX) }
    } else if opcode == 0xD8 {
        Instruction { cycles: 2, op: Op::Cld }
    } else if opcode == 0xD9 {
        Instruction { cycles: 4, op: Op::Cmp(AddressingMode::AbsoluteY) }
    } else if opcode == 0xDA {
        Instruction { cycles: 2, op: Op::IllegalA }
    } else if opcode == 0xDB {
        Instruction { cycles: 7, op: Op::Dcp(AddressingMode::AbsoluteY) }
    } else if opcode == 0xDC {
        Instruction { cycles: 4, op: Op::Illegal(AddressingMode::AbsoluteX) }
    } else if opcode == 0xDD {
        Instruction { cycles: 4, op: Op::Cmp(AddressingMode::AbsoluteX) }
    } else if opcode == 0xDE {
        Instruction { cycles: 7, op: Op::Dec(AddressingMode::AbsoluteX) }
    } else if opcode == 0xDF {
        Instruction { cycles: 7, op: Op::Dcp(AddressingMode::AbsoluteX) }
    } else if opcode == 0xE0 {
        Instruction { cycles: 2, op: Op::Cpx(AddressingMode::Immediate) }
    } else if opcode == 0xE1 {
        Instruction { cycles: 6, op: Op::Sbc(AddressingMode::ZeroPageXIndirect) }
    } else if opcode == 0xE2 {
        Instruction { cycles: 2, op: Op::Illegal(AddressingMode::Immediate) }
    } else if opcode == 0xE3 {
        Instruction { cycles: 8, op: Op::Isc(AddressingMode::ZeroPageXIndirect) }
    } else if opcode == 0xE4 {
        Instruction { cycles: 3, op: Op::Cpx(AddressingMode::ZeroPage) }
    } else if opcode == 0xE5 {
        Instruction { cycles: 3, op: Op::Sbc(AddressingMode::ZeroPage) }
    } else if opcode == 0xE6 {
        Instruction { cycles: 5, op: Op::Inc(AddressingMode::ZeroPage) }
    } else if opcode == 0xE7 {
        Instruction { cycles: 5, op: Op::Isc(AddressingMode::ZeroPage) }
    } else if opcode == 0xE8 {
        Instruction { cycles: 2, op: Op::Inx }
    } else if opcode == 0xE9 {
        Instruction { cycles: 2, op: Op::Sbc(AddressingMode::Immediate) }
    } else if opcode == 0xEA {
        Instruction { cycles: 2, op: Op::Nop }
    } else if opcode == 0xEB {
        Instruction { cycles: 2, op: Op::Sbc(AddressingMode::Immediate) }
    } else if opcode == 0xEC {
        Instruction { cycles: 4, op: Op::Cpx(AddressingMode::Absolute) }
    } else if opcode == 0xED {
        Instruction { cycles: 4, op: Op::Sbc(AddressingMode::Absolute) }
    } else if opcode == 0xEE {
        Instruction { cycles: 6, op: Op::Inc(AddressingMode::Absolute) }
    } else if opcode == 0xEF {
        Instruction { cycles: 6, op: Op::Isc(AddressingMode::Absolute) }
    } else if opcode == 0xF0 {
        Instruction { cycles: 2, op: Op::Beq }
    } else if opcode == 0xF1 {
        Instruction { cycles: 5, op: Op::Sbc(AddressingMode::ZeroPageIndirectY) }
    } else if opcode == 0xF2 {
        Instruction { cycles: 0, op: Op::Jam }
    } else if opcode == 0xF3 {
        Instruction { cycles: 8, op: Op::Isc(AddressingMode::ZeroPageIndirectY) }
    } else if opcode == 0xF4 {
        Instruction { cycles: 4, op: Op::Illegal(AddressingMode::ZeroPageX) }
    } else if opcode == 0xF5 {
        Instruction { cycles: 4, op: Op::Sbc(AddressingMode::ZeroPageX) }
    } else if opcode == 0xF6 {
        Instruction { cycles: 6, op: Op::Inc(AddressingMode::ZeroPageX) }
    } else if opcode == 0xF7 {
        Instruction { cycles: 6, op: Op::Isc(AddressingMode::ZeroPageX) }
    } else if opcode == 0xF8 {
        Instruction { cycles: 2, op: Op::Sed }
    } else if opcode == 0xF9 {
        Instruction { cycles: 4, op: Op::Sbc(AddressingMode::AbsoluteY) }
    } else if opcode == 0xFA {
        Instruction { cycles: 2, op: Op::IllegalA }
    } else if opcode == 0xFB {
        Instruction { cycles: 7, op: Op::Isc(AddressingMode::AbsoluteY) }
    } else if opcode == 0xFC {
        Instruction { cycles: 4, op: Op::Illegal(AddressingMode::AbsoluteX) }
    } else if opcode == 0xFD {
        Instruction { cycles: 4, op: Op::Sbc(AddressingMode::AbsoluteX) }
    } else if opcode == 0xFE {
        Instruction { cycles: 7, op: Op::Inc(AddressingMode::AbsoluteX) }
    } else {
        Instruction { cycles: 7, op: Op::Isc(AddressingMode::AbsoluteX) }
    }
}

/// Build the canonical MOS 6502 slot for one of opcodes 0xC0 through 0xFF.
fn mos_entry_q3(opcode: u8) -> (r: Instruction)
    requires
        0xC0 <= opcode <= 0xFF,
    ensures
        r == spec_mos_entry_q3(opcode),
{
    match opcode {
        0xC0 => Instruction { cycles: 2, op: Op::Cpy(AddressingMode::Immediate) },
        0xC1 => Instruction { cycles: 6, op: Op::Cmp(AddressingMode::ZeroPageXIndirect) },
        0xC2 => Instruction { cycles: 2, op: Op::Illegal(AddressingMode::Immediate) },
        0xC3 => Instruction { cycles: 8, op: Op::Dcp(AddressingMode::ZeroPageXIndirect) },
        0xC4 => Instruction { cycles: 3, op: Op::Cpy(AddressingMode::ZeroPage) },
        0xC5 => Instruction { cycles: 3, op: Op::Cmp(AddressingMode::ZeroPage) },
        0xC6 => Instruction { cycles: 5, op: Op::Dec(AddressingMode::ZeroPage) },
        0xC7 => Instruction { cycles: 5, op: Op::Dcp(AddressingMode::ZeroPage) },
        0xC8 => Instruction { cycles: 2, op: Op::Iny },
        0xC9 => Instruction { cycles: 2, op: Op::Cmp(AddressingMode::Immediate) },
        0xCA => Instruction { cycles: 2, op: Op::Dex },
        0xCB => Instruction { cycles: 2, op: Op::Sbx(AddressingMode::Immediate) },
        0xCC => Instruction { cycles: 4, op: Op::Cpy(AddressingMode::Absolute) },
        0xCD => Instruction { cycles: 4, op: Op::Cmp(AddressingMode::Absolute) },
        0xCE => Instruction { cycles: 6, op: Op::Dec(AddressingMode::Absolute) },
        0xCF => Instruction { cycles: 6, op: Op::Dcp(AddressingMode::Absolute) },
        0xD0 => Instruction { cycles: 2, op: Op::Bne },
        0xD1 => Instruction { cycles: 5, op: Op::Cmp(AddressingMode::ZeroPageIndirectY) },
        0xD2 => Instruction { cycles: 0, op: Op::Jam },
        0xD3 => Instruction { cycles: 8, op: Op::Dcp(AddressingMode::ZeroPageIndirectY) },
        0xD4 => Instruction { cycles: 4, op: Op::Illegal(AddressingMode::ZeroPageX) },
        0xD5 => Instruction { cycles: 4, op: Op::Cmp(AddressingMode::ZeroPageX) },
        0xD6 => Instruction { cycles: 6, op: Op::Dec(AddressingMode::ZeroPageX) },
        0xD7 => Instruction { cycles: 6, op: Op::Dcp(AddressingMode::ZeroPageX) },
        0xD8 => Instruction { cycles: 2, op: Op::Cld },
        0xD9 => Instruction { cycles: 4, op: Op::Cmp(AddressingMode::AbsoluteY) },
        0xDA => Instruction { cycles: 2, op: Op::IllegalA },
        0xDB => Instruction { cycles: 7, op: Op::Dcp(AddressingMode::AbsoluteY) },
        0xDC => Instruction { cycles: 4, op: Op::Illegal(AddressingMode::AbsoluteX) },
        0xDD => Instruction { cycles: 4, op: Op::Cmp(AddressingMode::AbsoluteX) },
        0xDE => Instruction { cycles: 7, op: Op::Dec(AddressingMode::AbsoluteX) },
        0xDF => Instruction { cycles: 7, op: Op::Dcp(AddressingMode::AbsoluteX) },
        0xE0 => Instruction { cycles: 2, op: Op::Cpx(AddressingMode::Immediate) },
        0xE1 => Instruction { cycles: 6, op: Op::Sbc(AddressingMode::ZeroPageXIndirect) },
        0xE2 => Instruction { cycles: 2, op: Op::Illegal(AddressingMode::Immediate) },
        0xE3 => Instruction { cycles: 8, op: Op::Isc(AddressingMode::ZeroPageXIndirect) },
        0xE4 => Instruction { cycles: 3, op: Op::Cpx(AddressingMode::ZeroPage) },
        0xE5 => Instruction { cycles: 3, op: Op::Sbc(AddressingMode::ZeroPage) },
        0xE6 => Instruction { cycles: 5, op: Op::Inc(AddressingMode::ZeroPage) },
        0xE7 => Instruction { cycles: 5, op: Op::Isc(AddressingMode::ZeroPage) },
        0xE8 => Instruction { cycles: 2, op: Op::Inx },
        0xE9 => Instruction { cycles: 2, op: Op::Sbc(AddressingMode::Immediate) },
        0xEA => Instruction { cycles: 2, op: Op::Nop },
        0xEB => Instruction { cycles: 2, op: Op::Sbc(AddressingMode::Immediate) },
        0xEC => Instruction { cycles: 4, op: Op::Cpx(AddressingMode::Absolute) },
        0xED => Instruction { cycles: 4, op: Op::Sbc(AddressingMode::Absolute) },
        0xEE => Instruction { cycles: 6, op: Op::Inc(AddressingMode::Absolute) },
        0xEF => Instruction { cycles: 6, op: Op::Isc(AddressingMode::Absolute) },
        0xF0 => Instruction { cycles: 2, op: Op::Beq },
        0xF1 => Instruction { cycles: 5, op: Op::Sbc(AddressingMode::ZeroPageIndirectY) },
        0xF2 => Instruction { cycles: 0, op: Op::Jam },
        0xF3 => Instruction { cycles: 8, op: Op::Isc(AddressingMode::ZeroPageIndirectY) },
        0xF4 => Instruction { cycles: 4, op: Op::Illegal(AddressingMode::ZeroPageX) },
        0xF5 => Instruction { cycles: 4, op: Op::Sbc(AddressingMode::ZeroPageX) },
        0xF6 => Instruction { cycles: 6, op: Op::Inc(AddressingMode::ZeroPageX) },
        0xF7 => Instruction { cycles: 6, op: Op::Isc(AddressingMode::ZeroPageX) },
        0xF8 => Instruction { cycles: 2, op: Op::Sed },
        0xF9 => Instruction { cycles: 4, op: Op::Sbc(AddressingMode::AbsoluteY) },
        0xFA => Instruction { cycles: 2, op: Op::IllegalA },
        0xFB => Instruction { cycles: 7, op: Op::Isc(AddressingMode::AbsoluteY) },
        0xFC => Instruction { cycles: 4, op: Op::Illegal(AddressingMode::AbsoluteX) },
        0xFD => Instruction { cycles: 4, op: Op::Sbc(AddressingMode::AbsoluteX) },
        0xFE => Instruction { cycles: 7, op: Op::Inc(AddressingMode::AbsoluteX) },
        _ => Instruction { cycles: 7, op: Op::Isc(AddressingMode::AbsoluteX) },
    }
}

/// The canonical MOS 6502 slot for `opcode`: its base cycle count and
/// the operation the dispatch loop runs.
pub open spec fn spec_mos_entry(opcode: u8) -> Instruction {
    if opcode < 0x40 {
        spec_mos_entry_q0(opcode)
    } else if opcode < 0x80 {
        spec_mos_entry_q1(opcode)
    } else if opcode < 0xC0 {
        spec_mos_entry_q2(opcode)
    } else {
        spec_mos_entry_q3(opcode)
    }
}

/// Build the canonical MOS 6502 slot for `opcode`.
pub(crate) fn mos_entry(opcode: u8) -> (r: Instruction)
    ensures
        r == spec_mos_entry(opcode),
{
    if opcode < 0x40 {
        mos_entry_q0(opcode)
    } else if opcode < 0x80 {
        mos_entry_q1(opcode)
    } else if opcode < 0xC0 {
        mos_entry_q2(opcode)
    } else {
        mos_entry_q3(opcode)
    }
}

/// The MOS 6502 variant: all documented opcodes, the common
/// undocumented ones, JAM slots, and decimal mode supported.
pub struct Mos6502;

impl Mos6502 {
    /// Build the canonical MOS 6502 table: a dense 256-entry map from
    /// opcode to base cycles and operation, each slot exactly
    /// [`spec_mos_entry`] of its opcode.
    pub fn base_table() -> (r: InstructionTable)
        ensures
            r.wf(),
            r.entries@ == Seq::new(256, |i: int| spec_mos_entry(i as u8)),
            r.decimal_enabled,
            !r.interrupt_clears_decimal,
    {
        let mut t: Vec<Instruction> = Vec::new();
        let mut i: usize = 0;
        while i < 256
            invariant
                i <= 256,
                t@ =~= Seq::new(i as nat, |j: int| spec_mos_entry(j as u8)),
            decreases 256 - i,
        {
            t.push(mos_entry(i as u8));
            proof {
                assert(t@ =~= Seq::new((i + 1) as nat, |j: int| spec_mos_entry(j as u8)));
            }
            i = i + 1;
        }
        InstructionTable { entries: t, decimal_enabled: true, interrupt_clears_decimal: false }
    }
}

impl crate::instruction::InstructionSet for Mos6502 {
    open spec fn spec_entry(opcode: u8) -> Instruction {
        spec_mos_entry(opcode)
    }

    open spec fn spec_decimal_enabled() -> bool {
        true
    }

    open spec fn spec_interrupt_clears_decimal() -> bool {
        false
    }

    fn instruction_table() -> (r: InstructionTable) {
        Mos6502::base_table()
    }
}

} // verus!
