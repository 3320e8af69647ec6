//! The addressing modes of the 6502 family.
//!
//! Each mode computes a 16-bit effective address from the operand bytes
//! at `PC+1...` without advancing PC; instruction length (`bytes`)
//! includes the opcode byte.

use vstd::prelude::*;

use crate::access::AccessType;
use crate::arith::{make_word, wadd16, wadd8, word, wrap16, wrap8};
use crate::bus::Bus;
use crate::cpu::Cpu;

verus! {

/// One of the addressing modes.  The NMOS-only indirect-JMP page-wrap
/// bug is its own mode (`AbsoluteIndirect`), beside the corrected
/// 65C02 form (`AbsoluteIndirectCorrect`).
#[derive(Clone, Copy, Debug, PartialEq, Eq, Structural)]
pub enum AddressingMode {
    Immediate,
    Absolute,
    AbsoluteX,
    AbsoluteY,
    AbsoluteIndirect,
    AbsoluteIndirectCorrect,
    AbsoluteIndirectX,
    ZeroPage,
    ZeroPageX,
    ZeroPageY,
    ZeroPageIndirect,
    ZeroPageXIndirect,
    ZeroPageIndirectY,
}

/// The little-endian word stored at `addr`, the second byte read with
/// 16-bit wrap.
pub open spec fn mem_word(mem: Seq<u8>, addr: u16) -> u16 {
    word(mem[addr as int], mem[wrap16(addr + 1) as int])
}

/// The little-endian word stored in the zero page at `zp`, the second
/// byte wrapping within the zero page.
pub open spec fn zp_word(mem: Seq<u8>, zp: u8) -> u16 {
    word(mem[zp as int], mem[wrap8(zp + 1) as int])
}

/// The address the NMOS indirect-JMP bug reads the high byte from: the
/// pointer's low byte is incremented without carrying into the page.
pub open spec fn nmos_wrap_addr(ptr: u16) -> u16 {
    ((ptr as int / 0x100) * 0x100 + (ptr as int % 0x100 + 1) % 0x100) as u16
}

/// The little-endian word read through `ptr` with the NMOS page-wrap
/// bug applied to the high-byte fetch.
pub open spec fn bug_word(mem: Seq<u8>, ptr: u16) -> u16 {
    word(mem[ptr as int], mem[nmos_wrap_addr(ptr) as int])
}

impl AddressingMode {
    /// Total instruction length for this mode, opcode included.
    pub open spec fn spec_bytes(self) -> u16 {
        match self {
            AddressingMode::Immediate => 2,
            AddressingMode::Absolute => 3,
            AddressingMode::AbsoluteX => 3,
            AddressingMode::AbsoluteY => 3,
            AddressingMode::AbsoluteIndirect => 3,
            AddressingMode::AbsoluteIndirectCorrect => 3,
            AddressingMode::AbsoluteIndirectX => 3,
            AddressingMode::ZeroPage => 2,
            AddressingMode::ZeroPageX => 2,
            AddressingMode::ZeroPageY => 2,
            AddressingMode::ZeroPageIndirect => 2,
            AddressingMode::ZeroPageXIndirect => 2,
            AddressingMode::ZeroPageIndirectY => 2,
        }
    }

    /// Total instruction length for this mode, opcode included.
    pub fn bytes(self) -> (r: u16)
        ensures
            r == self.spec_bytes(),
    {
        match self {
            AddressingMode::Immediate => 2,
            AddressingMode::Absolute => 3,
            AddressingMode::AbsoluteX => 3,
            AddressingMode::AbsoluteY => 3,
            AddressingMode::AbsoluteIndirect => 3,
            AddressingMode::AbsoluteIndirectCorrect => 3,
            AddressingMode::AbsoluteIndirectX => 3,
            AddressingMode::ZeroPage => 2,
            AddressingMode::ZeroPageX => 2,
            AddressingMode::ZeroPageY => 2,
            AddressingMode::ZeroPageIndirect => 2,
            AddressingMode::ZeroPageXIndirect => 2,
            AddressingMode::ZeroPageIndirectY => 2,
        }
    }

    /// The effective address this mode denotes, as a function of the
    /// register file and the memory it reads operand and pointer bytes
    /// from.  Kept opaque: callers reason about it as a value; the
    /// definition is revealed where the address is computed.
    #[verifier::opaque]
    pub open spec fn spec_addr(self, cpu: Cpu, mem: Seq<u8>) -> u16 {
        let op1 = mem[wrap16(cpu.pc + 1) as int];
        match self {
            AddressingMode::Immediate => wrap16(cpu.pc + 1),
            AddressingMode::Absolute => mem_word(mem, wrap16(cpu.pc + 1)),
            AddressingMode::AbsoluteX => wrap16(mem_word(mem, wrap16(cpu.pc + 1)) + cpu.x),
            AddressingMode::AbsoluteY => wrap16(mem_word(mem, wrap16(cpu.pc + 1)) + cpu.y),
            AddressingMode::AbsoluteIndirect => bug_word(mem, mem_word(mem, wrap16(cpu.pc + 1))),
            AddressingMode::AbsoluteIndirectCorrect => mem_word(
                mem,
                mem_word(mem, wrap16(cpu.pc + 1)),
            ),
            AddressingMode::AbsoluteIndirectX => mem_word(
                mem,
                wrap16(mem_word(mem, wrap16(cpu.pc + 1)) + cpu.x),
            ),
            AddressingMode::ZeroPage => op1 as u16,
            AddressingMode::ZeroPageX => wrap8(op1 + cpu.x) as u16,
            AddressingMode::ZeroPageY => wrap8(op1 + cpu.y) as u16,
            AddressingMode::ZeroPageIndirect => zp_word(mem, op1),
            AddressingMode::ZeroPageXIndirect => zp_word(mem, wrap8(op1 + cpu.x)),
            AddressingMode::ZeroPageIndirectY => wrap16(zp_word(mem, op1) + cpu.y),
        }
    }

    /// Compute the effective address for this mode, reading operand and
    /// pointer bytes from the bus.  PC is not advanced; that is the
    /// instruction's responsibility.
    pub fn fetch_address<B: Bus>(self, cpu: &Cpu, bus: &mut B) -> (addr: u16)
        requires
            old(bus).inv(),
        ensures
            final(bus).inv(),
            final(bus).mem() == old(bus).mem(),
            final(bus).dma() == old(bus).dma(),
            final(bus).ticks() == old(bus).ticks(),
            addr == self.spec_addr(*cpu, old(bus).mem()),
    {
        proof {
            reveal(AddressingMode::spec_addr);
        }
        match self {
            AddressingMode::Immediate => wadd16(cpu.pc, 1),
            AddressingMode::Absolute => {
                let lo_b = bus.read(wadd16(cpu.pc, 1), AccessType::DataRead);
                let hi_b = bus.read(wadd16(cpu.pc, 2), AccessType::DataRead);
                proof {
                    crate::arith::lemma_wrap16_chain(cpu.pc);
                }
                make_word(lo_b, hi_b)
            },
            AddressingMode::AbsoluteX => {
                let lo_b = bus.read(wadd16(cpu.pc, 1), AccessType::DataRead);
                let hi_b = bus.read(wadd16(cpu.pc, 2), AccessType::DataRead);
                proof {
                    crate::arith::lemma_wrap16_chain(cpu.pc);
                }
                wadd16(make_word(lo_b, hi_b), cpu.x as u16)
            },
            AddressingMode::AbsoluteY => {
                let lo_b = bus.read(wadd16(cpu.pc, 1), AccessType::DataRead);
                let hi_b = bus.read(wadd16(cpu.pc, 2), AccessType::DataRead);
                proof {
                    crate::arith::lemma_wrap16_chain(cpu.pc);
                }
                wadd16(make_word(lo_b, hi_b), cpu.y as u16)
            },
            AddressingMode::AbsoluteIndirect => {
                let lo_b = bus.read(wadd16(cpu.pc, 1), AccessType::DataRead);
                let hi_b = bus.read(wadd16(cpu.pc, 2), AccessType::DataRead);
                proof {
                    crate::arith::lemma_wrap16_chain(cpu.pc);
                }
                let ptr = make_word(lo_b, hi_b);
                let high_addr = (ptr / 0x100) * 0x100 + (ptr % 0x100 + 1) % 0x100;
                let eff_lo = bus.read(ptr, AccessType::DataRead);
                let eff_hi = bus.read(high_addr, AccessType::DataRead);
                make_word(eff_lo, eff_hi)
            },
            AddressingMode::AbsoluteIndirectCorrect => {
                let lo_b = bus.read(wadd16(cpu.pc, 1), AccessType::DataRead);
                let hi_b = bus.read(wadd16(cpu.pc, 2), AccessType::DataRead);
                proof {
                    crate::arith::lemma_wrap16_chain(cpu.pc);
                }
                let ptr = make_word(lo_b, hi_b);
                let eff_lo = bus.read(ptr, AccessType::DataRead);
                let eff_hi = bus.read(wadd16(ptr, 1), AccessType::DataRead);
                make_word(eff_lo, eff_hi)
            },
            AddressingMode::AbsoluteIndirectX => {
                let lo_b = bus.read(wadd16(cpu.pc, 1), AccessType::DataRead);
                let hi_b = bus.read(wadd16(cpu.pc, 2), AccessType::DataRead);
                proof {
                    crate::arith::lemma_wrap16_chain(cpu.pc);
                }
                let ptr = wadd16(make_word(lo_b, hi_b), cpu.x as u16);
                let eff_lo = bus.read(ptr, AccessType::DataRead);
                let eff_hi = bus.read(wadd16(ptr, 1), AccessType::DataRead);
                make_word(eff_lo, eff_hi)
            },
            AddressingMode::ZeroPage => {
                let zp = bus.read(wadd16(cpu.pc, 1), AccessType::DataRead);
                zp as u16
            },
            AddressingMode::ZeroPageX => {
                let zp = bus.read(wadd16(cpu.pc, 1), AccessType::DataRead);
                wadd8(zp, cpu.x) as u16
            },
            AddressingMode::ZeroPageY => {
                let zp = bus.read(wadd16(cpu.pc, 1), AccessType::DataRead);
                wadd8(zp, cpu.y) as u16
            },
            AddressingMode::ZeroPageIndirect => {
                let zp = bus.read(wadd16(cpu.pc, 1), AccessType::DataRead);
                let lo_b = bus.read(zp as u16, AccessType::DataRead);
                let hi_b = bus.read(wadd8(zp, 1) as u16, AccessType::DataRead);
                make_word(lo_b, hi_b)
            },
            AddressingMode::ZeroPageXIndirect => {
                let zp = bus.read(wadd16(cpu.pc, 1), AccessType::DataRead);
                let base = wadd8(zp, cpu.x);
                let lo_b = bus.read(base as u16, AccessType::DataRead);
                let hi_b = bus.read(wadd8(base, 1) as u16, AccessType::DataRead);
                make_word(lo_b, hi_b)
            },
            AddressingMode::ZeroPageIndirectY => {
                let zp = bus.read(wadd16(cpu.pc, 1), AccessType::DataRead);
                let lo_b = bus.read(zp as u16, AccessType::DataRead);
                let hi_b = bus.read(wadd8(zp, 1) as u16, AccessType::DataRead);
                wadd16(make_word(lo_b, hi_b), cpu.y as u16)
            },
        }
    }
}


/// The two indirect-JMP behaviours at a page boundary.  Through a
/// pointer whose low byte is `$FF`, the NMOS mode reads its high byte
/// from the start of the pointer's own page, while the corrected 65C02
/// mode reads it from the next page.
pub proof fn lemma_indirect_jmp_page_boundary(cpu: Cpu, mem: Seq<u8>)
    requires
        mem_word(mem, wrap16(cpu.pc + 1)) % 0x100 == 0xFF,
    ensures
        ({
            let ptr = mem_word(mem, wrap16(cpu.pc + 1));
            &&& AddressingMode::AbsoluteIndirect.spec_addr(cpu, mem) == word(
                mem[ptr as int],
                mem[ptr - 0xFF],
            )
            &&& AddressingMode::AbsoluteIndirectCorrect.spec_addr(cpu, mem) == word(
                mem[ptr as int],
                mem[wrap16(ptr + 1) as int],
            )
        }),
{
    reveal(AddressingMode::spec_addr);
    let ptr = mem_word(mem, wrap16(cpu.pc + 1));
    vstd::arithmetic::div_mod::lemma_fundamental_div_mod(ptr as int, 0x100);
    assert(nmos_wrap_addr(ptr) == ptr - 0xFF);
}

/// The zero-page indirect modes take both pointer bytes from the zero
/// page: the second read wraps at `$FF` back to `$00` instead of
/// leaving the page.
pub proof fn lemma_zero_page_pointer_wrap(cpu: Cpu, mem: Seq<u8>)
    ensures
        ({
            let zp = mem[wrap16(cpu.pc + 1) as int];
            &&& AddressingMode::ZeroPageIndirect.spec_addr(cpu, mem) == word(
                mem[zp as int],
                mem[wrap8(zp + 1) as int],
            )
            &&& AddressingMode::ZeroPageXIndirect.spec_addr(cpu, mem) == word(
                mem[wrap8(zp + cpu.x) as int],
                mem[wrap8(wrap8(zp + cpu.x) + 1) as int],
            )
            &&& AddressingMode::ZeroPageIndirectY.spec_addr(cpu, mem) == wrap16(
                word(mem[zp as int], mem[wrap8(zp + 1) as int]) + cpu.y,
            )
            &&& wrap8(0xFF as int + 1) == 0x00
        }),
{
    reveal(AddressingMode::spec_addr);
}

} // verus!
