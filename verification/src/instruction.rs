//! Instruction dispatch tables.
//!
//! Each of the 256 opcode slots carries a base cycle count and an
//! [`Op`]: the operation the dispatch loop performs, usually paired
//! with an addressing mode.  Implement [`InstructionSet`] to define a
//! CPU variant or to patch an existing table.

use vstd::prelude::*;

use crate::mode::AddressingMode;

verus! {

/// One operation of the 6502 family, with its addressing mode where it
/// has one.  The dispatch loop interprets these; the per-operation
/// semantics live in the handler functions of the variant modules.
#[derive(Clone, Copy, Debug, PartialEq, Eq, Structural)]
pub enum Op {
    Lda(AddressingMode),
    Ldx(AddressingMode),
    Ldy(AddressingMode),
    Sta(AddressingMode),
    Stx(AddressingMode),
    Sty(AddressingMode),
    Tax,
    Tay,
    Tsx,
    Txa,
    Txs,
    Tya,
    Pha,
    Php,
    Pla,
    Plp,
    Asl(AddressingMode),
    AslA,
    Lsr(AddressingMode),
    LsrA,
    Rol(AddressingMode),
    RolA,
    Ror(AddressingMode),
    RorA,
    And(AddressingMode),
    Bit(AddressingMode),
    Eor(AddressingMode),
    Ora(AddressingMode),
    Adc(AddressingMode),
    Cmp(AddressingMode),
    Cpx(AddressingMode),
    Cpy(AddressingMode),
    Sbc(AddressingMode),
    Dec(AddressingMode),
    Dex,
    Dey,
    Inc(AddressingMode),
    Inx,
    Iny,
    /// BRK as the NMOS performs it: decimal mode is left alone.
    Brk,
    /// BRK as the 65C02 performs it: decimal mode is cleared on entry.
    BrkClearDecimal,
    Jmp(AddressingMode),
    Jsr(AddressingMode),
    Rti,
    Rts,
    Bcc,
    Bcs,
    Beq,
    Bmi,
    Bne,
    Bpl,
    Bvc,
    Bvs,
    Clc,
    Cld,
    Cli,
    Clv,
    Sec,
    Sed,
    Sei,
    Nop,
    Las(AddressingMode),
    Lax(AddressingMode),
    Sax(AddressingMode),
    Sha(AddressingMode),
    Shx(AddressingMode),
    Shy(AddressingMode),
    Shs(AddressingMode),
    Anc(AddressingMode),
    Arr(AddressingMode),
    Asr(AddressingMode),
    Dcp(AddressingMode),
    Isc(AddressingMode),
    Rla(AddressingMode),
    Rra(AddressingMode),
    Sbx(AddressingMode),
    Slo(AddressingMode),
    Sre(AddressingMode),
    Xaa(AddressingMode),
    Jam,
    Illegal(AddressingMode),
    IllegalA,
    Bra,
    Stz(AddressingMode),
    Trb(AddressingMode),
    Tsb(AddressingMode),
    IncA,
    DecA,
    Phx,
    Phy,
    Plx,
    Ply,
    /// Branch on a zero-page bit being clear; the payload selects the bit,
    /// taken modulo eight.
    Bbr(u8),
    /// Branch on a zero-page bit being set; the payload selects the bit,
    /// taken modulo eight.
    Bbs(u8),
    /// Clear one bit of a zero-page byte; the payload selects the bit,
    /// taken modulo eight.
    Rmb(u8),
    /// Set one bit of a zero-page byte; the payload selects the bit,
    /// taken modulo eight.
    Smb(u8),
    Stp,
    Wai,
    /// BIT immediate (65C02): updates Z only.
    BitImmediate,
}

/// A single instruction slot: base cycle count plus the operation the
/// dispatch loop runs for it.
#[derive(Clone, Copy, Debug, PartialEq, Eq, Structural)]
pub struct Instruction {
    pub cycles: u8,
    pub op: Op,
}

/// A 256-entry table mapping each opcode to an [`Instruction`], plus
/// the variant behaviour the handlers key off.
#[derive(Clone, Debug, PartialEq, Eq)]
pub struct InstructionTable {
    pub entries: Vec<Instruction>,
    /// Whether the D flag enables BCD correction in ADC/SBC (and the
    /// compound undocumented forms).  False for a 2A03-style variant.
    pub decimal_enabled: bool,
    /// Whether entering an interrupt clears the live D flag, as the
    /// 65C02 does.
    pub interrupt_clears_decimal: bool,
}

impl InstructionTable {
    /// A table is well-formed when it is dense: one entry per opcode.
    pub open spec fn wf(self) -> bool {
        self.entries@.len() == 256
    }

    /// Replace one opcode's slot, returning the patched table.
    pub fn with(self, opcode: u8, instruction: Instruction) -> (r: Self)
        requires
            self.wf(),
        ensures
            r.wf(),
            r.entries@ == self.entries@.update(opcode as int, instruction),
            r.decimal_enabled == self.decimal_enabled,
            r.interrupt_clears_decimal == self.interrupt_clears_decimal,
    {
        let mut t = self;
        t.entries.set(opcode as usize, instruction);
        t
    }
}

/// A CPU variant: a builder for its 256-entry instruction table.
///
/// Implement this to create custom or variant instruction sets, for
/// example by patching one of the bundled tables with
/// [`InstructionTable::with`].
pub trait InstructionSet {
    /// The slot this variant's table holds for each opcode.
    spec fn spec_entry(opcode: u8) -> Instruction;

    /// Whether the D flag enables BCD correction on this variant.
    spec fn spec_decimal_enabled() -> bool;

    /// Whether entering an interrupt clears the live D flag on this
    /// variant.
    spec fn spec_interrupt_clears_decimal() -> bool;

    /// The complete, dense instruction table for this variant: slot by
    /// slot what [`spec_entry`](Self::spec_entry) says, with the
    /// variant's decimal behaviour.
    fn instruction_table() -> (r: InstructionTable)
        ensures
            r.wf(),
            r.entries@ == Seq::new(256, |i: int| Self::spec_entry(i as u8)),
            r.decimal_enabled == Self::spec_decimal_enabled(),
            r.interrupt_clears_decimal == Self::spec_interrupt_clears_decimal(),
    ;
}

} // verus!
