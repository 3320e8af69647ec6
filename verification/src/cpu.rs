//! The processor core: register file, stack protocol, interrupt
//! sequencing, and the execution loop.

use vstd::prelude::*;

use crate::access::AccessType;
use crate::alu::{rotate_flags, spec_add_with_carry, spec_rol, spec_ror, spec_sub_with_borrow};
use crate::arith::{bit_n, hi, lo, make_word, page, word, wrap16, wrap64, wrap8, wsub8};
use crate::mos6502::{advanced, operand, spec_arr, spec_asl, spec_branch, spec_brk, spec_compare,
    spec_lsr, with_zn};
use crate::wdc65c02s::{spec_branch_on_bit, spec_with_bit};
use crate::bus::Bus;
use crate::flags::Flags;
use crate::instruction::{InstructionSet, InstructionTable, Op};
use crate::mode::AddressingMode;
use crate::run::{RunConfig, RunOutcome, RunPredicate, RunSummary};

verus! {

/// One of the three interrupt lines that can be latched on the
/// processor.
#[derive(Clone, Copy, Debug, PartialEq, Eq, Structural)]
pub enum Interrupt {
    Reset,
    Nmi,
    Irq,
}

/// Whether the processor is executing, idling after WAI, or halted
/// after STP/JAM.
#[derive(Clone, Copy, Debug, PartialEq, Eq, Structural)]
pub enum RunState {
    Running,
    Waiting,
    Halted,
}

/// IRQ/BRK vector low byte address.
pub const IRQ_VECTOR_LO: u16 = 0xFFFE;

/// IRQ/BRK vector high byte address.
pub const IRQ_VECTOR_HI: u16 = 0xFFFF;

/// NMI vector low byte address.
pub const NMI_VECTOR_LO: u16 = 0xFFFA;

/// NMI vector high byte address.
pub const NMI_VECTOR_HI: u16 = 0xFFFB;

/// RESET vector low byte address.
pub const RESET_VECTOR_LO: u16 = 0xFFFC;

/// RESET vector high byte address.
pub const RESET_VECTOR_HI: u16 = 0xFFFD;

/// Start of stack space (the stack grows downward from `$01FF` to `$0100`).
pub const STACK_SPACE_START: u16 = 0x0100;

/// The 6502 CPU: registers, status, interrupt latches, and the
/// instruction table of its variant.  Every operation borrows the bus
/// it drives for the duration of the call.
#[derive(Debug)]
pub struct Cpu {
    /// Accumulator register.
    pub a: u8,
    /// X index register.
    pub x: u8,
    /// Y index register.
    pub y: u8,
    /// Processor status flags.
    pub p: Flags,
    /// Stack pointer; the effective stack address is `$0100 + SP`.
    pub sp: u8,
    /// Program counter.
    pub pc: u16,
    /// Total cycles executed, monotonic until reset.
    pub cycles: u64,
    /// Cycles consumed by the most recent step.
    pub last_step_cycles: u8,
    /// Opcode executed by the most recent successful step.
    pub last_opcode: u8,
    /// Instruction dispatch table.
    pub table: InstructionTable,
    /// Running, Waiting (after WAI), or Halted (after STP/JAM).
    pub run_state: RunState,
    /// Latched IRQ request, sampled at the next step boundary.
    pub irq_pending: bool,
    /// Latched NMI request, sampled at the next step boundary.
    pub nmi_pending: bool,
    /// Latched reset request, sampled at the next step boundary.
    pub reset_pending: bool,
}

impl Cpu {
    /// A processor is well-formed when its instruction table is dense.
    pub open spec fn wf(self) -> bool {
        self.table.wf()
    }

    /// The register file after a reset against memory `mem`: power-on
    /// defaults, zero cycles, and PC loaded from the reset vector.
    /// Interrupt latches and the table carry over.
    pub open spec fn spec_reset(self, mem: Seq<u8>) -> Cpu {
        Cpu {
            a: 0,
            x: 0,
            y: 0,
            sp: 0xFD,
            p: Flags::spec_power_on(),
            cycles: 0,
            last_step_cycles: 0,
            last_opcode: 0,
            run_state: RunState::Running,
            pc: word(mem[RESET_VECTOR_LO as int], mem[RESET_VECTOR_HI as int]),
            ..self
        }
    }

    /// Create a new CPU with the given instruction set and power-on
    /// register defaults: A/X/Y zero, SP `$FD`, P = I|E, PC zero, no
    /// cycles spent, running, and no interrupt latched.
    pub fn with_instruction_set<S: InstructionSet>() -> (r: Self)
        ensures
            r.wf(),
            r.a == 0 && r.x == 0 && r.y == 0,
            r.p == Flags::spec_power_on(),
            r.sp == 0xFD,
            r.pc == 0,
            r.cycles == 0,
            r.last_step_cycles == 0,
            r.last_opcode == 0,
            r.run_state == RunState::Running,
            !r.irq_pending && !r.nmi_pending && !r.reset_pending,
            r.table.entries@ == Seq::new(256, |i: int| S::spec_entry(i as u8)),
            r.table.decimal_enabled == S::spec_decimal_enabled(),
            r.table.interrupt_clears_decimal == S::spec_interrupt_clears_decimal(),
    {
        Cpu {
            a: 0,
            x: 0,
            y: 0,
            p: Flags::power_on(),
            sp: 0xFD,
            pc: 0,
            cycles: 0,
            last_step_cycles: 0,
            last_opcode: 0,
            table: S::instruction_table(),
            run_state: RunState::Running,
            irq_pending: false,
            nmi_pending: false,
            reset_pending: false,
        }
    }

    /// Convenience constructor: write the reset vector, construct, and
    /// reset, so that PC starts at `reset_vector`.
    pub fn with_reset_vector<S: InstructionSet, B: Bus>(bus: &mut B, reset_vector: u16) -> (r: Self)
        requires
            old(bus).inv(),
        ensures
            final(bus).inv(),
            final(bus).mem() == old(bus).mem().update(RESET_VECTOR_LO as int, lo(reset_vector)).update(
                RESET_VECTOR_HI as int,
                hi(reset_vector),
            ),
            final(bus).dma() == old(bus).dma(),
            final(bus).ticks() == old(bus).ticks(),
            r.wf(),
            r == Cpu::spec_power_on_with(r.table).spec_reset(final(bus).mem()),
            r.pc == reset_vector,
    {
        proof {
            bus.inv_mem_len();
        }
        crate::bus::set_reset_vector(bus, reset_vector);
        let mut cpu = Self::with_instruction_set::<S>();
        proof {
            assert(bus.mem()[RESET_VECTOR_LO as int] == lo(reset_vector));
            assert(bus.mem()[RESET_VECTOR_HI as int] == hi(reset_vector));
            crate::arith::lemma_word_lo_hi(reset_vector);
        }
        cpu.reset(bus);
        cpu
    }

    /// Convenience constructor: block-write a program, write the reset
    /// vector, construct, and reset.
    pub fn with_program<S: InstructionSet, B: Bus>(
        bus: &mut B,
        load_address: u16,
        program: &[u8],
        reset_vector: u16,
    ) -> (r: Self)
        requires
            old(bus).inv(),
        ensures
            final(bus).inv(),
            final(bus).mem() == crate::bus::spec_write_block(
                old(bus).mem(),
                load_address,
                program@,
            ).update(RESET_VECTOR_LO as int, lo(reset_vector)).update(
                RESET_VECTOR_HI as int,
                hi(reset_vector),
            ),
            final(bus).dma() == old(bus).dma(),
            final(bus).ticks() == old(bus).ticks(),
            r.wf(),
            r.pc == reset_vector,
            r == Cpu::spec_power_on_with(r.table).spec_reset(final(bus).mem()),
    {
        crate::bus::write_block(bus, load_address, program, AccessType::DataWrite);
        Self::with_reset_vector::<S, B>(bus, reset_vector)
    }

    /// The power-on register file around a given table: what
    /// [`Cpu::with_instruction_set`] returns.
    pub open spec fn spec_power_on_with(table: InstructionTable) -> Cpu {
        Cpu {
            a: 0,
            x: 0,
            y: 0,
            p: Flags::spec_power_on(),
            sp: 0xFD,
            pc: 0,
            cycles: 0,
            last_step_cycles: 0,
            last_opcode: 0,
            table: table,
            run_state: RunState::Running,
            irq_pending: false,
            nmi_pending: false,
            reset_pending: false,
        }
    }

    /// Reset the CPU: re-establish the power-on register defaults,
    /// clear the cycle count, and load PC from `$FFFC`/`$FFFD`.  The
    /// sequence reads only the reset vector and pushes nothing.
    pub fn reset<B: Bus>(&mut self, bus: &mut B)
        requires
            old(bus).inv(),
        ensures
            final(bus).inv(),
            final(bus).mem() == old(bus).mem(),
            final(bus).dma() == old(bus).dma(),
            final(bus).ticks() == old(bus).ticks(),
            *final(self) == old(self).spec_reset(old(bus).mem()),
    {
        self.a = 0;
        self.x = 0;
        self.y = 0;
        self.sp = 0xFD;
        self.p = Flags::power_on();
        self.cycles = 0;
        self.last_step_cycles = 0;
        self.last_opcode = 0;
        self.run_state = RunState::Running;
        let lo_b = bus.read(RESET_VECTOR_LO, AccessType::InterruptVectorRead);
        let hi_b = bus.read(RESET_VECTOR_HI, AccessType::InterruptVectorRead);
        self.pc = make_word(lo_b, hi_b);
    }

    /// Push a byte onto the stack: write at `$0100 + SP`, then
    /// decrement SP with 8-bit wrap.
    pub fn push<B: Bus>(&mut self, bus: &mut B, val: u8)
        requires
            old(bus).inv(),
        ensures
            final(bus).inv(),
            final(bus).mem() == old(bus).mem().update(
                STACK_SPACE_START + old(self).sp as int,
                val,
            ),
            final(bus).dma() == old(bus).dma(),
            final(bus).ticks() == old(bus).ticks(),
            *final(self) == (Cpu { sp: wrap8(old(self).sp - 1), ..*old(self) }),
    {
        let addr: u16 = STACK_SPACE_START + (self.sp as u16);
        bus.write(addr, val, AccessType::StackWrite);
        self.sp = wsub8(self.sp, 1);
    }

    /// Pull a byte from the stack: increment SP with 8-bit wrap, then
    /// read at `$0100 + SP`.
    pub fn pop<B: Bus>(&mut self, bus: &mut B) -> (r: u8)
        requires
            old(bus).inv(),
        ensures
            final(bus).inv(),
            final(bus).mem() == old(bus).mem(),
            final(bus).dma() == old(bus).dma(),
            final(bus).ticks() == old(bus).ticks(),
            *final(self) == (Cpu { sp: wrap8(old(self).sp + 1), ..*old(self) }),
            r == old(bus).mem()[STACK_SPACE_START + wrap8(old(self).sp + 1) as int],
    {
        self.sp = crate::arith::wadd8(self.sp, 1);
        let addr: u16 = STACK_SPACE_START + (self.sp as u16);
        bus.read(addr, AccessType::StackRead)
    }

    /// Whether `from` and `to` lie on different 256-byte pages.  Some
    /// instructions charge an extra cycle when an address computation
    /// crosses a page.
    pub fn crosses_page(&self, from: u16, to: u16) -> (r: bool)
        ensures
            r == (page(from) != page(to)),
    {
        crate::arith::crosses_page_exec(from, to)
    }

    /// Latch an interrupt request; it is sampled at the next step
    /// boundary, in the priority order reset, NMI, IRQ.
    pub fn request_interrupt(&mut self, interrupt: Interrupt)
        ensures
            *final(self) == (match interrupt {
                Interrupt::Reset => Cpu { reset_pending: true, ..*old(self) },
                Interrupt::Nmi => Cpu { nmi_pending: true, ..*old(self) },
                Interrupt::Irq => Cpu { irq_pending: true, ..*old(self) },
            }),
    {
        match interrupt {
            Interrupt::Reset => self.reset_pending = true,
            Interrupt::Nmi => self.nmi_pending = true,
            Interrupt::Irq => self.irq_pending = true,
        }
    }
}


/// The processor and memory after an NMI or IRQ entry: PC pushed high
/// then low, then P with B and D cleared in the pushed byte; the live
/// flags gain I (and lose D when the variant clears it); PC loads from
/// the interrupt's vector; a waiting processor wakes.
pub open spec fn spec_enter_interrupt(cpu: Cpu, mem: Seq<u8>, vec_lo: u16, vec_hi: u16) -> (
    Cpu,
    Seq<u8>,
) {
    let pushed = (Flags { break_flag: false, decimal_mode: false, ..cpu.p }).spec_bits();
    let m = mem.update(STACK_SPACE_START + cpu.sp as int, hi(cpu.pc)).update(
        STACK_SPACE_START + wrap8(cpu.sp - 1) as int,
        lo(cpu.pc),
    ).update(STACK_SPACE_START + wrap8(cpu.sp - 2) as int, pushed);
    let c = Cpu {
        run_state: RunState::Running,
        sp: wrap8(cpu.sp - 3),
        p: Flags {
            interrupt_disabled: true,
            decimal_mode: !cpu.table.interrupt_clears_decimal && cpu.p.decimal_mode,
            ..cpu.p
        },
        pc: word(m[vec_lo as int], m[vec_hi as int]),
        ..cpu
    };
    (c, m)
}

/// The state one operation leaves behind: for every [`Op`], the exact
/// new register file and memory as a function of the old, written with
/// the same spec functions the handlers' own contracts use.  The
/// definition is spread over the group functions below, mirroring the
/// dispatch; each group is opaque and revealed only by its dispatch
/// arm, so callers carry the result as a value.
pub open spec fn spec_op_apply(op: Op, cpu: Cpu, mem: Seq<u8>) -> (Cpu, Seq<u8>) {
    match op {
        Op::Lda(_) | Op::Ldx(_) | Op::Ldy(_) | Op::Sta(_) | Op::Stx(_) | Op::Sty(_) => spec_op_apply_group_0(op, cpu, mem),
        Op::Tax | Op::Tay | Op::Tsx | Op::Txa | Op::Tya | Op::Txs => spec_op_apply_group_1(op, cpu, mem),
        Op::Pha | Op::Php | Op::Pla | Op::Plp | Op::Asl(_) | Op::AslA => spec_op_apply_group_2(op, cpu, mem),
        Op::Lsr(_) | Op::LsrA | Op::Rol(_) | Op::RolA | Op::Ror(_) | Op::RorA => spec_op_apply_group_3(op, cpu, mem),
        Op::And(_) | Op::Ora(_) | Op::Eor(_) | Op::Bit(_) | Op::Adc(_) | Op::Sbc(_) => spec_op_apply_group_4(op, cpu, mem),
        Op::Cmp(_) | Op::Cpx(_) | Op::Cpy(_) | Op::Dec(_) | Op::Inc(_) | Op::Dex => spec_op_apply_group_5(op, cpu, mem),
        Op::Dey | Op::Inx | Op::Iny | Op::Brk | Op::BrkClearDecimal | Op::Jmp(_) => spec_op_apply_group_6(op, cpu, mem),
        Op::Jsr(_) | Op::Rti | Op::Rts | Op::Bcc | Op::Bcs | Op::Beq => spec_op_apply_group_7(op, cpu, mem),
        Op::Bmi | Op::Bne | Op::Bpl | Op::Bvc | Op::Bvs | Op::Clc => spec_op_apply_group_8(op, cpu, mem),
        Op::Cld | Op::Cli | Op::Clv | Op::Sec | Op::Sed | Op::Sei => spec_op_apply_group_9(op, cpu, mem),
        Op::Nop | Op::Las(_) | Op::Lax(_) | Op::Sax(_) | Op::Sha(_) | Op::Shx(_) => spec_op_apply_group_10(op, cpu, mem),
        Op::Shy(_) | Op::Shs(_) | Op::Anc(_) | Op::Arr(_) | Op::Asr(_) | Op::Dcp(_) => spec_op_apply_group_11(op, cpu, mem),
        Op::Isc(_) | Op::Rla(_) | Op::Slo(_) | Op::Sre(_) | Op::Rra(_) | Op::Sbx(_) => spec_op_apply_group_12(op, cpu, mem),
        Op::Xaa(_) | Op::Jam | Op::Illegal(_) | Op::IllegalA | Op::Bra | Op::Stz(_) => spec_op_apply_group_13(op, cpu, mem),
        Op::Trb(_) | Op::Tsb(_) | Op::IncA | Op::DecA | Op::Phx | Op::Phy => spec_op_apply_group_14(op, cpu, mem),
        Op::Plx | Op::Ply | Op::Bbr(_) | Op::Bbs(_) | Op::Rmb(_) | Op::Smb(_) => spec_op_apply_group_15(op, cpu, mem),
        Op::Stp | Op::Wai | Op::BitImmediate => spec_op_apply_group_16(op, cpu, mem),
    }
}

/// One group of [`spec_op_apply`]'s definition; operations outside
/// the group are never routed to it.
#[verifier::opaque]
pub open spec fn spec_op_apply_group_0(op: Op, cpu: Cpu, mem: Seq<u8>) -> (Cpu, Seq<u8>) {
    match op {
        Op::Lda(m) => {
            let v = operand(cpu, mem, m);
            (Cpu { a: v, p: with_zn(cpu.p, v), pc: advanced(cpu, m), ..cpu }, mem)
        },
        Op::Ldx(m) => {
            let v = operand(cpu, mem, m);
            (Cpu { x: v, p: with_zn(cpu.p, v), pc: advanced(cpu, m), ..cpu }, mem)
        },
        Op::Ldy(m) => {
            let v = operand(cpu, mem, m);
            (Cpu { y: v, p: with_zn(cpu.p, v), pc: advanced(cpu, m), ..cpu }, mem)
        },
        Op::Sta(m) => (
            Cpu { pc: advanced(cpu, m), ..cpu },
            mem.update(m.spec_addr(cpu, mem) as int, cpu.a),
        ),
        Op::Stx(m) => (
            Cpu { pc: advanced(cpu, m), ..cpu },
            mem.update(m.spec_addr(cpu, mem) as int, cpu.x),
        ),
        Op::Sty(m) => (
            Cpu { pc: advanced(cpu, m), ..cpu },
            mem.update(m.spec_addr(cpu, mem) as int, cpu.y),
        ),
        _ => (cpu, mem),
    }
}

/// One group of [`spec_op_apply`]'s definition; operations outside
/// the group are never routed to it.
#[verifier::opaque]
pub open spec fn spec_op_apply_group_1(op: Op, cpu: Cpu, mem: Seq<u8>) -> (Cpu, Seq<u8>) {
    match op {
        Op::Tax => (
            Cpu { x: cpu.a, p: with_zn(cpu.p, cpu.a), pc: wrap16(cpu.pc + 1), ..cpu },
            mem,
        ),
        Op::Tay => (
            Cpu { y: cpu.a, p: with_zn(cpu.p, cpu.a), pc: wrap16(cpu.pc + 1), ..cpu },
            mem,
        ),
        Op::Tsx => (
            Cpu { x: cpu.sp, p: with_zn(cpu.p, cpu.sp), pc: wrap16(cpu.pc + 1), ..cpu },
            mem,
        ),
        Op::Txa => (
            Cpu { a: cpu.x, p: with_zn(cpu.p, cpu.x), pc: wrap16(cpu.pc + 1), ..cpu },
            mem,
        ),
        Op::Tya => (
            Cpu { a: cpu.y, p: with_zn(cpu.p, cpu.y), pc: wrap16(cpu.pc + 1), ..cpu },
            mem,
        ),
        Op::Txs => (Cpu { sp: cpu.x, pc: wrap16(cpu.pc + 1), ..cpu }, mem),
        _ => (cpu, mem),
    }
}

/// One group of [`spec_op_apply`]'s definition; operations outside
/// the group are never routed to it.
#[verifier::opaque]
pub open spec fn spec_op_apply_group_2(op: Op, cpu: Cpu, mem: Seq<u8>) -> (Cpu, Seq<u8>) {
    match op {
        Op::Pha => (
            Cpu { sp: wrap8(cpu.sp - 1), pc: wrap16(cpu.pc + 1), ..cpu },
            mem.update(STACK_SPACE_START + cpu.sp as int, cpu.a),
        ),
        Op::Php => (
            Cpu { sp: wrap8(cpu.sp - 1), pc: wrap16(cpu.pc + 1), ..cpu },
            mem.update(
                STACK_SPACE_START + cpu.sp as int,
                (Flags { break_flag: true, expansion: true, ..cpu.p }).spec_bits(),
            ),
        ),
        Op::Pla => {
            let v = mem[STACK_SPACE_START + wrap8(cpu.sp + 1) as int];
            (Cpu { a: v, p: with_zn(cpu.p, v), sp: wrap8(cpu.sp + 1), pc: wrap16(cpu.pc + 1), ..cpu }, mem)
        },
        Op::Plp => {
            let v = mem[STACK_SPACE_START + wrap8(cpu.sp + 1) as int];
            (
                Cpu {
                    p: Flags { expansion: true, break_flag: false, ..Flags::spec_from_bits(v) },
                    sp: wrap8(cpu.sp + 1),
                    pc: wrap16(cpu.pc + 1),
                    ..cpu
                },
                mem,
            )
        },
        Op::Asl(m) => {
            let v = operand(cpu, mem, m);
            let r = spec_asl(v);
            (
                Cpu {
                    p: Flags { carry: v >= 0x80, zero: r == 0, sign: r >= 0x80, ..cpu.p },
                    pc: advanced(cpu, m),
                    ..cpu
                },
                mem.update(m.spec_addr(cpu, mem) as int, r),
            )
        },
        Op::AslA => {
            let r = spec_asl(cpu.a);
            (
                Cpu {
                    a: r,
                    p: Flags { carry: cpu.a >= 0x80, zero: r == 0, sign: r >= 0x80, ..cpu.p },
                    pc: wrap16(cpu.pc + 1),
                    ..cpu
                },
                mem,
            )
        },
        _ => (cpu, mem),
    }
}

/// One group of [`spec_op_apply`]'s definition; operations outside
/// the group are never routed to it.
#[verifier::opaque]
pub open spec fn spec_op_apply_group_3(op: Op, cpu: Cpu, mem: Seq<u8>) -> (Cpu, Seq<u8>) {
    match op {
        Op::Lsr(m) => {
            let v = operand(cpu, mem, m);
            let r = spec_lsr(v);
            (
                Cpu {
                    p: Flags { carry: v % 2 == 1, zero: r == 0, sign: r >= 0x80, ..cpu.p },
                    pc: advanced(cpu, m),
                    ..cpu
                },
                mem.update(m.spec_addr(cpu, mem) as int, r),
            )
        },
        Op::LsrA => {
            let r = spec_lsr(cpu.a);
            (
                Cpu {
                    a: r,
                    p: Flags { carry: cpu.a % 2 == 1, zero: r == 0, sign: r >= 0x80, ..cpu.p },
                    pc: wrap16(cpu.pc + 1),
                    ..cpu
                },
                mem,
            )
        },
        Op::Rol(m) => {
            let r = spec_rol(operand(cpu, mem, m), cpu.p.carry);
            (
                Cpu { p: rotate_flags(cpu.p, r.0, r.1), pc: advanced(cpu, m), ..cpu },
                mem.update(m.spec_addr(cpu, mem) as int, r.0),
            )
        },
        Op::RolA => {
            let r = spec_rol(cpu.a, cpu.p.carry);
            (Cpu { a: r.0, p: rotate_flags(cpu.p, r.0, r.1), pc: wrap16(cpu.pc + 1), ..cpu }, mem)
        },
        Op::Ror(m) => {
            let r = spec_ror(operand(cpu, mem, m), cpu.p.carry);
            (
                Cpu { p: rotate_flags(cpu.p, r.0, r.1), pc: advanced(cpu, m), ..cpu },
                mem.update(m.spec_addr(cpu, mem) as int, r.0),
            )
        },
        Op::RorA => {
            let r = spec_ror(cpu.a, cpu.p.carry);
            (Cpu { a: r.0, p: rotate_flags(cpu.p, r.0, r.1), pc: wrap16(cpu.pc + 1), ..cpu }, mem)
        },
        _ => (cpu, mem),
    }
}

/// One group of [`spec_op_apply`]'s definition; operations outside
/// the group are never routed to it.
#[verifier::opaque]
pub open spec fn spec_op_apply_group_4(op: Op, cpu: Cpu, mem: Seq<u8>) -> (Cpu, Seq<u8>) {
    match op {
        Op::And(m) => {
            let r = cpu.a & operand(cpu, mem, m);
            (Cpu { a: r, p: with_zn(cpu.p, r), pc: advanced(cpu, m), ..cpu }, mem)
        },
        Op::Ora(m) => {
            let r = cpu.a | operand(cpu, mem, m);
            (Cpu { a: r, p: with_zn(cpu.p, r), pc: advanced(cpu, m), ..cpu }, mem)
        },
        Op::Eor(m) => {
            let r = cpu.a ^ operand(cpu, mem, m);
            (Cpu { a: r, p: with_zn(cpu.p, r), pc: advanced(cpu, m), ..cpu }, mem)
        },
        Op::Bit(m) => {
            let v = operand(cpu, mem, m);
            (
                Cpu {
                    p: Flags {
                        zero: cpu.a & v == 0,
                        sign: v >= 0x80,
                        overflow: bit_n(v, 6),
                        ..cpu.p
                    },
                    pc: advanced(cpu, m),
                    ..cpu
                },
                mem,
            )
        },
        Op::Adc(m) => (
            Cpu { pc: advanced(cpu, m), ..spec_add_with_carry(cpu, operand(cpu, mem, m)) },
            mem,
        ),
        Op::Sbc(m) => (
            Cpu { pc: advanced(cpu, m), ..spec_sub_with_borrow(cpu, operand(cpu, mem, m)) },
            mem,
        ),
        _ => (cpu, mem),
    }
}

/// One group of [`spec_op_apply`]'s definition; operations outside
/// the group are never routed to it.
#[verifier::opaque]
pub open spec fn spec_op_apply_group_5(op: Op, cpu: Cpu, mem: Seq<u8>) -> (Cpu, Seq<u8>) {
    match op {
        Op::Cmp(m) => (
            Cpu {
                p: spec_compare(cpu.p, cpu.a, operand(cpu, mem, m)),
                pc: advanced(cpu, m),
                ..cpu
            },
            mem,
        ),
        Op::Cpx(m) => (
            Cpu {
                p: spec_compare(cpu.p, cpu.x, operand(cpu, mem, m)),
                pc: advanced(cpu, m),
                ..cpu
            },
            mem,
        ),
        Op::Cpy(m) => (
            Cpu {
                p: spec_compare(cpu.p, cpu.y, operand(cpu, mem, m)),
                pc: advanced(cpu, m),
                ..cpu
            },
            mem,
        ),
        Op::Dec(m) => {
            let r = wrap8(operand(cpu, mem, m) - 1);
            (
                Cpu { p: with_zn(cpu.p, r), pc: advanced(cpu, m), ..cpu },
                mem.update(m.spec_addr(cpu, mem) as int, r),
            )
        },
        Op::Inc(m) => {
            let r = wrap8(operand(cpu, mem, m) + 1);
            (
                Cpu { p: with_zn(cpu.p, r), pc: advanced(cpu, m), ..cpu },
                mem.update(m.spec_addr(cpu, mem) as int, r),
            )
        },
        Op::Dex => (
            Cpu {
                x: wrap8(cpu.x - 1),
                p: with_zn(cpu.p, wrap8(cpu.x - 1)),
                pc: wrap16(cpu.pc + 1),
                ..cpu
            },
            mem,
        ),
        _ => (cpu, mem),
    }
}

/// One group of [`spec_op_apply`]'s definition; operations outside
/// the group are never routed to it.
#[verifier::opaque]
pub open spec fn spec_op_apply_group_6(op: Op, cpu: Cpu, mem: Seq<u8>) -> (Cpu, Seq<u8>) {
    match op {
        Op::Dey => (
            Cpu {
                y: wrap8(cpu.y - 1),
                p: with_zn(cpu.p, wrap8(cpu.y - 1)),
                pc: wrap16(cpu.pc + 1),
                ..cpu
            },
            mem,
        ),
        Op::Inx => (
            Cpu {
                x: wrap8(cpu.x + 1),
                p: with_zn(cpu.p, wrap8(cpu.x + 1)),
                pc: wrap16(cpu.pc + 1),
                ..cpu
            },
            mem,
        ),
        Op::Iny => (
            Cpu {
                y: wrap8(cpu.y + 1),
                p: with_zn(cpu.p, wrap8(cpu.y + 1)),
                pc: wrap16(cpu.pc + 1),
                ..cpu
            },
            mem,
        ),
        Op::Brk => spec_brk(cpu, mem, false),
        Op::BrkClearDecimal => spec_brk(cpu, mem, true),
        Op::Jmp(m) => (Cpu { pc: m.spec_addr(cpu, mem), ..cpu }, mem),
        _ => (cpu, mem),
    }
}

/// One group of [`spec_op_apply`]'s definition; operations outside
/// the group are never routed to it.
#[verifier::opaque]
pub open spec fn spec_op_apply_group_7(op: Op, cpu: Cpu, mem: Seq<u8>) -> (Cpu, Seq<u8>) {
    match op {
        Op::Jsr(m) => {
            let ret = wrap16(cpu.pc + m.spec_bytes() - 1);
            (
                Cpu { sp: wrap8(cpu.sp - 2), pc: m.spec_addr(cpu, mem), ..cpu },
                mem.update(STACK_SPACE_START + cpu.sp as int, hi(ret)).update(
                    STACK_SPACE_START + wrap8(cpu.sp - 1) as int,
                    lo(ret),
                ),
            )
        },
        Op::Rti => {
            let p_b = mem[STACK_SPACE_START + wrap8(cpu.sp + 1) as int];
            let lo_b = mem[STACK_SPACE_START + wrap8(cpu.sp + 2) as int];
            let hi_b = mem[STACK_SPACE_START + wrap8(cpu.sp + 3) as int];
            (
                Cpu {
                    p: Flags { expansion: true, break_flag: false, ..Flags::spec_from_bits(p_b) },
                    sp: wrap8(cpu.sp + 3),
                    pc: word(lo_b, hi_b),
                    ..cpu
                },
                mem,
            )
        },
        Op::Rts => {
            let lo_b = mem[STACK_SPACE_START + wrap8(cpu.sp + 1) as int];
            let hi_b = mem[STACK_SPACE_START + wrap8(cpu.sp + 2) as int];
            (
                Cpu { sp: wrap8(cpu.sp + 2), pc: wrap16(word(lo_b, hi_b) + 1), ..cpu },
                mem,
            )
        },
        Op::Bcc => (spec_branch(cpu, mem, !cpu.p.carry), mem),
        Op::Bcs => (spec_branch(cpu, mem, cpu.p.carry), mem),
        Op::Beq => (spec_branch(cpu, mem, cpu.p.zero), mem),
        _ => (cpu, mem),
    }
}

/// One group of [`spec_op_apply`]'s definition; operations outside
/// the group are never routed to it.
#[verifier::opaque]
pub open spec fn spec_op_apply_group_8(op: Op, cpu: Cpu, mem: Seq<u8>) -> (Cpu, Seq<u8>) {
    match op {
        Op::Bmi => (spec_branch(cpu, mem, cpu.p.sign), mem),
        Op::Bne => (spec_branch(cpu, mem, !cpu.p.zero), mem),
        Op::Bpl => (spec_branch(cpu, mem, !cpu.p.sign), mem),
        Op::Bvc => (spec_branch(cpu, mem, !cpu.p.overflow), mem),
        Op::Bvs => (spec_branch(cpu, mem, cpu.p.overflow), mem),
        Op::Clc => (
            Cpu { p: Flags { carry: false, ..cpu.p }, pc: wrap16(cpu.pc + 1), ..cpu },
            mem,
        ),
        _ => (cpu, mem),
    }
}

/// One group of [`spec_op_apply`]'s definition; operations outside
/// the group are never routed to it.
#[verifier::opaque]
pub open spec fn spec_op_apply_group_9(op: Op, cpu: Cpu, mem: Seq<u8>) -> (Cpu, Seq<u8>) {
    match op {
        Op::Cld => (
            Cpu { p: Flags { decimal_mode: false, ..cpu.p }, pc: wrap16(cpu.pc + 1), ..cpu },
            mem,
        ),
        Op::Cli => (
            Cpu { p: Flags { interrupt_disabled: false, ..cpu.p }, pc: wrap16(cpu.pc + 1), ..cpu },
            mem,
        ),
        Op::Clv => (
            Cpu { p: Flags { overflow: false, ..cpu.p }, pc: wrap16(cpu.pc + 1), ..cpu },
            mem,
        ),
        Op::Sec => (
            Cpu { p: Flags { carry: true, ..cpu.p }, pc: wrap16(cpu.pc + 1), ..cpu },
            mem,
        ),
        Op::Sed => (
            Cpu { p: Flags { decimal_mode: true, ..cpu.p }, pc: wrap16(cpu.pc + 1), ..cpu },
            mem,
        ),
        Op::Sei => (
            Cpu { p: Flags { interrupt_disabled: true, ..cpu.p }, pc: wrap16(cpu.pc + 1), ..cpu },
            mem,
        ),
        _ => (cpu, mem),
    }
}

/// One group of [`spec_op_apply`]'s definition; operations outside
/// the group are never routed to it.
#[verifier::opaque]
pub open spec fn spec_op_apply_group_10(op: Op, cpu: Cpu, mem: Seq<u8>) -> (Cpu, Seq<u8>) {
    match op {
        Op::Nop => (Cpu { pc: wrap16(cpu.pc + 1), ..cpu }, mem),
        Op::Las(m) => {
            let r = operand(cpu, mem, m) & cpu.sp;
            (
                Cpu { a: r, x: r, sp: r, p: with_zn(cpu.p, r), pc: advanced(cpu, m), ..cpu },
                mem,
            )
        },
        Op::Lax(m) => {
            let v = operand(cpu, mem, m);
            (Cpu { a: v, x: v, p: with_zn(cpu.p, v), pc: advanced(cpu, m), ..cpu }, mem)
        },
        Op::Sax(m) => (
            Cpu { pc: advanced(cpu, m), ..cpu },
            mem.update(m.spec_addr(cpu, mem) as int, cpu.a & cpu.x),
        ),
        Op::Sha(m) => {
            let addr = m.spec_addr(cpu, mem);
            (
                Cpu { pc: advanced(cpu, m), ..cpu },
                mem.update(addr as int, wrap8(hi(addr) + 1) & (cpu.x & cpu.a)),
            )
        },
        Op::Shx(m) => {
            let addr = m.spec_addr(cpu, mem);
            (
                Cpu { pc: advanced(cpu, m), ..cpu },
                mem.update(addr as int, wrap8(hi(addr) + 1) & cpu.x),
            )
        },
        _ => (cpu, mem),
    }
}

/// One group of [`spec_op_apply`]'s definition; operations outside
/// the group are never routed to it.
#[verifier::opaque]
pub open spec fn spec_op_apply_group_11(op: Op, cpu: Cpu, mem: Seq<u8>) -> (Cpu, Seq<u8>) {
    match op {
        Op::Shy(m) => {
            let addr = m.spec_addr(cpu, mem);
            (
                Cpu { pc: advanced(cpu, m), ..cpu },
                mem.update(addr as int, wrap8(hi(addr) + 1) & cpu.y),
            )
        },
        Op::Shs(m) => {
            let addr = m.spec_addr(cpu, mem);
            (
                Cpu { sp: cpu.x & cpu.a, pc: advanced(cpu, m), ..cpu },
                mem.update(addr as int, (cpu.x & cpu.a) & wrap8(hi(addr) + 1)),
            )
        },
        Op::Anc(m) => {
            let r = operand(cpu, mem, m) & cpu.a;
            (
                Cpu {
                    a: r,
                    p: Flags { carry: r >= 0x80, zero: r == 0, sign: r >= 0x80, ..cpu.p },
                    pc: advanced(cpu, m),
                    ..cpu
                },
                mem,
            )
        },
        Op::Arr(m) => (
            Cpu { pc: advanced(cpu, m), ..spec_arr(cpu, operand(cpu, mem, m)) },
            mem,
        ),
        Op::Asr(m) => {
            let an = cpu.a & operand(cpu, mem, m);
            (
                Cpu {
                    a: an / 2,
                    p: Flags { carry: an % 2 == 1, zero: an / 2 == 0, sign: false, ..cpu.p },
                    pc: advanced(cpu, m),
                    ..cpu
                },
                mem,
            )
        },
        Op::Dcp(m) => {
            let r = wrap8(operand(cpu, mem, m) - 1);
            (
                Cpu { p: spec_compare(cpu.p, cpu.a, r), pc: advanced(cpu, m), ..cpu },
                mem.update(m.spec_addr(cpu, mem) as int, r),
            )
        },
        _ => (cpu, mem),
    }
}

/// One group of [`spec_op_apply`]'s definition; operations outside
/// the group are never routed to it.
#[verifier::opaque]
pub open spec fn spec_op_apply_group_12(op: Op, cpu: Cpu, mem: Seq<u8>) -> (Cpu, Seq<u8>) {
    match op {
        Op::Isc(m) => {
            let r = wrap8(operand(cpu, mem, m) + 1);
            (
                Cpu { pc: advanced(cpu, m), ..spec_sub_with_borrow(cpu, r) },
                mem.update(m.spec_addr(cpu, mem) as int, r),
            )
        },
        Op::Rla(m) => {
            let r = spec_rol(operand(cpu, mem, m), cpu.p.carry);
            let a2 = cpu.a & r.0;
            (
                Cpu {
                    a: a2,
                    p: Flags { carry: r.1, zero: a2 == 0, sign: a2 >= 0x80, ..cpu.p },
                    pc: advanced(cpu, m),
                    ..cpu
                },
                mem.update(m.spec_addr(cpu, mem) as int, r.0),
            )
        },
        Op::Slo(m) => {
            let r = spec_rol(operand(cpu, mem, m), cpu.p.carry);
            let a2 = cpu.a | r.0;
            (
                Cpu {
                    a: a2,
                    p: Flags { carry: r.1, zero: a2 == 0, sign: a2 >= 0x80, ..cpu.p },
                    pc: advanced(cpu, m),
                    ..cpu
                },
                mem.update(m.spec_addr(cpu, mem) as int, r.0),
            )
        },
        Op::Sre(m) => {
            let r = spec_ror(operand(cpu, mem, m), cpu.p.carry);
            let a2 = cpu.a ^ r.0;
            (
                Cpu {
                    a: a2,
                    p: Flags { carry: r.1, zero: a2 == 0, sign: a2 >= 0x80, ..cpu.p },
                    pc: advanced(cpu, m),
                    ..cpu
                },
                mem.update(m.spec_addr(cpu, mem) as int, r.0),
            )
        },
        Op::Rra(m) => {
            let r = spec_ror(operand(cpu, mem, m), cpu.p.carry);
            let mid = Cpu { p: rotate_flags(cpu.p, r.0, r.1), ..cpu };
            (
                Cpu { pc: advanced(cpu, m), ..spec_add_with_carry(mid, r.0) },
                mem.update(m.spec_addr(cpu, mem) as int, r.0),
            )
        },
        Op::Sbx(m) => {
            let v = operand(cpu, mem, m);
            let masked = cpu.a & cpu.x;
            let r = wrap8(masked - v);
            (
                Cpu {
                    x: r,
                    p: Flags { carry: masked >= v, zero: r == 0, sign: r >= 0x80, ..cpu.p },
                    pc: advanced(cpu, m),
                    ..cpu
                },
                mem,
            )
        },
        _ => (cpu, mem),
    }
}

/// One group of [`spec_op_apply`]'s definition; operations outside
/// the group are never routed to it.
#[verifier::opaque]
pub open spec fn spec_op_apply_group_13(op: Op, cpu: Cpu, mem: Seq<u8>) -> (Cpu, Seq<u8>) {
    match op {
        Op::Xaa(_m) => (Cpu { pc: wrap16(cpu.pc + 1), ..cpu }, mem),
        Op::Jam => (Cpu { run_state: RunState::Halted, ..cpu }, mem),
        Op::Illegal(m) => (Cpu { pc: advanced(cpu, m), ..cpu }, mem),
        Op::IllegalA => (Cpu { pc: wrap16(cpu.pc + 1), ..cpu }, mem),
        Op::Bra => (spec_branch(cpu, mem, true), mem),
        Op::Stz(m) => (
            Cpu { pc: advanced(cpu, m), ..cpu },
            mem.update(m.spec_addr(cpu, mem) as int, 0u8),
        ),
        _ => (cpu, mem),
    }
}

/// One group of [`spec_op_apply`]'s definition; operations outside
/// the group are never routed to it.
#[verifier::opaque]
pub open spec fn spec_op_apply_group_14(op: Op, cpu: Cpu, mem: Seq<u8>) -> (Cpu, Seq<u8>) {
    match op {
        Op::Trb(m) => {
            let v = operand(cpu, mem, m);
            (
                Cpu { p: Flags { zero: cpu.a & v == 0, ..cpu.p }, pc: advanced(cpu, m), ..cpu },
                mem.update(m.spec_addr(cpu, mem) as int, !cpu.a & v),
            )
        },
        Op::Tsb(m) => {
            let v = operand(cpu, mem, m);
            (
                Cpu { p: Flags { zero: cpu.a & v == 0, ..cpu.p }, pc: advanced(cpu, m), ..cpu },
                mem.update(m.spec_addr(cpu, mem) as int, v | cpu.a),
            )
        },
        Op::IncA => (
            Cpu {
                a: wrap8(cpu.a + 1),
                p: with_zn(cpu.p, wrap8(cpu.a + 1)),
                pc: wrap16(cpu.pc + 1),
                ..cpu
            },
            mem,
        ),
        Op::DecA => (
            Cpu {
                a: wrap8(cpu.a - 1),
                p: with_zn(cpu.p, wrap8(cpu.a - 1)),
                pc: wrap16(cpu.pc + 1),
                ..cpu
            },
            mem,
        ),
        Op::Phx => (
            Cpu { sp: wrap8(cpu.sp - 1), pc: wrap16(cpu.pc + 1), ..cpu },
            mem.update(STACK_SPACE_START + cpu.sp as int, cpu.x),
        ),
        Op::Phy => (
            Cpu { sp: wrap8(cpu.sp - 1), pc: wrap16(cpu.pc + 1), ..cpu },
            mem.update(STACK_SPACE_START + cpu.sp as int, cpu.y),
        ),
        _ => (cpu, mem),
    }
}

/// One group of [`spec_op_apply`]'s definition; operations outside
/// the group are never routed to it.
#[verifier::opaque]
pub open spec fn spec_op_apply_group_15(op: Op, cpu: Cpu, mem: Seq<u8>) -> (Cpu, Seq<u8>) {
    match op {
        Op::Plx => {
            let v = mem[STACK_SPACE_START + wrap8(cpu.sp + 1) as int];
            (Cpu { x: v, p: with_zn(cpu.p, v), sp: wrap8(cpu.sp + 1), pc: wrap16(cpu.pc + 1), ..cpu }, mem)
        },
        Op::Ply => {
            let v = mem[STACK_SPACE_START + wrap8(cpu.sp + 1) as int];
            (Cpu { y: v, p: with_zn(cpu.p, v), sp: wrap8(cpu.sp + 1), pc: wrap16(cpu.pc + 1), ..cpu }, mem)
        },
        Op::Bbr(n) => (spec_branch_on_bit(cpu, mem, n % 8, false), mem),
        Op::Bbs(n) => (spec_branch_on_bit(cpu, mem, n % 8, true), mem),
        Op::Rmb(n) => {
            let zp = mem[wrap16(cpu.pc + 1) as int];
            (
                Cpu { pc: wrap16(cpu.pc + 2), ..cpu },
                mem.update(zp as int, spec_with_bit(mem[zp as int], n % 8, false)),
            )
        },
        Op::Smb(n) => {
            let zp = mem[wrap16(cpu.pc + 1) as int];
            (
                Cpu { pc: wrap16(cpu.pc + 2), ..cpu },
                mem.update(zp as int, spec_with_bit(mem[zp as int], n % 8, true)),
            )
        },
        _ => (cpu, mem),
    }
}

/// One group of [`spec_op_apply`]'s definition; operations outside
/// the group are never routed to it.
#[verifier::opaque]
pub open spec fn spec_op_apply_group_16(op: Op, cpu: Cpu, mem: Seq<u8>) -> (Cpu, Seq<u8>) {
    match op {
        Op::Stp => (Cpu { run_state: RunState::Halted, ..cpu }, mem),
        Op::Wai => (Cpu { run_state: RunState::Waiting, pc: wrap16(cpu.pc + 1), ..cpu }, mem),
        Op::BitImmediate => {
            let v = mem[wrap16(cpu.pc + 1) as int];
            (
                Cpu { p: Flags { zero: cpu.a & v == 0, ..cpu.p }, pc: wrap16(cpu.pc + 2), ..cpu },
                mem,
            )
        },
        _ => (cpu, mem),
    }
}

/// How one step relates the processor and memory before and after it,
/// by the priority order sampled at the step boundary: a halted
/// processor does nothing; then a pending reset, a pending NMI, a
/// pending IRQ when not masked; then a waiting processor does nothing;
/// else the opcode at PC executes, costing at least the table entry's
/// base cycles and at most two more.
pub open spec fn spec_step_rel(
    pre: Cpu,
    pre_mem: Seq<u8>,
    post: Cpu,
    post_mem: Seq<u8>,
    consumed: u8,
) -> bool {
    if pre.run_state == RunState::Halted {
        &&& post == (Cpu { last_step_cycles: 0, ..pre })
        &&& post_mem == pre_mem
        &&& consumed == 0
    } else if pre.reset_pending {
        &&& post == (Cpu { reset_pending: false, ..pre.spec_reset(pre_mem) })
        &&& post_mem == pre_mem
        &&& consumed == 0
    } else if pre.nmi_pending {
        let entered = spec_enter_interrupt(pre, pre_mem, NMI_VECTOR_LO, NMI_VECTOR_HI);
        &&& post == (Cpu { nmi_pending: false, last_step_cycles: 0, ..entered.0 })
        &&& post_mem == entered.1
        &&& consumed == 0
    } else if pre.irq_pending && !pre.p.interrupt_disabled {
        let entered = spec_enter_interrupt(pre, pre_mem, IRQ_VECTOR_LO, IRQ_VECTOR_HI);
        &&& post == (Cpu { irq_pending: false, last_step_cycles: 0, ..entered.0 })
        &&& post_mem == entered.1
        &&& consumed == 0
    } else if pre.run_state == RunState::Waiting {
        &&& post == (Cpu { last_step_cycles: 0, ..pre })
        &&& post_mem == pre_mem
        &&& consumed == 0
    } else {
        let opcode = pre_mem[pre.pc as int];
        let entry = pre.table.entries@[opcode as int];
        &&& post.last_opcode == opcode
        &&& post.table == pre.table
        &&& post.irq_pending == pre.irq_pending
        &&& post.nmi_pending == pre.nmi_pending
        &&& post.reset_pending == pre.reset_pending
        &&& pre.cycles + entry.cycles <= post.cycles
        &&& post.cycles <= pre.cycles + entry.cycles + 2
        &&& consumed == crate::arith::wrap8(post.cycles - pre.cycles)
        &&& post.last_step_cycles == consumed
        &&& ({
            let applied = spec_op_apply(entry.op, Cpu { last_opcode: opcode, ..pre }, pre_mem);
            &&& post == (Cpu {
                cycles: post.cycles,
                last_step_cycles: post.last_step_cycles,
                ..applied.0
            })
            &&& post.cycles == wrap64(applied.0.cycles + entry.cycles)
            &&& post_mem == applied.1
        })
    }
}

/// One step as a function of the state before it: the same priority
/// cascade as [`spec_step_rel`], with the executed operation applied
/// through [`spec_op_apply`], returning the new processor, the new
/// memory, and the consumed cycle count.
pub open spec fn spec_step_fn(pre: Cpu, mem: Seq<u8>) -> (Cpu, Seq<u8>, u8) {
    if pre.run_state == RunState::Halted {
        (Cpu { last_step_cycles: 0, ..pre }, mem, 0u8)
    } else if pre.reset_pending {
        (Cpu { reset_pending: false, ..pre.spec_reset(mem) }, mem, 0u8)
    } else if pre.nmi_pending {
        let entered = spec_enter_interrupt(pre, mem, NMI_VECTOR_LO, NMI_VECTOR_HI);
        (Cpu { nmi_pending: false, last_step_cycles: 0, ..entered.0 }, entered.1, 0u8)
    } else if pre.irq_pending && !pre.p.interrupt_disabled {
        let entered = spec_enter_interrupt(pre, mem, IRQ_VECTOR_LO, IRQ_VECTOR_HI);
        (Cpu { irq_pending: false, last_step_cycles: 0, ..entered.0 }, entered.1, 0u8)
    } else if pre.run_state == RunState::Waiting {
        (Cpu { last_step_cycles: 0, ..pre }, mem, 0u8)
    } else {
        let opcode = mem[pre.pc as int];
        let entry = pre.table.entries@[opcode as int];
        let applied = spec_op_apply(entry.op, Cpu { last_opcode: opcode, ..pre }, mem);
        let total = wrap64(applied.0.cycles + entry.cycles);
        let consumed = crate::arith::wrap8(total - pre.cycles);
        (
            Cpu { cycles: total, last_step_cycles: consumed, ..applied.0 },
            applied.1,
            consumed,
        )
    }
}

/// The step relation determines the step: any state and cycle count
/// related to a starting point by [`spec_step_rel`] are exactly what
/// [`spec_step_fn`] computes from it.
pub proof fn lemma_step_rel_functional(
    pre: Cpu,
    pre_mem: Seq<u8>,
    post: Cpu,
    post_mem: Seq<u8>,
    consumed: u8,
)
    requires
        spec_step_rel(pre, pre_mem, post, post_mem, consumed),
    ensures
        (post, post_mem, consumed) == spec_step_fn(pre, pre_mem),
{
}

/// The run loop as a function of the start state, for configurations
/// without a predicate.  `fuel` bounds the number of instructions the
/// unfolding may consider: `None` means the run had not stopped within
/// that bound; `Some` carries the final processor, memory and summary,
/// which no larger bound changes.  The checks mirror the loop: the
/// instruction budget, then the cycle-counter ceiling, then one step;
/// a step that makes no progress stalls the run, a BRK stops it when
/// asked, and anything else is tallied and continues.
pub open spec fn spec_run_until(
    cpu: Cpu,
    mem: Seq<u8>,
    instruction_limit: Option<u64>,
    stop_on_brk: bool,
    summary: RunSummary,
    fuel: nat,
) -> Option<(Cpu, Seq<u8>, RunSummary)>
    decreases fuel,
{
    if instruction_limit matches Some(limit) && summary.instructions_executed >= limit {
        Some((cpu, mem, RunSummary { outcome: RunOutcome::HitInstructionLimit, ..summary }))
    } else if cpu.cycles > u64::MAX - 257 {
        Some((cpu, mem, RunSummary { outcome: RunOutcome::Stalled, ..summary }))
    } else if fuel == 0 {
        None
    } else {
        let stepped = spec_step_fn(cpu, mem);
        if stepped.2 == 0 {
            Some((stepped.0, stepped.1, RunSummary { outcome: RunOutcome::Stalled, ..summary }))
        } else {
            let tallied = RunSummary {
                instructions_executed: wrap64(summary.instructions_executed + 1),
                cycles: wrap64(summary.cycles + stepped.2),
                ..summary
            };
            if stop_on_brk && stepped.0.last_opcode == 0x00 {
                Some((stepped.0, stepped.1, RunSummary { outcome: RunOutcome::HitBrk, ..tallied }))
            } else {
                spec_run_until(
                    stepped.0,
                    stepped.1,
                    instruction_limit,
                    stop_on_brk,
                    tallied,
                    (fuel - 1) as nat,
                )
            }
        }
    }
}

/// More fuel never changes a run that has already stopped: once the
/// unfolding reaches a stop, every larger bound reaches the same one.
pub proof fn lemma_run_until_fuel_monotonic(
    cpu: Cpu,
    mem: Seq<u8>,
    instruction_limit: Option<u64>,
    stop_on_brk: bool,
    summary: RunSummary,
    f1: nat,
    f2: nat,
)
    requires
        f1 <= f2,
        spec_run_until(cpu, mem, instruction_limit, stop_on_brk, summary, f1) is Some,
    ensures
        spec_run_until(cpu, mem, instruction_limit, stop_on_brk, summary, f2) == spec_run_until(
            cpu,
            mem,
            instruction_limit,
            stop_on_brk,
            summary,
            f1,
        ),
    decreases f1,
{
    if !(instruction_limit matches Some(limit) && summary.instructions_executed >= limit) && !(
    cpu.cycles > u64::MAX - 257) {
        let stepped = spec_step_fn(cpu, mem);
        if stepped.2 != 0 {
            let tallied = RunSummary {
                instructions_executed: wrap64(summary.instructions_executed + 1),
                cycles: wrap64(summary.cycles + stepped.2),
                ..summary
            };
            if !(stop_on_brk && stepped.0.last_opcode == 0x00) {
                lemma_run_until_fuel_monotonic(
                    stepped.0,
                    stepped.1,
                    instruction_limit,
                    stop_on_brk,
                    tallied,
                    (f1 - 1) as nat,
                    (f2 - 1) as nat,
                );
            }
        }
    }
}

/// What a stop means for the whole run: when the loop stops at a state
/// whose own unfolding yields `result`, the run from the start yields
/// `result` at every bound that yields anything at all, and some bound
/// does.
proof fn lemma_run_until_stop(
    init_cpu: Cpu,
    init_mem: Seq<u8>,
    instruction_limit: Option<u64>,
    stop_on_brk: bool,
    init_summary: RunSummary,
    top_cpu: Cpu,
    top_mem: Seq<u8>,
    top_summary: RunSummary,
    iters: nat,
    result: (Cpu, Seq<u8>, RunSummary),
)
    requires
        forall|f: nat|
            spec_run_until(top_cpu, top_mem, instruction_limit, stop_on_brk, top_summary, f)
                == #[trigger] spec_run_until(
                init_cpu,
                init_mem,
                instruction_limit,
                stop_on_brk,
                init_summary,
                f + iters,
            ),
        forall|f: nat|
            f >= 1 ==> #[trigger] spec_run_until(
                top_cpu,
                top_mem,
                instruction_limit,
                stop_on_brk,
                top_summary,
                f,
            ) == Some(result),
        spec_run_until(top_cpu, top_mem, instruction_limit, stop_on_brk, top_summary, 0) is Some
            ==> spec_run_until(top_cpu, top_mem, instruction_limit, stop_on_brk, top_summary, 0)
            == Some(result),
    ensures
        forall|f: nat|
            (#[trigger] spec_run_until(
                init_cpu,
                init_mem,
                instruction_limit,
                stop_on_brk,
                init_summary,
                f,
            )) matches Some(r) ==> r == result,
        exists|f: nat|
            (#[trigger] spec_run_until(
                init_cpu,
                init_mem,
                instruction_limit,
                stop_on_brk,
                init_summary,
                f,
            )) is Some,
{
    assert(spec_run_until(init_cpu, init_mem, instruction_limit, stop_on_brk, init_summary, 1 + iters)
        == Some(result));
    assert forall|f: nat|
        (#[trigger] spec_run_until(
            init_cpu,
            init_mem,
            instruction_limit,
            stop_on_brk,
            init_summary,
            f,
        )) is Some implies spec_run_until(
        init_cpu,
        init_mem,
        instruction_limit,
        stop_on_brk,
        init_summary,
        f,
    ) == Some(result) by {
        if f >= iters {
            assert(spec_run_until(top_cpu, top_mem, instruction_limit, stop_on_brk, top_summary, (
            f - iters) as nat) == spec_run_until(
                init_cpu,
                init_mem,
                instruction_limit,
                stop_on_brk,
                init_summary,
                (f - iters) as nat + iters,
            ));
        } else {
            lemma_run_until_fuel_monotonic(
                init_cpu,
                init_mem,
                instruction_limit,
                stop_on_brk,
                init_summary,
                f,
                1 + iters,
            );
        }
    }
}

impl Cpu {
    /// Enter an NMI or IRQ, per [`spec_enter_interrupt`].
    #[verifier::rlimit(100)]
    fn enter_interrupt<B: Bus>(&mut self, bus: &mut B, interrupt: Interrupt)
        requires
            old(bus).inv(),
            interrupt != Interrupt::Reset,
        ensures
            final(bus).inv(),
            final(bus).dma() == old(bus).dma(),
            final(bus).ticks() == old(bus).ticks(),
            ({
                let entered = spec_enter_interrupt(
                    *old(self),
                    old(bus).mem(),
                    if interrupt == Interrupt::Nmi {
                        NMI_VECTOR_LO
                    } else {
                        IRQ_VECTOR_LO
                    },
                    if interrupt == Interrupt::Nmi {
                        NMI_VECTOR_HI
                    } else {
                        IRQ_VECTOR_HI
                    },
                );
                *final(self) == entered.0 && final(bus).mem() == entered.1
            }),
    {
        self.run_state = RunState::Running;

        let vector_lo: u16;
        let vector_hi: u16;
        match interrupt {
            Interrupt::Nmi => {
                vector_lo = NMI_VECTOR_LO;
                vector_hi = NMI_VECTOR_HI;
            },
            _ => {
                vector_lo = IRQ_VECTOR_LO;
                vector_hi = IRQ_VECTOR_HI;
            },
        }

        let pc_hi = crate::arith::hi_byte(self.pc);
        let pc_lo = crate::arith::lo_byte(self.pc);
        self.push(bus, pc_hi);
        self.push(bus, pc_lo);
        let mut pushed = self.p;
        pushed.break_flag = false;
        pushed.decimal_mode = false;
        let bits = pushed.bits();
        self.push(bus, bits);

        if self.table.interrupt_clears_decimal {
            self.p.set_decimal_mode(false);
        }
        self.p.set_interrupt_disabled(true);

        let lo_b = bus.read(vector_lo, AccessType::InterruptVectorRead);
        let hi_b = bus.read(vector_hi, AccessType::InterruptVectorRead);
        self.pc = make_word(lo_b, hi_b);
    }

    /// Execute one unit of work: serve the highest-priority pending
    /// interrupt, idle if halted or waiting, or fetch and execute the
    /// opcode at PC, and report the cycles consumed.  See
    /// [`spec_step_rel`] for the exact relation.
    pub fn step<B: Bus>(&mut self, bus: &mut B) -> (consumed: u8)
        requires
            old(self).wf(),
            old(bus).inv(),
            old(self).cycles + 257 <= u64::MAX,
        ensures
            final(self).wf(),
            final(bus).inv(),
            final(bus).dma() == old(bus).dma(),
            final(bus).ticks() == old(bus).ticks(),
            spec_step_rel(*old(self), old(bus).mem(), *final(self), final(bus).mem(), consumed),
            final(self).last_step_cycles == consumed,
    {
        if self.run_state == RunState::Halted {
            self.last_step_cycles = 0;
            return 0;
        }

        if self.reset_pending {
            self.reset(bus);
            self.reset_pending = false;
            return 0;
        }

        if self.nmi_pending {
            self.enter_interrupt(bus, Interrupt::Nmi);
            self.nmi_pending = false;
            self.last_step_cycles = 0;
            return 0;
        }

        if self.irq_pending && !self.p.interrupt_disabled {
            self.enter_interrupt(bus, Interrupt::Irq);
            self.irq_pending = false;
            self.last_step_cycles = 0;
            return 0;
        }

        if self.run_state == RunState::Waiting {
            self.last_step_cycles = 0;
            return 0;
        }

        let next_opcode = bus.read(self.pc, AccessType::OpcodeFetch);
        self.last_opcode = next_opcode;
        let instruction = self.table.entries[next_opcode as usize];

        let before = self.cycles;
        execute_op(self, bus, instruction.op);
        self.cycles = self.cycles + (instruction.cycles as u64);
        let consumed: u8 = ((self.cycles - before) % 0x100) as u8;
        self.last_step_cycles = consumed;
        consumed
    }

    /// Execute one instruction and synchronize the bus: report the
    /// consumed cycles through [`Bus::on_tick`] (when non-zero), then
    /// drain every pending DMA chunk, reporting each as it is taken.
    /// Afterwards no DMA work is pending.
    pub fn tick<B: Bus>(&mut self, bus: &mut B) -> (consumed: u8)
        requires
            old(self).wf(),
            old(bus).inv(),
            old(self).cycles + 257 <= u64::MAX,
        ensures
            final(self).wf(),
            final(bus).inv(),
            spec_step_rel(*old(self), old(bus).mem(), *final(self), final(bus).mem(), consumed),
            final(self).last_step_cycles == consumed,
            final(bus).dma().len() == 0,
            final(bus).ticks() == old(bus).ticks() + (if consumed == 0 {
                Seq::<u8>::empty()
            } else {
                seq![consumed]
            }) + old(bus).dma(),
    {
        let cycles = self.step(bus);
        if cycles > 0 {
            bus.on_tick(cycles);
        }
        proof {
            assert(bus.ticks() =~= old(bus).ticks() + (if cycles == 0 {
                Seq::<u8>::empty()
            } else {
                seq![cycles]
            }));
        }

        let ghost mem_now = bus.mem();
        let ghost drain_target = bus.ticks() + bus.dma();
        loop
            invariant
                bus.inv(),
                bus.mem() == mem_now,
                bus.ticks() + bus.dma() == drain_target,
            ensures
                bus.inv(),
                bus.mem() == mem_now,
                bus.dma().len() == 0,
                bus.ticks() == drain_target,
            decreases bus.dma().len(),
        {
            let ghost pre_ticks = bus.ticks();
            let ghost pre_dma = bus.dma();
            let next = bus.poll_dma_cycle();
            match next {
                Some(dma_cycles) => {
                    bus.on_tick(dma_cycles);
                    proof {
                        assert(bus.ticks() + bus.dma() =~= pre_ticks + pre_dma);
                    }
                },
                None => {
                    proof {
                        assert(bus.ticks() + bus.dma() =~= bus.ticks());
                    }
                    break ;
                },
            }
        }

        proof {
            assert(final(bus).ticks() == drain_target);
        }
        cycles
    }

    /// Drive the CPU with [`tick`](Self::tick) until a stop condition
    /// fires: the instruction limit is reached, a tick makes no
    /// progress (also the case when the cycle counter can no longer
    /// advance), a BRK executes with `stop_on_brk` set, or the
    /// predicate asks to stop.
    /// Drive the CPU with [`tick`](Self::tick) until a stop condition
    /// fires: the instruction limit is reached, a tick makes no
    /// progress (also the case when the cycle counter can no longer
    /// advance), a BRK executes with `stop_on_brk` set, or the
    /// predicate asks to stop.  Without a predicate the whole run is
    /// pinned: it is exactly what [`spec_run_until`] unfolds to from
    /// the starting state, at every fuel bound that reaches the stop.
    #[verifier::rlimit(100)]
    #[verifier::spinoff_prover]
    pub fn run_until<B: Bus, P: RunPredicate>(
        &mut self,
        bus: &mut B,
        config: RunConfig<P>,
    ) -> (summary: RunSummary)
        requires
            old(self).wf(),
            old(bus).inv(),
        ensures
            final(self).wf(),
            final(bus).inv(),
            summary.outcome != RunOutcome::InProgress,
            summary.outcome == RunOutcome::HitBrk ==> config.stop_on_brk
                && final(self).last_opcode == 0,
            summary.outcome == RunOutcome::HitInstructionLimit ==> config.instruction_limit
                == Some(summary.instructions_executed),
            summary.outcome == RunOutcome::HitPredicate ==> config.predicate is Some,
            summary.outcome == RunOutcome::Stalled ==> final(self).last_step_cycles == 0
                || final(self).cycles > u64::MAX - 257,
            config.predicate is None ==> forall|fuel: nat|
                (#[trigger] spec_run_until(
                    *old(self),
                    old(bus).mem(),
                    config.instruction_limit,
                    config.stop_on_brk,
                    (RunSummary {
                        instructions_executed: 0,
                        cycles: 0,
                        outcome: RunOutcome::InProgress,
                    }),
                    fuel,
                )) matches Some(r) ==> r == (*final(self), final(bus).mem(), summary),
            config.predicate is None ==> exists|fuel: nat|
                (#[trigger] spec_run_until(
                    *old(self),
                    old(bus).mem(),
                    config.instruction_limit,
                    config.stop_on_brk,
                    (RunSummary {
                        instructions_executed: 0,
                        cycles: 0,
                        outcome: RunOutcome::InProgress,
                    }),
                    fuel,
                )) is Some,
    {
        let RunConfig { instruction_limit, stop_on_brk, mut predicate } = config;

        let mut summary = RunSummary::default();
        let ghost start_cycles = self.cycles;
        let ghost init_cpu = *self;
        let ghost init_mem = bus.mem();
        let ghost init_summary = summary;
        let ghost mut iters: nat = 0nat;

        loop
            invariant_except_break
                summary.outcome == RunOutcome::InProgress,
                start_cycles + summary.instructions_executed <= self.cycles,
                start_cycles + summary.cycles <= self.cycles,
                predicate is None ==> forall|f: nat|
                    #[trigger] spec_run_until(
                        *self,
                        bus.mem(),
                        instruction_limit,
                        stop_on_brk,
                        summary,
                        f,
                    ) == spec_run_until(
                        init_cpu,
                        init_mem,
                        instruction_limit,
                        stop_on_brk,
                        init_summary,
                        f + iters,
                    ),
            invariant
                self.wf(),
                bus.inv(),
                instruction_limit matches Some(limit) ==> summary.instructions_executed <= limit,
                predicate is Some <==> config.predicate is Some,
            ensures
                self.wf(),
                bus.inv(),
                summary.outcome != RunOutcome::InProgress,
                summary.outcome == RunOutcome::HitBrk ==> stop_on_brk && self.last_opcode == 0,
                summary.outcome == RunOutcome::HitInstructionLimit ==> instruction_limit == Some(
                    summary.instructions_executed,
                ),
                summary.outcome == RunOutcome::HitPredicate ==> predicate is Some,
                summary.outcome == RunOutcome::Stalled ==> self.last_step_cycles == 0
                    || self.cycles > u64::MAX - 257,
                predicate is None ==> forall|f: nat|
                    (#[trigger] spec_run_until(
                        init_cpu,
                        init_mem,
                        instruction_limit,
                        stop_on_brk,
                        init_summary,
                        f,
                    )) matches Some(r) ==> r == (*self, bus.mem(), summary),
                predicate is None ==> exists|f: nat|
                    (#[trigger] spec_run_until(
                        init_cpu,
                        init_mem,
                        instruction_limit,
                        stop_on_brk,
                        init_summary,
                        f,
                    )) is Some,
            decreases u64::MAX - self.cycles,
        {
            let ghost top_cpu = *self;
            let ghost top_mem = bus.mem();
            let ghost top_summary = summary;

            match instruction_limit {
                Some(limit) => {
                    if summary.instructions_executed >= limit {
                        summary.mark(RunOutcome::HitInstructionLimit);
                        proof {
                            if predicate is None {
                                lemma_run_until_stop(
                                    init_cpu,
                                    init_mem,
                                    instruction_limit,
                                    stop_on_brk,
                                    init_summary,
                                    top_cpu,
                                    top_mem,
                                    top_summary,
                                    iters,
                                    (*self, bus.mem(), summary),
                                );
                            }
                        }
                        break ;
                    }
                },
                None => {},
            }

            if self.cycles > u64::MAX - 257 {
                summary.mark(RunOutcome::Stalled);
                proof {
                    if predicate is None {
                        lemma_run_until_stop(
                            init_cpu,
                            init_mem,
                            instruction_limit,
                            stop_on_brk,
                            init_summary,
                            top_cpu,
                            top_mem,
                            top_summary,
                            iters,
                            (*self, bus.mem(), summary),
                        );
                    }
                }
                break ;
            }

            let cycles = self.tick(bus);
            proof {
                lemma_step_rel_functional(top_cpu, top_mem, *self, bus.mem(), cycles);
            }

            if cycles == 0 {
                summary.mark(RunOutcome::Stalled);
                proof {
                    if predicate is None {
                        lemma_run_until_stop(
                            init_cpu,
                            init_mem,
                            instruction_limit,
                            stop_on_brk,
                            init_summary,
                            top_cpu,
                            top_mem,
                            top_summary,
                            iters,
                            (*self, bus.mem(), summary),
                        );
                    }
                }
                break ;
            }

            summary.instructions_executed = summary.instructions_executed + 1;
            summary.cycles = summary.cycles + (cycles as u64);

            if stop_on_brk && self.last_opcode == 0x00 {
                summary.mark(RunOutcome::HitBrk);
                proof {
                    if predicate is None {
                        lemma_run_until_stop(
                            init_cpu,
                            init_mem,
                            instruction_limit,
                            stop_on_brk,
                            init_summary,
                            top_cpu,
                            top_mem,
                            top_summary,
                            iters,
                            (*self, bus.mem(), summary),
                        );
                    }
                }
                break ;
            }

            proof {
                if predicate is None {
                    assert forall|f: nat|
                        #[trigger] spec_run_until(
                            *self,
                            bus.mem(),
                            instruction_limit,
                            stop_on_brk,
                            summary,
                            f,
                        ) == spec_run_until(
                            init_cpu,
                            init_mem,
                            instruction_limit,
                            stop_on_brk,
                            init_summary,
                            f + (iters + 1),
                        ) by {
                        assert(spec_run_until(
                            top_cpu,
                            top_mem,
                            instruction_limit,
                            stop_on_brk,
                            top_summary,
                            f + 1,
                        ) == spec_run_until(
                            init_cpu,
                            init_mem,
                            instruction_limit,
                            stop_on_brk,
                            init_summary,
                            f + 1 + iters,
                        ));
                        assert(top_summary.instructions_executed + 1 <= u64::MAX);
                        assert(top_summary.cycles + cycles <= u64::MAX);
                        assert(spec_run_until(
                            top_cpu,
                            top_mem,
                            instruction_limit,
                            stop_on_brk,
                            top_summary,
                            f + 1,
                        ) == spec_run_until(
                            *self,
                            bus.mem(),
                            instruction_limit,
                            stop_on_brk,
                            summary,
                            f,
                        ));
                    }
                }
                iters = iters + 1;
            }

            let stop: bool;
            match &mut predicate {
                Some(p) => {
                    stop = p.should_stop(self);
                },
                None => {
                    stop = false;
                },
            }
            if stop {
                summary.mark(RunOutcome::HitPredicate);
                break ;
            }
        }

        summary
    }

    /// Cycles consumed by the most recent [`step`](Self::step) call.
    pub fn last_step_cycles(&self) -> (r: u8)
        ensures
            r == self.last_step_cycles,
    {
        self.last_step_cycles
    }
}

/// Run one operation against the processor and bus: the single dispatch
/// point the step loop uses for every opcode slot.  The new processor
/// state and memory are exactly [`spec_op_apply`] of the old; beyond
/// that, the DMA queue is untouched, the dispatch table, latches and
/// step bookkeeping carry over, and at most two cycles are added beyond
/// the table's base cost (the taken-branch and page-cross penalties).
pub fn execute_op<B: Bus>(cpu: &mut Cpu, bus: &mut B, op: Op)
    requires
        old(bus).inv(),
        old(cpu).cycles + 2 <= u64::MAX,
    ensures
        final(bus).inv(),
        final(bus).dma() == old(bus).dma(),
        final(bus).ticks() == old(bus).ticks(),
        old(cpu).cycles <= final(cpu).cycles,
        final(cpu).cycles <= old(cpu).cycles + 2,
        final(cpu).table == old(cpu).table,
        final(cpu).last_opcode == old(cpu).last_opcode,
        final(cpu).last_step_cycles == old(cpu).last_step_cycles,
        final(cpu).irq_pending == old(cpu).irq_pending,
        final(cpu).nmi_pending == old(cpu).nmi_pending,
        final(cpu).reset_pending == old(cpu).reset_pending,
        ({
            let applied = spec_op_apply(op, *old(cpu), old(bus).mem());
            *final(cpu) == applied.0 && final(bus).mem() == applied.1
        }),
{
    match op {
        Op::Lda(_) | Op::Ldx(_) | Op::Ldy(_) | Op::Sta(_) | Op::Stx(_) | Op::Sty(_) => execute_group_0(cpu, bus, op),
        Op::Tax | Op::Tay | Op::Tsx | Op::Txa | Op::Tya | Op::Txs => execute_group_1(cpu, bus, op),
        Op::Pha | Op::Php | Op::Pla | Op::Plp | Op::Asl(_) | Op::AslA => execute_group_2(cpu, bus, op),
        Op::Lsr(_) | Op::LsrA | Op::Rol(_) | Op::RolA | Op::Ror(_) | Op::RorA => execute_group_3(cpu, bus, op),
        Op::And(_) | Op::Ora(_) | Op::Eor(_) | Op::Bit(_) | Op::Adc(_) | Op::Sbc(_) => execute_group_4(cpu, bus, op),
        Op::Cmp(_) | Op::Cpx(_) | Op::Cpy(_) | Op::Dec(_) | Op::Inc(_) | Op::Dex => execute_group_5(cpu, bus, op),
        Op::Dey | Op::Inx | Op::Iny | Op::Brk | Op::BrkClearDecimal | Op::Jmp(_) => execute_group_6(cpu, bus, op),
        Op::Jsr(_) | Op::Rti | Op::Rts | Op::Bcc | Op::Bcs | Op::Beq => execute_group_7(cpu, bus, op),
        Op::Bmi | Op::Bne | Op::Bpl | Op::Bvc | Op::Bvs | Op::Clc => execute_group_8(cpu, bus, op),
        Op::Cld | Op::Cli | Op::Clv | Op::Sec | Op::Sed | Op::Sei => execute_group_9(cpu, bus, op),
        Op::Nop | Op::Las(_) | Op::Lax(_) | Op::Sax(_) | Op::Sha(_) | Op::Shx(_) => execute_group_10(cpu, bus, op),
        Op::Shy(_) | Op::Shs(_) | Op::Anc(_) | Op::Arr(_) | Op::Asr(_) | Op::Dcp(_) => execute_group_11(cpu, bus, op),
        Op::Isc(_) | Op::Rla(_) | Op::Slo(_) | Op::Sre(_) | Op::Rra(_) | Op::Sbx(_) => execute_group_12(cpu, bus, op),
        Op::Xaa(_) | Op::Jam | Op::Illegal(_) | Op::IllegalA | Op::Bra | Op::Stz(_) => execute_group_13(cpu, bus, op),
        Op::Trb(_) | Op::Tsb(_) | Op::IncA | Op::DecA | Op::Phx | Op::Phy => execute_group_14(cpu, bus, op),
        Op::Plx | Op::Ply | Op::Bbr(_) | Op::Bbs(_) | Op::Rmb(_) | Op::Smb(_) => execute_group_15(cpu, bus, op),
        Op::Stp | Op::Wai | Op::BitImmediate => execute_group_16(cpu, bus, op),
    }
}

/// One group of the dispatch, under the same contract as
/// [`execute_op`] for the operations it is handed.
fn execute_group_0<B: Bus>(cpu: &mut Cpu, bus: &mut B, op: Op)
    requires
        op is Lda || op is Ldx || op is Ldy || op is Sta || op is Stx || op is Sty,
        old(bus).inv(),
        old(cpu).cycles + 2 <= u64::MAX,
    ensures
        final(bus).inv(),
        final(bus).dma() == old(bus).dma(),
        final(bus).ticks() == old(bus).ticks(),
        old(cpu).cycles <= final(cpu).cycles,
        final(cpu).cycles <= old(cpu).cycles + 2,
        final(cpu).table == old(cpu).table,
        final(cpu).last_opcode == old(cpu).last_opcode,
        final(cpu).last_step_cycles == old(cpu).last_step_cycles,
        final(cpu).irq_pending == old(cpu).irq_pending,
        final(cpu).nmi_pending == old(cpu).nmi_pending,
        final(cpu).reset_pending == old(cpu).reset_pending,
        ({
            let applied = spec_op_apply(op, *old(cpu), old(bus).mem());
            *final(cpu) == applied.0 && final(bus).mem() == applied.1
        }),
{
    proof {
        reveal(spec_op_apply_group_0);
    }
    match op {
        Op::Lda(m) => crate::mos6502::lda(cpu, bus, m),
        Op::Ldx(m) => crate::mos6502::ldx(cpu, bus, m),
        Op::Ldy(m) => crate::mos6502::ldy(cpu, bus, m),
        Op::Sta(m) => crate::mos6502::sta(cpu, bus, m),
        Op::Stx(m) => crate::mos6502::stx(cpu, bus, m),
        Op::Sty(m) => crate::mos6502::sty(cpu, bus, m),
        _ => {
            proof {
                assert(false);
            }
        },
    }
}

/// One group of the dispatch, under the same contract as
/// [`execute_op`] for the operations it is handed.
fn execute_group_1<B: Bus>(cpu: &mut Cpu, bus: &mut B, op: Op)
    requires
        op is Tax || op is Tay || op is Tsx || op is Txa || op is Tya || op is Txs,
        old(bus).inv(),
        old(cpu).cycles + 2 <= u64::MAX,
    ensures
        final(bus).inv(),
        final(bus).dma() == old(bus).dma(),
        final(bus).ticks() == old(bus).ticks(),
        old(cpu).cycles <= final(cpu).cycles,
        final(cpu).cycles <= old(cpu).cycles + 2,
        final(cpu).table == old(cpu).table,
        final(cpu).last_opcode == old(cpu).last_opcode,
        final(cpu).last_step_cycles == old(cpu).last_step_cycles,
        final(cpu).irq_pending == old(cpu).irq_pending,
        final(cpu).nmi_pending == old(cpu).nmi_pending,
        final(cpu).reset_pending == old(cpu).reset_pending,
        ({
            let applied = spec_op_apply(op, *old(cpu), old(bus).mem());
            *final(cpu) == applied.0 && final(bus).mem() == applied.1
        }),
{
    proof {
        reveal(spec_op_apply_group_1);
    }
    match op {
        Op::Tax => crate::mos6502::tax(cpu, bus),
        Op::Tay => crate::mos6502::tay(cpu, bus),
        Op::Tsx => crate::mos6502::tsx(cpu, bus),
        Op::Txa => crate::mos6502::txa(cpu, bus),
        Op::Tya => crate::mos6502::tya(cpu, bus),
        Op::Txs => crate::mos6502::txs(cpu, bus),
        _ => {
            proof {
                assert(false);
            }
        },
    }
}

/// One group of the dispatch, under the same contract as
/// [`execute_op`] for the operations it is handed.
fn execute_group_2<B: Bus>(cpu: &mut Cpu, bus: &mut B, op: Op)
    requires
        op is Pha || op is Php || op is Pla || op is Plp || op is Asl || op is AslA,
        old(bus).inv(),
        old(cpu).cycles + 2 <= u64::MAX,
    ensures
        final(bus).inv(),
        final(bus).dma() == old(bus).dma(),
        final(bus).ticks() == old(bus).ticks(),
        old(cpu).cycles <= final(cpu).cycles,
        final(cpu).cycles <= old(cpu).cycles + 2,
        final(cpu).table == old(cpu).table,
        final(cpu).last_opcode == old(cpu).last_opcode,
        final(cpu).last_step_cycles == old(cpu).last_step_cycles,
        final(cpu).irq_pending == old(cpu).irq_pending,
        final(cpu).nmi_pending == old(cpu).nmi_pending,
        final(cpu).reset_pending == old(cpu).reset_pending,
        ({
            let applied = spec_op_apply(op, *old(cpu), old(bus).mem());
            *final(cpu) == applied.0 && final(bus).mem() == applied.1
        }),
{
    proof {
        reveal(spec_op_apply_group_2);
    }
    match op {
        Op::Pha => crate::mos6502::pha(cpu, bus),
        Op::Php => crate::mos6502::php(cpu, bus),
        Op::Pla => crate::mos6502::pla(cpu, bus),
        Op::Plp => crate::mos6502::plp(cpu, bus),
        Op::Asl(m) => crate::mos6502::asl(cpu, bus, m),
        Op::AslA => crate::mos6502::asl_a(cpu, bus),
        _ => {
            proof {
                assert(false);
            }
        },
    }
}

/// One group of the dispatch, under the same contract as
/// [`execute_op`] for the operations it is handed.
fn execute_group_3<B: Bus>(cpu: &mut Cpu, bus: &mut B, op: Op)
    requires
        op is Lsr || op is LsrA || op is Rol || op is RolA || op is Ror || op is RorA,
        old(bus).inv(),
        old(cpu).cycles + 2 <= u64::MAX,
    ensures
        final(bus).inv(),
        final(bus).dma() == old(bus).dma(),
        final(bus).ticks() == old(bus).ticks(),
        old(cpu).cycles <= final(cpu).cycles,
        final(cpu).cycles <= old(cpu).cycles + 2,
        final(cpu).table == old(cpu).table,
        final(cpu).last_opcode == old(cpu).last_opcode,
        final(cpu).last_step_cycles == old(cpu).last_step_cycles,
        final(cpu).irq_pending == old(cpu).irq_pending,
        final(cpu).nmi_pending == old(cpu).nmi_pending,
        final(cpu).reset_pending == old(cpu).reset_pending,
        ({
            let applied = spec_op_apply(op, *old(cpu), old(bus).mem());
            *final(cpu) == applied.0 && final(bus).mem() == applied.1
        }),
{
    proof {
        reveal(spec_op_apply_group_3);
    }
    match op {
        Op::Lsr(m) => crate::mos6502::lsr(cpu, bus, m),
        Op::LsrA => crate::mos6502::lsr_a(cpu, bus),
        Op::Rol(m) => crate::mos6502::rol(cpu, bus, m),
        Op::RolA => crate::mos6502::rol_a(cpu, bus),
        Op::Ror(m) => crate::mos6502::ror(cpu, bus, m),
        Op::RorA => crate::mos6502::ror_a(cpu, bus),
        _ => {
            proof {
                assert(false);
            }
        },
    }
}

/// One group of the dispatch, under the same contract as
/// [`execute_op`] for the operations it is handed.
fn execute_group_4<B: Bus>(cpu: &mut Cpu, bus: &mut B, op: Op)
    requires
        op is And || op is Ora || op is Eor || op is Bit || op is Adc || op is Sbc,
        old(bus).inv(),
        old(cpu).cycles + 2 <= u64::MAX,
    ensures
        final(bus).inv(),
        final(bus).dma() == old(bus).dma(),
        final(bus).ticks() == old(bus).ticks(),
        old(cpu).cycles <= final(cpu).cycles,
        final(cpu).cycles <= old(cpu).cycles + 2,
        final(cpu).table == old(cpu).table,
        final(cpu).last_opcode == old(cpu).last_opcode,
        final(cpu).last_step_cycles == old(cpu).last_step_cycles,
        final(cpu).irq_pending == old(cpu).irq_pending,
        final(cpu).nmi_pending == old(cpu).nmi_pending,
        final(cpu).reset_pending == old(cpu).reset_pending,
        ({
            let applied = spec_op_apply(op, *old(cpu), old(bus).mem());
            *final(cpu) == applied.0 && final(bus).mem() == applied.1
        }),
{
    proof {
        reveal(spec_op_apply_group_4);
    }
    match op {
        Op::And(m) => crate::mos6502::and(cpu, bus, m),
        Op::Ora(m) => crate::mos6502::ora(cpu, bus, m),
        Op::Eor(m) => crate::mos6502::eor(cpu, bus, m),
        Op::Bit(m) => crate::mos6502::bit(cpu, bus, m),
        Op::Adc(m) => crate::mos6502::adc(cpu, bus, m),
        Op::Sbc(m) => crate::mos6502::sbc(cpu, bus, m),
        _ => {
            proof {
                assert(false);
            }
        },
    }
}

/// One group of the dispatch, under the same contract as
/// [`execute_op`] for the operations it is handed.
fn execute_group_5<B: Bus>(cpu: &mut Cpu, bus: &mut B, op: Op)
    requires
        op is Cmp || op is Cpx || op is Cpy || op is Dec || op is Inc || op is Dex,
        old(bus).inv(),
        old(cpu).cycles + 2 <= u64::MAX,
    ensures
        final(bus).inv(),
        final(bus).dma() == old(bus).dma(),
        final(bus).ticks() == old(bus).ticks(),
        old(cpu).cycles <= final(cpu).cycles,
        final(cpu).cycles <= old(cpu).cycles + 2,
        final(cpu).table == old(cpu).table,
        final(cpu).last_opcode == old(cpu).last_opcode,
        final(cpu).last_step_cycles == old(cpu).last_step_cycles,
        final(cpu).irq_pending == old(cpu).irq_pending,
        final(cpu).nmi_pending == old(cpu).nmi_pending,
        final(cpu).reset_pending == old(cpu).reset_pending,
        ({
            let applied = spec_op_apply(op, *old(cpu), old(bus).mem());
            *final(cpu) == applied.0 && final(bus).mem() == applied.1
        }),
{
    proof {
        reveal(spec_op_apply_group_5);
    }
    match op {
        Op::Cmp(m) => crate::mos6502::cmp(cpu, bus, m),
        Op::Cpx(m) => crate::mos6502::cpx(cpu, bus, m),
        Op::Cpy(m) => crate::mos6502::cpy(cpu, bus, m),
        Op::Dec(m) => crate::mos6502::dec(cpu, bus, m),
        Op::Inc(m) => crate::mos6502::inc(cpu, bus, m),
        Op::Dex => crate::mos6502::dex(cpu, bus),
        _ => {
            proof {
                assert(false);
            }
        },
    }
}

/// One group of the dispatch, under the same contract as
/// [`execute_op`] for the operations it is handed.
fn execute_group_6<B: Bus>(cpu: &mut Cpu, bus: &mut B, op: Op)
    requires
        op is Dey || op is Inx || op is Iny || op is Brk || op is BrkClearDecimal || op is Jmp,
        old(bus).inv(),
        old(cpu).cycles + 2 <= u64::MAX,
    ensures
        final(bus).inv(),
        final(bus).dma() == old(bus).dma(),
        final(bus).ticks() == old(bus).ticks(),
        old(cpu).cycles <= final(cpu).cycles,
        final(cpu).cycles <= old(cpu).cycles + 2,
        final(cpu).table == old(cpu).table,
        final(cpu).last_opcode == old(cpu).last_opcode,
        final(cpu).last_step_cycles == old(cpu).last_step_cycles,
        final(cpu).irq_pending == old(cpu).irq_pending,
        final(cpu).nmi_pending == old(cpu).nmi_pending,
        final(cpu).reset_pending == old(cpu).reset_pending,
        ({
            let applied = spec_op_apply(op, *old(cpu), old(bus).mem());
            *final(cpu) == applied.0 && final(bus).mem() == applied.1
        }),
{
    proof {
        reveal(spec_op_apply_group_6);
    }
    match op {
        Op::Dey => crate::mos6502::dey(cpu, bus),
        Op::Inx => crate::mos6502::inx(cpu, bus),
        Op::Iny => crate::mos6502::iny(cpu, bus),
        Op::Brk => crate::mos6502::brk(cpu, bus),
        Op::BrkClearDecimal => crate::wdc65c02s::brk(cpu, bus),
        Op::Jmp(m) => crate::mos6502::jmp(cpu, bus, m),
        _ => {
            proof {
                assert(false);
            }
        },
    }
}

/// One group of the dispatch, under the same contract as
/// [`execute_op`] for the operations it is handed.
fn execute_group_7<B: Bus>(cpu: &mut Cpu, bus: &mut B, op: Op)
    requires
        op is Jsr || op is Rti || op is Rts || op is Bcc || op is Bcs || op is Beq,
        old(bus).inv(),
        old(cpu).cycles + 2 <= u64::MAX,
    ensures
        final(bus).inv(),
        final(bus).dma() == old(bus).dma(),
        final(bus).ticks() == old(bus).ticks(),
        old(cpu).cycles <= final(cpu).cycles,
        final(cpu).cycles <= old(cpu).cycles + 2,
        final(cpu).table == old(cpu).table,
        final(cpu).last_opcode == old(cpu).last_opcode,
        final(cpu).last_step_cycles == old(cpu).last_step_cycles,
        final(cpu).irq_pending == old(cpu).irq_pending,
        final(cpu).nmi_pending == old(cpu).nmi_pending,
        final(cpu).reset_pending == old(cpu).reset_pending,
        ({
            let applied = spec_op_apply(op, *old(cpu), old(bus).mem());
            *final(cpu) == applied.0 && final(bus).mem() == applied.1
        }),
{
    proof {
        reveal(spec_op_apply_group_7);
    }
    match op {
        Op::Jsr(m) => crate::mos6502::jsr(cpu, bus, m),
        Op::Rti => crate::mos6502::rti(cpu, bus),
        Op::Rts => crate::mos6502::rts(cpu, bus),
        Op::Bcc => crate::mos6502::bcc(cpu, bus),
        Op::Bcs => crate::mos6502::bcs(cpu, bus),
        Op::Beq => crate::mos6502::beq(cpu, bus),
        _ => {
            proof {
                assert(false);
            }
        },
    }
}

/// One group of the dispatch, under the same contract as
/// [`execute_op`] for the operations it is handed.
fn execute_group_8<B: Bus>(cpu: &mut Cpu, bus: &mut B, op: Op)
    requires
        op is Bmi || op is Bne || op is Bpl || op is Bvc || op is Bvs || op is Clc,
        old(bus).inv(),
        old(cpu).cycles + 2 <= u64::MAX,
    ensures
        final(bus).inv(),
        final(bus).dma() == old(bus).dma(),
        final(bus).ticks() == old(bus).ticks(),
        old(cpu).cycles <= final(cpu).cycles,
        final(cpu).cycles <= old(cpu).cycles + 2,
        final(cpu).table == old(cpu).table,
        final(cpu).last_opcode == old(cpu).last_opcode,
        final(cpu).last_step_cycles == old(cpu).last_step_cycles,
        final(cpu).irq_pending == old(cpu).irq_pending,
        final(cpu).nmi_pending == old(cpu).nmi_pending,
        final(cpu).reset_pending == old(cpu).reset_pending,
        ({
            let applied = spec_op_apply(op, *old(cpu), old(bus).mem());
            *final(cpu) == applied.0 && final(bus).mem() == applied.1
        }),
{
    proof {
        reveal(spec_op_apply_group_8);
    }
    match op {
        Op::Bmi => crate::mos6502::bmi(cpu, bus),
        Op::Bne => crate::mos6502::bne(cpu, bus),
        Op::Bpl => crate::mos6502::bpl(cpu, bus),
        Op::Bvc => crate::mos6502::bvc(cpu, bus),
        Op::Bvs => crate::mos6502::bvs(cpu, bus),
        Op::Clc => crate::mos6502::clc(cpu, bus),
        _ => {
            proof {
                assert(false);
            }
        },
    }
}

/// One group of the dispatch, under the same contract as
/// [`execute_op`] for the operations it is handed.
fn execute_group_9<B: Bus>(cpu: &mut Cpu, bus: &mut B, op: Op)
    requires
        op is Cld || op is Cli || op is Clv || op is Sec || op is Sed || op is Sei,
        old(bus).inv(),
        old(cpu).cycles + 2 <= u64::MAX,
    ensures
        final(bus).inv(),
        final(bus).dma() == old(bus).dma(),
        final(bus).ticks() == old(bus).ticks(),
        old(cpu).cycles <= final(cpu).cycles,
        final(cpu).cycles <= old(cpu).cycles + 2,
        final(cpu).table == old(cpu).table,
        final(cpu).last_opcode == old(cpu).last_opcode,
        final(cpu).last_step_cycles == old(cpu).last_step_cycles,
        final(cpu).irq_pending == old(cpu).irq_pending,
        final(cpu).nmi_pending == old(cpu).nmi_pending,
        final(cpu).reset_pending == old(cpu).reset_pending,
        ({
            let applied = spec_op_apply(op, *old(cpu), old(bus).mem());
            *final(cpu) == applied.0 && final(bus).mem() == applied.1
        }),
{
    proof {
        reveal(spec_op_apply_group_9);
    }
    match op {
        Op::Cld => crate::mos6502::cld(cpu, bus),
        Op::Cli => crate::mos6502::cli(cpu, bus),
        Op::Clv => crate::mos6502::clv(cpu, bus),
        Op::Sec => crate::mos6502::sec(cpu, bus),
        Op::Sed => crate::mos6502::sed(cpu, bus),
        Op::Sei => crate::mos6502::sei(cpu, bus),
        _ => {
            proof {
                assert(false);
            }
        },
    }
}

/// One group of the dispatch, under the same contract as
/// [`execute_op`] for the operations it is handed.
fn execute_group_10<B: Bus>(cpu: &mut Cpu, bus: &mut B, op: Op)
    requires
        op is Nop || op is Las || op is Lax || op is Sax || op is Sha || op is Shx,
        old(bus).inv(),
        old(cpu).cycles + 2 <= u64::MAX,
    ensures
        final(bus).inv(),
        final(bus).dma() == old(bus).dma(),
        final(bus).ticks() == old(bus).ticks(),
        old(cpu).cycles <= final(cpu).cycles,
        final(cpu).cycles <= old(cpu).cycles + 2,
        final(cpu).table == old(cpu).table,
        final(cpu).last_opcode == old(cpu).last_opcode,
        final(cpu).last_step_cycles == old(cpu).last_step_cycles,
        final(cpu).irq_pending == old(cpu).irq_pending,
        final(cpu).nmi_pending == old(cpu).nmi_pending,
        final(cpu).reset_pending == old(cpu).reset_pending,
        ({
            let applied = spec_op_apply(op, *old(cpu), old(bus).mem());
            *final(cpu) == applied.0 && final(bus).mem() == applied.1
        }),
{
    proof {
        reveal(spec_op_apply_group_10);
    }
    match op {
        Op::Nop => crate::mos6502::nop(cpu, bus),
        Op::Las(m) => crate::mos6502::las(cpu, bus, m),
        Op::Lax(m) => crate::mos6502::lax(cpu, bus, m),
        Op::Sax(m) => crate::mos6502::sax(cpu, bus, m),
        Op::Sha(m) => crate::mos6502::sha(cpu, bus, m),
        Op::Shx(m) => crate::mos6502::shx(cpu, bus, m),
        _ => {
            proof {
                assert(false);
            }
        },
    }
}

/// One group of the dispatch, under the same contract as
/// [`execute_op`] for the operations it is handed.
fn execute_group_11<B: Bus>(cpu: &mut Cpu, bus: &mut B, op: Op)
    requires
        op is Shy || op is Shs || op is Anc || op is Arr || op is Asr || op is Dcp,
        old(bus).inv(),
        old(cpu).cycles + 2 <= u64::MAX,
    ensures
        final(bus).inv(),
        final(bus).dma() == old(bus).dma(),
        final(bus).ticks() == old(bus).ticks(),
        old(cpu).cycles <= final(cpu).cycles,
        final(cpu).cycles <= old(cpu).cycles + 2,
        final(cpu).table == old(cpu).table,
        final(cpu).last_opcode == old(cpu).last_opcode,
        final(cpu).last_step_cycles == old(cpu).last_step_cycles,
        final(cpu).irq_pending == old(cpu).irq_pending,
        final(cpu).nmi_pending == old(cpu).nmi_pending,
        final(cpu).reset_pending == old(cpu).reset_pending,
        ({
            let applied = spec_op_apply(op, *old(cpu), old(bus).mem());
            *final(cpu) == applied.0 && final(bus).mem() == applied.1
        }),
{
    proof {
        reveal(spec_op_apply_group_11);
    }
    match op {
        Op::Shy(m) => crate::mos6502::shy(cpu, bus, m),
        Op::Shs(m) => crate::mos6502::shs(cpu, bus, m),
        Op::Anc(m) => crate::mos6502::anc(cpu, bus, m),
        Op::Arr(m) => crate::mos6502::arr(cpu, bus, m),
        Op::Asr(m) => crate::mos6502::asr(cpu, bus, m),
        Op::Dcp(m) => crate::mos6502::dcp(cpu, bus, m),
        _ => {
            proof {
                assert(false);
            }
        },
    }
}

/// One group of the dispatch, under the same contract as
/// [`execute_op`] for the operations it is handed.
fn execute_group_12<B: Bus>(cpu: &mut Cpu, bus: &mut B, op: Op)
    requires
        op is Isc || op is Rla || op is Slo || op is Sre || op is Rra || op is Sbx,
        old(bus).inv(),
        old(cpu).cycles + 2 <= u64::MAX,
    ensures
        final(bus).inv(),
        final(bus).dma() == old(bus).dma(),
        final(bus).ticks() == old(bus).ticks(),
        old(cpu).cycles <= final(cpu).cycles,
        final(cpu).cycles <= old(cpu).cycles + 2,
        final(cpu).table == old(cpu).table,
        final(cpu).last_opcode == old(cpu).last_opcode,
        final(cpu).last_step_cycles == old(cpu).last_step_cycles,
        final(cpu).irq_pending == old(cpu).irq_pending,
        final(cpu).nmi_pending == old(cpu).nmi_pending,
        final(cpu).reset_pending == old(cpu).reset_pending,
        ({
            let applied = spec_op_apply(op, *old(cpu), old(bus).mem());
            *final(cpu) == applied.0 && final(bus).mem() == applied.1
        }),
{
    proof {
        reveal(spec_op_apply_group_12);
    }
    match op {
        Op::Isc(m) => crate::mos6502::isc(cpu, bus, m),
        Op::Rla(m) => crate::mos6502::rla(cpu, bus, m),
        Op::Slo(m) => crate::mos6502::slo(cpu, bus, m),
        Op::Sre(m) => crate::mos6502::sre(cpu, bus, m),
        Op::Rra(m) => crate::mos6502::rra(cpu, bus, m),
        Op::Sbx(m) => crate::mos6502::sbx(cpu, bus, m),
        _ => {
            proof {
                assert(false);
            }
        },
    }
}

/// One group of the dispatch, under the same contract as
/// [`execute_op`] for the operations it is handed.
fn execute_group_13<B: Bus>(cpu: &mut Cpu, bus: &mut B, op: Op)
    requires
        op is Xaa || op is Jam || op is Illegal || op is IllegalA || op is Bra || op is Stz,
        old(bus).inv(),
        old(cpu).cycles + 2 <= u64::MAX,
    ensures
        final(bus).inv(),
        final(bus).dma() == old(bus).dma(),
        final(bus).ticks() == old(bus).ticks(),
        old(cpu).cycles <= final(cpu).cycles,
        final(cpu).cycles <= old(cpu).cycles + 2,
        final(cpu).table == old(cpu).table,
        final(cpu).last_opcode == old(cpu).last_opcode,
        final(cpu).last_step_cycles == old(cpu).last_step_cycles,
        final(cpu).irq_pending == old(cpu).irq_pending,
        final(cpu).nmi_pending == old(cpu).nmi_pending,
        final(cpu).reset_pending == old(cpu).reset_pending,
        ({
            let applied = spec_op_apply(op, *old(cpu), old(bus).mem());
            *final(cpu) == applied.0 && final(bus).mem() == applied.1
        }),
{
    proof {
        reveal(spec_op_apply_group_13);
    }
    match op {
        Op::Xaa(m) => crate::mos6502::xaa(cpu, bus, m),
        Op::Jam => crate::mos6502::jam(cpu, bus),
        Op::Illegal(m) => crate::mos6502::illegal(cpu, bus, m),
        Op::IllegalA => crate::mos6502::illegal_a(cpu, bus),
        Op::Bra => crate::wdc65c02s::bra(cpu, bus, AddressingMode::Immediate),
        Op::Stz(m) => crate::wdc65c02s::stz(cpu, bus, m),
        _ => {
            proof {
                assert(false);
            }
        },
    }
}

/// One group of the dispatch, under the same contract as
/// [`execute_op`] for the operations it is handed.
fn execute_group_14<B: Bus>(cpu: &mut Cpu, bus: &mut B, op: Op)
    requires
        op is Trb || op is Tsb || op is IncA || op is DecA || op is Phx || op is Phy,
        old(bus).inv(),
        old(cpu).cycles + 2 <= u64::MAX,
    ensures
        final(bus).inv(),
        final(bus).dma() == old(bus).dma(),
        final(bus).ticks() == old(bus).ticks(),
        old(cpu).cycles <= final(cpu).cycles,
        final(cpu).cycles <= old(cpu).cycles + 2,
        final(cpu).table == old(cpu).table,
        final(cpu).last_opcode == old(cpu).last_opcode,
        final(cpu).last_step_cycles == old(cpu).last_step_cycles,
        final(cpu).irq_pending == old(cpu).irq_pending,
        final(cpu).nmi_pending == old(cpu).nmi_pending,
        final(cpu).reset_pending == old(cpu).reset_pending,
        ({
            let applied = spec_op_apply(op, *old(cpu), old(bus).mem());
            *final(cpu) == applied.0 && final(bus).mem() == applied.1
        }),
{
    proof {
        reveal(spec_op_apply_group_14);
    }
    match op {
        Op::Trb(m) => crate::wdc65c02s::trb(cpu, bus, m),
        Op::Tsb(m) => crate::wdc65c02s::tsb(cpu, bus, m),
        Op::IncA => crate::wdc65c02s::inc_a(cpu, bus),
        Op::DecA => crate::wdc65c02s::dec_a(cpu, bus),
        Op::Phx => crate::wdc65c02s::phx(cpu, bus),
        Op::Phy => crate::wdc65c02s::phy(cpu, bus),
        _ => {
            proof {
                assert(false);
            }
        },
    }
}

/// One group of the dispatch, under the same contract as
/// [`execute_op`] for the operations it is handed.
fn execute_group_15<B: Bus>(cpu: &mut Cpu, bus: &mut B, op: Op)
    requires
        op is Plx || op is Ply || op is Bbr || op is Bbs || op is Rmb || op is Smb,
        old(bus).inv(),
        old(cpu).cycles + 2 <= u64::MAX,
    ensures
        final(bus).inv(),
        final(bus).dma() == old(bus).dma(),
        final(bus).ticks() == old(bus).ticks(),
        old(cpu).cycles <= final(cpu).cycles,
        final(cpu).cycles <= old(cpu).cycles + 2,
        final(cpu).table == old(cpu).table,
        final(cpu).last_opcode == old(cpu).last_opcode,
        final(cpu).last_step_cycles == old(cpu).last_step_cycles,
        final(cpu).irq_pending == old(cpu).irq_pending,
        final(cpu).nmi_pending == old(cpu).nmi_pending,
        final(cpu).reset_pending == old(cpu).reset_pending,
        ({
            let applied = spec_op_apply(op, *old(cpu), old(bus).mem());
            *final(cpu) == applied.0 && final(bus).mem() == applied.1
        }),
{
    proof {
        reveal(spec_op_apply_group_15);
    }
    match op {
        Op::Plx => crate::wdc65c02s::plx(cpu, bus),
        Op::Ply => crate::wdc65c02s::ply(cpu, bus),
        Op::Bbr(n) => crate::wdc65c02s::branch_on_zero_page_bit(cpu, bus, n % 8, false),
        Op::Bbs(n) => crate::wdc65c02s::branch_on_zero_page_bit(cpu, bus, n % 8, true),
        Op::Rmb(n) => crate::wdc65c02s::modify_zero_page_bit(cpu, bus, n % 8, false),
        Op::Smb(n) => crate::wdc65c02s::modify_zero_page_bit(cpu, bus, n % 8, true),
        _ => {
            proof {
                assert(false);
            }
        },
    }
}

/// One group of the dispatch, under the same contract as
/// [`execute_op`] for the operations it is handed.
fn execute_group_16<B: Bus>(cpu: &mut Cpu, bus: &mut B, op: Op)
    requires
        op is Stp || op is Wai || op is BitImmediate,
        old(bus).inv(),
        old(cpu).cycles + 2 <= u64::MAX,
    ensures
        final(bus).inv(),
        final(bus).dma() == old(bus).dma(),
        final(bus).ticks() == old(bus).ticks(),
        old(cpu).cycles <= final(cpu).cycles,
        final(cpu).cycles <= old(cpu).cycles + 2,
        final(cpu).table == old(cpu).table,
        final(cpu).last_opcode == old(cpu).last_opcode,
        final(cpu).last_step_cycles == old(cpu).last_step_cycles,
        final(cpu).irq_pending == old(cpu).irq_pending,
        final(cpu).nmi_pending == old(cpu).nmi_pending,
        final(cpu).reset_pending == old(cpu).reset_pending,
        ({
            let applied = spec_op_apply(op, *old(cpu), old(bus).mem());
            *final(cpu) == applied.0 && final(bus).mem() == applied.1
        }),
{
    proof {
        reveal(spec_op_apply_group_16);
    }
    match op {
        Op::Stp => crate::wdc65c02s::stp(cpu, bus),
        Op::Wai => crate::wdc65c02s::wai(cpu, bus),
        Op::BitImmediate => crate::wdc65c02s::bit(cpu, bus),
        _ => {
            proof {
                assert(false);
            }
        },
    }
}

impl Default for Cpu {
    /// A MOS 6502 at power-on defaults, as
    /// [`Cpu::with_instruction_set`] builds it.
    fn default() -> (r: Self)
        ensures
            r.wf(),
            r.a == 0 && r.x == 0 && r.y == 0,
            r.p == Flags::spec_power_on(),
            r.sp == 0xFD,
            r.pc == 0,
            r.cycles == 0,
            r.last_step_cycles == 0,
            r.last_opcode == 0,
            r.run_state == RunState::Running,
            !r.irq_pending && !r.nmi_pending && !r.reset_pending,
            r.table.entries@ == Seq::new(
                256,
                |i: int| crate::mos6502::spec_mos_entry(i as u8),
            ),
            r.table.decimal_enabled,
            !r.table.interrupt_clears_decimal,
    {
        Cpu::with_instruction_set::<crate::mos6502::Mos6502>()
    }
}

/// The stack pointer after `n` pushes, each decrementing with 8-bit
/// wrap as [`Cpu::push`] does.
pub open spec fn sp_after_pushes(sp: u8, n: nat) -> u8
    decreases n,
{
    if n == 0 {
        sp
    } else {
        wrap8(sp_after_pushes(sp, (n - 1) as nat) - 1)
    }
}

/// The stack pointer after `n` pulls, each incrementing with 8-bit
/// wrap as [`Cpu::pop`] does.
pub open spec fn sp_after_pulls(sp: u8, n: nat) -> u8
    decreases n,
{
    if n == 0 {
        sp
    } else {
        wrap8(sp_after_pulls(sp, (n - 1) as nat) + 1)
    }
}

/// `n` pushes move the stack pointer down by `n` with 8-bit wrap, and
/// `n` pulls move it up likewise.
pub proof fn lemma_sp_moves(sp: u8, n: nat)
    ensures
        sp_after_pushes(sp, n) == wrap8(sp - n),
        sp_after_pulls(sp, n) == wrap8(sp + n),
    decreases n,
{
    if n == 0 {
        assert(wrap8(sp as int) == sp);
    } else {
        lemma_sp_moves(sp, (n - 1) as nat);
        crate::arith::lemma_wrap8_shift(sp - (n - 1), -1);
        crate::arith::lemma_wrap8_shift(sp + (n - 1), 1);
    }
}

/// After any push sequence and a pull sequence of the same length, the
/// stack pointer is restored, whatever the wrapping in between.
pub proof fn lemma_push_pull_sp_restored(sp: u8, n: nat)
    ensures
        sp_after_pulls(sp_after_pushes(sp, n), n) == sp,
{
    lemma_sp_moves(sp, n);
    lemma_sp_moves(wrap8(sp - n), n);
    crate::arith::lemma_wrap8_shift(sp - n, n as int);
    assert(wrap8(sp as int) == sp);
}

/// Every stack access lands in the stack page `$0100`-`$01FF`, and the
/// pointer arithmetic wraps within it: one below `$0100` is `$01FF`,
/// one above `$01FF` is `$0100`.
pub proof fn lemma_stack_wraps_within_page(sp: u8)
    ensures
        0x0100 <= STACK_SPACE_START + sp as int <= 0x01FF,
        STACK_SPACE_START + wrap8(0x00 - 1) as int == 0x01FF,
        STACK_SPACE_START + wrap8(0xFF as int + 1) as int == 0x0100,
{
}

} // verus!
