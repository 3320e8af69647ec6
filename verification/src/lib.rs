//! A cycle-counted emulator core for the MOS 6502 and WDC 65C02S
//! eight-bit microprocessors.
//!
//! The crate is organised around three abstractions:
//!
//! - [`Bus`]: the memory and I/O interface the processor drives.  Its
//!   contract models the 64 KiB address space as a sequence of bytes and
//!   the pending DMA work as a queue of cycle counts.
//! - [`InstructionSet`]: a CPU variant, supplying the 256-entry dispatch
//!   table of base cycle counts and operations.
//! - [`Cpu`]: the register file and execution loop, with the per-opcode
//!   semantics stated as contracts over the bus model.

pub mod access;
pub mod alu;
pub mod arith;
pub mod bus;
pub mod cpu;
pub mod flags;
pub mod instruction;
pub mod mode;
pub mod mos6502;
pub mod run;
pub mod simple_bus;
pub mod testing_bus;
pub mod wdc65c02s;

pub use access::{AccessType, Phase};
pub use bus::{Bus, DmaRequest, DmaResult};
pub use simple_bus::SimpleBus;
pub use testing_bus::TestingBus;
pub use run::{NeverStop, RunConfig, RunOutcome, RunPredicate, RunSummary};
pub use cpu::{Cpu, Interrupt, RunState};
pub use cpu::{IRQ_VECTOR_HI, IRQ_VECTOR_LO, NMI_VECTOR_HI, NMI_VECTOR_LO, RESET_VECTOR_HI, RESET_VECTOR_LO, STACK_SPACE_START};
pub use flags::{Flag, Flags};
pub use instruction::{Instruction, InstructionSet, InstructionTable, Op};
pub use mode::AddressingMode;
