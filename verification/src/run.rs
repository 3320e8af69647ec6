//! Stop conditions and summaries for driving the processor in a loop.

use vstd::prelude::*;

use crate::cpu::Cpu;

verus! {

/// Why a run stopped.
#[derive(Debug, Clone, Copy, PartialEq, Eq, Structural)]
pub enum RunOutcome {
    /// Execution is still in progress (the value before any stop
    /// condition fires).
    InProgress,
    /// Execution hit a BRK instruction with `stop_on_brk` enabled.
    HitBrk,
    /// The caller-supplied predicate returned true.
    HitPredicate,
    /// The configured instruction limit was reached.
    HitInstructionLimit,
    /// The CPU made no forward progress: halted, waiting, an interrupt
    /// entry, or a cycle counter that can no longer advance.
    Stalled,
}

/// Summary of a run: how much was executed and why it stopped.
#[derive(Debug, Clone, Copy, PartialEq, Eq, Structural)]
pub struct RunSummary {
    /// Total instructions executed.
    pub instructions_executed: u64,
    /// Total CPU cycles those instructions consumed.
    pub cycles: u64,
    /// Why execution stopped.
    pub outcome: RunOutcome,
}

impl RunSummary {
    /// Record why the run stopped.
    pub fn mark(&mut self, outcome: RunOutcome)
        ensures
            *final(self) == (RunSummary { outcome, ..*old(self) }),
    {
        self.outcome = outcome;
    }

    /// Whether execution stopped on a BRK.
    pub fn hit_brk(&self) -> (r: bool)
        ensures
            r == (self.outcome == RunOutcome::HitBrk),
    {
        self.outcome == RunOutcome::HitBrk
    }

    /// Whether the caller's predicate stopped execution.
    pub fn hit_predicate(&self) -> (r: bool)
        ensures
            r == (self.outcome == RunOutcome::HitPredicate),
    {
        self.outcome == RunOutcome::HitPredicate
    }

    /// Whether the instruction limit stopped execution.
    pub fn hit_instruction_limit(&self) -> (r: bool)
        ensures
            r == (self.outcome == RunOutcome::HitInstructionLimit),
    {
        self.outcome == RunOutcome::HitInstructionLimit
    }

    /// Whether the CPU stalled (halted, waiting, or otherwise unable to
    /// progress).
    pub fn stalled(&self) -> (r: bool)
        ensures
            r == (self.outcome == RunOutcome::Stalled),
    {
        self.outcome == RunOutcome::Stalled
    }
}

impl Default for RunSummary {
    /// Nothing executed yet, still in progress.
    fn default() -> (r: Self)
        ensures
            r == (RunSummary {
                instructions_executed: 0,
                cycles: 0,
                outcome: RunOutcome::InProgress,
            }),
    {
        RunSummary { instructions_executed: 0, cycles: 0, outcome: RunOutcome::InProgress }
    }
}

/// A caller-supplied stop condition, consulted after each instruction.
pub trait RunPredicate {
    /// Return true to stop the run.
    fn should_stop(&mut self, cpu: &Cpu) -> bool;
}

/// The predicate that never stops a run; the default configuration
/// carries it in place of a caller's own.
#[derive(Debug, Clone, Copy, PartialEq, Eq, Structural)]
pub struct NeverStop;

impl RunPredicate for NeverStop {
    fn should_stop(&mut self, cpu: &Cpu) -> bool {
        false
    }
}

/// Configuration for a run: an optional instruction budget, whether a
/// BRK stops the run, and an optional predicate.
pub struct RunConfig<P> {
    /// Maximum number of instructions to execute before stopping.
    pub instruction_limit: Option<u64>,
    /// Stop automatically when a BRK (opcode `$00`) executes.
    pub stop_on_brk: bool,
    /// Optional predicate invoked after each instruction; returning
    /// true stops the run.
    pub predicate: Option<P>,
}

impl Default for RunConfig<NeverStop> {
    /// No limit, no BRK stop, no predicate.
    fn default() -> (r: Self)
        ensures
            r.instruction_limit is None,
            !r.stop_on_brk,
            r.predicate is None,
    {
        RunConfig { instruction_limit: None, stop_on_brk: false, predicate: None }
    }
}

} // verus!
