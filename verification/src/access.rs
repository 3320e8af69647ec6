//! Classification of bus accesses.

use vstd::prelude::*;

verus! {

/// Phase within a bus cycle: the read (GET) or write (PUT) half.
/// Some hardware (e.g. sprite DMA engines) cares which half a
/// transfer lands in.
#[derive(Clone, Copy, Debug, PartialEq, Eq, Structural)]
pub enum Phase {
    Read,
    Write,
}

/// High-level purpose of a bus access combined with its direction.
///
/// The processor tags every read and write with one of these so that
/// bus implementations can gate on the kind of traffic.
#[derive(Clone, Copy, Debug, PartialEq, Eq, Structural)]
pub enum AccessType {
    DataRead,
    DataWrite,
    OpcodeFetch,
    StackRead,
    StackWrite,
    InterruptVectorRead,
    DmaRead,
    DmaWrite,
    DummyRead,
}

impl AccessType {
    /// Whether this access classifies as a write.
    pub open spec fn spec_is_write(self) -> bool {
        self == AccessType::DataWrite || self == AccessType::StackWrite
            || self == AccessType::DmaWrite
    }

    /// Returns `true` for the three write-classified access types.
    pub fn is_write(self) -> (r: bool)
        ensures
            r == self.spec_is_write(),
    {
        match self {
            AccessType::DataWrite | AccessType::StackWrite | AccessType::DmaWrite => true,
            _ => false,
        }
    }

    /// The bus-cycle phase implied by this access: `Write` for the
    /// write-classified types, `Read` for all others.
    pub fn phase(self) -> (r: Phase)
        ensures
            r == (if self.spec_is_write() {
                Phase::Write
            } else {
                Phase::Read
            }),
    {
        if self.is_write() {
            Phase::Write
        } else {
            Phase::Read
        }
    }
}

impl Default for AccessType {
    /// Plain data reads are the default access classification.
    fn default() -> (r: Self)
        ensures
            r == AccessType::DataRead,
    {
        AccessType::DataRead
    }
}

} // verus!
