//! A trivial flat 64 KiB memory bus.

use vstd::prelude::*;

use crate::access::AccessType;
use crate::bus::{Bus, DmaRequest, DmaResult};

verus! {

/// Simple contiguous memory without mirroring or bank logic, and with
/// no DMA engine: every request is denied and nothing is ever queued.
pub struct SimpleBus {
    mem: Vec<u8>,
    tick_log: Ghost<Seq<u8>>,
}

impl SimpleBus {
    /// A fresh bus with all 64 KiB zeroed.
    pub fn new() -> (r: Self)
        ensures
            r.inv(),
            r.mem() == Seq::new(0x10000, |i: int| 0u8),
            r.dma() == Seq::<u8>::empty(),
            r.ticks() == Seq::<u8>::empty(),
    {
        let mut mem: Vec<u8> = Vec::new();
        let mut i: usize = 0;
        while i < 0x10000
            invariant
                i <= 0x10000,
                mem@ =~= Seq::new(i as nat, |j: int| 0u8),
            decreases 0x10000 - i,
        {
            mem.push(0u8);
            proof {
                assert(mem@ =~= Seq::new((i + 1) as nat, |j: int| 0u8));
            }
            i = i + 1;
        }
        SimpleBus { mem, tick_log: Ghost(Seq::empty()) }
    }

    /// Load raw bytes directly into memory starting at `start`, the
    /// address wrapping at the 16-bit boundary.
    pub fn load(&mut self, start: u16, bytes: &[u8])
        requires
            old(self).inv(),
        ensures
            final(self).inv(),
                final(self).mem() == crate::bus::spec_write_block(old(self).mem(), start, bytes@),
            final(self).dma() == old(self).dma(),
            final(self).ticks() == old(self).ticks(),
    {
        crate::bus::write_block(self, start, bytes, AccessType::DataWrite);
    }
}

impl Default for SimpleBus {
    /// Same as [`SimpleBus::new`]: all 64 KiB zeroed.
    fn default() -> (r: Self)
        ensures
            r.inv(),
            r.mem() == Seq::new(0x10000, |i: int| 0u8),
            r.dma() == Seq::<u8>::empty(),
            r.ticks() == Seq::<u8>::empty(),
    {
        SimpleBus::new()
    }
}

impl Bus for SimpleBus {
    closed spec fn mem(&self) -> Seq<u8> {
        self.mem@
    }

    closed spec fn dma(&self) -> Seq<u8> {
        Seq::empty()
    }

    closed spec fn ticks(&self) -> Seq<u8> {
        self.tick_log@
    }

    closed spec fn inv(&self) -> bool {
        self.mem@.len() == 0x10000
    }

    proof fn inv_mem_len(&self) {
    }

    fn read(&mut self, addr: u16, access: AccessType) -> (r: u8) {
        self.mem[addr as usize]
    }

    fn write(&mut self, addr: u16, value: u8, access: AccessType) {
        self.mem.set(addr as usize, value);
    }

    fn on_tick(&mut self, cycles: u8) {
        proof {
            self.tick_log@ = self.tick_log@.push(cycles);
        }
    }

    fn request_dma(&mut self, request: DmaRequest) -> (r: DmaResult) {
        DmaResult::Denied
    }

    fn poll_dma_cycle(&mut self) -> (r: Option<u8>) {
        None
    }
}

} // verus!
