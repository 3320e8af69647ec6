//! A test-double bus: flat memory plus tick and DMA bookkeeping.

use vstd::prelude::*;

use crate::access::AccessType;
use crate::bus::{Bus, DmaRequest, DmaResult};

verus! {

/// Deterministic bus for exercising the tick loop: flat 64 KiB memory,
/// counters for the cycles reported through `on_tick` and for drained
/// DMA cycles, and a queue of pending DMA cycle counts.  DMA requests
/// are queued by their length and answered `Pending`.
pub struct TestingBus {
    /// The flat 64 KiB backing store.
    pub mem: Vec<u8>,
    /// Total cycles the processor has reported through `on_tick`.
    pub ticks: u64,
    /// Total cycles handed out of the DMA queue.
    pub dma_ticks: u64,
    /// Pending DMA cycle counts, front of the queue first.
    pub dma_queue: Vec<u8>,
    /// The history of `on_tick` reports, for the tick model.
    pub tick_log: Ghost<Seq<u8>>,
}

impl TestingBus {
    /// A fresh bus: zeroed memory, zero counters, nothing queued.
    pub fn new() -> (r: Self)
        ensures
            r.inv(),
            r.mem() == Seq::new(0x10000, |i: int| 0u8),
            r.dma() == Seq::<u8>::empty(),
            r.ticks() == Seq::<u8>::empty(),
            r.ticks == 0,
            r.dma_ticks == 0,
    {
        let mut mem: Vec<u8> = Vec::new();
        let mut i: usize = 0;
        while i < 0x10000
            invariant
                i <= 0x10000,
                mem@ =~= Seq::new(i as nat, |j: int| 0u8),
            decreases 0x10000 - i,
        {
            mem.push(0u8);
            proof {
                assert(mem@ =~= Seq::new((i + 1) as nat, |j: int| 0u8));
            }
            i = i + 1;
        }
        TestingBus { mem, ticks: 0, dma_ticks: 0, dma_queue: Vec::new(), tick_log: Ghost(Seq::empty()) }
    }

    /// Queue a DMA chunk of `cycles` for the tick loop to drain.
    pub fn queue_dma(&mut self, cycles: u8)
        requires
            old(self).inv(),
        ensures
            final(self).inv(),
            final(self).mem() == old(self).mem(),
            final(self).dma() == old(self).dma().push(cycles),
            final(self).ticks() == old(self).ticks(),
            final(self).ticks == old(self).ticks,
            final(self).dma_ticks == old(self).dma_ticks,
    {
        self.dma_queue.push(cycles);
    }
}

impl Default for TestingBus {
    /// Same as [`TestingBus::new`].
    fn default() -> (r: Self)
        ensures
            r.inv(),
            r.mem() == Seq::new(0x10000, |i: int| 0u8),
            r.dma() == Seq::<u8>::empty(),
            r.ticks() == Seq::<u8>::empty(),
            r.ticks == 0,
            r.dma_ticks == 0,
    {
        TestingBus::new()
    }
}

impl Bus for TestingBus {
    closed spec fn mem(&self) -> Seq<u8> {
        self.mem@
    }

    closed spec fn dma(&self) -> Seq<u8> {
        self.dma_queue@
    }

    closed spec fn ticks(&self) -> Seq<u8> {
        self.tick_log@
    }

    closed spec fn inv(&self) -> bool {
        self.mem@.len() == 0x10000
    }

    proof fn inv_mem_len(&self) {
    }

    fn read(&mut self, addr: u16, access: AccessType) -> (r: u8) {
        self.mem[addr as usize]
    }

    fn write(&mut self, addr: u16, value: u8, access: AccessType) {
        self.mem.set(addr as usize, value);
    }

    fn on_tick(&mut self, cycles: u8) {
        proof {
            self.tick_log@ = self.tick_log@.push(cycles);
        }
        if self.ticks <= u64::MAX - (cycles as u64) {
            self.ticks = self.ticks + (cycles as u64);
        } else {
            self.ticks = u64::MAX;
        }
    }

    fn request_dma(&mut self, request: DmaRequest) -> (r: DmaResult) {
        self.dma_queue.push((request.length % 0x100) as u8);
        DmaResult::Pending
    }

    fn poll_dma_cycle(&mut self) -> (r: Option<u8>) {
        if self.dma_queue.len() > 0 {
            let cycles = self.dma_queue.remove(0);
            if self.dma_ticks <= u64::MAX - (cycles as u64) {
                self.dma_ticks = self.dma_ticks + (cycles as u64);
            } else {
                self.dma_ticks = u64::MAX;
            }
            Some(cycles)
        } else {
            None
        }
    }
}

} // verus!
