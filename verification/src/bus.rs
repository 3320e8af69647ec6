//! The memory and I/O bus the processor drives.

use vstd::prelude::*;

use crate::access::AccessType;

verus! {

/// A request to copy `length` bytes from `source` to `destination`,
/// handed to the bus as a hint.  The authoritative timing is whatever
/// [`Bus::poll_dma_cycle`] later reports.
#[derive(Clone, Copy, Debug, PartialEq, Eq, Structural)]
pub struct DmaRequest {
    pub source: u16,
    pub destination: u16,
    pub length: u16,
}

/// Immediate answer to a [`Bus::request_dma`] hint.
#[derive(Clone, Copy, Debug, PartialEq, Eq, Structural)]
pub enum DmaResult {
    Accepted { cycles: u32 },
    Pending,
    Denied,
}

/// A 64 KiB memory-and-I/O bus.
///
/// The contract models the bus as a 65536-byte memory (`mem`) plus a
/// queue of pending DMA cycle counts (`dma`).  Reads are total and
/// leave the memory unchanged; writes replace exactly the addressed
/// byte.  Whatever else an implementation tracks (tick counters, trace
/// logs) is outside the model and unconstrained.
pub trait Bus: Sized {
    /// The observable contents of the 16-bit address space.
    spec fn mem(&self) -> Seq<u8>;

    /// The pending DMA work, as the cycle counts that
    /// [`poll_dma_cycle`](Self::poll_dma_cycle) will hand out, in order.
    spec fn dma(&self) -> Seq<u8>;

    /// The cycle counts reported to the bus through
    /// [`on_tick`](Self::on_tick), oldest first.
    spec fn ticks(&self) -> Seq<u8>;

    /// The implementation's well-formedness condition.
    spec fn inv(&self) -> bool;

    /// The invariant guarantees a full 64 KiB address space.
    proof fn inv_mem_len(&self)
        requires
            self.inv(),
        ensures
            self.mem().len() == 0x10000,
    ;

    /// Read one byte.  Reading never changes the modelled state.
    fn read(&mut self, addr: u16, access: AccessType) -> (r: u8)
        requires
            old(self).inv(),
        ensures
            final(self).inv(),
            final(self).mem() == old(self).mem(),
            final(self).dma() == old(self).dma(),
            final(self).ticks() == old(self).ticks(),
            r == old(self).mem()[addr as int],
    ;

    /// Write one byte, replacing exactly the addressed cell.
    fn write(&mut self, addr: u16, value: u8, access: AccessType)
        requires
            old(self).inv(),
        ensures
            final(self).inv(),
            final(self).mem() == old(self).mem().update(addr as int, value),
            final(self).dma() == old(self).dma(),
            final(self).ticks() == old(self).ticks(),
    ;

    /// Called by the tick loop after each successful instruction and
    /// after each drained DMA chunk: the report joins the tick history,
    /// and nothing else in the model changes.
    fn on_tick(&mut self, cycles: u8)
        requires
            old(self).inv(),
        ensures
            final(self).inv(),
            final(self).mem() == old(self).mem(),
            final(self).dma() == old(self).dma(),
            final(self).ticks() == old(self).ticks().push(cycles),
    ;

    /// Offer a DMA transfer to the bus.  The bus may queue work in
    /// response, so only the memory is promised unchanged.
    fn request_dma(&mut self, request: DmaRequest) -> (r: DmaResult)
        requires
            old(self).inv(),
        ensures
            final(self).inv(),
            final(self).mem() == old(self).mem(),
            final(self).ticks() == old(self).ticks(),
    ;

    /// Take the next pending DMA cycle count, front of the queue first;
    /// `None` exactly when no work is pending.
    fn poll_dma_cycle(&mut self) -> (r: Option<u8>)
        requires
            old(self).inv(),
        ensures
            final(self).inv(),
            final(self).mem() == old(self).mem(),
            final(self).ticks() == old(self).ticks(),
            old(self).dma().len() == 0 ==> r is None && final(self).dma() == old(self).dma(),
            old(self).dma().len() > 0 ==> r == Some(old(self).dma()[0]) && final(self).dma()
                == old(self).dma().drop_first(),
    ;
}

/// The memory left by writing `data` byte-for-byte starting at `start`,
/// the address wrapping at the 16-bit boundary.
pub open spec fn spec_write_block(mem: Seq<u8>, start: u16, data: Seq<u8>) -> Seq<u8>
    decreases data.len(),
{
    if data.len() == 0 {
        mem
    } else {
        spec_write_block(
            mem.update(start as int, data[0]),
            crate::arith::wrap16(start + 1),
            data.drop_first(),
        )
    }
}

/// The bytes read back-to-back starting at `start`, the address
/// wrapping at the 16-bit boundary.
pub open spec fn spec_read_block(mem: Seq<u8>, start: u16, len: nat) -> Seq<u8>
    decreases len,
{
    if len == 0 {
        Seq::empty()
    } else {
        seq![mem[start as int]] + spec_read_block(mem, crate::arith::wrap16(start + 1), (len - 1) as nat)
    }
}

/// Write a contiguous block of bytes starting at `start`, one
/// [`Bus::write`] per byte, wrapping the address at 16 bits.
pub fn write_block<B: Bus>(bus: &mut B, start: u16, data: &[u8], access: AccessType)
    requires
        old(bus).inv(),
    ensures
        final(bus).inv(),
        final(bus).mem() == spec_write_block(old(bus).mem(), start, data@),
        final(bus).dma() == old(bus).dma(),
        final(bus).ticks() == old(bus).ticks(),
{
    let mut addr: u16 = start;
    let mut i: usize = 0;
    proof {
        assert(data@.skip(0) =~= data@);
    }
    while i < data.len()
        invariant
            bus.inv(),
            i <= data.len(),
            bus.dma() == old(bus).dma(),
            bus.ticks() == old(bus).ticks(),
            spec_write_block(old(bus).mem(), start, data@) == spec_write_block(
                bus.mem(),
                addr,
                data@.skip(i as int),
            ),
        decreases data.len() - i,
    {
        proof {
            assert(data@.skip(i as int).drop_first() =~= data@.skip(i + 1));
        }
        bus.write(addr, data[i], access);
        addr = crate::arith::wadd16(addr, 1);
        i = i + 1;
    }
    proof {
        assert(data@.skip(data@.len() as int) =~= Seq::<u8>::empty());
    }
}

/// Read `len` consecutive bytes starting at `start`, one
/// [`Bus::read`] per byte, wrapping the address at 16 bits.
pub fn read_block<B: Bus>(bus: &mut B, start: u16, len: usize, access: AccessType) -> (r: Vec<u8>)
    requires
        old(bus).inv(),
    ensures
        final(bus).inv(),
        final(bus).mem() == old(bus).mem(),
        final(bus).dma() == old(bus).dma(),
        final(bus).ticks() == old(bus).ticks(),
        r@ == spec_read_block(old(bus).mem(), start, len as nat),
{
    let mut out: Vec<u8> = Vec::new();
    let mut addr: u16 = start;
    let mut i: usize = 0;
    while i < len
        invariant
            bus.inv(),
            i <= len,
            bus.mem() == old(bus).mem(),
            bus.dma() == old(bus).dma(),
            bus.ticks() == old(bus).ticks(),
            out@.len() == i,
            spec_read_block(bus.mem(), start, len as nat) == out@ + spec_read_block(
                bus.mem(),
                addr,
                (len - i) as nat,
            ),
        decreases len - i,
    {
        let b = bus.read(addr, access);
        out.push(b);
        addr = crate::arith::wadd16(addr, 1);
        i = i + 1;
        proof {
            assert(spec_read_block(bus.mem(), start, len as nat) =~= out@ + spec_read_block(
                bus.mem(),
                addr,
                (len - i) as nat,
            ));
        }
    }
    proof {
        assert(spec_read_block(bus.mem(), start, len as nat) =~= out@);
    }
    out
}

/// Write a 16-bit reset target to `$FFFC`/`$FFFD`, low byte first,
/// as two plain data writes.
pub fn set_reset_vector<B: Bus>(bus: &mut B, target: u16)
    requires
        old(bus).inv(),
    ensures
        final(bus).inv(),
        final(bus).mem() == old(bus).mem().update(0xFFFC, crate::arith::lo(target)).update(
            0xFFFD,
            crate::arith::hi(target),
        ),
        final(bus).dma() == old(bus).dma(),
        final(bus).ticks() == old(bus).ticks(),
{
    bus.write(0xFFFC, crate::arith::lo_byte(target), AccessType::DataWrite);
    bus.write(0xFFFD, crate::arith::hi_byte(target), AccessType::DataWrite);
}

} // verus!
