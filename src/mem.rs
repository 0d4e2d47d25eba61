//! The context the instruction model works on: the bus and the fetch
//! counter, with the memory callbacks the model invokes.

use vstd::prelude::*;
use crate::bus::{
    amo_result, read_result, write_u16_effect, write_u32_effect, write_u8_effect, AtomicOp, Bus,
    BusError, BusResult,
};
use crate::walk::{sv32_translate, walk_allowed, VirtAddrTrasnlateError, VirtMemReqInfo};

verus! {

/// The bus and the instruction-fetch counter.
pub struct Global {
    pub bus: Bus,
    pub fetch_count: u64,
}

impl Global {
    /// A context over `bus` with no fetch counted yet.
    pub fn new(bus: Bus) -> (r: Global)
        ensures
            r.bus == bus,
            r.fetch_count == 0,
    {
        Global { bus, fetch_count: 0 }
    }

    /// Translates `vm_info.addr`; on success writes the physical address to
    /// `vm_info.t_addr`, on failure hands the translation error back and
    /// leaves the request as it was.
    pub fn handle_virtual_address(&mut self, vm_info: &mut VirtMemReqInfo) -> (r: Result<
        (),
        VirtAddrTrasnlateError,
    >)
        requires
            walk_allowed(old(self).bus, *old(vm_info)),
        ensures
            *final(self) == *old(self),
            sv32_translate(old(self).bus, *old(vm_info)) matches Some(Ok(pa)) ==> r is Ok
                && *final(vm_info) == (VirtMemReqInfo { t_addr: pa, ..*old(vm_info) }),
            sv32_translate(old(self).bus, *old(vm_info)) matches Some(Err(e)) ==> r == Err::<
                (),
                VirtAddrTrasnlateError,
            >(e) && *final(vm_info) == *old(vm_info),
    {
        match self.sv32_walk(vm_info) {
            Ok(pa) => {
                vm_info.t_addr = pa;
                Ok(())
            },
            Err(e) => Err(e),
        }
    }

    /// Fetches two bytes of instruction from an even physical address and
    /// counts the fetch, whether or not the bus serves it.
    pub fn inst_fetch_2(&mut self, addr: u32, _satp: u32) -> (r: BusResult<u16>)
        requires
            addr % 2 == 0,
            old(self).fetch_count < u64::MAX,
        ensures
            final(self).fetch_count == old(self).fetch_count + 1,
            final(self).bus == old(self).bus,
            r == read_result(old(self).bus.spec_read_u16(addr as int)),
    {
        self.fetch_count = self.fetch_count + 1;
        self.bus.read_u16(addr)
    }

    pub fn read_mem_u8(&mut self, addr: u32, _satp: u32) -> (r: BusResult<u8>)
        ensures
            *final(self) == *old(self),
            r == read_result(old(self).bus.spec_read_u8(addr as int)),
    {
        self.bus.read_u8(addr)
    }

    pub fn read_mem_u16(&mut self, addr: u32, _satp: u32) -> (r: BusResult<u16>)
        requires
            addr % 2 == 0,
        ensures
            *final(self) == *old(self),
            r == read_result(old(self).bus.spec_read_u16(addr as int)),
    {
        self.bus.read_u16(addr)
    }

    pub fn read_mem_u32(&mut self, addr: u32, _satp: u32) -> (r: BusResult<u32>)
        requires
            addr % 4 == 0,
        ensures
            *final(self) == *old(self),
            r == read_result(old(self).bus.spec_read_u32(addr as int)),
    {
        self.bus.read_u32(addr)
    }

    pub fn write_mem_u8(&mut self, addr: u32, value: u8, _satp: u32) -> (r: BusResult<()>)
        ensures
            final(self).fetch_count == old(self).fetch_count,
            write_u8_effect(old(self).bus, final(self).bus, addr, value, r),
    {
        self.bus.write_u8(addr, value)
    }

    pub fn write_mem_u16(&mut self, addr: u32, value: u16, _satp: u32) -> (r: BusResult<()>)
        requires
            addr % 2 == 0,
        ensures
            final(self).fetch_count == old(self).fetch_count,
            write_u16_effect(old(self).bus, final(self).bus, addr, value, r),
    {
        self.bus.write_u16(addr, value)
    }

    pub fn write_mem_u32(&mut self, addr: u32, value: u32, _satp: u32) -> (r: BusResult<()>)
        requires
            addr % 4 == 0,
        ensures
            final(self).fetch_count == old(self).fetch_count,
            write_u32_effect(old(self).bus, final(self).bus, addr, value, r),
    {
        self.bus.write_u32(addr, value)
    }

    /// Atomic read-modify-write of an aligned word: reads it, stores the
    /// result of `op`, and returns the word read.
    pub fn amo_mem_u32(&mut self, addr: u32, op: AtomicOp, value: u32, _satp: u32) -> (r:
        BusResult<u32>)
        requires
            addr % 4 == 0,
        ensures
            final(self).fetch_count == old(self).fetch_count,
            old(self).bus.spec_read_u32(addr as int) is None ==> r is Err && *final(self)
                == *old(self),
            old(self).bus.spec_read_u32(addr as int) matches Some(v) ==> r == Ok::<u32, BusError>(v)
                && write_u32_effect(
                old(self).bus,
                final(self).bus,
                addr,
                amo_result(op, v, value),
                Ok(()),
            ),
    {
        let read_value = match self.bus.read_u32(addr) {
            Ok(v) => v,
            Err(e) => {
                return Err(e);
            },
        };
        let write_value: u32 = op.do_arith_u32(read_value, value);
        match self.bus.write_u32(addr, write_value) {
            Ok(()) => Ok(read_value),
            Err(e) => Err(e),
        }
    }
}

} // verus!
