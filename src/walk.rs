//! The Sv32 page-table walker.

use vstd::prelude::*;
use crate::addr::{
    bit_set, decode_pte, lemma_bit_flag, page_offset_of, phys_compose, pte_ppn0, pte_ppn1,
    satp_mode_bit, satp_ppn, va_vpn0, va_vpn1, PageTableEntry, PhsyAddr, Satp, VirtAddr,
};
use crate::bus::Bus;
use crate::mem::Global;

verus! {

/// A translation request handed over by the instruction model.
#[derive(PartialEq, Eq, Structural, Debug, Clone, Copy)]
pub struct VirtMemReqInfo {
    /// Virtual address to translate.
    pub addr: u32,
    /// Translated physical address, written on success.
    pub t_addr: u32,
    /// Raw SATP register.
    pub satp: u32,
    /// Raw MSTATUS register; only SUM and MXR are read.
    pub mstatus: u32,
    /// Current privilege: 0 user, 1 supervisor.
    pub priv_: u8,
    /// 0 fetch, 1 load, 2 store.
    pub access_type: u8,
}

/// Why a translation failed.
#[derive(PartialEq, Eq, Structural, Debug, Clone, Copy)]
pub enum VirtAddrTrasnlateError {
    /// The bus refused to read a page-table entry.
    AccessFault,
    /// A validity, permission, alignment or A/D check failed.
    PageFault,
}

pub const PAGE_SIZE: u64 = 4096;

pub const PTE_SIZE: u64 = 4;

/// `MSTATUS.SUM`, bit 18.
pub open spec fn mstatus_sum(mstatus: u32) -> bool {
    bit_set(mstatus, 18)
}

/// `MSTATUS.MXR`, bit 19.
pub open spec fn mstatus_mxr(mstatus: u32) -> bool {
    bit_set(mstatus, 19)
}

/// An entry that no walk may use: invalid, or a reserved R/W/X encoding.
pub open spec fn pte_malformed(p: PageTableEntry) -> bool {
    !p.valid || (!p.read && p.write) || (!p.execute && p.write && !p.read)
}

/// An entry that points to the next level of the table.
pub open spec fn pte_is_pointer(p: PageTableEntry) -> bool {
    !p.read && !p.execute
}

/// Whether the leaf's R/W/X bits allow an access of the given type.
pub open spec fn access_permitted(p: PageTableEntry, access_type: u8, mstatus: u32) -> bool {
    if access_type == 0 {
        p.execute
    } else if access_type == 1 {
        p.read || (p.execute && mstatus_mxr(mstatus))
    } else {
        p.write
    }
}

/// Physical page number part 0 of the result of a walk that ends at a leaf at
/// `level`: a superpage passes `VPN[0]` through.
pub open spec fn leaf_ppn_lo(p: PageTableEntry, level: nat, addr: u32) -> u32 {
    if level > 0 {
        va_vpn0(addr)
    } else {
        p.ppn0
    }
}

/// What the checks on a leaf found at `level` give; `None` where the
/// physical address would not fit in 32 bits.
pub open spec fn leaf_outcome(p: PageTableEntry, level: nat, req: VirtMemReqInfo) -> Option<
    Result<u32, VirtAddrTrasnlateError>,
> {
    if level > 0 && p.ppn0 != 0 {
        Some(Err(VirtAddrTrasnlateError::PageFault))
    } else if req.priv_ == 0 && !p.user {
        Some(Err(VirtAddrTrasnlateError::PageFault))
    } else if req.priv_ == 1 && p.user && !mstatus_sum(req.mstatus) {
        Some(Err(VirtAddrTrasnlateError::PageFault))
    } else if !access_permitted(p, req.access_type, req.mstatus) {
        Some(Err(VirtAddrTrasnlateError::PageFault))
    } else if !p.access || (req.access_type == 2 && !p.dirty) {
        Some(Err(VirtAddrTrasnlateError::PageFault))
    } else {
        let pa = phys_compose(p.ppn1, leaf_ppn_lo(p, level, req.addr), page_offset_of(req.addr));
        if pa <= u32::MAX {
            Some(Ok(pa as u32))
        } else {
            None
        }
    }
}

/// `VPN[level]` of an address.
pub open spec fn vpn_at(addr: u32, level: nat) -> u32 {
    if level > 0 {
        va_vpn1(addr)
    } else {
        va_vpn0(addr)
    }
}

/// The walk from the table at physical address `a`, which holds the entries
/// of `level`; `None` where an address would not fit in 32 bits.
pub open spec fn walk_from(bus: Bus, req: VirtMemReqInfo, a: int, level: nat) -> Option<
    Result<u32, VirtAddrTrasnlateError>,
>
    decreases level,
{
    let pte_addr = a + vpn_at(req.addr, level) * PTE_SIZE;
    if pte_addr > u32::MAX {
        None
    } else {
        match bus.spec_read_u32(pte_addr) {
            None => Some(Err(VirtAddrTrasnlateError::AccessFault)),
            Some(raw) => {
                let p = decode_pte(raw);
                if pte_malformed(p) {
                    Some(Err(VirtAddrTrasnlateError::PageFault))
                } else if pte_is_pointer(p) {
                    if level == 0 {
                        Some(Err(VirtAddrTrasnlateError::PageFault))
                    } else {
                        walk_from(
                            bus,
                            req,
                            (p.ppn1 * 1024 + p.ppn0) * PAGE_SIZE,
                            (level - 1) as nat,
                        )
                    }
                } else {
                    leaf_outcome(p, level, req)
                }
            },
        }
    }
}

/// The translation of `req` over the memory of `bus`: identity in Bare mode,
/// else a two-level walk from the root table that SATP names.
pub open spec fn sv32_translate(bus: Bus, req: VirtMemReqInfo) -> Option<
    Result<u32, VirtAddrTrasnlateError>,
> {
    if satp_mode_bit(req.satp) == 0 {
        Some(Ok(req.addr))
    } else {
        walk_from(bus, req, satp_ppn(req.satp) * PAGE_SIZE, 1)
    }
}

/// What a caller must ensure before a walk: machine mode and unknown access
/// types never reach the walker, and no address it forms exceeds 32 bits.
pub open spec fn walk_allowed(bus: Bus, req: VirtMemReqInfo) -> bool {
    &&& satp_mode_bit(req.satp) == 1 ==> req.priv_ < 2 && req.access_type <= 2
    &&& sv32_translate(bus, req) is Some
}

impl Global {
    pub fn sv32_walk(&self, vm_info: &VirtMemReqInfo) -> (r: Result<u32, VirtAddrTrasnlateError>)
        requires
            walk_allowed(self.bus, *vm_info),
        ensures
            sv32_translate(self.bus, *vm_info) == Some(r),
    {
        let satp = Satp::from_bits(vm_info.satp);
        if satp.mode.is_bare() {
            return Ok(vm_info.addr);
        }
        let mut a: u64 = (satp.ppn as u64) * PAGE_SIZE;
        let mut i: i32 = 1;
        let va = VirtAddr::from_32b(vm_info.addr);
        while i >= 0
            invariant
                i == 0 || i == 1,
                a < 0x4_0000_0000,
                walk_allowed(self.bus, *vm_info),
                satp_mode_bit(vm_info.satp) == 1,
                va.vpn1 == va_vpn1(vm_info.addr),
                va.vpn0 == va_vpn0(vm_info.addr),
                va.page_offset == page_offset_of(vm_info.addr),
                va.vpn0 < 0x400 && va.vpn1 < 0x400,
                sv32_translate(self.bus, *vm_info) == walk_from(
                    self.bus,
                    *vm_info,
                    a as int,
                    i as nat,
                ),
            decreases i + 1,
        {
            let vpn = if i == 1 {
                va.vpn1
            } else {
                va.vpn0
            };
            let pte_addr: u64 = a + (vpn as u64) * PTE_SIZE;
            let pte_addr: u32 = pte_addr as u32;
            let raw = match self.bus.read_u32(pte_addr) {
                Ok(v) => v,
                Err(_) => {
                    return Err(VirtAddrTrasnlateError::AccessFault);
                },
            };
            let pte = PageTableEntry::from_32b(raw);
            if !pte.valid || (!pte.read && pte.write) || (!pte.execute && pte.write && !pte.read) {
                return Err(VirtAddrTrasnlateError::PageFault);
            }
            if !pte.read && !pte.execute {
                i -= 1;
                if i < 0 {
                    return Err(VirtAddrTrasnlateError::PageFault);
                }
                let hi = pte.ppn1;
                let lo = pte.ppn0;
                let next_ppn = (hi << 10u32) | lo;
                assert(next_ppn == hi * 1024 + lo) by (bit_vector)
                    requires
                        hi < 0x1000 && lo < 0x400 && next_ppn == (hi << 10u32) | lo,
                ;
                a = (next_ppn as u64) * PAGE_SIZE;
                continue;
            }
            if i > 0 && pte.ppn0 != 0 {
                return Err(VirtAddrTrasnlateError::PageFault);
            }
            if vm_info.priv_ == 0 && !pte.user {
                return Err(VirtAddrTrasnlateError::PageFault);
            }
            if vm_info.priv_ == 1 && pte.user {
                let sum = (vm_info.mstatus >> 18u32) & 0x1u32;
                proof {
                    lemma_bit_flag(vm_info.mstatus, 18);
                }
                if sum == 0 {
                    return Err(VirtAddrTrasnlateError::PageFault);
                }
            }
            let mxr = (vm_info.mstatus >> 19u32) & 0x1u32;
            proof {
                lemma_bit_flag(vm_info.mstatus, 19);
            }
            let permitted = if vm_info.access_type == 0 {
                pte.execute
            } else if vm_info.access_type == 1 {
                pte.read || (pte.execute && mxr == 1)
            } else {
                pte.write
            };
            if !permitted {
                return Err(VirtAddrTrasnlateError::PageFault);
            }
            if !pte.access || vm_info.access_type == 2 && !pte.dirty {
                return Err(VirtAddrTrasnlateError::PageFault);
            }
            let phsy_addr = if i > 0 {
                PhsyAddr::new(pte.ppn1, va.vpn0, va.page_offset)
            } else {
                PhsyAddr::new(pte.ppn1, pte.ppn0, va.page_offset)
            };
            return Ok(phsy_addr.to_u32());
        }
        Err(VirtAddrTrasnlateError::PageFault)
    }
}


/// The entry that a walk at `level` reads from the table at `a`, if its
/// address fits in 32 bits and the bus holds it.
pub open spec fn entry_at(bus: Bus, req: VirtMemReqInfo, a: int, level: nat) -> Option<
    PageTableEntry,
> {
    let pte_addr = a + vpn_at(req.addr, level) * PTE_SIZE;
    if pte_addr > u32::MAX {
        None
    } else {
        match bus.spec_read_u32(pte_addr) {
            Some(raw) => Some(decode_pte(raw)),
            None => None,
        }
    }
}

/// A usable leaf: valid, not a reserved encoding, and readable or executable.
pub open spec fn pte_is_leaf(p: PageTableEntry) -> bool {
    !pte_malformed(p) && !pte_is_pointer(p)
}

proof fn lemma_compose_parts(hi: u32, lo: u32, off: u32)
    requires
        lo < 0x400,
        phys_compose(hi, lo, off) <= u32::MAX,
    ensures
        (phys_compose(hi, lo, off) as u32) & 0xFFFu32 == off & 0xFFFu32,
        ((phys_compose(hi, lo, off) as u32) >> 12u32) & 0x3FFu32 == lo,
{
    let pa = phys_compose(hi, lo, off);
    assert((pa as u32) & 0xFFFu32 == off & 0xFFFu32 && ((pa as u32) >> 12u32) & 0x3FFu32 == lo)
        by (bit_vector)
        requires
            lo < 0x400u32,
            pa <= 0xFFFF_FFFFu64,
            pa == ((hi as u64) << 22u64) | ((lo as u64) << 12u64) | ((off & 0xFFFu32) as u64),
    ;
}

proof fn lemma_compose_fits(hi: u32, lo: u32, off: u32)
    requires
        hi < 0x400,
        lo < 0x400,
    ensures
        phys_compose(hi, lo, off) <= u32::MAX,
{
    let pa = phys_compose(hi, lo, off);
    assert(pa <= 0xFFFF_FFFFu64) by (bit_vector)
        requires
            hi < 0x400u32,
            lo < 0x400u32,
            pa == ((hi as u64) << 22u64) | ((lo as u64) << 12u64) | ((off & 0xFFFu32) as u64),
    ;
}

proof fn lemma_decoded_bounds(raw: u32)
    ensures
        decode_pte(raw).ppn0 < 0x400,
        decode_pte(raw).ppn1 < 0x1000,
{
    assert(pte_ppn0(raw) < 0x400 && pte_ppn1(raw) < 0x1000) by (bit_vector);
}

proof fn lemma_vpn0_bits(addr: u32)
    ensures
        va_vpn0(addr) == (addr >> 12u32) & 0x3FFu32,
        va_vpn0(addr) < 0x400,
{
    assert((addr & 0x003F_F000u32) >> 12u32 == (addr >> 12u32) & 0x3FFu32 && (addr
        & 0x003F_F000u32) >> 12u32 < 0x400u32) by (bit_vector);
}

proof fn lemma_leaf_offset(p: PageTableEntry, level: nat, req: VirtMemReqInfo)
    requires
        p.ppn0 < 0x400,
    ensures
        leaf_outcome(p, level, req) matches Some(Ok(r)) ==> r & 0xFFFu32 == req.addr & 0xFFFu32,
{
    lemma_vpn0_bits(req.addr);
    let lo = leaf_ppn_lo(p, level, req.addr);
    let off = page_offset_of(req.addr);
    if phys_compose(p.ppn1, lo, off) <= u32::MAX {
        lemma_compose_parts(p.ppn1, lo, off);
        let addr = req.addr;
        assert(off & 0xFFFu32 == addr & 0xFFFu32) by (bit_vector)
            requires
                off == addr & 0x0000_0FFFu32,
        ;
    }
}

proof fn lemma_walk_from_offset(bus: Bus, req: VirtMemReqInfo, a: int, level: nat)
    ensures
        walk_from(bus, req, a, level) matches Some(Ok(r)) ==> r & 0xFFFu32 == req.addr & 0xFFFu32,
    decreases level,
{
    let pte_addr = a + vpn_at(req.addr, level) * PTE_SIZE;
    if pte_addr <= u32::MAX {
        if let Some(raw) = bus.spec_read_u32(pte_addr) {
            let p = decode_pte(raw);
            lemma_decoded_bounds(raw);
            if !pte_malformed(p) {
                if pte_is_pointer(p) {
                    if level > 0 {
                        lemma_walk_from_offset(
                            bus,
                            req,
                            (p.ppn1 * 1024 + p.ppn0) * PAGE_SIZE,
                            (level - 1) as nat,
                        );
                    }
                } else {
                    lemma_leaf_offset(p, level, req);
                }
            }
        }
    }
}

/// In Bare mode a translation hands the address back unchanged, whatever
/// the privilege, the access type and the bus hold.
pub proof fn lemma_bare_is_identity(bus: Bus, req: VirtMemReqInfo)
    requires
        satp_mode_bit(req.satp) == 0,
    ensures
        walk_allowed(bus, req),
        sv32_translate(bus, req) == Some(Ok::<u32, VirtAddrTrasnlateError>(req.addr)),
{
}

/// Every successful translation keeps the page offset: the low 12 bits of
/// the physical address are those of the virtual one.
pub proof fn lemma_translation_keeps_offset(bus: Bus, req: VirtMemReqInfo, r: u32)
    requires
        sv32_translate(bus, req) == Some(Ok::<u32, VirtAddrTrasnlateError>(r)),
    ensures
        r & 0xFFFu32 == req.addr & 0xFFFu32,
{
    if satp_mode_bit(req.satp) != 0 {
        lemma_walk_from_offset(bus, req, satp_ppn(req.satp) * PAGE_SIZE, 1);
    }
}

/// A translation that ends at a leaf of the root table (a superpage) passes
/// `VPN[0]` of the virtual address through to the physical one.
pub proof fn lemma_superpage_keeps_vpn0(bus: Bus, req: VirtMemReqInfo, p: PageTableEntry, r: u32)
    requires
        satp_mode_bit(req.satp) == 1,
        entry_at(bus, req, satp_ppn(req.satp) * PAGE_SIZE, 1) == Some(p),
        pte_is_leaf(p),
        sv32_translate(bus, req) == Some(Ok::<u32, VirtAddrTrasnlateError>(r)),
    ensures
        (r >> 12u32) & 0x3FFu32 == (req.addr >> 12u32) & 0x3FFu32,
{
    lemma_vpn0_bits(req.addr);
    let lo = leaf_ppn_lo(p, 1, req.addr);
    let off = page_offset_of(req.addr);
    lemma_compose_parts(p.ppn1, lo, off);
}

/// An entry with `V` clear stops the walk with a page fault, whatever its
/// other bits.
pub proof fn lemma_invalid_entry_faults(
    bus: Bus,
    req: VirtMemReqInfo,
    a: int,
    level: nat,
    p: PageTableEntry,
)
    requires
        entry_at(bus, req, a, level) == Some(p),
        !p.valid,
    ensures
        walk_from(bus, req, a, level) == Some(Err::<u32, VirtAddrTrasnlateError>(
            VirtAddrTrasnlateError::PageFault,
        )),
{
}

/// An entry that is writable but not readable stops the walk with a page
/// fault.
pub proof fn lemma_write_only_entry_faults(
    bus: Bus,
    req: VirtMemReqInfo,
    a: int,
    level: nat,
    p: PageTableEntry,
)
    requires
        entry_at(bus, req, a, level) == Some(p),
        !p.read && p.write,
    ensures
        walk_from(bus, req, a, level) == Some(Err::<u32, VirtAddrTrasnlateError>(
            VirtAddrTrasnlateError::PageFault,
        )),
{
}

/// The reserved encoding `R=0, W=1, X=1` stops the walk with a page fault.
pub proof fn lemma_reserved_encoding_faults(
    bus: Bus,
    req: VirtMemReqInfo,
    a: int,
    level: nat,
    p: PageTableEntry,
)
    requires
        entry_at(bus, req, a, level) == Some(p),
        !p.read && p.write && p.execute,
    ensures
        walk_from(bus, req, a, level) == Some(Err::<u32, VirtAddrTrasnlateError>(
            VirtAddrTrasnlateError::PageFault,
        )),
{
}

/// A pointer to a further table found at the last level exhausts the walk:
/// page fault.
pub proof fn lemma_pointer_at_last_level_faults(
    bus: Bus,
    req: VirtMemReqInfo,
    a: int,
    p: PageTableEntry,
)
    requires
        entry_at(bus, req, a, 0) == Some(p),
        !p.read && !p.execute,
    ensures
        walk_from(bus, req, a, 0) == Some(Err::<u32, VirtAddrTrasnlateError>(
            VirtAddrTrasnlateError::PageFault,
        )),
{
}

/// A superpage leaf whose `PPN[0]` is not zero is misaligned: page fault.
pub proof fn lemma_misaligned_superpage_faults(
    bus: Bus,
    req: VirtMemReqInfo,
    a: int,
    p: PageTableEntry,
)
    requires
        entry_at(bus, req, a, 1) == Some(p),
        p.read || p.execute,
        p.ppn0 != 0,
    ensures
        walk_from(bus, req, a, 1) == Some(Err::<u32, VirtAddrTrasnlateError>(
            VirtAddrTrasnlateError::PageFault,
        )),
{
}

/// User mode may not use a leaf whose `U` bit is clear.
pub proof fn lemma_user_needs_user_page(
    bus: Bus,
    req: VirtMemReqInfo,
    a: int,
    level: nat,
    p: PageTableEntry,
)
    requires
        entry_at(bus, req, a, level) == Some(p),
        p.read || p.execute,
        req.priv_ == 0,
        !p.user,
    ensures
        walk_from(bus, req, a, level) == Some(Err::<u32, VirtAddrTrasnlateError>(
            VirtAddrTrasnlateError::PageFault,
        )),
{
}

/// A leaf whose `A` bit is clear always gives a page fault.
pub proof fn lemma_unaccessed_leaf_faults(
    bus: Bus,
    req: VirtMemReqInfo,
    a: int,
    level: nat,
    p: PageTableEntry,
)
    requires
        entry_at(bus, req, a, level) == Some(p),
        p.read || p.execute,
        !p.access,
    ensures
        walk_from(bus, req, a, level) == Some(Err::<u32, VirtAddrTrasnlateError>(
            VirtAddrTrasnlateError::PageFault,
        )),
{
}

/// An entry the bus cannot read gives an access fault.
pub proof fn lemma_unreadable_entry_access_fault(
    bus: Bus,
    req: VirtMemReqInfo,
    a: int,
    level: nat,
)
    requires
        a + vpn_at(req.addr, level) * PTE_SIZE <= u32::MAX,
        bus.spec_read_u32(a + vpn_at(req.addr, level) * PTE_SIZE) is None,
    ensures
        walk_from(bus, req, a, level) == Some(Err::<u32, VirtAddrTrasnlateError>(
            VirtAddrTrasnlateError::AccessFault,
        )),
{
}

/// A supervisor access to a user leaf with `MSTATUS.SUM` clear gives a page
/// fault.
pub proof fn lemma_supervisor_user_page_needs_sum(
    bus: Bus,
    req: VirtMemReqInfo,
    a: int,
    level: nat,
    p: PageTableEntry,
)
    requires
        entry_at(bus, req, a, level) == Some(p),
        pte_is_leaf(p),
        req.priv_ == 1,
        p.user,
        !mstatus_sum(req.mstatus),
    ensures
        walk_from(bus, req, a, level) == Some(Err::<u32, VirtAddrTrasnlateError>(
            VirtAddrTrasnlateError::PageFault,
        )),
{
}

/// A load from an execute-only leaf with `MSTATUS.MXR` clear gives a page
/// fault.
pub proof fn lemma_execute_only_load_needs_mxr(
    bus: Bus,
    req: VirtMemReqInfo,
    a: int,
    level: nat,
    p: PageTableEntry,
)
    requires
        entry_at(bus, req, a, level) == Some(p),
        p.valid && p.execute && !p.read && !p.write,
        req.access_type == 1,
        !mstatus_mxr(req.mstatus),
    ensures
        walk_from(bus, req, a, level) == Some(Err::<u32, VirtAddrTrasnlateError>(
            VirtAddrTrasnlateError::PageFault,
        )),
{
}

/// A store through a leaf whose `D` bit is clear gives a page fault.
pub proof fn lemma_store_needs_dirty(
    bus: Bus,
    req: VirtMemReqInfo,
    a: int,
    level: nat,
    p: PageTableEntry,
)
    requires
        entry_at(bus, req, a, level) == Some(p),
        pte_is_leaf(p),
        req.access_type == 2,
        !p.dirty,
    ensures
        walk_from(bus, req, a, level) == Some(Err::<u32, VirtAddrTrasnlateError>(
            VirtAddrTrasnlateError::PageFault,
        )),
{
}

/// A leaf succeeds exactly when it passes every check: superpage alignment,
/// the user bit against the privilege (with `SUM` for a supervisor on a user
/// page), the permission for the access type (with `MXR` for a load from an
/// execute-only page), `A`, and `D` for a store. The result is the composed
/// physical address.
pub proof fn lemma_leaf_passes_checks(
    bus: Bus,
    req: VirtMemReqInfo,
    a: int,
    level: nat,
    p: PageTableEntry,
)
    requires
        entry_at(bus, req, a, level) == Some(p),
        level <= 1,
        pte_is_leaf(p),
        p.ppn1 < 0x400,
        req.priv_ < 2,
        req.access_type <= 2,
        level == 1 ==> p.ppn0 == 0,
        req.priv_ == 0 ==> p.user,
        req.priv_ == 1 && p.user ==> mstatus_sum(req.mstatus),
        access_permitted(p, req.access_type, req.mstatus),
        p.access,
        req.access_type == 2 ==> p.dirty,
    ensures
        walk_from(bus, req, a, level) == Some(Ok::<u32, VirtAddrTrasnlateError>(
            phys_compose(p.ppn1, leaf_ppn_lo(p, level, req.addr), page_offset_of(req.addr)) as u32,
        )),
{
    let pte_addr = a + vpn_at(req.addr, level) * PTE_SIZE;
    lemma_decoded_bounds(bus.spec_read_u32(pte_addr).unwrap());
    lemma_vpn0_bits(req.addr);
    lemma_compose_fits(p.ppn1, leaf_ppn_lo(p, level, req.addr), page_offset_of(req.addr));
}

} // verus!
