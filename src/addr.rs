//! Bit-exact decoders for SATP, Sv32 virtual addresses, physical addresses
//! and page-table entries.

use vstd::prelude::*;

verus! {

/// Translation scheme selected by `SATP.MODE`.
pub enum VirtualMemoryMode {
    Bare,
    Sv32,
}

impl VirtualMemoryMode {
    pub fn is_bare(&self) -> (r: bool)
        ensures
            r == (*self is Bare),
    {
        match self {
            VirtualMemoryMode::Bare => true,
            VirtualMemoryMode::Sv32 => false,
        }
    }
}

/// `SATP.MODE`, bit 31.
pub open spec fn satp_mode_bit(raw: u32) -> u32 {
    raw >> 31u32
}

/// `SATP.ASID`, bits 30..22.
pub open spec fn satp_asid(raw: u32) -> u32 {
    (raw & 0x7FC0_0000u32) >> 22u32
}

/// `SATP.PPN`, bits 21..0.
pub open spec fn satp_ppn(raw: u32) -> u32 {
    raw & 0x003F_FFFFu32
}

/// Decoded supervisor address translation and protection register.
pub struct Satp {
    pub mode: VirtualMemoryMode,
    pub asid: u32,
    pub ppn: u32,
}

impl Satp {
    pub fn from_bits(raw: u32) -> (r: Satp)
        ensures
            (r.mode is Bare) <==> satp_mode_bit(raw) == 0,
            satp_mode_bit(raw) <= 1,
            r.asid == satp_asid(raw),
            r.ppn == satp_ppn(raw),
            r.ppn < 0x40_0000,
    {
        let mode = (raw & 0x8000_0000u32) >> 31u32;
        let asid = (raw & 0x7FC0_0000u32) >> 22u32;
        let ppn = raw & 0x003F_FFFFu32;
        assert(mode == satp_mode_bit(raw) && mode < 2 && ppn < 0x40_0000) by (bit_vector)
            requires
                mode == (raw & 0x8000_0000u32) >> 31u32,
                ppn == raw & 0x003F_FFFFu32,
        ;
        let mode = if mode == 0 {
            VirtualMemoryMode::Bare
        } else {
            VirtualMemoryMode::Sv32
        };
        Satp { mode, asid, ppn }
    }
}

/// `VPN[1]` of a virtual address, bits 31..22.
pub open spec fn va_vpn1(raw: u32) -> u32 {
    (raw & 0xFFC0_0000u32) >> 22u32
}

/// `VPN[0]` of a virtual address, bits 21..12.
pub open spec fn va_vpn0(raw: u32) -> u32 {
    (raw & 0x003F_F000u32) >> 12u32
}

/// Page offset of an address, bits 11..0.
pub open spec fn page_offset_of(raw: u32) -> u32 {
    raw & 0x0000_0FFFu32
}

/// A decoded Sv32 virtual address.
pub struct VirtAddr {
    pub vpn1: u32,
    pub vpn0: u32,
    pub page_offset: u32,
}

impl VirtAddr {
    pub fn from_32b(raw: u32) -> (r: VirtAddr)
        ensures
            r.vpn1 == va_vpn1(raw),
            r.vpn0 == va_vpn0(raw),
            r.page_offset == page_offset_of(raw),
            r.vpn1 < 0x400,
            r.vpn0 < 0x400,
            r.page_offset < 0x1000,
    {
        let vpn1 = (raw & 0xFFC0_0000u32) >> 22u32;
        let vpn0 = (raw & 0x003F_F000u32) >> 12u32;
        let page_offset = raw & 0x0000_0FFFu32;
        assert(vpn1 < 0x400 && vpn0 < 0x400 && page_offset < 0x1000) by (bit_vector)
            requires
                vpn1 == (raw & 0xFFC0_0000u32) >> 22u32,
                vpn0 == (raw & 0x003F_F000u32) >> 12u32,
                page_offset == raw & 0x0000_0FFFu32,
        ;
        VirtAddr { vpn1, vpn0, page_offset }
    }
}

/// The address assembled from a physical page number and an offset, in
/// 64-bit arithmetic: `(ppn_hi << 22) | (ppn_lo << 12) | (offset & 0xFFF)`.
pub open spec fn phys_compose(ppn_hi: u32, ppn_lo: u32, page_offset: u32) -> u64 {
    ((ppn_hi as u64) << 22u64) | ((ppn_lo as u64) << 12u64) | ((page_offset & 0xFFFu32) as u64)
}

/// A physical address as its two page-number parts and its offset.
pub struct PhsyAddr {
    pub ppn_hi: u32,
    pub ppn_lo: u32,
    pub page_offset: u32,
}

impl PhsyAddr {
    pub fn new(ppn_hi: u32, ppn_lo: u32, page_offset: u32) -> (r: PhsyAddr)
        ensures
            r.ppn_hi == ppn_hi,
            r.ppn_lo == ppn_lo,
            r.page_offset == page_offset,
    {
        PhsyAddr { ppn_hi, ppn_lo, page_offset }
    }

    /// Emits the address; it must fit in 32 bits.
    pub fn to_u32(self) -> (r: u32)
        requires
            phys_compose(self.ppn_hi, self.ppn_lo, self.page_offset) <= u32::MAX,
        ensures
            r as u64 == phys_compose(self.ppn_hi, self.ppn_lo, self.page_offset),
    {
        let wide: u64 = ((self.ppn_hi as u64) << 22u64) | ((self.ppn_lo as u64) << 12u64) | ((
        self.page_offset & 0xFFFu32) as u64);
        wide as u32
    }
}

/// Bit `k` of a raw word, as a flag.
pub open spec fn bit_set(raw: u32, k: u32) -> bool {
    (raw >> k) & 1u32 == 1u32
}

/// A single bit, isolated by shift and mask, is either 0 or 1.
pub proof fn lemma_bit_flag(raw: u32, k: u32)
    by (bit_vector)
    ensures
        ((raw >> k) & 1u32 == 0u32) <==> !((raw >> k) & 1u32 == 1u32),
{
}

/// `PPN[1]` of a page-table entry, bits 31..20.
pub open spec fn pte_ppn1(raw: u32) -> u32 {
    (raw & 0xFFF0_0000u32) >> 20u32
}

/// `PPN[0]` of a page-table entry, bits 19..10.
pub open spec fn pte_ppn0(raw: u32) -> u32 {
    (raw & 0x000F_FC00u32) >> 10u32
}

/// A decoded Sv32 page-table entry.
pub struct PageTableEntry {
    pub ppn1: u32,
    pub ppn0: u32,
    pub dirty: bool,
    pub access: bool,
    pub global: bool,
    pub user: bool,
    pub execute: bool,
    pub write: bool,
    pub read: bool,
    pub valid: bool,
}

/// The entry that a raw 32-bit word encodes.
pub open spec fn decode_pte(raw: u32) -> PageTableEntry {
    PageTableEntry {
        ppn1: pte_ppn1(raw),
        ppn0: pte_ppn0(raw),
        dirty: bit_set(raw, 7),
        access: bit_set(raw, 6),
        global: bit_set(raw, 5),
        user: bit_set(raw, 4),
        execute: bit_set(raw, 3),
        write: bit_set(raw, 2),
        read: bit_set(raw, 1),
        valid: bit_set(raw, 0),
    }
}

impl PageTableEntry {
    /// Total over every 32-bit word.
    pub fn from_32b(raw: u32) -> (r: PageTableEntry)
        ensures
            r == decode_pte(raw),
            r.ppn1 < 0x1000,
            r.ppn0 < 0x400,
    {
        let ppn1 = (raw & 0xFFF0_0000u32) >> 20u32;
        let ppn0 = (raw & 0x000F_FC00u32) >> 10u32;
        let dirty = (raw >> 7u32) & 0x1u32;
        let access = (raw >> 6u32) & 0x1u32;
        let global = (raw >> 5u32) & 0x1u32;
        let user = (raw >> 4u32) & 0x1u32;
        let execute = (raw >> 3u32) & 0x1u32;
        let write = (raw >> 2u32) & 0x1u32;
        let read = (raw >> 1u32) & 0x1u32;
        let valid = raw & 0x1u32;
        assert(ppn1 < 0x1000 && ppn0 < 0x400 && valid == (raw >> 0u32) & 1u32) by (bit_vector)
            requires
                ppn1 == (raw & 0xFFF0_0000u32) >> 20u32,
                ppn0 == (raw & 0x000F_FC00u32) >> 10u32,
                valid == raw & 0x1u32,
        ;
        PageTableEntry {
            ppn1,
            ppn0,
            dirty: dirty == 1,
            access: access == 1,
            global: global == 1,
            user: user == 1,
            execute: execute == 1,
            write: write == 1,
            read: read == 1,
            valid: valid == 1,
        }
    }
}

/// Composing the parts of a 32-bit address gives the address back.
pub proof fn lemma_phys_round_trip(x: u32)
    ensures
        phys_compose(x >> 22u32, (x >> 12u32) & 0x3FFu32, x & 0xFFFu32) == x as u64,
{
    assert(((((x >> 22u32) as u64) << 22u64) | ((((x >> 12u32) & 0x3FFu32) as u64) << 12u64) | (((
    x & 0xFFFu32) & 0xFFFu32) as u64)) == x as u64) by (bit_vector);
}

} // verus!
