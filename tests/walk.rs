use pokedex::bus::Bus;
use pokedex::mem::Global;
use pokedex::walk::{VirtAddrTrasnlateError, VirtMemReqInfo};

const ROOT: u32 = 0x0000_1000;
const SV32_ROOT: u32 = 0x8000_0001;

fn global() -> Global {
    Global::new(Bus::new(0, 0x1_0000, 0xFFFF_FFF0))
}

fn put(g: &mut Global, addr: u32, pte: u32) {
    assert!(g.bus.write_u32(addr, pte).is_ok());
}

fn req(addr: u32, satp: u32, mstatus: u32, priv_: u8, access_type: u8) -> VirtMemReqInfo {
    VirtMemReqInfo { addr, t_addr: 0, satp, mstatus, priv_, access_type }
}

/// A superpage leaf in the root slot of `addr` with the given flag bits.
fn superpage(flags: u32, ppn1: u32, addr: u32) -> Global {
    let mut g = global();
    put(&mut g, ROOT + (addr >> 22) * 4, (ppn1 << 20) | flags);
    g
}

/// A two-level mapping of `addr` to a leaf with the given flag bits.
fn two_level(flags: u32, ppn1: u32, ppn0: u32, addr: u32) -> Global {
    let mut g = global();
    put(&mut g, ROOT + (addr >> 22) * 4, (2 << 10) | 0x1);
    put(&mut g, 0x2000 + ((addr >> 12) & 0x3FF) * 4, (ppn1 << 20) | (ppn0 << 10) | flags);
    g
}

const PF: Result<u32, VirtAddrTrasnlateError> = Err(VirtAddrTrasnlateError::PageFault);

#[test]
fn bare_identity() {
    let g = global();
    assert_eq!(g.sv32_walk(&req(0xDEAD_BEEF, 0, 0, 0, 1)), Ok(0xDEAD_BEEF));
}

#[test]
fn bare_identity_any_privilege_and_access() {
    let g = global();
    for addr in [0u32, 0x1234_5678, 0xFFFF_FFFF, 0x8000_0000] {
        for priv_ in 0..2u8 {
            for access_type in 0..3u8 {
                let r = g.sv32_walk(&req(addr, 0x7FFF_FFFF, 0xFFFF_FFFF, priv_, access_type));
                assert_eq!(r, Ok(addr));
            }
        }
    }
}

#[test]
fn superpage_load_success() {
    // PPN1=0x00C, PPN0=0, A=1, U=1, X=1, W=1, R=1, V=1
    let g = superpage(0x5F, 0x00C, 0x3FC0_0ABC);
    assert_eq!(g.sv32_walk(&req(0x3FC0_0ABC, SV32_ROOT, 0, 0, 1)), Ok(0x0300_0ABC));
}

#[test]
fn superpage_entry_without_user_bit() {
    // 0x00C0_00EF has U clear: a user access faults.
    let mut g = global();
    put(&mut g, ROOT + 0x3FC, 0x00C0_00EF);
    assert_eq!(g.sv32_walk(&req(0x3FC0_0ABC, SV32_ROOT, 0, 0, 1)), PF);
    assert_eq!(g.sv32_walk(&req(0x3FC0_0ABC, SV32_ROOT, 0, 1, 1)), Ok(0x0300_0ABC));
}

#[test]
fn two_level_store_success() {
    // pointer to the table at 0x2000; leaf PPN1=0x4, PPN0=0xC0, A D U W R V
    let g = two_level(0xD7, 0x4, 0xC0, 0x0040_2004);
    assert_eq!(g.sv32_walk(&req(0x0040_2004, SV32_ROOT, 0, 0, 2)), Ok(0x010C_0004));
}

#[test]
fn two_level_literal_entries() {
    // 0x0000_2001 holds PPN 8, so the next table is at 0x8000; the leaf
    // 0x004B_00CF has U clear, so a user store faults and a supervisor one
    // reaches PPN1=0x4, PPN0=0x2C0.
    let mut g = global();
    put(&mut g, ROOT + 4, 0x0000_2001);
    put(&mut g, 0x8000 + 8, 0x004B_00CF);
    assert_eq!(g.sv32_walk(&req(0x0040_2004, SV32_ROOT, 0, 0, 2)), PF);
    assert_eq!(g.sv32_walk(&req(0x0040_2004, SV32_ROOT, 0, 1, 2)), Ok(0x012C_0004));
}

#[test]
fn reserved_encoding_faults() {
    let mut g = global();
    put(&mut g, ROOT, 0x0000_0005);
    assert_eq!(g.sv32_walk(&req(0x0000_0123, SV32_ROOT, 0, 0, 1)), PF);
    assert_eq!(g.sv32_walk(&req(0x0000_0123, SV32_ROOT, 0, 1, 2)), PF);
}

#[test]
fn sum_gating() {
    // U R A V
    let g = superpage(0x53, 0x1, 0x0080_0010);
    assert_eq!(g.sv32_walk(&req(0x0080_0010, SV32_ROOT, 0, 1, 1)), PF);
    assert_eq!(g.sv32_walk(&req(0x0080_0010, SV32_ROOT, 0x0004_0000, 1, 1)), Ok(0x0040_0010));
}

#[test]
fn mxr_gating_on_execute_only() {
    // X A V
    let g = superpage(0x49, 0x1, 0x0080_0010);
    assert_eq!(g.sv32_walk(&req(0x0080_0010, SV32_ROOT, 0, 1, 1)), PF);
    assert_eq!(g.sv32_walk(&req(0x0080_0010, SV32_ROOT, 0x0008_0000, 1, 1)), Ok(0x0040_0010));
    // MXR does not make the page writable
    assert_eq!(g.sv32_walk(&req(0x0080_0010, SV32_ROOT, 0x0008_0000, 1, 2)), PF);
    assert_eq!(g.sv32_walk(&req(0x0080_0010, SV32_ROOT, 0, 1, 0)), Ok(0x0040_0010));
}

#[test]
fn page_offset_is_kept() {
    let g = two_level(0xDF, 0x3, 0x155, 0x0040_2000);
    for off in [0u32, 1, 0x7FF, 0xFFF] {
        let r = g.sv32_walk(&req(0x0040_2000 | off, SV32_ROOT, 0, 0, 1)).unwrap();
        assert_eq!(r & 0xFFF, off);
        assert_eq!(r, (0x3 << 22) | (0x155 << 12) | off);
    }
}

#[test]
fn superpage_passes_vpn0_through() {
    let g = superpage(0xDF, 0x2, 0x0040_0000);
    for vpn0 in [0u32, 1, 0x155, 0x3FF] {
        let addr = 0x0040_0000 | (vpn0 << 12) | 0x21;
        let r = g.sv32_walk(&req(addr, SV32_ROOT, 0, 0, 2)).unwrap();
        assert_eq!((r >> 12) & 0x3FF, (addr >> 12) & 0x3FF);
        assert_eq!(r, 0x0080_0000 | (vpn0 << 12) | 0x21);
    }
}

#[test]
fn invalid_entry_faults() {
    for pte in [0u32, 0xFFFF_FFFE, 0x0040_00DE] {
        let mut g = global();
        put(&mut g, ROOT, pte);
        assert_eq!(g.sv32_walk(&req(0x0000_0040, SV32_ROOT, 0x000C_0000, 1, 1)), PF);
    }
}

#[test]
fn write_without_read_faults() {
    for flags in [0x05u32, 0x0D, 0xD5, 0xDD] {
        let g = superpage(flags, 0x1, 0x0);
        assert_eq!(g.sv32_walk(&req(0x10, SV32_ROOT, 0x000C_0000, 1, 2)), PF);
    }
}

#[test]
fn pointer_at_last_level_faults() {
    let mut g = global();
    put(&mut g, ROOT, (2 << 10) | 0x1);
    put(&mut g, 0x2000, (3 << 10) | 0xC1);
    assert_eq!(g.sv32_walk(&req(0x0000_0010, SV32_ROOT, 0, 1, 1)), PF);
}

#[test]
fn misaligned_superpage_faults() {
    let mut g = global();
    put(&mut g, ROOT, (1 << 20) | (1 << 10) | 0xDF);
    assert_eq!(g.sv32_walk(&req(0x0000_0010, SV32_ROOT, 0, 0, 1)), PF);
}

#[test]
fn user_mode_needs_user_page() {
    let g = superpage(0xCF, 0x1, 0x0);
    assert_eq!(g.sv32_walk(&req(0x10, SV32_ROOT, 0x000C_0000, 0, 1)), PF);
    assert_eq!(g.sv32_walk(&req(0x10, SV32_ROOT, 0, 1, 1)), Ok(0x0040_0010));
}

#[test]
fn store_needs_dirty() {
    // U W R A V without D, then with D
    let g = superpage(0x57, 0x1, 0x0);
    assert_eq!(g.sv32_walk(&req(0x10, SV32_ROOT, 0, 0, 2)), PF);
    assert_eq!(g.sv32_walk(&req(0x10, SV32_ROOT, 0, 0, 1)), Ok(0x0040_0010));
    let g = superpage(0xD7, 0x1, 0x0);
    assert_eq!(g.sv32_walk(&req(0x10, SV32_ROOT, 0, 0, 2)), Ok(0x0040_0010));
}

#[test]
fn unaccessed_leaf_faults() {
    for flags in [0x9Fu32, 0x1B, 0x13] {
        let g = superpage(flags, 0x1, 0x0);
        for access_type in 0..3u8 {
            assert_eq!(g.sv32_walk(&req(0x10, SV32_ROOT, 0x000C_0000, 0, access_type)), PF);
        }
    }
}

#[test]
fn unreadable_entry_is_access_fault() {
    let g = global();
    // root table at 0x0010_0000, beyond the RAM
    let r = g.sv32_walk(&req(0x10, 0x8000_0100, 0, 0, 1));
    assert_eq!(r, Err(VirtAddrTrasnlateError::AccessFault));
    let mut g = global();
    put(&mut g, ROOT, (0x100 << 10) | 0x1);
    let r = g.sv32_walk(&req(0x10, SV32_ROOT, 0, 0, 1));
    assert_eq!(r, Err(VirtAddrTrasnlateError::AccessFault));
}

#[test]
fn handle_virtual_address_writes_translation() {
    let mut g = superpage(0x5F, 0x00C, 0x3FC0_0ABC);
    let mut r = req(0x3FC0_0ABC, SV32_ROOT, 0, 0, 1);
    assert_eq!(g.handle_virtual_address(&mut r), Ok(()));
    assert_eq!(r.t_addr, 0x0300_0ABC);
    let mut r = req(0x3FC0_0ABC, SV32_ROOT, 0, 0, 2);
    r.t_addr = 7;
    assert_eq!(g.handle_virtual_address(&mut r), Err(VirtAddrTrasnlateError::PageFault));
    assert_eq!(r.t_addr, 7);
}
