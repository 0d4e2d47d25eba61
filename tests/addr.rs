use pokedex::addr::{PageTableEntry, PhsyAddr, Satp, VirtAddr, VirtualMemoryMode};

#[test]
fn satp_fields() {
    let s = Satp::from_bits(0x8000_0001);
    assert!(!s.mode.is_bare());
    assert_eq!(s.ppn, 1);
    assert_eq!(s.asid, 0);
    let s = Satp::from_bits(0x7FFF_FFFF);
    assert!(s.mode.is_bare());
    assert_eq!(s.asid, 0x1FF);
    assert_eq!(s.ppn, 0x3F_FFFF);
    assert!(VirtualMemoryMode::Bare.is_bare());
    assert!(!VirtualMemoryMode::Sv32.is_bare());
}

#[test]
fn virt_addr_fields() {
    let v = VirtAddr::from_32b(0x3FC0_0ABC);
    assert_eq!((v.vpn1, v.vpn0, v.page_offset), (0xFF, 0, 0xABC));
    let v = VirtAddr::from_32b(0x0040_2004);
    assert_eq!((v.vpn1, v.vpn0, v.page_offset), (1, 2, 4));
}

#[test]
fn pte_fields() {
    let p = PageTableEntry::from_32b(0x004B_00CF);
    assert_eq!((p.ppn1, p.ppn0), (0x004, 0x2C0));
    assert!(p.dirty && p.access && !p.global && !p.user);
    assert!(p.execute && p.write && p.read && p.valid);
    let p = PageTableEntry::from_32b(0x0000_0010);
    assert!(p.user && !p.valid && !p.read && !p.write && !p.execute);
}

#[test]
fn pte_decode_is_total() {
    let mut raw: u32 = 0;
    loop {
        let p = PageTableEntry::from_32b(raw);
        assert!(p.ppn1 < 0x1000 && p.ppn0 < 0x400);
        assert_eq!(p.valid, raw & 1 == 1);
        assert_eq!(p.global, raw & 0x20 != 0);
        match raw.checked_add(0x0001_0FFF) {
            Some(next) => raw = next,
            None => break,
        }
    }
    let p = PageTableEntry::from_32b(u32::MAX);
    assert_eq!((p.ppn1, p.ppn0), (0xFFF, 0x3FF));
}

#[test]
fn phys_addr_round_trip() {
    for x in [0u32, 1, 0xFFF, 0x1000, 0xDEAD_BEEF, 0xFFFF_FFFF, 0x0300_0ABC] {
        let a = PhsyAddr::new(x >> 22, (x >> 12) & 0x3FF, x & 0xFFF);
        assert_eq!(a.to_u32(), x);
    }
}

#[test]
fn phys_addr_compose() {
    assert_eq!(PhsyAddr::new(0x4, 0xC0, 0x004).to_u32(), 0x010C_0004);
    assert_eq!(PhsyAddr::new(0x00C, 0, 0xABC).to_u32(), 0x0300_0ABC);
    // only the low 12 bits of the offset count
    assert_eq!(PhsyAddr::new(0, 1, 0x1234).to_u32(), 0x0000_1234);
}
