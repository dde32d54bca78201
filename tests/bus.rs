use arm7_core::bus::{MemoryRange, Region};

#[test]
fn stack_range_bounds() {
    let r = MemoryRange::new(0x0300_7F00, 0x0300_7FFF);
    assert!(r.contains(0x0300_7F00));
    assert!(r.contains(0x0300_7FFF));
    assert!(!r.contains(0x0300_8000));
    assert!(!r.contains(0x0300_7EFF));
    assert_eq!(Region::ChipWramStack.range(), r);
}

#[test]
fn bios_rom_length_is_inclusive() {
    assert_eq!(Region::BiosRom.range().length(), 16384);
    assert_eq!(Region::BiosRom.range().length(), 0x4000);
    assert_eq!(MemoryRange::new(5, 5).length(), 1);
    assert_eq!(Region::BoardWram.range().length(), 0x4_0000);
    assert_eq!(Region::ChipWram.range().length(), 0x8000);
}

#[test]
fn top_level_regions_do_not_overlap() {
    let top = [
        Region::BiosRom,
        Region::NotUsed1,
        Region::BoardWram,
        Region::NotUsed2,
        Region::ChipWram,
        Region::NotUsed3,
        Region::IoRegisters,
        Region::NotUsed4,
    ];
    let probes = [0u32, 0x3FFF, 0x4000, 0x0200_0000, 0x0203_FFFF, 0x0300_7FFF, 0x0300_8000, 0x0400_03FE, 0x0400_0400];
    for a in probes {
        let n = top.iter().filter(|r| r.range().contains(a)).count();
        assert_eq!(n, 1);
    }
    assert!(!top.iter().any(|r| r.range().contains(0x0400_03FF)));
}
