use kernel_core::boot::{MemoryRegion, MemoryRegionKind};
use kernel_core::frame_allocator::FrameAllocator;
use kernel_core::memory::{PhysicalAddress, VirtualAddress};
use kernel_core::paging::{enable_paging, map_kernel_higher_half, PageTables};

#[test]
fn higher_half_mapping_sets_present_entries() {
    let mut tables = PageTables::new();
    let regions = [MemoryRegion { start: 0x1000, end: 0x20000, kind: MemoryRegionKind::Usable }];
    let mut allocator = FrameAllocator::new(&regions);

    map_kernel_higher_half(
        &mut tables,
        &mut allocator,
        VirtualAddress::new(0xffff_8000_0000_0000),
        PhysicalAddress::new(0x200000),
        4 * 1024 * 1024,
        PhysicalAddress::new(0x7000),
        PhysicalAddress::new(0x8000),
    )
    .unwrap();

    assert!(tables.pml4().entry(256).is_present());
    assert!(tables.pdpt().entry(0).is_present());
    assert!(tables.pd().entry(0).is_present());
    assert!(tables.pd().entry(1).is_present());
    assert!(!tables.pd().entry(2).is_present());
}

#[test]
fn higher_half_mapping_fails_without_a_bootstrap_frame() {
    let mut tables = PageTables::new();
    let regions = [MemoryRegion { start: 0x1000, end: 0x20000, kind: MemoryRegionKind::Reserved }];
    let mut allocator = FrameAllocator::new(&regions);

    let result = map_kernel_higher_half(
        &mut tables,
        &mut allocator,
        VirtualAddress::new(0xffff_8000_0000_0000),
        PhysicalAddress::new(0x200000),
        2 * 1024 * 1024,
        PhysicalAddress::new(0x7000),
        PhysicalAddress::new(0x8000),
    );

    assert_eq!(result, Err("no usable frame for paging bootstrap"));
    assert!(!tables.pml4().entry(256).is_present());
}

#[test]
fn identity_map_covers_the_requested_window() {
    let mut tables = PageTables::new();
    tables.setup_identity_map(
        PhysicalAddress::new(0x7000),
        PhysicalAddress::new(0x8000),
        4 * 1024 * 1024,
    );

    assert!(tables.pml4().entry(0).is_present());
    assert!(!tables.pml4().entry(1).is_present());
    assert!(tables.pdpt().entry(0).is_present());
    assert!(tables.pd().entry(0).is_present());
    assert!(tables.pd().entry(1).is_present());
    assert!(!tables.pd().entry(2).is_present());

    enable_paging(tables.pml4());
}

#[test]
fn new_tables_are_fully_unmapped() {
    let tables = PageTables::new();
    for i in 0..512 {
        assert!(!tables.pml4().entry(i).is_present());
        assert!(!tables.pdpt().entry(i).is_present());
        assert!(!tables.pd().entry(i).is_present());
    }
}
