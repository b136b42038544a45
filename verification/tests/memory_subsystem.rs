use kernel_core::allocator::{self, BumpAllocator, HEAP_SIZE};
use kernel_core::boot::{BootInfo, MemoryRegion, MemoryRegionKind};
use kernel_core::frame_allocator::{align_up, FrameAllocator};
use kernel_core::memory::{self, PhysicalAddress, VirtualAddress};
use kernel_core::page_fault::{self, PageFaultLog};

fn region(start: u64, end: u64, kind: MemoryRegionKind) -> MemoryRegion {
    MemoryRegion { start, end, kind }
}

#[test]
fn bump_allocator_produces_aligned_non_null_allocations() {
    let mut heap = BumpAllocator::new();
    allocator::init(&mut heap);
    let offset = heap.allocate(64, 32);
    assert!(offset.is_some());
    assert_eq!(offset.unwrap() % 32, 0);
}

#[test]
fn bump_allocator_fills_the_whole_arena_then_fails() {
    let mut heap = BumpAllocator::new();
    assert_eq!(heap.allocate(HEAP_SIZE, 1), Some(0));
    assert_eq!(heap.allocate(1, 1), None);
    assert_eq!(heap.allocate(16, 8), None);
}

#[test]
fn bump_allocator_records_last_failure() {
    let mut heap = BumpAllocator::new();
    assert_eq!(allocator::last_alloc_error(&heap), (0, 0));
    allocator::record_alloc_error(&mut heap, 4096, 64);
    assert_eq!(allocator::last_alloc_error(&heap), (4096, 64));
}

#[test]
fn align_up_rounds_to_the_next_multiple() {
    assert_eq!(align_up(0, 4096), 0);
    assert_eq!(align_up(1, 4096), 4096);
    assert_eq!(align_up(4096, 4096), 4096);
    assert_eq!(align_up(0x2001, 0x1000), 0x3000);
}

#[test]
fn skips_reserved_and_allocates_usable_frames() {
    let regions = [
        region(0, 0x2000, MemoryRegionKind::Reserved),
        region(0x2000, 0x5000, MemoryRegionKind::Usable),
        region(0x8000, 0x9000, MemoryRegionKind::Usable),
    ];

    let mut allocator = FrameAllocator::new(&regions);

    assert_eq!(allocator.allocate_frame().unwrap().start_address().as_u64(), 0x2000);
    assert_eq!(allocator.allocate_frame().unwrap().start_address().as_u64(), 0x3000);
    assert_eq!(allocator.allocate_frame().unwrap().start_address().as_u64(), 0x4000);
    assert_eq!(allocator.allocate_frame().unwrap().start_address().as_u64(), 0x8000);
    assert!(allocator.allocate_frame().is_none());
}

#[test]
fn empty_map_yields_no_frame() {
    let regions: [MemoryRegion; 0] = [];
    let mut allocator = FrameAllocator::new(&regions);
    assert!(allocator.allocate_frame().is_none());
}

#[test]
fn reserved_only_map_yields_no_frame() {
    let regions = [
        region(0, 0x10000, MemoryRegionKind::Reserved),
        region(0x10000, 0x20000, MemoryRegionKind::Mmio),
    ];
    let mut allocator = FrameAllocator::new(&regions);
    assert!(allocator.allocate_frame().is_none());
}

#[test]
fn frames_are_aligned_and_inside_their_regions() {
    let regions = [region(0x1100, 0x5000, MemoryRegionKind::Usable)];
    let mut allocator = FrameAllocator::new(&regions);
    let mut previous: Option<u64> = None;
    while let Some(frame) = allocator.allocate_frame() {
        let start = frame.start_address().as_u64();
        assert_eq!(start % 4096, 0);
        assert!(start >= 0x1100 && start + 4096 <= 0x5000);
        if let Some(p) = previous {
            assert!(start >= p + 4096);
        }
        previous = Some(start);
    }
    assert_eq!(previous, Some(0x4000));
}

#[test]
fn virtual_address_indices_are_extracted_correctly() {
    let vaddr = VirtualAddress::new(0xffff_8123_4567_89ab);
    assert_eq!(vaddr.pml4_index(), 258);
    assert_eq!(vaddr.pdpt_index(), 141);
    assert_eq!(vaddr.pd_index(), 43);
    assert_eq!(vaddr.pt_index(), 120);
    assert_eq!(vaddr.page_offset(), 0x9ab);
}

#[test]
fn virtual_address_recomposes_below_the_48_bit_bound() {
    let value: u64 = 0x0000_7123_4567_89ab;
    let vaddr = VirtualAddress::new(value);
    let recomposed = ((vaddr.pml4_index() as u64) << 39)
        | ((vaddr.pdpt_index() as u64) << 30)
        | ((vaddr.pd_index() as u64) << 21)
        | ((vaddr.pt_index() as u64) << 12)
        | vaddr.page_offset();
    assert_eq!(recomposed, value);
}

#[test]
fn physical_address_aligns_down_to_frame_base() {
    let addr = PhysicalAddress::new(0x1fff);
    assert_eq!(addr.align_down().as_u64(), 0x1000);
    assert_eq!(PhysicalAddress::new(0x2000).align_down().as_u64(), 0x2000);
    assert_eq!(addr.as_u64(), 0x1fff);
}

#[test]
fn records_fault_context() {
    let mut log = PageFaultLog::new();
    page_fault::init(&mut log);
    page_fault::record_fault(&mut log, 0xdead_beef, 0b101);
    assert_eq!(page_fault::last_fault(&log), (0xdead_beef, 0b101));
}

#[test]
fn page_fault_handler_records_before_the_halt() {
    let mut log = PageFaultLog::new();
    page_fault::handle_page_fault(&mut log, 0x4000_0000, 0b10);
    assert_eq!(page_fault::last_fault(&log), (0x4000_0000, 0b10));
}

#[test]
fn memory_init_resets_heap_and_fault_log() {
    let mut boot_info = BootInfo::empty();
    boot_info.memory_regions[0] = region(0x1000, 0x20000, MemoryRegionKind::Usable);
    boot_info.memory_regions_len = 1;
    let mut heap = BumpAllocator::new();
    heap.allocate(64, 8);
    let mut log = PageFaultLog::new();
    page_fault::record_fault(&mut log, 1, 2);

    memory::init(&boot_info, &mut heap, &mut log);

    assert_eq!(page_fault::last_fault(&log), (0, 0));
    assert_eq!(heap.allocate(8, 8), Some(0));
}
