use kernel_core::boot::{
    BootError, BootInfo, BootInfoBuilder, FramebufferInfo, MemoryRegion, MemoryRegionKind,
};

fn valid_framebuffer() -> FramebufferInfo {
    FramebufferInfo {
        base: 0x1000,
        size: 1024 * 768 * 4,
        width: 1024,
        height: 768,
        stride: 1024,
        bytes_per_pixel: 4,
    }
}

fn region(start: u64, end: u64, kind: MemoryRegionKind) -> MemoryRegion {
    MemoryRegion { start, end, kind }
}

#[test]
fn builder_rejects_missing_framebuffer() {
    let result = BootInfoBuilder::new().build();
    assert_eq!(result, Err(BootError::InvalidFramebuffer));
}

#[test]
fn builder_rejects_invalid_region() {
    let result = BootInfoBuilder::new()
        .with_framebuffer(valid_framebuffer())
        .push_memory_region(region(0x3000, 0x2000, MemoryRegionKind::Usable))
        .expect("capacity should be available")
        .build();

    assert_eq!(result, Err(BootError::InvalidMemoryRegion { index: 0 }));
}

#[test]
fn builder_accepts_valid_boot_info() {
    let boot_info = BootInfoBuilder::new()
        .with_framebuffer(valid_framebuffer())
        .push_memory_region(region(0, 0x9f000, MemoryRegionKind::Usable))
        .expect("region should fit")
        .push_memory_region(region(0xf0000, 0x100000, MemoryRegionKind::Reserved))
        .expect("region should fit")
        .build()
        .expect("boot contract should validate");

    assert_eq!(boot_info.region_count(), 2);
    assert_eq!(boot_info.memory_regions()[0].kind, MemoryRegionKind::Usable);
    assert_eq!(boot_info.memory_regions()[1].kind, MemoryRegionKind::Reserved);
}

#[test]
fn builder_round_trips_pushed_regions_exactly() {
    let pushed = [
        region(0x1000, 0x2000, MemoryRegionKind::Usable),
        region(0x2000, 0x3000, MemoryRegionKind::Reserved),
        region(0x3000, 0x4000, MemoryRegionKind::AcpiReclaimable),
        region(0x4000, 0x5000, MemoryRegionKind::AcpiNvs),
        region(0x5000, 0x6000, MemoryRegionKind::Mmio),
    ];
    let mut builder = BootInfoBuilder::new().with_framebuffer(valid_framebuffer());
    for r in pushed {
        builder = builder.push_memory_region(r).expect("region should fit");
    }
    let boot_info = builder.build().expect("boot contract should validate");
    assert_eq!(boot_info.memory_regions(), &pushed[..]);
}

#[test]
fn pushing_beyond_capacity_reports_overflow() {
    let mut builder = BootInfoBuilder::new().with_framebuffer(valid_framebuffer());
    for i in 0..128u64 {
        builder = builder
            .push_memory_region(region(i * 0x1000, (i + 1) * 0x1000, MemoryRegionKind::Usable))
            .expect("region should fit");
    }
    let result = builder.push_memory_region(region(0x200000, 0x201000, MemoryRegionKind::Usable));
    assert_eq!(result.err(), Some(BootError::RegionCountOverflow { count: 129, max: 128 }));
}

#[test]
fn empty_region_fails_validation_at_its_index() {
    let result = BootInfoBuilder::new()
        .with_framebuffer(valid_framebuffer())
        .push_memory_region(region(0x1000, 0x2000, MemoryRegionKind::Usable))
        .expect("region should fit")
        .push_memory_region(region(0x5000, 0x5000, MemoryRegionKind::Usable))
        .expect("region should fit")
        .build();
    assert_eq!(result, Err(BootError::InvalidMemoryRegion { index: 1 }));
}

#[test]
fn corrupt_region_count_is_rejected_and_viewed_empty() {
    let mut boot_info = BootInfo::empty();
    boot_info.framebuffer = valid_framebuffer();
    boot_info.memory_regions_len = 200;
    assert_eq!(
        boot_info.validate(),
        Err(BootError::RegionCountOverflow { count: 200, max: 128 })
    );
    assert!(boot_info.memory_regions().is_empty());
}

#[test]
fn framebuffer_validity_checks_every_field() {
    assert!(valid_framebuffer().is_valid());
    let mut narrow_stride = valid_framebuffer();
    narrow_stride.stride = 512;
    assert!(!narrow_stride.is_valid());
    let mut zero_base = valid_framebuffer();
    zero_base.base = 0;
    assert!(!zero_base.is_valid());
}

#[test]
fn region_kind_codes_follow_the_binary_layout() {
    assert_eq!(MemoryRegionKind::Usable.code(), 1);
    assert_eq!(MemoryRegionKind::Reserved.code(), 2);
    assert_eq!(MemoryRegionKind::AcpiReclaimable.code(), 3);
    assert_eq!(MemoryRegionKind::AcpiNvs.code(), 4);
    assert_eq!(MemoryRegionKind::Mmio.code(), 5);
}
