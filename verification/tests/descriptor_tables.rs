use kernel_core::descriptors::{GdtEntry, IdtEntry};

#[test]
fn gdt_entry_packs_a_flat_code_segment() {
    let entry = GdtEntry::new(0, 0xFFFFF, 0x9A, 0xCF);
    assert_eq!(entry.limit_low, 0xFFFF);
    assert_eq!(entry.base_low, 0);
    assert_eq!(entry.base_mid, 0);
    assert_eq!(entry.base_high, 0);
    assert_eq!(entry.access, 0x9A);
    assert_eq!(entry.granularity, 0xCF);
}

#[test]
fn gdt_entry_scatters_and_recomposes_the_base() {
    let entry = GdtEntry::new(0x89AB_CDEF, 0x12345, 0x92, 0x40);
    assert_eq!(entry.base_low, 0xCDEF);
    assert_eq!(entry.base_mid, 0xAB);
    assert_eq!(entry.base_high, 0x89);
    let recomposed =
        (entry.base_low as u32) | ((entry.base_mid as u32) << 16) | ((entry.base_high as u32) << 24);
    assert_eq!(recomposed, 0x89AB_CDEF);
    assert_eq!(entry.limit_low, 0x2345);
    assert_eq!(entry.granularity, 0x41);
}

#[test]
fn empty_gdt_entry_is_the_null_descriptor() {
    let entry = GdtEntry::empty();
    assert_eq!(entry.limit_low, 0);
    assert_eq!(entry.base_low, 0);
    assert_eq!(entry.access, 0);
    assert_eq!(entry.granularity, 0);
}

#[test]
fn idt_entry_splits_the_handler_address() {
    let entry = IdtEntry::new(0x1234_5678, 0x8E);
    assert_eq!(entry.offset_low, 0x5678);
    assert_eq!(entry.offset_high, 0x1234);
    assert_eq!(entry.selector, 0x08);
    assert_eq!(entry.zero, 0);
    assert_eq!(entry.flags, 0x8E);
}

#[test]
fn missing_idt_entry_is_all_zero() {
    let entry = IdtEntry::missing();
    assert_eq!(entry.offset_low, 0);
    assert_eq!(entry.offset_high, 0);
    assert_eq!(entry.selector, 0);
    assert_eq!(entry.flags, 0);
}
