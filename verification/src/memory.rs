//! Physical and virtual address newtypes with page-index extraction, and the
//! memory-subsystem bring-up entry point.
//!
//! A virtual address decomposes into four 9-bit table indices (PML4, PDPT,
//! PD, PT at bits 39, 30, 21 and 12) and a 12-bit page offset. A physical
//! address can be aligned down to its 4 KiB frame base.

use vstd::prelude::*;

use crate::allocator::BumpAllocator;
use crate::boot::BootInfo;
use crate::frame_allocator::FrameAllocator;
use crate::page_fault::PageFaultLog;

verus! {

/// Size of one physical frame and of one page-table page, in bytes.
pub const FRAME_SIZE: u64 = 4096;

/// A 64-bit physical address.
#[derive(Clone, Copy, Debug, PartialEq, Eq, PartialOrd, Ord)]
pub struct PhysicalAddress(u64);

/// The physical address with its low 12 bits cleared: the base of the 4 KiB
/// frame containing it.
pub open spec fn spec_align_down_4k(value: u64) -> u64 {
    value & !0xfffu64
}

impl View for PhysicalAddress {
    type V = u64;

    closed spec fn view(&self) -> u64 {
        self.0
    }
}

impl PhysicalAddress {
    /// Wraps a raw physical address.
    pub fn new(value: u64) -> (r: Self)
        ensures
            r@ == value,
    {
        Self(value)
    }

    /// The raw address value.
    pub fn as_u64(self) -> (r: u64)
        ensures
            r == self@,
    {
        self.0
    }

    /// Aligns the address down to its 4 KiB frame base.
    pub fn align_down(self) -> (r: Self)
        ensures
            r@ == spec_align_down_4k(self@),
            r@ % 4096 == 0,
            r@ <= self@ < r@ + 4096,
    {
        proof {
            lemma_align_down_4k(self.0);
        }
        Self(self.0 & !(FRAME_SIZE - 1))
    }
}

/// Clearing the low 12 bits of an address yields the greatest 4 KiB multiple
/// not above it.
pub proof fn lemma_align_down_4k(value: u64)
    ensures
        spec_align_down_4k(value) % 4096 == 0,
        spec_align_down_4k(value) <= value < spec_align_down_4k(value) + 4096,
        value % 4096 == 0 ==> spec_align_down_4k(value) == value,
{
    assert((value & !0xfffu64) % 4096 == 0 && (value & !0xfffu64) <= value && value < (value
        & !0xfffu64) + 4096 && (value % 4096 == 0 ==> (value & !0xfffu64) == value))
        by (bit_vector);
}

/// A 64-bit virtual address.
#[derive(Clone, Copy, Debug, PartialEq, Eq, PartialOrd, Ord)]
pub struct VirtualAddress(u64);

/// Bits 39..48: the PML4 table index.
pub open spec fn spec_pml4_index(value: u64) -> u64 {
    (value >> 39) & 0x1ff
}

/// Bits 30..39: the PDPT table index.
pub open spec fn spec_pdpt_index(value: u64) -> u64 {
    (value >> 30) & 0x1ff
}

/// Bits 21..30: the page-directory index.
pub open spec fn spec_pd_index(value: u64) -> u64 {
    (value >> 21) & 0x1ff
}

/// Bits 12..21: the page-table index.
pub open spec fn spec_pt_index(value: u64) -> u64 {
    (value >> 12) & 0x1ff
}

/// Bits 0..12: the offset within the 4 KiB page.
pub open spec fn spec_page_offset(value: u64) -> u64 {
    value & 0xfff
}

impl View for VirtualAddress {
    type V = u64;

    closed spec fn view(&self) -> u64 {
        self.0
    }
}

impl VirtualAddress {
    /// Wraps a raw virtual address.
    pub fn new(value: u64) -> (r: Self)
        ensures
            r@ == value,
    {
        Self(value)
    }

    /// The raw address value.
    pub fn as_u64(self) -> (r: u64)
        ensures
            r == self@,
    {
        self.0
    }

    /// The 12-bit offset within the page.
    pub fn page_offset(self) -> (r: u64)
        ensures
            r == spec_page_offset(self@),
            r < 4096,
    {
        proof {
            lemma_index_bounds(self.0);
        }
        self.0 & 0xfff
    }

    /// The 9-bit PML4 table index.
    pub fn pml4_index(self) -> (r: usize)
        ensures
            r == spec_pml4_index(self@),
            r < 512,
    {
        proof {
            lemma_index_bounds(self.0);
        }
        ((self.0 >> 39) & 0x1ff) as usize
    }

    /// The 9-bit PDPT table index.
    pub fn pdpt_index(self) -> (r: usize)
        ensures
            r == spec_pdpt_index(self@),
            r < 512,
    {
        proof {
            lemma_index_bounds(self.0);
        }
        ((self.0 >> 30) & 0x1ff) as usize
    }

    /// The 9-bit page-directory index.
    pub fn pd_index(self) -> (r: usize)
        ensures
            r == spec_pd_index(self@),
            r < 512,
    {
        proof {
            lemma_index_bounds(self.0);
        }
        ((self.0 >> 21) & 0x1ff) as usize
    }

    /// The 9-bit page-table index.
    pub fn pt_index(self) -> (r: usize)
        ensures
            r == spec_pt_index(self@),
            r < 512,
    {
        proof {
            lemma_index_bounds(self.0);
        }
        ((self.0 >> 12) & 0x1ff) as usize
    }
}

/// Every extracted table index is 9 bits wide and the page offset 12 bits.
pub proof fn lemma_index_bounds(value: u64)
    ensures
        spec_pml4_index(value) < 512,
        spec_pdpt_index(value) < 512,
        spec_pd_index(value) < 512,
        spec_pt_index(value) < 512,
        spec_page_offset(value) < 4096,
{
    assert(((value >> 39) & 0x1ff) < 512 && ((value >> 30) & 0x1ff) < 512 && ((value >> 21)
        & 0x1ff) < 512 && ((value >> 12) & 0x1ff) < 512 && (value & 0xfff) < 4096)
        by (bit_vector);
}

/// Round-trip law for index extraction: recomposing the four table indices
/// and the page offset of an address below 2^48 reproduces the address.
///
/// Bits 48..64 are not covered by any index, so addresses that use them — the
/// canonical higher half among others — are outside this law.
pub proof fn lemma_virtual_address_round_trip(value: u64)
    requires
        value < 0x1_0000_0000_0000,
    ensures
        (spec_pml4_index(value) << 39) | (spec_pdpt_index(value) << 30) | (spec_pd_index(value)
            << 21) | (spec_pt_index(value) << 12) | spec_page_offset(value) == value,
{
    assert(((((value >> 39) & 0x1ff) << 39) | (((value >> 30) & 0x1ff) << 30) | (((value >> 21)
        & 0x1ff) << 21) | (((value >> 12) & 0x1ff) << 12) | (value & 0xfff)) == value)
        by (bit_vector)
        requires
            value < 0x1_0000_0000_0000,
    ;
}

/// Brings up the memory subsystem from a boot contract: resets the early
/// heap and the page-fault log, then seeds a frame allocator from the boot
/// memory map and probes it for a first frame.
pub fn init(boot_info: &BootInfo, heap: &mut BumpAllocator, fault_log: &mut PageFaultLog)
    ensures
        final(heap).spec_next() == 0,
        final(fault_log).spec_addr() == 0,
        final(fault_log).spec_code() == 0,
{
    crate::allocator::init(heap);
    crate::page_fault::init(fault_log);

    // Sanity-check the frame allocator against the boot memory map.
    let mut frames = FrameAllocator::new(boot_info.memory_regions());
    let _ = frames.allocate_frame();
}

} // verus!
