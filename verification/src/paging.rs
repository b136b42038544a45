//! Page-table construction: a three-level table (PML4 → PDPT → PD) for
//! identity and higher-half mappings built from 2 MiB huge pages.
//!
//! The tables are plain data owned by the kernel; `enable_paging` is the
//! seam to the architecture layer that actually loads them into the CPU.
//! Because taking the physical address of an owned table is the
//! architecture layer's job, the mapping entry points receive the physical
//! addresses of the PDPT and PD as arguments.

use vstd::prelude::*;

use crate::frame_allocator::FrameAllocator;
use crate::memory::{
    spec_pd_index, spec_pdpt_index, spec_pml4_index, PhysicalAddress, VirtualAddress,
};

verus! {

/// Entries in one page table.
pub const ENTRY_COUNT: usize = 512;

/// Entry flag: the entry maps something.
pub const PRESENT: u64 = 1;

/// Entry flag: the mapping is writable.
pub const WRITABLE: u64 = 2;

/// Entry flag: the entry maps a 2 MiB huge page directly.
pub const HUGE_PAGE: u64 = 128;

/// Size of one huge page in bytes.
pub const HUGE_PAGE_SIZE: u64 = 2 * 1024 * 1024;

/// The 64-bit cell an entry holds: bits 12..52 carry the physical address,
/// the rest is flag space.
pub open spec fn spec_entry_bits(addr: u64, flags: u64) -> u64 {
    (addr & 0x000f_ffff_ffff_f000) | flags
}

/// Number of 2 MiB huge pages needed to cover `length` bytes.
pub open spec fn spec_pages_2m(length: u64) -> int {
    if length % HUGE_PAGE_SIZE == 0 {
        length as int / HUGE_PAGE_SIZE as int
    } else {
        length as int / HUGE_PAGE_SIZE as int + 1
    }
}

/// An opaque 64-bit page-table cell. Unused entry = all zero.
#[derive(Clone, Copy)]
pub struct PageTableEntry(u64);

impl PageTableEntry {
    /// The raw cell value.
    pub closed spec fn spec_bits(self) -> u64 {
        self.0
    }

    /// Whether the `PRESENT` flag is set.
    pub open spec fn spec_present(self) -> bool {
        self.spec_bits() & 1 != 0
    }

    /// An all-zero, unused entry.
    pub fn unused() -> (r: Self)
        ensures
            r.spec_bits() == 0,
    {
        Self(0)
    }

    /// Points the entry at `addr` with the given flags, overwriting it.
    pub fn set_addr(&mut self, addr: PhysicalAddress, flags: u64)
        ensures
            final(self).spec_bits() == spec_entry_bits(addr@, flags),
    {
        self.0 = (addr.as_u64() & 0x000f_ffff_ffff_f000) | flags;
    }

    /// Whether the entry maps something.
    pub fn is_present(self) -> (r: bool)
        ensures
            r == self.spec_present(),
    {
        (self.0 & PRESENT) != 0
    }
}

/// One page table: exactly 512 entries.
pub struct PageTable {
    entries: [PageTableEntry; 512],
}

impl PageTable {
    /// The entries as a sequence.
    pub closed spec fn spec_entries(self) -> Seq<PageTableEntry> {
        self.entries@
    }

    /// Every entry is zero.
    pub open spec fn spec_zeroed(self) -> bool {
        forall|i: int| 0 <= i < 512 ==> self.spec_entries()[i].spec_bits() == 0
    }

    /// Reads the entry at `index`.
    pub fn entry(&self, index: usize) -> (r: PageTableEntry)
        requires
            index < 512,
        ensures
            r == self.spec_entries()[index as int],
    {
        self.entries[index]
    }

    /// Clears every entry.
    pub fn zero(&mut self)
        ensures
            final(self).spec_zeroed(),
    {
        let unused = PageTableEntry::unused();
        self.entries = [unused; 512];
    }
}

/// The owned triple of tables used for both identity and higher-half
/// mappings. Owned by the kernel for its entire run; never freed.
pub struct PageTables {
    pml4: PageTable,
    pdpt: PageTable,
    pd: PageTable,
}

/// A table whose only populated entry is `index`, holding `bits` there.
pub open spec fn spec_single_entry(t: PageTable, index: int, bits: u64) -> bool {
    &&& t.spec_entries()[index].spec_bits() == bits
    &&& forall|k: int| 0 <= k < 512 && k != index ==> t.spec_entries()[k].spec_bits() == 0
}

impl PageTables {
    /// The PML4 table.
    pub closed spec fn spec_pml4(self) -> PageTable {
        self.pml4
    }

    /// The PDPT table.
    pub closed spec fn spec_pdpt(self) -> PageTable {
        self.pdpt
    }

    /// The page directory.
    pub closed spec fn spec_pd(self) -> PageTable {
        self.pd
    }

    /// Three zeroed tables.
    pub fn new() -> (r: Self)
        ensures
            r.spec_pml4().spec_zeroed(),
            r.spec_pdpt().spec_zeroed(),
            r.spec_pd().spec_zeroed(),
    {
        let unused = PageTableEntry::unused();
        Self {
            pml4: PageTable { entries: [unused; 512] },
            pdpt: PageTable { entries: [unused; 512] },
            pd: PageTable { entries: [unused; 512] },
        }
    }

    /// Builds an identity mapping of the first `length` bytes of physical
    /// memory with 2 MiB huge pages: `PML4[0]` points at the PDPT,
    /// `PDPT[0]` at the PD, and `PD[i]` maps physical `i * 2 MiB`.
    ///
    /// `pdpt_phys` and `pd_phys` are the physical addresses of this triple's
    /// PDPT and PD, which only the architecture layer can take.
    pub fn setup_identity_map(
        &mut self,
        pdpt_phys: PhysicalAddress,
        pd_phys: PhysicalAddress,
        length: u64,
    )
        requires
            spec_pages_2m(length) <= 512,
        ensures
            spec_single_entry(final(self).spec_pml4(), 0, spec_entry_bits(pdpt_phys@, 3)),
            spec_single_entry(final(self).spec_pdpt(), 0, spec_entry_bits(pd_phys@, 3)),
            forall|i: int|
                0 <= i < spec_pages_2m(length) ==> final(self).spec_pd().spec_entries()[
                    i
                ].spec_bits() == spec_entry_bits((i * HUGE_PAGE_SIZE) as u64, 131),
            forall|i: int|
                spec_pages_2m(length) <= i < 512 ==> final(self).spec_pd().spec_entries()[
                    i
                ].spec_bits() == 0,
    {
        proof {
            assert(1u64 | 2u64 == 3u64) by (bit_vector);
            if spec_pages_2m(length) > 0 {
                assert((spec_pages_2m(length) - 1) * 0x200000 <= 511 * 0x200000)
                    by (nonlinear_arith)
                    requires
                        0 < spec_pages_2m(length) <= 512,
                ;
            }
        }
        self.pml4.zero();
        self.pdpt.zero();
        self.pd.zero();

        set_table_entry(&mut self.pml4, 0, pdpt_phys, PRESENT | WRITABLE);
        set_table_entry(&mut self.pdpt, 0, pd_phys, PRESENT | WRITABLE);

        map_2m_range(&mut self.pd, 0, length);
    }

    /// The PML4 table, handed to the architecture layer for `enable_paging`.
    pub fn pml4(&self) -> (r: &PageTable)
        ensures
            r == self.spec_pml4(),
    {
        &self.pml4
    }

    /// The PDPT table.
    pub fn pdpt(&self) -> (r: &PageTable)
        ensures
            r == self.spec_pdpt(),
    {
        &self.pdpt
    }

    /// The page directory.
    pub fn pd(&self) -> (r: &PageTable)
        ensures
            r == self.spec_pd(),
    {
        &self.pd
    }
}

/// Points one slot of a table at `addr` with the given flags, leaving every
/// other slot as it was.
fn set_table_entry(t: &mut PageTable, index: usize, addr: PhysicalAddress, flags: u64)
    requires
        index < 512,
    ensures
        final(t).spec_entries()[index as int].spec_bits() == spec_entry_bits(addr@, flags),
        forall|k: int|
            0 <= k < 512 && k != index ==> final(t).spec_entries()[k] == old(t).spec_entries()[k],
{
    let mut entry = PageTableEntry::unused();
    entry.set_addr(addr, flags);
    t.entries[index] = entry;
}

/// Maps `length` bytes starting at physical `start_phys` with 2 MiB huge
/// pages from the start of the page directory.
fn map_2m_range(pd: &mut PageTable, start_phys: u64, length: u64)
    requires
        spec_pages_2m(length) <= 512,
        spec_pages_2m(length) > 0 ==> start_phys + (spec_pages_2m(length) - 1) * HUGE_PAGE_SIZE
            <= u64::MAX,
    ensures
        forall|i: int|
            0 <= i < spec_pages_2m(length) ==> final(pd).spec_entries()[i].spec_bits()
                == spec_entry_bits((start_phys + i * HUGE_PAGE_SIZE) as u64, 131),
        forall|i: int|
            !(0 <= i < spec_pages_2m(length)) && 0 <= i < 512 ==> final(pd).spec_entries()[i]
                == old(pd).spec_entries()[i],
{
    map_2m_range_from(pd, 0, start_phys, length);
    proof {
        assert forall|i: int|
            0 <= i < spec_pages_2m(length) implies pd.spec_entries()[i].spec_bits()
            == spec_entry_bits((start_phys + i * HUGE_PAGE_SIZE) as u64, 131) by {
            assert((pd.spec_entries()[0 + i]).spec_bits() == spec_entry_bits(
                (start_phys + i * HUGE_PAGE_SIZE) as u64,
                131,
            ));
        }
    }
}

/// Maps `length` bytes starting at physical `start_phys` with 2 MiB huge
/// pages, beginning at page-directory slot `pd_index_start`.
#[verifier::loop_isolation(false)]
fn map_2m_range_from(pd: &mut PageTable, pd_index_start: usize, start_phys: u64, length: u64)
    requires
        pd_index_start + spec_pages_2m(length) <= 512,
        spec_pages_2m(length) > 0 ==> start_phys + (spec_pages_2m(length) - 1) * HUGE_PAGE_SIZE
            <= u64::MAX,
    ensures
        forall|i: int|
            0 <= i < spec_pages_2m(length) ==> (#[trigger] final(pd).spec_entries()[pd_index_start
                + i]).spec_bits() == spec_entry_bits((start_phys + i * HUGE_PAGE_SIZE) as u64, 131),
        forall|i: int|
            !(pd_index_start <= i < pd_index_start + spec_pages_2m(length)) && 0 <= i < 512
                ==> final(pd).spec_entries()[i] == old(pd).spec_entries()[i],
{
    proof {
        assert(1u64 | 2u64 | 128u64 == 131u64) by (bit_vector);
    }
    let pages_whole: u64 = length / HUGE_PAGE_SIZE;
    let pages: u64 = if length % HUGE_PAGE_SIZE == 0 {
        pages_whole
    } else {
        pages_whole + 1
    };
    assert(pages == spec_pages_2m(length));

    let mut i: usize = 0;
    while i < pages as usize
        invariant
            0 <= i <= pages,
            forall|k: int|
                0 <= k < i ==> (#[trigger] pd.spec_entries()[pd_index_start + k]).spec_bits()
                    == spec_entry_bits((start_phys + k * HUGE_PAGE_SIZE) as u64, 131),
            forall|k: int|
                !(pd_index_start <= k < pd_index_start + i) && 0 <= k < 512 ==> pd.spec_entries()[
                    k
                ] == old(pd).spec_entries()[k],
        decreases pages - i,
    {
        proof {
            assert((i as int) * HUGE_PAGE_SIZE <= (pages - 1) * HUGE_PAGE_SIZE)
                by (nonlinear_arith)
                requires
                    0 <= i as int <= pages - 1,
            ;
        }
        let ghost prev = *pd;
        let phys = PhysicalAddress::new(start_phys + (i as u64) * HUGE_PAGE_SIZE);
        let mut entry = PageTableEntry::unused();
        entry.set_addr(phys, PRESENT | WRITABLE | HUGE_PAGE);
        pd.entries[pd_index_start + i] = entry;
        proof {
            assert(pd.spec_entries() == prev.spec_entries().update(
                pd_index_start + i as int,
                entry,
            ));
            assert forall|k: int| 0 <= k < i + 1 implies (#[trigger] pd.spec_entries()[
                pd_index_start + k
            ]).spec_bits() == spec_entry_bits((start_phys + k * HUGE_PAGE_SIZE) as u64, 131) by {
                if k < i {
                    assert(pd.spec_entries()[pd_index_start + k] == prev.spec_entries()[
                        pd_index_start + k
                    ]);
                } else {
                    assert(pd.spec_entries()[pd_index_start + k] == entry);
                }
            }
        }
        i = i + 1;
    }
}

/// Maps `length` bytes of physical memory starting at `phys_start` into the
/// higher half at `virt_start`, with 2 MiB huge pages.
///
/// One frame is consumed from the frame allocator as a paging bootstrap
/// sentinel — it models a future intermediate-table allocation — and the
/// call fails, leaving the tables untouched, exactly when the allocator is
/// exhausted. On success the three tables are rebuilt from zero:
/// `PML4[virt_start.pml4_index]` points at the PDPT,
/// `PDPT[virt_start.pdpt_index]` at the PD, and the PD maps the physical
/// range from slot `virt_start.pd_index` on.
#[verifier::loop_isolation(false)]
pub fn map_kernel_higher_half(
    tables: &mut PageTables,
    frame_allocator: &mut FrameAllocator<'_>,
    virt_start: VirtualAddress,
    phys_start: PhysicalAddress,
    length: u64,
    pdpt_phys: PhysicalAddress,
    pd_phys: PhysicalAddress,
) -> (r: Result<(), &'static str>)
    requires
        old(frame_allocator).wf(),
        spec_pd_index(virt_start@) + spec_pages_2m(length) <= 512,
        spec_pages_2m(length) > 0 ==> phys_start@ + (spec_pages_2m(length) - 1) * HUGE_PAGE_SIZE
            <= u64::MAX,
    ensures
        final(frame_allocator).wf(),
        final(frame_allocator).spec_regions() == old(frame_allocator).spec_regions(),
        r is Ok <==> old(frame_allocator).spec_first_fit_from(
            old(frame_allocator).spec_region_index(),
        ) < old(frame_allocator).spec_regions().len(),
        r is Ok ==> {
            let j = old(frame_allocator).spec_first_fit_from(
                old(frame_allocator).spec_region_index(),
            );
            &&& final(frame_allocator).spec_region_index() == j
            &&& final(frame_allocator).spec_next() == old(frame_allocator).spec_cursor_in(j)
                + 4096
        },
        r is Err ==> r == Err::<(), &'static str>("no usable frame for paging bootstrap")
            && *final(tables) == *old(tables) && final(frame_allocator).spec_region_index()
            == final(frame_allocator).spec_regions().len(),
        r is Ok ==> {
            &&& spec_single_entry(
                final(tables).spec_pml4(),
                spec_pml4_index(virt_start@) as int,
                spec_entry_bits(pdpt_phys@, 3),
            )
            &&& spec_single_entry(
                final(tables).spec_pdpt(),
                spec_pdpt_index(virt_start@) as int,
                spec_entry_bits(pd_phys@, 3),
            )
            &&& forall|i: int|
                0 <= i < spec_pages_2m(length) ==> (#[trigger] final(tables).spec_pd()
                    .spec_entries()[spec_pd_index(virt_start@) + i]).spec_bits()
                    == spec_entry_bits((phys_start@ + i * HUGE_PAGE_SIZE) as u64, 131)
            &&& forall|i: int|
                !(spec_pd_index(virt_start@) <= i < spec_pd_index(virt_start@) + spec_pages_2m(
                    length,
                )) && 0 <= i < 512 ==> final(tables).spec_pd().spec_entries()[i].spec_bits() == 0
        },
{
    let bootstrap = frame_allocator.allocate_frame();
    if bootstrap.is_none() {
        return Err("no usable frame for paging bootstrap");
    }

    proof {
        assert(1u64 | 2u64 == 3u64) by (bit_vector);
    }
    tables.pml4.zero();
    tables.pdpt.zero();
    tables.pd.zero();

    set_table_entry(&mut tables.pml4, virt_start.pml4_index(), pdpt_phys, PRESENT | WRITABLE);
    set_table_entry(&mut tables.pdpt, virt_start.pdpt_index(), pd_phys, PRESENT | WRITABLE);

    map_2m_range_from(&mut tables.pd, virt_start.pd_index(), phys_start.as_u64(), length);

    Ok(())
}

/// The seam to the architecture layer: must be called exactly once after the
/// tables are constructed and before any address beyond the identity region
/// is dereferenced. The control-register writes live outside the core.
pub fn enable_paging(_pml4: &PageTable) {
}

} // verus!
