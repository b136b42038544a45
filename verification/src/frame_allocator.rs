//! Physical-frame allocator: a linear walker over the boot memory map that
//! hands out 4 KiB frames from `Usable` regions in map order.
//!
//! Construction advances to the first usable region and seeds the frame
//! cursor at that region's 4 KiB-aligned start. Every emitted frame lies
//! entirely within a single usable region; on a sorted, disjoint map the
//! frames are emitted in strictly ascending physical order. No frame is
//! emitted twice, and allocation never blocks.

use vstd::prelude::*;

use crate::boot::{MemoryRegion, MemoryRegionKind};
use crate::memory::{spec_align_down_4k, PhysicalAddress, FRAME_SIZE};

verus! {

/// The least multiple of `align` at or above `value`.
pub open spec fn spec_align_up(value: int, align: int) -> int {
    if value % align == 0 {
        value
    } else {
        value + (align - value % align)
    }
}

/// `spec_align_up` is aligned and rounds up by less than one `align`.
pub proof fn lemma_align_up(value: int, align: int)
    requires
        0 <= value,
        1 <= align,
    ensures
        spec_align_up(value, align) % align == 0,
        value <= spec_align_up(value, align) < value + align,
{
    let rem = value % align;
    vstd::arithmetic::div_mod::lemma_fundamental_div_mod(value, align);
    vstd::arithmetic::div_mod::lemma_mod_bound(value, align);
    if rem != 0 {
        let q = value / align;
        assert(value - rem == align * q);
        assert(value - rem + align == align * (q + 1)) by (nonlinear_arith)
            requires
                value - rem == align * q,
        ;
        vstd::arithmetic::div_mod::lemma_mod_multiples_basic(q + 1, align);
    }
}

/// `spec_align_up(value, align)` is the least multiple of `align` at or
/// above `value`: any other such multiple is at least it.
pub proof fn lemma_align_up_least(value: int, align: int, m: int)
    requires
        0 <= value,
        1 <= align,
        m % align == 0,
        value <= m,
    ensures
        spec_align_up(value, align) <= m,
{
    lemma_align_up(value, align);
    let a = spec_align_up(value, align);
    if m < a {
        let qa = a / align;
        let qm = m / align;
        vstd::arithmetic::div_mod::lemma_fundamental_div_mod(a, align);
        vstd::arithmetic::div_mod::lemma_fundamental_div_mod(m, align);
        assert(a == align * qa);
        assert(m == align * qm);
        assert(qm < qa) by (nonlinear_arith)
            requires
                align * qm < align * qa,
                1 <= align,
        ;
        assert(align * qm <= align * (qa - 1)) by (nonlinear_arith)
            requires
                qm <= qa - 1,
                1 <= align,
        ;
        assert(align * (qa - 1) == align * qa - align) by (nonlinear_arith);
        assert(m <= a - align);
        assert(false);
    }
}

/// Rounding up to `align` is monotone.
pub proof fn lemma_align_up_monotone(a: int, b: int, align: int)
    requires
        0 <= a <= b,
        1 <= align,
    ensures
        spec_align_up(a, align) <= spec_align_up(b, align),
{
    lemma_align_up(a, align);
    lemma_align_up(b, align);
    lemma_align_up_least(a, align, spec_align_up(b, align));
}

/// Rounds `value` up to the next multiple of `align`.
pub fn align_up(value: u64, align: u64) -> (r: u64)
    requires
        1 <= align,
        value + align - 1 <= u64::MAX,
    ensures
        r == spec_align_up(value as int, align as int),
        r % align == 0,
        value <= r < value + align,
{
    proof {
        if value < align {
            vstd::arithmetic::div_mod::lemma_small_mod(value as nat, align as nat);
        }
        lemma_align_up(value as int, align as int);
    }
    let rem = value % align;
    if rem == 0 {
        value
    } else {
        value + (align - rem)
    }
}

/// A 4 KiB-aligned, 4 KiB-sized physical memory block.
#[derive(Debug, Clone, Copy, PartialEq, Eq)]
pub struct PhysFrame {
    start: PhysicalAddress,
}

impl PhysFrame {
    /// The frame's base address.
    pub closed spec fn spec_start(self) -> u64 {
        self.start@
    }

    /// Builds the frame containing `addr` by aligning it down to its 4 KiB
    /// base. This is the only constructor, so every frame is aligned.
    pub fn from_start_address(addr: PhysicalAddress) -> (r: Self)
        ensures
            r.spec_start() == spec_align_down_4k(addr@),
            r.spec_start() % 4096 == 0,
            addr@ % 4096 == 0 ==> r.spec_start() == addr@,
    {
        Self { start: addr.align_down() }
    }

    /// The frame's base address.
    pub fn start_address(self) -> (r: PhysicalAddress)
        ensures
            r@ == self.spec_start(),
    {
        self.start
    }
}

/// Stateful iterator over the boot memory map, emitting 4 KiB frames from
/// usable regions in map order.
pub struct FrameAllocator<'a> {
    regions: &'a [MemoryRegion],
    region_index: usize,
    next: u64,
}

/// A region that can seat the frame cursor: usable, non-empty, and with a
/// start whose 4 KiB round-up stays inside the address space.
pub open spec fn spec_selectable(r: MemoryRegion) -> bool {
    &&& r.kind == MemoryRegionKind::Usable
    &&& r.start < r.end
    &&& r.start + 4095 <= u64::MAX
}

/// A sane boot memory map: regions are sorted by address and disjoint.
pub open spec fn spec_regions_sorted(rs: Seq<MemoryRegion>) -> bool {
    forall|i: int, j: int| 0 <= i < j < rs.len() ==> rs[i].end <= rs[j].start
}

impl<'a> FrameAllocator<'a> {
    /// The memory map the allocator walks.
    pub closed spec fn spec_regions(self) -> Seq<MemoryRegion> {
        self.regions@
    }

    /// Index of the region currently seating the cursor.
    pub closed spec fn spec_region_index(self) -> int {
        self.region_index as int
    }

    /// The next candidate frame base.
    pub closed spec fn spec_next(self) -> int {
        self.next as int
    }

    /// Between calls the allocator either has walked off the map or sits on
    /// a selectable region with an aligned cursor that has not run away from
    /// that region.
    pub open spec fn wf(self) -> bool {
        &&& 0 <= self.spec_region_index() <= self.spec_regions().len()
        &&& 0 <= self.spec_next()
        &&& self.spec_region_index() < self.spec_regions().len() ==> {
            let r = self.spec_regions()[self.spec_region_index()];
            &&& spec_selectable(r)
            &&& self.spec_next() % 4096 == 0
            &&& (self.spec_next() <= spec_align_up(r.start as int, 4096) || self.spec_next()
                <= r.end)
        }
    }

    /// The frame base that region `j` would emit next: the current cursor
    /// (bumped up to the region's aligned start) for the seated region, and
    /// the region's aligned start for any later one.
    pub open spec fn spec_cursor_in(self, j: int) -> int {
        let aligned = spec_align_up(self.spec_regions()[j].start as int, 4096);
        if j == self.spec_region_index() && self.spec_next() > aligned {
            self.spec_next()
        } else {
            aligned
        }
    }

    /// Region `j` can emit a frame: it is selectable and a whole frame fits
    /// between its next frame base and its end.
    pub open spec fn spec_fits(self, j: int) -> bool {
        &&& spec_selectable(self.spec_regions()[j])
        &&& self.spec_cursor_in(j) + 4096 <= self.spec_regions()[j].end
    }

    /// The first region at or after `j` that can emit a frame, or the map
    /// length when none remains.
    pub open spec fn spec_first_fit_from(self, j: int) -> int
        decreases self.spec_regions().len() - j,
    {
        if j < self.spec_region_index() || j >= self.spec_regions().len() {
            self.spec_regions().len() as int
        } else if self.spec_fits(j) {
            j
        } else {
            self.spec_first_fit_from(j + 1)
        }
    }

    /// `spec_first_fit_from(j)` is the least index at or after `j` whose
    /// region can emit a frame, and the map length when there is none.
    pub proof fn lemma_first_fit_from(self, j: int)
        requires
            self.spec_region_index() <= j <= self.spec_regions().len(),
        ensures
            j <= self.spec_first_fit_from(j) <= self.spec_regions().len(),
            forall|k: int| j <= k < self.spec_first_fit_from(j) ==> !self.spec_fits(k),
            self.spec_first_fit_from(j) < self.spec_regions().len() ==> self.spec_fits(
                self.spec_first_fit_from(j),
            ),
        decreases self.spec_regions().len() - j,
    {
        if j < self.spec_regions().len() && !self.spec_fits(j) {
            self.lemma_first_fit_from(j + 1);
        }
    }

    /// Builds an allocator over `regions`, advanced to the first usable
    /// region with the cursor at that region's 4 KiB-aligned start.
    pub fn new(regions: &'a [MemoryRegion]) -> (r: Self)
        ensures
            r.wf(),
            r.spec_regions() == regions@,
            forall|k: int| 0 <= k < r.spec_region_index() ==> !spec_selectable(regions@[k]),
            r.spec_region_index() < regions@.len() ==> spec_selectable(
                regions@[r.spec_region_index()],
            ) && r.spec_next() == spec_align_up(
                regions@[r.spec_region_index()].start as int,
                4096,
            ),
    {
        let mut allocator = Self { regions, region_index: 0, next: 0 };
        allocator.advance_to_usable_region();
        allocator
    }

    /// Emits the next 4 KiB frame, walking forward through usable regions,
    /// or reports that the map is exhausted.
    ///
    /// Every emitted frame is 4 KiB-aligned and lies entirely within a
    /// single usable region of the map; on a sorted, disjoint map it also
    /// starts at or above the cursor left by the previous emission, which
    /// that emission had placed one full frame above its own base — so
    /// consecutive frames never overlap and ascend strictly.
    #[verifier::loop_isolation(false)]
    pub fn allocate_frame(&mut self) -> (r: Option<PhysFrame>)
        requires
            old(self).wf(),
        ensures
            final(self).wf(),
            final(self).spec_regions() == old(self).spec_regions(),
            old(self).spec_region_index() <= final(self).spec_region_index(),
            r is Some <==> old(self).spec_first_fit_from(old(self).spec_region_index()) < old(self).spec_regions().len(),
            r matches Some(f) ==> {
                let j = old(self).spec_first_fit_from(old(self).spec_region_index());
                &&& f.spec_start() == old(self).spec_cursor_in(j)
                &&& f.spec_start() % 4096 == 0
                &&& old(self).spec_regions()[j].kind == MemoryRegionKind::Usable
                &&& old(self).spec_regions()[j].start <= f.spec_start()
                &&& f.spec_start() + 4096 <= old(self).spec_regions()[j].end
                &&& final(self).spec_region_index() == j
                &&& final(self).spec_next() == f.spec_start() + 4096
            },
            spec_regions_sorted(old(self).spec_regions()) ==> (r matches Some(f) ==> old(self).spec_next() <= f.spec_start()),
            r is None ==> final(self).spec_region_index() == final(self).spec_regions().len(),
    {
        proof {
            self.lemma_first_fit_from(self.spec_region_index());
        }
        let ghost orig = *self;
        let ghost fit = orig.spec_first_fit_from(orig.spec_region_index());
        while self.region_index < self.regions.len()
            invariant
                self.wf(),
                self.regions == orig.regions,
                orig.spec_region_index() <= self.spec_region_index(),
                orig.spec_first_fit_from(orig.spec_region_index()) == fit,
                forall|k: int| orig.spec_region_index() <= k < self.spec_region_index()
                    ==> !orig.spec_fits(k),
                self.spec_region_index() == orig.spec_region_index() ==> self.spec_next()
                    == orig.spec_next(),
                self.spec_region_index() > orig.spec_region_index() && self.spec_region_index()
                    < self.spec_regions().len() ==> self.spec_next() == spec_align_up(
                    self.spec_regions()[self.spec_region_index()].start as int,
                    4096,
                ),
            decreases self.regions.len() - self.region_index,
        {
            let region = self.regions[self.region_index];
            let aligned_start = align_up(region.start, FRAME_SIZE);
            if self.next < aligned_start {
                self.next = aligned_start;
            }
            proof {
                assert(self.spec_next() == orig.spec_cursor_in(self.spec_region_index()));
            }

            if FRAME_SIZE <= region.end && self.next <= region.end - FRAME_SIZE {
                proof {
                    orig.lemma_first_fit_from(orig.spec_region_index());
                    assert(orig.spec_fits(self.spec_region_index()));
                    assert(fit == self.spec_region_index());
                }
                let frame = PhysFrame::from_start_address(PhysicalAddress::new(self.next));
                self.next = self.next + FRAME_SIZE;
                proof {
                    if spec_regions_sorted(orig.spec_regions()) && fit
                        > orig.spec_region_index() {
                        let r0 = orig.spec_regions()[orig.spec_region_index()];
                        let rj = orig.spec_regions()[fit];
                        lemma_align_up(r0.start as int, 4096);
                        lemma_align_up(rj.start as int, 4096);
                        lemma_align_up_monotone(r0.start as int, rj.start as int, 4096);
                    }
                }
                return Some(frame);
            }

            proof {
                assert(!orig.spec_fits(self.spec_region_index()));
            }
            self.region_index = self.region_index + 1;
            self.advance_to_usable_region();
        }
        proof {
            orig.lemma_first_fit_from(orig.spec_region_index());
            assert(fit == orig.spec_regions().len());
        }
        None
    }

    /// Walks the region index forward to the next region that can seat the
    /// cursor, and seats it at that region's 4 KiB-aligned start.
    #[verifier::loop_isolation(false)]
    fn advance_to_usable_region(&mut self)
        requires
            old(self).spec_region_index() <= old(self).spec_regions().len(),
        ensures
            final(self).regions == old(self).regions,
            old(self).spec_region_index() <= final(self).spec_region_index() <= final(self).spec_regions().len(),
            forall|k: int| old(self).spec_region_index() <= k < final(self).spec_region_index()
                ==> !spec_selectable(final(self).spec_regions()[k]),
            final(self).spec_region_index() < final(self).spec_regions().len() ==> {
                let r = final(self).spec_regions()[final(self).spec_region_index()];
                &&& spec_selectable(r)
                &&& final(self).spec_next() == spec_align_up(r.start as int, 4096)
            },
            final(self).spec_region_index() == final(self).spec_regions().len() ==> final(self).spec_next() == old(self).spec_next(),
            final(self).wf(),
    {
        let ghost orig = *self;
        while self.region_index < self.regions.len()
            invariant
                self.regions == orig.regions,
                self.next == orig.next,
                orig.spec_region_index() <= self.spec_region_index() <= self.spec_regions().len(),
                forall|k: int| orig.spec_region_index() <= k < self.spec_region_index()
                    ==> !spec_selectable(self.spec_regions()[k]),
            decreases self.regions.len() - self.region_index,
        {
            let region = self.regions[self.region_index];
            if matches!(region.kind, MemoryRegionKind::Usable) && region.start < region.end
                && region.start <= u64::MAX - 4095 {
                self.next = align_up(region.start, FRAME_SIZE);
                proof {
                    lemma_align_up(region.start as int, 4096);
                }
                return ;
            }
            self.region_index = self.region_index + 1;
        }
    }
}

} // verus!
