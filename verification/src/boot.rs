//! Boot-to-kernel handoff contract: framebuffer descriptor, bounded memory
//! map, and the builder that validates a [`BootInfo`] before emission.
//!
//! The bootloader assembles a `BootInfo` through [`BootInfoBuilder`] and
//! hands it to the kernel; consumers must treat the record as immutable and
//! validate it before use.

use vstd::prelude::*;

verus! {

/// Maximum number of memory regions that can be handed to the kernel in the
/// inline [`BootInfo`] array.
pub const MAX_MEMORY_REGIONS: usize = 128;

/// Framebuffer metadata handed from the bootloader to the kernel.
#[derive(Clone, Copy, Debug, Default, PartialEq, Eq, Structural)]
pub struct FramebufferInfo {
    pub base: u64,
    pub size: u64,
    pub width: u32,
    pub height: u32,
    pub stride: u32,
    pub bytes_per_pixel: u32,
}

impl FramebufferInfo {
    /// A framebuffer descriptor is coherent when every field is non-zero and
    /// the scanline stride covers at least the visible width.
    pub open spec fn spec_valid(self) -> bool {
        &&& self.base != 0
        &&& self.size != 0
        &&& self.width != 0
        &&& self.height != 0
        &&& self.stride >= self.width
        &&& self.bytes_per_pixel != 0
    }

    /// Returns true when the framebuffer descriptor looks coherent.
    pub fn is_valid(self) -> (r: bool)
        ensures
            r == self.spec_valid(),
    {
        self.base != 0 && self.size != 0 && self.width != 0 && self.height != 0
            && self.stride >= self.width && self.bytes_per_pixel != 0
    }
}

/// Kind of a memory region found by the bootloader.
#[derive(Clone, Copy, Debug, PartialEq, Eq, Structural)]
pub enum MemoryRegionKind {
    Usable,
    Reserved,
    AcpiReclaimable,
    AcpiNvs,
    Mmio,
}

impl MemoryRegionKind {
    /// The tag used for this kind in the packed binary layout of the boot
    /// contract.
    pub fn code(self) -> (r: u32)
        ensures
            r == self.spec_code(),
    {
        match self {
            MemoryRegionKind::Usable => 1,
            MemoryRegionKind::Reserved => 2,
            MemoryRegionKind::AcpiReclaimable => 3,
            MemoryRegionKind::AcpiNvs => 4,
            MemoryRegionKind::Mmio => 5,
        }
    }

    /// Binary tag of each kind: `Usable = 1`, `Reserved = 2`,
    /// `AcpiReclaimable = 3`, `AcpiNvs = 4`, `Mmio = 5`.
    pub open spec fn spec_code(self) -> u32 {
        match self {
            MemoryRegionKind::Usable => 1,
            MemoryRegionKind::Reserved => 2,
            MemoryRegionKind::AcpiReclaimable => 3,
            MemoryRegionKind::AcpiNvs => 4,
            MemoryRegionKind::Mmio => 5,
        }
    }
}

/// One physical memory-map region passed to the kernel: the half-open range
/// `[start, end)` with a kind tag.
#[derive(Clone, Copy, Debug, PartialEq, Eq, Structural)]
pub struct MemoryRegion {
    pub start: u64,
    pub end: u64,
    pub kind: MemoryRegionKind,
}

impl MemoryRegion {
    /// A region is valid when its span is non-empty and ordered.
    pub open spec fn spec_valid(self) -> bool {
        self.start < self.end
    }

    /// Returns true when this region has a non-empty and ordered span.
    pub fn is_valid(self) -> (r: bool)
        ensures
            r == self.spec_valid(),
    {
        self.start < self.end
    }
}

/// BootInfo is the hand-off contract between bootloader and kernel.
#[derive(Clone, Copy, Debug, PartialEq, Eq)]
pub struct BootInfo {
    pub framebuffer: FramebufferInfo,
    pub memory_regions_len: u32,
    pub memory_regions: [MemoryRegion; 128],
}

/// Boot contract validation failures.
#[derive(Clone, Copy, Debug, PartialEq, Eq, Structural)]
pub enum BootError {
    InvalidFramebuffer,
    InvalidMemoryRegion { index: usize },
    RegionCountOverflow { count: usize, max: usize },
}

impl BootInfo {
    /// The populated leading prefix of the region array; empty when the
    /// recorded length overruns the capacity (defence against a corrupt
    /// handoff).
    pub open spec fn spec_regions(self) -> Seq<MemoryRegion> {
        if self.memory_regions_len <= MAX_MEMORY_REGIONS {
            self.memory_regions@.take(self.memory_regions_len as int)
        } else {
            Seq::empty()
        }
    }

    /// The handoff invariants: the recorded length fits the capacity, the
    /// framebuffer is coherent, and every populated region is valid.
    pub open spec fn spec_validate_ok(self) -> bool {
        &&& self.memory_regions_len <= MAX_MEMORY_REGIONS
        &&& self.framebuffer.spec_valid()
        &&& forall|i: int|
            0 <= i < self.memory_regions_len ==> self.memory_regions@[i].spec_valid()
    }

    /// The index of the first invalid populated region at or after `i`, or
    /// the recorded length when all of them are valid.
    pub open spec fn spec_first_invalid_region_from(self, i: int) -> int
        decreases self.memory_regions_len - i,
    {
        if i < 0 || i >= self.memory_regions_len || i >= 128 {
            self.memory_regions_len as int
        } else if !self.memory_regions@[i].spec_valid() {
            i
        } else {
            self.spec_first_invalid_region_from(i + 1)
        }
    }

    /// The exact outcome of [`BootInfo::validate`]: the checks run in order —
    /// region count against capacity, then the framebuffer, then each
    /// populated region — and the first offence is reported.
    pub open spec fn spec_validate_result(self) -> Result<(), BootError> {
        if self.memory_regions_len > MAX_MEMORY_REGIONS {
            Err(
                BootError::RegionCountOverflow {
                    count: self.memory_regions_len as usize,
                    max: MAX_MEMORY_REGIONS,
                },
            )
        } else if !self.framebuffer.spec_valid() {
            Err(BootError::InvalidFramebuffer)
        } else if self.spec_first_invalid_region_from(0) < self.memory_regions_len {
            Err(
                BootError::InvalidMemoryRegion {
                    index: self.spec_first_invalid_region_from(0) as usize,
                },
            )
        } else {
            Ok(())
        }
    }

    /// An all-zero contract: zeroed framebuffer, no regions recorded, and
    /// every array slot a zero-length `Reserved` region.
    pub open spec fn spec_is_empty(self) -> bool {
        &&& self.framebuffer == (FramebufferInfo {
            base: 0,
            size: 0,
            width: 0,
            height: 0,
            stride: 0,
            bytes_per_pixel: 0,
        })
        &&& self.memory_regions_len == 0
        &&& forall|i: int|
            0 <= i < 128 ==> self.memory_regions@[i] == (MemoryRegion {
                start: 0,
                end: 0,
                kind: MemoryRegionKind::Reserved,
            })
    }

    /// Creates an empty boot contract.
    pub fn empty() -> (r: BootInfo)
        ensures
            r.spec_is_empty(),
    {
        let zero_region = MemoryRegion { start: 0, end: 0, kind: MemoryRegionKind::Reserved };
        BootInfo {
            framebuffer: FramebufferInfo {
                base: 0,
                size: 0,
                width: 0,
                height: 0,
                stride: 0,
                bytes_per_pixel: 0,
            },
            memory_regions_len: 0,
            memory_regions: [zero_region; 128],
        }
    }

    /// Number of memory regions currently recorded.
    pub fn region_count(&self) -> (r: usize)
        ensures
            r == self.memory_regions_len,
    {
        self.memory_regions_len as usize
    }

    /// Returns a region slice that contains only populated entries.
    pub fn memory_regions(&self) -> (r: &[MemoryRegion])
        ensures
            r@ == self.spec_regions(),
    {
        let len = self.region_count();
        if len > MAX_MEMORY_REGIONS {
            return vstd::slice::slice_subrange(self.memory_regions.as_slice(), 0, 0);
        }
        vstd::slice::slice_subrange(self.memory_regions.as_slice(), 0, len)
    }

    /// `spec_first_invalid_region_from(i)` is the least index at or after
    /// `i` holding an invalid region, and the recorded length when there is
    /// none.
    pub proof fn lemma_first_invalid_region_from(self, i: int)
        requires
            0 <= i,
            self.memory_regions_len <= MAX_MEMORY_REGIONS,
        ensures
            i <= self.spec_first_invalid_region_from(i) <= self.memory_regions_len || (i
                > self.memory_regions_len && self.spec_first_invalid_region_from(i)
                == self.memory_regions_len),
            forall|j: int|
                i <= j < self.spec_first_invalid_region_from(i)
                    ==> self.memory_regions@[j].spec_valid(),
            self.spec_first_invalid_region_from(i) < self.memory_regions_len
                ==> !self.memory_regions@[self.spec_first_invalid_region_from(i)].spec_valid(),
        decreases self.memory_regions_len - i,
    {
        if i < self.memory_regions_len && self.memory_regions@[i].spec_valid() {
            self.lemma_first_invalid_region_from(i + 1);
        }
    }

    /// The outcome of validation is `Ok` exactly when the handoff
    /// invariants hold.
    pub proof fn lemma_validate_result_matches_ok(self)
        ensures
            self.spec_validate_result() is Ok <==> self.spec_validate_ok(),
    {
        if self.memory_regions_len <= MAX_MEMORY_REGIONS {
            self.lemma_first_invalid_region_from(0);
        }
    }

    /// Validates basic handoff invariants before entering kernel code.
    ///
    /// Checks run in order: region count against capacity, then the
    /// framebuffer, then each populated region; the first offence is
    /// reported.
    pub fn validate(&self) -> (r: Result<(), BootError>)
        ensures
            r == self.spec_validate_result(),
            r is Ok <==> self.spec_validate_ok(),
    {
        proof {
            self.lemma_validate_result_matches_ok();
            if self.memory_regions_len <= MAX_MEMORY_REGIONS {
                self.lemma_first_invalid_region_from(0);
            }
        }
        let len = self.region_count();
        if len > MAX_MEMORY_REGIONS {
            return Err(BootError::RegionCountOverflow { count: len, max: MAX_MEMORY_REGIONS });
        }

        if !self.framebuffer.is_valid() {
            return Err(BootError::InvalidFramebuffer);
        }

        let mut i: usize = 0;
        while i < len
            invariant
                0 <= i <= len,
                len == self.memory_regions_len <= MAX_MEMORY_REGIONS,
                self.framebuffer.spec_valid(),
                forall|j: int| 0 <= j < i ==> self.memory_regions@[j].spec_valid(),
            decreases len - i,
        {
            if !self.memory_regions[i].is_valid() {
                proof {
                    self.lemma_first_invalid_region_from(0);
                    let fi = self.spec_first_invalid_region_from(0);
                    if fi < i {
                        assert(self.memory_regions@[fi].spec_valid());
                        assert(false);
                    }
                    if i < fi {
                        assert(self.memory_regions@[i as int].spec_valid());
                        assert(false);
                    }
                    assert(fi == i);
                }
                return Err(BootError::InvalidMemoryRegion { index: i });
            }
            i = i + 1;
        }

        Ok(())
    }
}

impl Default for BootInfo {
    fn default() -> (r: Self)
        ensures
            r.spec_is_empty(),
    {
        Self::empty()
    }
}

/// Mutable builder used by the bootloader while probing platform data.
#[derive(Debug, Clone, Copy)]
pub struct BootInfoBuilder {
    pub boot_info: BootInfo,
}

impl BootInfoBuilder {
    /// Starts from an empty boot contract.
    pub fn new() -> (r: Self)
        ensures
            r.boot_info.spec_is_empty(),
    {
        Self { boot_info: BootInfo::empty() }
    }

    /// Replaces the framebuffer descriptor, leaving the memory map as it is.
    pub fn with_framebuffer(self, framebuffer: FramebufferInfo) -> (r: Self)
        ensures
            r.boot_info.framebuffer == framebuffer,
            r.boot_info.memory_regions_len == self.boot_info.memory_regions_len,
            r.boot_info.memory_regions == self.boot_info.memory_regions,
    {
        let mut next = self;
        next.boot_info.framebuffer = framebuffer;
        next
    }

    /// Appends a memory region; fails with `RegionCountOverflow` when the
    /// inline array is already full.
    pub fn push_memory_region(self, region: MemoryRegion) -> (r: Result<Self, BootError>)
        requires
            self.boot_info.memory_regions_len <= MAX_MEMORY_REGIONS,
        ensures
            self.boot_info.memory_regions_len < MAX_MEMORY_REGIONS ==> (r matches Ok(b) && {
                &&& b.boot_info.framebuffer == self.boot_info.framebuffer
                &&& b.boot_info.memory_regions_len == self.boot_info.memory_regions_len + 1
                &&& b.boot_info.memory_regions@ == self.boot_info.memory_regions@.update(
                    self.boot_info.memory_regions_len as int,
                    region,
                )
            }),
            self.boot_info.memory_regions_len == MAX_MEMORY_REGIONS ==> r == Err::<
                Self,
                BootError,
            >(
                BootError::RegionCountOverflow {
                    count: (MAX_MEMORY_REGIONS + 1) as usize,
                    max: MAX_MEMORY_REGIONS,
                },
            ),
    {
        let len = self.boot_info.region_count();
        if len >= MAX_MEMORY_REGIONS {
            return Err(BootError::RegionCountOverflow { count: len + 1, max: MAX_MEMORY_REGIONS });
        }

        let mut next = self;
        next.boot_info.memory_regions[len] = region;
        next.boot_info.memory_regions_len = next.boot_info.memory_regions_len + 1;
        Ok(next)
    }

    /// Validates the assembled contract and emits it.
    pub fn build(self) -> (r: Result<BootInfo, BootError>)
        ensures
            r is Ok <==> self.boot_info.spec_validate_ok(),
            r matches Ok(b) ==> b == self.boot_info && b.spec_validate_ok(),
            r matches Err(e) ==> Err::<(), BootError>(e) == self.boot_info.spec_validate_result(),
    {
        proof {
            self.boot_info.lemma_validate_result_matches_ok();
        }
        match self.boot_info.validate() {
            Ok(()) => Ok(self.boot_info),
            Err(e) => Err(e),
        }
    }
}

/// Round-trip law for the builder chain
/// `BootInfoBuilder::new().with_framebuffer(f).push_memory_region(r_1)... .build()`.
///
/// After `new` the contract is empty; after `with_framebuffer(f)` its
/// framebuffer is `f`; after pushing `r_1 .. r_n` in order, slot `i` holds
/// `r_(i+1)` and the recorded length is `n` — exactly the premises below. Any
/// such contract with a valid framebuffer and valid regions passes `build`,
/// and the emitted `BootInfo` exposes through `memory_regions()` exactly
/// `[r_1, ..., r_n]`.
pub proof fn lemma_builder_round_trip(b: BootInfo, rs: Seq<MemoryRegion>)
    requires
        b.framebuffer.spec_valid(),
        rs.len() <= MAX_MEMORY_REGIONS,
        b.memory_regions_len == rs.len(),
        forall|i: int| 0 <= i < rs.len() ==> b.memory_regions@[i] == rs[i],
        forall|i: int| 0 <= i < rs.len() ==> rs[i].spec_valid(),
    ensures
        b.spec_validate_ok(),
        b.spec_regions() == rs,
{
    assert forall|i: int| 0 <= i < b.memory_regions_len implies b.memory_regions@[
        i
    ].spec_valid() by {
        assert(b.memory_regions@[i] == rs[i]);
        assert(rs[i].spec_valid());
    }
    assert(b.spec_regions() =~= rs);
}

impl Default for BootInfoBuilder {
    fn default() -> (r: Self)
        ensures
            r.boot_info.spec_is_empty(),
    {
        Self::new()
    }
}

} // verus!
