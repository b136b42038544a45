//! Segment- and interrupt-descriptor encodings: the packed table entries the
//! architecture layer loads into the CPU. The core only computes the bit
//! layouts; loading the tables is the architecture layer's job.

use vstd::prelude::*;

verus! {

/// One 8-byte entry of a global descriptor table, in the packed layout the
/// CPU reads: a 32-bit base and a 20-bit limit scattered over five fields,
/// plus access and granularity bits.
#[derive(Debug, Clone, Copy, PartialEq, Eq, Structural)]
pub struct GdtEntry {
    pub limit_low: u16,
    pub base_low: u16,
    pub base_mid: u8,
    pub access: u8,
    pub granularity: u8,
    pub base_high: u8,
}

impl GdtEntry {
    /// The all-zero null descriptor.
    pub fn empty() -> (r: Self)
        ensures
            r == (GdtEntry {
                limit_low: 0,
                base_low: 0,
                base_mid: 0,
                access: 0,
                granularity: 0,
                base_high: 0,
            }),
    {
        Self { limit_low: 0, base_low: 0, base_mid: 0, access: 0, granularity: 0, base_high: 0 }
    }

    /// Packs a segment descriptor. The scattered fields recompose to the
    /// full base, the low 20 bits of the limit, and the four granularity
    /// bits; the access byte is carried unchanged.
    pub fn new(base: u32, limit: u32, access: u8, granularity: u8) -> (r: Self)
        ensures
            (r.base_low as u64) | ((r.base_mid as u64) << 16) | ((r.base_high as u64) << 24)
                == base as u64,
            (r.limit_low as u64) | ((((r.granularity as u64) & 0x0F)) << 16) == (limit as u64)
                & 0xfffff,
            r.access == access,
            r.granularity & 0xF0 == granularity & 0xF0,
    {
        let r = Self {
            limit_low: (limit & 0xFFFF) as u16,
            base_low: (base & 0xFFFF) as u16,
            base_mid: ((base >> 16) & 0xFF) as u8,
            access,
            granularity: ((limit >> 16) & 0x0F) as u8 | (granularity & 0xF0),
            base_high: ((base >> 24) & 0xFF) as u8,
        };
        proof {
            lemma_gdt_packing(base, limit, granularity);
        }
        r
    }
}

/// Packing a 32-bit base and a 20-bit limit into the descriptor fields and
/// recomposing them reproduces the inputs.
proof fn lemma_gdt_packing(base: u32, limit: u32, granularity: u8)
    ensures
        (((base & 0xFFFF) as u16) as u64) | (((((base >> 16) & 0xFF) as u8) as u64) << 16) | ((((
        base >> 24) & 0xFF) as u8) as u64) << 24 == base as u64,
        ((((limit & 0xFFFF) as u16) as u64) | (((((((limit >> 16) & 0x0F) as u8) | (granularity
            & 0xF0)) as u64) & 0x0F) << 16)) == (limit as u64) & 0xfffff,
        ((((limit >> 16) & 0x0F) as u8) | (granularity & 0xF0)) & 0xF0 == granularity & 0xF0,
{
    assert((((base & 0xFFFF) as u16) as u64) | (((((base >> 16) & 0xFF) as u8) as u64) << 16)
        | ((((base >> 24) & 0xFF) as u8) as u64) << 24 == base as u64) by (bit_vector);
    assert(((((limit & 0xFFFF) as u16) as u64) | (((((((limit >> 16) & 0x0F) as u8) | (granularity
        & 0xF0)) as u64) & 0x0F) << 16)) == (limit as u64) & 0xfffff) by (bit_vector);
    assert(((((limit >> 16) & 0x0F) as u8) | (granularity & 0xF0)) & 0xF0 == granularity & 0xF0)
        by (bit_vector);
}

/// One 8-byte entry of an interrupt descriptor table: a handler address
/// split into two halves around the code-segment selector and gate flags.
#[derive(Debug, Clone, Copy, PartialEq, Eq, Structural)]
pub struct IdtEntry {
    pub offset_low: u16,
    pub selector: u16,
    pub zero: u8,
    pub flags: u8,
    pub offset_high: u16,
}

impl IdtEntry {
    /// The all-zero entry: no handler installed.
    pub fn missing() -> (r: Self)
        ensures
            r == (IdtEntry { offset_low: 0, selector: 0, zero: 0, flags: 0, offset_high: 0 }),
    {
        Self { offset_low: 0, selector: 0, zero: 0, flags: 0, offset_high: 0 }
    }

    /// Packs a gate for the handler at `handler`, selecting the kernel code
    /// segment (selector 8). The two offset halves recompose to the low 32
    /// bits of the handler address.
    pub fn new(handler: usize, flags: u8) -> (r: Self)
        ensures
            (r.offset_low as u64) | ((r.offset_high as u64) << 16) == (handler as u64)
                & 0xffff_ffff,
            r.selector == 8,
            r.zero == 0,
            r.flags == flags,
    {
        let address: u64 = handler as u64;
        proof {
            lemma_idt_packing(address);
        }
        Self {
            offset_low: (address & 0xFFFF) as u16,
            selector: 0x08,
            zero: 0,
            flags,
            offset_high: ((address >> 16) & 0xFFFF) as u16,
        }
    }
}

/// Splitting an address at bit 16 and recomposing reproduces its low 32
/// bits.
proof fn lemma_idt_packing(address: u64)
    ensures
        ((((address & 0xFFFF) as u16) as u64) | ((((address >> 16) & 0xFFFF) as u16) as u64)
            << 16) == address & 0xffff_ffff,
{
    assert(((((address & 0xFFFF) as u16) as u64) | ((((address >> 16) & 0xFFFF) as u16) as u64)
        << 16) == address & 0xffff_ffff) by (bit_vector);
}

} // verus!
