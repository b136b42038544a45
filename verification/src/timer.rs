//! Periodic timer: PIT divisor computation and the global tick counter.
//!
//! The legacy programmable interval timer (PIT) runs at a fixed input clock
//! of 1,193,182 Hz. A requested interrupt frequency is turned into a clock
//! divisor; the architecture layer programs the chip with it. Every timer
//! interrupt increments a monotonically non-decreasing tick counter.

use vstd::prelude::*;

verus! {

/// PIT input clock in Hz.
pub const PIT_INPUT_HZ: u64 = 1_193_182;

/// Divisor configuration for the PIT, derived from a requested frequency.
#[derive(Debug, Clone, Copy, PartialEq, Eq, Structural)]
pub struct PitConfig {
    pub frequency_hz: u32,
    pub divisor: u16,
}

/// The requested frequency after clamping to at least 1 Hz.
pub open spec fn spec_clamped_frequency(frequency_hz: u32) -> u32 {
    if frequency_hz >= 1 {
        frequency_hz
    } else {
        1
    }
}

/// The PIT divisor for a clamped frequency: the integer quotient of the
/// input clock by the frequency, clamped to the programmable range
/// `[1, 65_535]`.
pub open spec fn spec_pit_divisor(frequency_hz: u32) -> u16 {
    let quotient = PIT_INPUT_HZ as int / spec_clamped_frequency(frequency_hz) as int;
    if quotient < 1 {
        1u16
    } else if quotient > 0xffff {
        0xffffu16
    } else {
        quotient as u16
    }
}

/// Computes the PIT divisor for a requested timer frequency.
pub fn configure_pit(frequency_hz: u32) -> (r: PitConfig)
    ensures
        r.frequency_hz == spec_clamped_frequency(frequency_hz),
        r.divisor == spec_pit_divisor(frequency_hz),
{
    let clamped: u32 = if frequency_hz >= 1 {
        frequency_hz
    } else {
        1
    };
    let quotient: u64 = PIT_INPUT_HZ / (clamped as u64);
    let divisor: u16 = if quotient < 1 {
        1
    } else if quotient > 0xffff {
        0xffff
    } else {
        quotient as u16
    };
    PitConfig { frequency_hz: clamped, divisor }
}

/// For any requested frequency in `[19, 1_193_182]` Hz the divisor is the
/// untruncated integer quotient of the input clock — neither clamp fires —
/// so `divisor * frequency` reproduces the input clock up to
/// integer-division truncation:
/// `divisor * f <= 1_193_182 < (divisor + 1) * f`.
pub proof fn lemma_pit_divisor_truncation(frequency_hz: u32)
    requires
        19 <= frequency_hz <= PIT_INPUT_HZ,
    ensures
        spec_pit_divisor(frequency_hz) * frequency_hz <= PIT_INPUT_HZ,
        PIT_INPUT_HZ < (spec_pit_divisor(frequency_hz) + 1) * frequency_hz,
{
    let clock = PIT_INPUT_HZ as int;
    let f = frequency_hz as int;
    let q = clock / f;
    vstd::arithmetic::div_mod::lemma_fundamental_div_mod(clock, f);
    vstd::arithmetic::div_mod::lemma_mod_division_less_than_divisor(clock, f);
    vstd::arithmetic::div_mod::lemma_mod_bound(clock, f);
    // With f >= 19 the quotient stays below the 16-bit clamp ...
    vstd::arithmetic::div_mod::lemma_div_is_ordered_by_denominator(clock, 19, f);
    assert(clock / 19 == 62799);
    // ... and with f <= the input clock it stays at least 1.
    vstd::arithmetic::div_mod::lemma_div_is_ordered_by_denominator(clock, f, clock);
    vstd::arithmetic::div_mod::lemma_div_by_self(clock);
    assert(q == spec_pit_divisor(frequency_hz));
    assert((q + 1) * f == q * f + f) by (nonlinear_arith);
}

/// The process-wide tick count driven by the PIT interrupt. The kernel owns
/// exactly one of these for its entire run.
pub struct TickCounter {
    ticks: u64,
}

impl TickCounter {
    /// The current tick count.
    pub closed spec fn spec_ticks(self) -> u64 {
        self.ticks
    }

    /// A fresh counter at zero ticks.
    pub fn new() -> (r: TickCounter)
        ensures
            r.spec_ticks() == 0,
    {
        TickCounter { ticks: 0 }
    }
}

/// Resets the tick counter to 0 and returns the divisor configuration for
/// the requested frequency. The architecture layer is responsible for
/// actually programming the chip.
pub fn init(frequency_hz: u32, ticks: &mut TickCounter) -> (r: PitConfig)
    ensures
        final(ticks).spec_ticks() == 0,
        r.frequency_hz == spec_clamped_frequency(frequency_hz),
        r.divisor == spec_pit_divisor(frequency_hz),
{
    ticks.ticks = 0;
    configure_pit(frequency_hz)
}

/// Increments the tick counter by one and returns the new value.
///
/// The count is monotonically non-decreasing across any sequence of calls;
/// wrap-around at 2^64 is a non-goal, so a full counter is left out.
pub fn handle_timer_interrupt(ticks: &mut TickCounter) -> (r: u64)
    requires
        old(ticks).spec_ticks() < u64::MAX,
    ensures
        final(ticks).spec_ticks() == old(ticks).spec_ticks() + 1,
        r == final(ticks).spec_ticks(),
{
    ticks.ticks = ticks.ticks + 1;
    ticks.ticks
}

/// Increments the tick counter by one without reporting the new value.
pub fn tick(ticks: &mut TickCounter)
    requires
        old(ticks).spec_ticks() < u64::MAX,
    ensures
        final(ticks).spec_ticks() == old(ticks).spec_ticks() + 1,
{
    ticks.ticks = ticks.ticks + 1;
}

/// Reads the current tick count.
pub fn uptime_ticks(ticks: &TickCounter) -> (r: u64)
    ensures
        r == ticks.spec_ticks(),
{
    ticks.ticks
}

} // verus!
