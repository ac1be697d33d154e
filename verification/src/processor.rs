use vstd::prelude::*;

verus! {

/// The CPU's clock: 1.79 MHz.
pub const CPU_CLOCK_SPEED: u64 = 1790000;

/// The PPU runs three dots per CPU cycle.
pub const PPU_CLOCK_SPEED: u64 = 1790000 * 3;

/// The APU runs at half the CPU's speed.
pub const APU_CLOCK_SPEED: u64 = 894880;

/// The wall-clock time, in nanoseconds (rounded down), that `cycles` cycles take at
/// `clock_speed` cycles per second.
pub fn cycles_to_nanos(cycles: u16, clock_speed: u64) -> (r: u64)
    requires
        clock_speed > 0,
    ensures
        r == (1_000_000_000 * cycles) / (clock_speed as int),
{
    let n: u64 = 1_000_000_000u64 * (cycles as u64);
    n / clock_speed
}

} // verus!
