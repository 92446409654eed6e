//! The kinds of platform whose time sources the arithmetic covers.

use vstd::prelude::*;

verus! {

/// A kind of platform, told apart by the shape of its monotonic time source
/// and of its sleep primitive.
#[derive(Clone, Copy, Debug, PartialEq, Eq, Structural)]
pub enum Target {
    /// A seconds-and-nanoseconds monotonic clock; sleeps take a
    /// seconds-and-nanoseconds pair whose seconds field is 64-bit signed.
    Posix,
    /// A 64-bit millisecond tick counter; sleeps take a 32-bit millisecond
    /// count.
    Windows,
    /// A hardware timer that counts ticks of `MS_PER_TICK` milliseconds in a
    /// wrapping 64-bit counter; there is no sleep primitive, so waiting means
    /// polling the clock.
    Dos,
}

/// The rate, in ticks per second, that the hardware timer is programmed to.
pub const TIMER_FREQUENCY: u16 = 125;

/// The milliseconds that one tick of the hardware timer stands for.
pub const MS_PER_TICK: u64 = 8;

/// One second holds this many milliseconds.
pub const MS_PER_SECOND: u64 = 1000;

/// One millisecond holds this many nanoseconds.
pub const NS_PER_MS: i64 = 1_000_000;

} // verus!
