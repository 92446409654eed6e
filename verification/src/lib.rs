//! Monotonic time and sleep arithmetic for freestanding targets.
//!
//! The crate holds the part of a portable clock that can be reasoned about:
//! how two timestamps become a millisecond count of a chosen width without
//! silent wraparound, and how a sleep of any length is cut into calls that a
//! platform primitive can express. Reading the time source and blocking are
//! left to the caller, who hands in raw readings and performs the calls that
//! are handed back.

mod bounds;
pub mod clock;
pub mod sleep;
pub mod target;
pub mod time;

pub use clock::{MonoClock, RawTime};
pub use sleep::SleepCall;
pub use target::Target;
pub use time::MonoTime;
