//! The clock: what turns raw readings into timestamps and durations into
//! calls of the sleep primitive.

use crate::bounds::zero_u128;
use crate::sleep::{sleep_step, SleepCall};
use crate::target::{Target, MS_PER_SECOND, NS_PER_MS};
use crate::time::{MonoTime, Stamp};
use vstd::prelude::*;

verus! {

/// What a platform's time source hands back when it is read.
#[derive(Clone, Copy, Debug, PartialEq, Eq, Structural)]
pub enum RawTime {
    /// Seconds and nanoseconds within the second.
    Timespec { tv_sec: i64, tv_nsec: i64 },
    /// The value of a tick counter.
    Ticks { ticks: u64 },
}

impl RawTime {
    /// Whether the reading has the shape that `target`'s source produces. A
    /// seconds-and-nanoseconds reading keeps its nanoseconds below one second.
    pub open spec fn fits(self, target: Target) -> bool {
        match self {
            RawTime::Timespec { tv_sec, tv_nsec } => target == Target::Posix && 0 <= tv_nsec
                < MS_PER_SECOND * NS_PER_MS,
            RawTime::Ticks { ticks } => target != Target::Posix,
        }
    }

    /// What a timestamp made from the reading stands for: whole milliseconds
    /// for a seconds-and-nanoseconds reading, the counter's value otherwise.
    pub open spec fn stamp(self, target: Target) -> Stamp {
        match self {
            RawTime::Timespec { tv_sec, tv_nsec } => Stamp {
                target,
                count: tv_sec * MS_PER_SECOND + tv_nsec / NS_PER_MS,
            },
            RawTime::Ticks { ticks } => Stamp { target, count: ticks as int },
        }
    }
}

/// The handle of a monotonic time source. It knows which kind of source it
/// stands for, and so how readings and sleeps are to be treated.
#[derive(Debug)]
pub struct MonoClock {
    target: Target,
}

impl View for MonoClock {
    type V = Target;

    closed spec fn view(&self) -> Target {
        self.target
    }
}

impl MonoClock {
    /// A clock for the time source of `target`.
    pub fn new(target: Target) -> (clock: MonoClock)
        ensures
            clock@ == target,
    {
        MonoClock { target }
    }

    /// The kind of source that the clock stands for.
    pub fn target(&self) -> (target: Target)
        ensures
            target == self@,
    {
        self.target
    }

    /// The timestamp of a reading of the clock's source.
    pub fn time(&self, raw: RawTime) -> (t: MonoTime)
        requires
            raw.fits(self@),
        ensures
            t@ == raw.stamp(self@),
    {
        match raw {
            RawTime::Timespec { tv_sec, tv_nsec } => MonoTime::from_timespec(tv_sec, tv_nsec),
            RawTime::Ticks { ticks } => match self.target {
                Target::Dos => MonoTime::from_timer(ticks),
                _ => MonoTime::from_millis(ticks),
            },
        }
    }

    /// One step of a sleep of `ms` milliseconds: if the remaining duration
    /// fits into one call of the primitive, that call and nothing left;
    /// otherwise a call cut off at the primitive's limit and what is left
    /// after it.
    fn sleep_ms(&self, ms: u128) -> (r: Option<(SleepCall, u128)>)
        ensures
            r is None <==> ms == 0,
            r matches Some((call, rest)) ==> rest < ms && sleep_step(self@, ms as int) == Some(
                (call, rest as int),
            ),
    {
        if ms == zero_u128() {
            return None;
        }
        match self.target {
            Target::Posix => {
                let thousand: u128 = 1000;
                let s: u128 = ms / thousand;
                if s <= i64::MAX as u128 {
                    let sub: i64 = (ms % thousand) as i64;
                    Some((SleepCall::Nanosleep { tv_sec: s as i64, tv_nsec: sub * NS_PER_MS }, 0))
                } else {
                    let chunk: u128 = i64::MAX as u128 * thousand;
                    Some((SleepCall::Nanosleep { tv_sec: i64::MAX, tv_nsec: 0 }, ms - chunk))
                }
            },
            Target::Windows => {
                if ms <= u32::MAX as u128 {
                    Some((SleepCall::Sleep { ms: ms as u32 }, 0))
                } else {
                    Some((SleepCall::Sleep { ms: u32::MAX }, ms - u32::MAX as u128))
                }
            },
            Target::Dos => {
                if ms <= u64::MAX as u128 {
                    Some((SleepCall::Spin { ms: ms as u64 }, 0))
                } else {
                    Some((SleepCall::Spin { ms: u64::MAX }, ms - u64::MAX as u128))
                }
            },
        }
    }

    /// The next step of a sleep of `ms` milliseconds, for a `u8` duration:
    /// `None` if nothing remains, else the call to make and what remains
    /// after it.
    pub fn sleep_ms_u8(&self, ms: u8) -> (r: Option<(SleepCall, u8)>)
        ensures
            r is None <==> ms == 0,
            r matches Some((call, rest)) ==> sleep_step(self@, ms as int) == Some(
                (call, rest as int),
            ),
    {
        match self.sleep_ms(ms as u128) {
            Some((call, rest)) => Some((call, rest as u8)),
            None => None,
        }
    }

    /// The next step of a sleep of `ms` milliseconds, for a `u16` duration:
    /// `None` if nothing remains, else the call to make and what remains
    /// after it.
    pub fn sleep_ms_u16(&self, ms: u16) -> (r: Option<(SleepCall, u16)>)
        ensures
            r is None <==> ms == 0,
            r matches Some((call, rest)) ==> sleep_step(self@, ms as int) == Some(
                (call, rest as int),
            ),
    {
        match self.sleep_ms(ms as u128) {
            Some((call, rest)) => Some((call, rest as u16)),
            None => None,
        }
    }

    /// The next step of a sleep of `ms` milliseconds, for a `u32` duration:
    /// `None` if nothing remains, else the call to make and what remains
    /// after it.
    pub fn sleep_ms_u32(&self, ms: u32) -> (r: Option<(SleepCall, u32)>)
        ensures
            r is None <==> ms == 0,
            r matches Some((call, rest)) ==> sleep_step(self@, ms as int) == Some(
                (call, rest as int),
            ),
    {
        match self.sleep_ms(ms as u128) {
            Some((call, rest)) => Some((call, rest as u32)),
            None => None,
        }
    }

    /// The next step of a sleep of `ms` milliseconds, for a `u64` duration:
    /// `None` if nothing remains, else the call to make and what remains
    /// after it.
    pub fn sleep_ms_u64(&self, ms: u64) -> (r: Option<(SleepCall, u64)>)
        ensures
            r is None <==> ms == 0,
            r matches Some((call, rest)) ==> sleep_step(self@, ms as int) == Some(
                (call, rest as int),
            ),
    {
        match self.sleep_ms(ms as u128) {
            Some((call, rest)) => Some((call, rest as u64)),
            None => None,
        }
    }

    /// The next step of a sleep of `ms` milliseconds, for a `u128` duration:
    /// `None` if nothing remains, else the call to make and what remains
    /// after it.
    pub fn sleep_ms_u128(&self, ms: u128) -> (r: Option<(SleepCall, u128)>)
        ensures
            r is None <==> ms == 0,
            r matches Some((call, rest)) ==> sleep_step(self@, ms as int) == Some(
                (call, rest as int),
            ),
    {
        self.sleep_ms(ms)
    }
}

} // verus!
