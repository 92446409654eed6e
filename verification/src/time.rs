//! Timestamps and the elapsed milliseconds between two of them.

use crate::bounds::{
    max_value_u128, max_value_u16, max_value_u32, max_value_u64, max_value_u8, one_u128,
    zero_u128,
};
use crate::target::{Target, MS_PER_SECOND, MS_PER_TICK, NS_PER_MS};
use vstd::prelude::*;

verus! {

/// What a timestamp stands for: the source it was read from, and how far that
/// source had counted, in the source's own unit (milliseconds on
/// `Target::Posix` and `Target::Windows`, timer ticks on `Target::Dos`).
pub struct Stamp {
    pub target: Target,
    pub count: int,
}

/// The number of values of the wrapping hardware tick counter.
pub open spec fn counter_span() -> int {
    0x1_0000_0000_0000_0000
}

impl Stamp {
    /// Whether `later` may be measured against `self`: both come from the
    /// same kind of source and, unless the source is the wrapping hardware
    /// counter, `later` does not lie before `self`.
    pub open spec fn precedes(self, later: Stamp) -> bool {
        &&& self.target == later.target
        &&& (self.target != Target::Dos ==> self.count <= later.count)
    }
}

/// The milliseconds that passed from `earlier` to `later`.
///
/// The hardware counter wraps, so its ticks are subtracted modulo the
/// counter's span before they are scaled to milliseconds; the scaling itself
/// never wraps.
pub open spec fn elapsed_ms(later: Stamp, earlier: Stamp) -> int {
    if later.target == Target::Dos {
        ((later.count - earlier.count) % counter_span()) * MS_PER_TICK
    } else {
        later.count - earlier.count
    }
}

/// The elapsed milliseconds as a `u8`, or `None` if they do not fit.
pub open spec fn delta_u8(later: Stamp, earlier: Stamp) -> Option<u8> {
    let d = elapsed_ms(later, earlier);
    if 0 <= d <= u8::MAX {
        Some(d as u8)
    } else {
        None
    }
}

/// The elapsed milliseconds as a `u16`, or `None` if they do not fit.
pub open spec fn delta_u16(later: Stamp, earlier: Stamp) -> Option<u16> {
    let d = elapsed_ms(later, earlier);
    if 0 <= d <= u16::MAX {
        Some(d as u16)
    } else {
        None
    }
}

/// The elapsed milliseconds as a `u32`, or `None` if they do not fit.
pub open spec fn delta_u32(later: Stamp, earlier: Stamp) -> Option<u32> {
    let d = elapsed_ms(later, earlier);
    if 0 <= d <= u32::MAX {
        Some(d as u32)
    } else {
        None
    }
}

/// The elapsed milliseconds as a `u64`, or `None` if they do not fit.
pub open spec fn delta_u64(later: Stamp, earlier: Stamp) -> Option<u64> {
    let d = elapsed_ms(later, earlier);
    if 0 <= d <= u64::MAX {
        Some(d as u64)
    } else {
        None
    }
}

/// The elapsed milliseconds as a `u128`, or `None` if they do not fit.
pub open spec fn delta_u128(later: Stamp, earlier: Stamp) -> Option<u128> {
    let d = elapsed_ms(later, earlier);
    if 0 <= d <= u128::MAX {
        Some(d as u128)
    } else {
        None
    }
}

/// A delta that fits a narrow width is the same number in every wider
/// width: widening the result never changes it, and never loses it.
pub proof fn lemma_delta_widens(later: Stamp, earlier: Stamp)
    ensures
        delta_u8(later, earlier) matches Some(v) ==> delta_u16(later, earlier) == Some(v as u16),
        delta_u8(later, earlier) matches Some(v) ==> delta_u32(later, earlier) == Some(v as u32),
        delta_u8(later, earlier) matches Some(v) ==> delta_u64(later, earlier) == Some(v as u64),
        delta_u8(later, earlier) matches Some(v) ==> delta_u128(later, earlier) == Some(
            v as u128,
        ),
        delta_u16(later, earlier) matches Some(v) ==> delta_u32(later, earlier) == Some(v as u32),
        delta_u16(later, earlier) matches Some(v) ==> delta_u64(later, earlier) == Some(v as u64),
        delta_u16(later, earlier) matches Some(v) ==> delta_u128(later, earlier) == Some(
            v as u128,
        ),
        delta_u32(later, earlier) matches Some(v) ==> delta_u64(later, earlier) == Some(v as u64),
        delta_u32(later, earlier) matches Some(v) ==> delta_u128(later, earlier) == Some(
            v as u128,
        ),
        delta_u64(later, earlier) matches Some(v) ==> delta_u128(later, earlier) == Some(
            v as u128,
        ),
{
}

/// A delta is lost in a width exactly when the elapsed milliseconds exceed
/// the largest value of that width; otherwise it is the elapsed milliseconds
/// themselves.
pub proof fn lemma_delta_fits(later: Stamp, earlier: Stamp)
    requires
        earlier.precedes(later),
    ensures
        0 <= elapsed_ms(later, earlier),
        delta_u8(later, earlier) is None <==> elapsed_ms(later, earlier) > u8::MAX,
        delta_u16(later, earlier) is None <==> elapsed_ms(later, earlier) > u16::MAX,
        delta_u32(later, earlier) is None <==> elapsed_ms(later, earlier) > u32::MAX,
        delta_u64(later, earlier) is None <==> elapsed_ms(later, earlier) > u64::MAX,
        delta_u128(later, earlier) is None <==> elapsed_ms(later, earlier) > u128::MAX,
        delta_u8(later, earlier) matches Some(v) ==> v == elapsed_ms(later, earlier),
        delta_u16(later, earlier) matches Some(v) ==> v == elapsed_ms(later, earlier),
        delta_u32(later, earlier) matches Some(v) ==> v == elapsed_ms(later, earlier),
        delta_u64(later, earlier) matches Some(v) ==> v == elapsed_ms(later, earlier),
        delta_u128(later, earlier) matches Some(v) ==> v == elapsed_ms(later, earlier),
{
}

/// How a timestamp is stored, one shape per kind of source.
#[derive(Clone, Copy, Debug)]
enum Repr {
    /// Whole seconds and the milliseconds within the second.
    Split { s: i64, ms: i16 },
    /// A millisecond tick counter.
    Millis { ticks: u64 },
    /// A wrapping hardware tick counter.
    Timer { ticks: u64 },
}

/// A snapshot of a monotonic time source.
///
/// Its contents have no meaning of their own: a timestamp is only ever
/// measured against another one from the same source.
#[derive(Clone, Copy, Debug)]
pub struct MonoTime {
    repr: Repr,
}

impl View for MonoTime {
    type V = Stamp;

    closed spec fn view(&self) -> Stamp {
        match self.repr {
            Repr::Split { s, ms } => Stamp { target: Target::Posix, count: s * MS_PER_SECOND + ms },
            Repr::Millis { ticks } => Stamp { target: Target::Windows, count: ticks as int },
            Repr::Timer { ticks } => Stamp { target: Target::Dos, count: ticks as int },
        }
    }
}

impl MonoTime {
    /// The milliseconds within the second stay below one second.
    #[verifier::type_invariant]
    spec fn well_formed(self) -> bool {
        match self.repr {
            Repr::Split { s, ms } => 0 <= ms < MS_PER_SECOND,
            _ => true,
        }
    }

    /// The timestamp of a seconds-and-nanoseconds reading. The nanoseconds
    /// are cut down to whole milliseconds.
    pub(crate) fn from_timespec(tv_sec: i64, tv_nsec: i64) -> (t: MonoTime)
        requires
            0 <= tv_nsec < MS_PER_SECOND * NS_PER_MS,
        ensures
            t@ == (Stamp { target: Target::Posix, count: tv_sec * MS_PER_SECOND + tv_nsec / NS_PER_MS }),
    {
        let ms: i64 = tv_nsec / NS_PER_MS;
        MonoTime { repr: Repr::Split { s: tv_sec, ms: ms as i16 } }
    }

    /// The timestamp of a reading of the millisecond tick counter.
    pub(crate) fn from_millis(ticks: u64) -> (t: MonoTime)
        ensures
            t@ == (Stamp { target: Target::Windows, count: ticks as int }),
    {
        MonoTime { repr: Repr::Millis { ticks } }
    }

    /// The timestamp of a reading of the hardware tick counter.
    pub(crate) fn from_timer(ticks: u64) -> (t: MonoTime)
        ensures
            t@ == (Stamp { target: Target::Dos, count: ticks as int }),
    {
        MonoTime { repr: Repr::Timer { ticks } }
    }

    /// Whether `self` may be measured against `prev`, which is what the
    /// delta and split functions ask of their arguments.
    pub fn follows(self, prev: MonoTime) -> (r: bool)
        ensures
            r == prev@.precedes(self@),
    {
        match (self.repr, prev.repr) {
            (Repr::Split { s, ms }, Repr::Split { s: prev_s, ms: prev_ms }) => {
                proof {
                    use_type_invariant(&self);
                    use_type_invariant(&prev);
                }
                prev_s < s || (prev_s == s && prev_ms <= ms)
            },
            (Repr::Millis { ticks }, Repr::Millis { ticks: prev_ticks }) => prev_ticks <= ticks,
            (Repr::Timer { .. }, Repr::Timer { .. }) => true,
            _ => false,
        }
    }

    /// The elapsed milliseconds from `prev` to `self`, computed against the
    /// ceiling of the result width: every step that could pass the ceiling is
    /// tested before it is taken.
    fn delta_ms(self, prev: MonoTime, ceiling: u128) -> (r: Option<u128>)
        requires
            prev@.precedes(self@),
        ensures
            0 <= elapsed_ms(self@, prev@),
            r matches Some(v) ==> v == elapsed_ms(self@, prev@) && v <= ceiling,
            r is None <==> elapsed_ms(self@, prev@) > ceiling,
    {
        match (self.repr, prev.repr) {
            (Repr::Split { s, ms }, Repr::Split { s: prev_s, ms: prev_ms }) => {
                proof {
                    use_type_invariant(&self);
                    use_type_invariant(&prev);
                }
                let mut whole: i128 = s as i128 - prev_s as i128;
                let mut part: i16 = ms - prev_ms;
                if part < 0 {
                    whole = whole - 1;
                    part = part + 1000;
                }
                let part: u128 = part as u128;
                let whole: u128 = whole as u128;
                if part > ceiling {
                    return None;
                }
                let thousand: u128 = if ceiling >= 1000 {
                    1000
                } else {
                    if whole != zero_u128() {
                        return None;
                    }
                    one_u128()
                };
                if ceiling / thousand < whole {
                    return None;
                }
                let scaled: u128 = whole * thousand;
                if ceiling - scaled < part {
                    return None;
                }
                Some(scaled + part)
            },
            (Repr::Millis { ticks }, Repr::Millis { ticks: prev_ticks }) => {
                let d: u128 = (ticks - prev_ticks) as u128;
                if d > ceiling {
                    None
                } else {
                    Some(d)
                }
            },
            (Repr::Timer { ticks }, Repr::Timer { ticks: prev_ticks }) => {
                let passed: u64 = ticks.wrapping_sub(prev_ticks);
                assert(passed * MS_PER_TICK == passed * 8) by (nonlinear_arith)
                    requires
                        MS_PER_TICK == 8,
                ;
                let d: u128 = passed as u128 * MS_PER_TICK as u128;
                if d > ceiling {
                    None
                } else {
                    Some(d)
                }
            },
            // Timestamps of different sources are never measured against each other.
            _ => None,
        }
    }

    /// The milliseconds from `prev` to `self` as a `u8`; `None` exactly when
    /// they exceed `u8::MAX`.
    pub fn delta_ms_u8(self, prev: MonoTime) -> (r: Option<u8>)
        requires
            prev@.precedes(self@),
        ensures
            r == delta_u8(self@, prev@),
    {
        match self.delta_ms(prev, max_value_u8() as u128) {
            Some(v) => Some(v as u8),
            None => None,
        }
    }

    /// The milliseconds from `prev` to `self` as a `u16`; `None` exactly when
    /// they exceed `u16::MAX`.
    pub fn delta_ms_u16(self, prev: MonoTime) -> (r: Option<u16>)
        requires
            prev@.precedes(self@),
        ensures
            r == delta_u16(self@, prev@),
    {
        match self.delta_ms(prev, max_value_u16() as u128) {
            Some(v) => Some(v as u16),
            None => None,
        }
    }

    /// The milliseconds from `prev` to `self` as a `u32`; `None` exactly when
    /// they exceed `u32::MAX`.
    pub fn delta_ms_u32(self, prev: MonoTime) -> (r: Option<u32>)
        requires
            prev@.precedes(self@),
        ensures
            r == delta_u32(self@, prev@),
    {
        match self.delta_ms(prev, max_value_u32() as u128) {
            Some(v) => Some(v as u32),
            None => None,
        }
    }

    /// The milliseconds from `prev` to `self` as a `u64`; `None` exactly when
    /// they exceed `u64::MAX`.
    pub fn delta_ms_u64(self, prev: MonoTime) -> (r: Option<u64>)
        requires
            prev@.precedes(self@),
        ensures
            r == delta_u64(self@, prev@),
    {
        match self.delta_ms(prev, max_value_u64() as u128) {
            Some(v) => Some(v as u64),
            None => None,
        }
    }

    /// The milliseconds from `prev` to `self` as a `u128`; `None` exactly
    /// when they exceed `u128::MAX`, which no pair of timestamps reaches.
    pub fn delta_ms_u128(self, prev: MonoTime) -> (r: Option<u128>)
        requires
            prev@.precedes(self@),
        ensures
            r == delta_u128(self@, prev@),
            r is Some,
    {
        self.delta_ms(prev, max_value_u128())
    }

    /// A stopwatch lap as a `u8`: `self` becomes `now`, and the milliseconds
    /// from the timestamp it held before to `now` are returned.
    pub fn split_ms_u8(&mut self, now: MonoTime) -> (r: Option<u8>)
        requires
            old(self)@.precedes(now@),
        ensures
            *final(self) == now,
            r == delta_u8(now@, old(self)@),
    {
        let prev: MonoTime = *self;
        *self = now;
        now.delta_ms_u8(prev)
    }

    /// A stopwatch lap as a `u16`: `self` becomes `now`, and the milliseconds
    /// from the timestamp it held before to `now` are returned.
    pub fn split_ms_u16(&mut self, now: MonoTime) -> (r: Option<u16>)
        requires
            old(self)@.precedes(now@),
        ensures
            *final(self) == now,
            r == delta_u16(now@, old(self)@),
    {
        let prev: MonoTime = *self;
        *self = now;
        now.delta_ms_u16(prev)
    }

    /// A stopwatch lap as a `u32`: `self` becomes `now`, and the milliseconds
    /// from the timestamp it held before to `now` are returned.
    pub fn split_ms_u32(&mut self, now: MonoTime) -> (r: Option<u32>)
        requires
            old(self)@.precedes(now@),
        ensures
            *final(self) == now,
            r == delta_u32(now@, old(self)@),
    {
        let prev: MonoTime = *self;
        *self = now;
        now.delta_ms_u32(prev)
    }

    /// A stopwatch lap as a `u64`: `self` becomes `now`, and the milliseconds
    /// from the timestamp it held before to `now` are returned.
    pub fn split_ms_u64(&mut self, now: MonoTime) -> (r: Option<u64>)
        requires
            old(self)@.precedes(now@),
        ensures
            *final(self) == now,
            r == delta_u64(now@, old(self)@),
    {
        let prev: MonoTime = *self;
        *self = now;
        now.delta_ms_u64(prev)
    }

    /// A stopwatch lap as a `u128`: `self` becomes `now`, and the
    /// milliseconds from the timestamp it held before to `now` are returned.
    pub fn split_ms_u128(&mut self, now: MonoTime) -> (r: Option<u128>)
        requires
            old(self)@.precedes(now@),
        ensures
            *final(self) == now,
            r == delta_u128(now@, old(self)@),
    {
        let prev: MonoTime = *self;
        *self = now;
        now.delta_ms_u128(prev)
    }

    /// Whether a wait of `ms` milliseconds that began at `start` is over at
    /// `self`: true exactly when more than `ms` milliseconds have passed.
    pub fn has_elapsed(self, start: MonoTime, ms: u64) -> (r: bool)
        requires
            start@.precedes(self@),
        ensures
            r == (elapsed_ms(self@, start@) > ms),
    {
        match self.delta_ms(start, max_value_u128()) {
            Some(passed) => passed > ms as u128,
            None => true,
        }
    }
}

} // verus!
