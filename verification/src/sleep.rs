//! How a sleep of any length is cut into calls that a platform's bounded
//! sleep primitive can express.

use crate::target::{Target, MS_PER_SECOND, NS_PER_MS};
use vstd::prelude::*;

verus! {

/// One call of a platform's sleep primitive, with the arguments to hand it.
#[derive(Clone, Copy, Debug, PartialEq, Eq, Structural)]
#[allow(inconsistent_fields)]
pub enum SleepCall {
    /// Block for `tv_sec` seconds and `tv_nsec` nanoseconds.
    Nanosleep { tv_sec: i64, tv_nsec: i64 },
    /// Block for `ms` milliseconds.
    Sleep { ms: u32 },
    /// Poll the clock until more than `ms` milliseconds have passed.
    Spin { ms: u64 },
}

impl SleepCall {
    /// The milliseconds that the call waits for.
    pub open spec fn duration_ms(self) -> int {
        match self {
            SleepCall::Nanosleep { tv_sec, tv_nsec } => tv_sec * MS_PER_SECOND + tv_nsec / NS_PER_MS,
            SleepCall::Sleep { ms } => ms as int,
            SleepCall::Spin { ms } => ms as int,
        }
    }
}

/// The milliseconds of a call that is cut off at the primitive's limit,
/// because what remains does not fit into one call.
pub open spec fn full_chunk(target: Target) -> int {
    match target {
        Target::Posix => i64::MAX * MS_PER_SECOND,
        Target::Windows => u32::MAX as int,
        Target::Dos => u64::MAX as int,
    }
}

/// The most milliseconds that a single call can wait for. On
/// `Target::Posix` this is a full seconds field and the largest sub-second
/// part beside it.
pub open spec fn largest_call(target: Target) -> int {
    match target {
        Target::Posix => i64::MAX * MS_PER_SECOND + (MS_PER_SECOND - 1),
        Target::Windows => u32::MAX as int,
        Target::Dos => u64::MAX as int,
    }
}

/// The milliseconds that the next call takes off a remaining duration: all
/// of it if one call can express it, and a full chunk otherwise.
pub open spec fn next_chunk(target: Target, ms: int) -> int {
    if ms <= largest_call(target) {
        ms
    } else {
        full_chunk(target)
    }
}

/// The call that waits for `chunk` milliseconds on `target`.
pub open spec fn call_of(target: Target, chunk: int) -> SleepCall {
    match target {
        Target::Posix => SleepCall::Nanosleep {
            tv_sec: (chunk / MS_PER_SECOND as int) as i64,
            tv_nsec: ((chunk % MS_PER_SECOND as int) * NS_PER_MS) as i64,
        },
        Target::Windows => SleepCall::Sleep { ms: chunk as u32 },
        Target::Dos => SleepCall::Spin { ms: chunk as u64 },
    }
}

/// One step of a sleep: nothing if no time remains, else the call to make
/// and the milliseconds that remain after it.
pub open spec fn sleep_step(target: Target, ms: int) -> Option<(SleepCall, int)> {
    if ms <= 0 {
        None
    } else {
        Some((call_of(target, next_chunk(target, ms)), ms - next_chunk(target, ms)))
    }
}

/// All the calls of a sleep of `ms` milliseconds, in the order in which they
/// are made: the steps taken one after another until nothing remains.
pub open spec fn sleep_calls(target: Target, ms: int) -> Seq<SleepCall>
    decreases ms,
{
    match sleep_step(target, ms) {
        None => Seq::empty(),
        Some((call, rest)) => seq![call] + sleep_calls(target, rest),
    }
}

/// The milliseconds that a sequence of calls waits for in all.
pub open spec fn total_ms(calls: Seq<SleepCall>) -> int
    decreases calls.len(),
{
    if calls.len() == 0 {
        0
    } else {
        calls.first().duration_ms() + total_ms(calls.drop_first())
    }
}

/// A call made for a chunk that one call can express waits for exactly that
/// chunk.
pub proof fn lemma_call_duration(target: Target, chunk: int)
    requires
        0 <= chunk <= largest_call(target),
    ensures
        call_of(target, chunk).duration_ms() == chunk,
{
}

/// The calls of a sleep wait, taken together, for exactly the requested
/// duration: nothing is lost and nothing is waited for twice.
pub proof fn lemma_sleep_total(target: Target, ms: int)
    requires
        0 <= ms,
    ensures
        total_ms(sleep_calls(target, ms)) == ms,
    decreases ms,
{
    if ms > 0 {
        let chunk = next_chunk(target, ms);
        let rest = sleep_calls(target, ms - chunk);
        let calls = sleep_calls(target, ms);
        lemma_call_duration(target, chunk);
        lemma_sleep_total(target, ms - chunk);
        assert(calls.first() == call_of(target, chunk));
        assert(calls.drop_first() =~= rest);
    }
}

/// A sleep of zero milliseconds makes no call.
pub proof fn lemma_sleep_zero(target: Target)
    ensures
        sleep_step(target, 0) is None,
        sleep_calls(target, 0).len() == 0,
{
}

/// No call of a sleep is empty: each one waits for at least a millisecond,
/// so a sleep never ends on a call of length zero.
pub proof fn lemma_sleep_no_empty_call(target: Target, ms: int, i: int)
    requires
        0 <= i < sleep_calls(target, ms).len(),
    ensures
        sleep_calls(target, ms)[i].duration_ms() > 0,
    decreases ms,
{
    let chunk = next_chunk(target, ms);
    if i == 0 {
        lemma_call_duration(target, chunk);
    } else {
        let rest = sleep_calls(target, ms - chunk);
        assert(sleep_calls(target, ms)[i] == rest[i - 1]);
        lemma_sleep_no_empty_call(target, ms - chunk, i - 1);
    }
}

/// A duration of `n` full chunks and a remainder `r` that one call can
/// express takes exactly `n + 1` calls: `n` at the full chunk, then one at
/// `r`. Where full chunks come before it, `r` is what the cutting leaves:
/// more than a single call could have taken on top of a full chunk.
pub proof fn lemma_sleep_chunks(target: Target, n: nat, r: int)
    requires
        0 < r <= largest_call(target),
        n > 0 ==> full_chunk(target) + r > largest_call(target),
    ensures
        sleep_calls(target, n * full_chunk(target) + r).len() == n + 1,
        forall|i: int|
            0 <= i < n ==> #[trigger] sleep_calls(target, n * full_chunk(target) + r)[i]
                == call_of(target, full_chunk(target)),
        sleep_calls(target, n * full_chunk(target) + r)[n as int] == call_of(target, r),
    decreases n,
{
    let c = full_chunk(target);
    let ms = n * c + r;
    if n == 0 {
        assert(n * c == 0) by (nonlinear_arith)
            requires
                n == 0,
        ;
        assert(sleep_calls(target, r - r).len() == 0);
    } else {
        assert(ms == (n - 1) * c + r + c) by (nonlinear_arith)
            requires
                ms == n * c + r,
        ;
        assert((n - 1) * c >= 0) by (nonlinear_arith)
            requires
                n >= 1,
                c > 0,
        ;
        assert(next_chunk(target, ms) == c);
        lemma_sleep_chunks(target, (n - 1) as nat, r);
        let rest = sleep_calls(target, (n - 1) * c + r);
        assert(sleep_calls(target, ms) =~= seq![call_of(target, c)] + rest);
        assert forall|i: int| 0 <= i < n implies #[trigger] sleep_calls(target, ms)[i]
            == call_of(target, c) by {
            if i > 0 {
                assert(sleep_calls(target, ms)[i] == rest[i - 1]);
            }
        }
        assert(sleep_calls(target, ms)[n as int] == rest[n - 1]);
    }
}

/// Where the largest call is itself a full chunk, the number of calls is the
/// number of full chunks in the duration, and one more if a remainder is
/// left over.
pub proof fn lemma_sleep_call_count(target: Target, ms: int)
    requires
        0 <= ms,
        largest_call(target) == full_chunk(target),
    ensures
        sleep_calls(target, ms).len() == ms / full_chunk(target) + if ms % full_chunk(target)
            == 0 {
            0int
        } else {
            1int
        },
{
    let c = full_chunk(target);
    let q = ms / c;
    let r = ms % c;
    assert(ms == q * c + r && 0 <= r < c && q >= 0) by (nonlinear_arith)
        requires
            q == ms / c,
            r == ms % c,
            c > 0,
            ms >= 0,
    ;
    if r > 0 {
        lemma_sleep_chunks(target, q as nat, r);
    } else if q > 0 {
        assert(ms == (q - 1) * c + c) by (nonlinear_arith)
            requires
                ms == q * c + r,
                r == 0,
        ;
        lemma_sleep_chunks(target, (q - 1) as nat, c);
    }
}

} // verus!
