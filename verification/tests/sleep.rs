use timer_no_std::{MonoClock, SleepCall, Target};

fn calls_u64(target: Target, ms: u64) -> Vec<SleepCall> {
    let clock = MonoClock::new(target);
    let mut calls = Vec::new();
    let mut left: u64 = ms;
    while let Some((call, rest)) = clock.sleep_ms_u64(left) {
        assert!(rest < left);
        calls.push(call);
        left = rest;
    }
    calls
}

fn calls_u128(target: Target, ms: u128) -> Vec<SleepCall> {
    let clock = MonoClock::new(target);
    let mut calls = Vec::new();
    let mut left: u128 = ms;
    while let Some((call, rest)) = clock.sleep_ms_u128(left) {
        assert!(rest < left);
        calls.push(call);
        left = rest;
    }
    calls
}

fn duration(call: SleepCall) -> u128 {
    match call {
        SleepCall::Nanosleep { tv_sec, tv_nsec } => {
            tv_sec as u128 * 1000 + tv_nsec as u128 / 1_000_000
        }
        SleepCall::Sleep { ms } => ms as u128,
        SleepCall::Spin { ms } => ms as u128,
    }
}

#[test]
fn zero_makes_no_call() {
    for target in [Target::Posix, Target::Windows, Target::Dos] {
        let clock = MonoClock::new(target);
        assert_eq!(clock.sleep_ms_u8(0), None);
        assert_eq!(clock.sleep_ms_u16(0), None);
        assert_eq!(clock.sleep_ms_u32(0), None);
        assert_eq!(clock.sleep_ms_u64(0), None);
        assert_eq!(clock.sleep_ms_u128(0), None);
    }
}

#[test]
fn short_sleep_is_one_call() {
    let posix = MonoClock::new(Target::Posix);
    let windows = MonoClock::new(Target::Windows);
    let dos = MonoClock::new(Target::Dos);
    assert_eq!(
        posix.sleep_ms_u8(100),
        Some((SleepCall::Nanosleep { tv_sec: 0, tv_nsec: 100_000_000 }, 0))
    );
    assert_eq!(
        posix.sleep_ms_u8(255),
        Some((SleepCall::Nanosleep { tv_sec: 0, tv_nsec: 255_000_000 }, 0))
    );
    assert_eq!(
        posix.sleep_ms_u16(2500),
        Some((SleepCall::Nanosleep { tv_sec: 2, tv_nsec: 500_000_000 }, 0))
    );
    assert_eq!(
        posix.sleep_ms_u32(1999),
        Some((SleepCall::Nanosleep { tv_sec: 1, tv_nsec: 999_000_000 }, 0))
    );
    assert_eq!(windows.sleep_ms_u8(100), Some((SleepCall::Sleep { ms: 100 }, 0)));
    assert_eq!(windows.sleep_ms_u16(2500), Some((SleepCall::Sleep { ms: 2500 }, 0)));
    assert_eq!(windows.sleep_ms_u32(u32::MAX), Some((SleepCall::Sleep { ms: u32::MAX }, 0)));
    assert_eq!(dos.sleep_ms_u8(1), Some((SleepCall::Spin { ms: 1 }, 0)));
    assert_eq!(dos.sleep_ms_u64(u64::MAX), Some((SleepCall::Spin { ms: u64::MAX }, 0)));
}

#[test]
fn longest_posix_sleep_of_u64_is_one_call() {
    let posix = MonoClock::new(Target::Posix);
    assert_eq!(
        posix.sleep_ms_u64(u64::MAX),
        Some((SleepCall::Nanosleep { tv_sec: 18_446_744_073_709_551, tv_nsec: 615_000_000 }, 0))
    );
}

#[test]
fn windows_sleep_is_cut_at_u32() {
    let windows = MonoClock::new(Target::Windows);
    assert_eq!(
        windows.sleep_ms_u64(u32::MAX as u64 + 1),
        Some((SleepCall::Sleep { ms: u32::MAX }, 1))
    );
    assert_eq!(
        windows.sleep_ms_u64(u64::MAX),
        Some((SleepCall::Sleep { ms: u32::MAX }, u64::MAX - u32::MAX as u64))
    );
    assert_eq!(
        windows.sleep_ms_u128(u128::MAX),
        Some((SleepCall::Sleep { ms: u32::MAX }, u128::MAX - u32::MAX as u128))
    );
}

#[test]
fn full_chunks_then_the_remainder() {
    let chunk: u64 = u32::MAX as u64;
    let calls = calls_u64(Target::Windows, 3 * chunk + 5);
    assert_eq!(
        calls,
        vec![
            SleepCall::Sleep { ms: u32::MAX },
            SleepCall::Sleep { ms: u32::MAX },
            SleepCall::Sleep { ms: u32::MAX },
            SleepCall::Sleep { ms: 5 },
        ]
    );
}

#[test]
fn no_trailing_call_without_a_remainder() {
    let chunk: u64 = u32::MAX as u64;
    let calls = calls_u64(Target::Windows, 3 * chunk);
    assert_eq!(calls, vec![SleepCall::Sleep { ms: u32::MAX }; 3]);
    let calls = calls_u64(Target::Windows, chunk);
    assert_eq!(calls, vec![SleepCall::Sleep { ms: u32::MAX }]);
}

#[test]
fn dos_sleep_is_cut_at_u64() {
    let chunk: u128 = u64::MAX as u128;
    let calls = calls_u128(Target::Dos, 2 * chunk + 9);
    assert_eq!(
        calls,
        vec![
            SleepCall::Spin { ms: u64::MAX },
            SleepCall::Spin { ms: u64::MAX },
            SleepCall::Spin { ms: 9 },
        ]
    );
    assert_eq!(calls_u128(Target::Dos, 2 * chunk), vec![SleepCall::Spin { ms: u64::MAX }; 2]);
}

#[test]
fn posix_sleep_is_cut_at_the_seconds_field() {
    let posix = MonoClock::new(Target::Posix);
    let chunk: u128 = i64::MAX as u128 * 1000;
    assert_eq!(
        posix.sleep_ms_u128(chunk),
        Some((SleepCall::Nanosleep { tv_sec: i64::MAX, tv_nsec: 0 }, 0))
    );
    assert_eq!(
        posix.sleep_ms_u128(chunk + 999),
        Some((SleepCall::Nanosleep { tv_sec: i64::MAX, tv_nsec: 999_000_000 }, 0))
    );
    assert_eq!(
        posix.sleep_ms_u128(chunk + 1000),
        Some((SleepCall::Nanosleep { tv_sec: i64::MAX, tv_nsec: 0 }, 1000))
    );
    assert_eq!(
        posix.sleep_ms_u128(chunk + 1234),
        Some((SleepCall::Nanosleep { tv_sec: i64::MAX, tv_nsec: 0 }, 1234))
    );
}

#[test]
fn posix_sub_second_part_is_slept_once() {
    let chunk: u128 = i64::MAX as u128 * 1000;
    let calls = calls_u128(Target::Posix, 2 * chunk + 4321);
    assert_eq!(
        calls,
        vec![
            SleepCall::Nanosleep { tv_sec: i64::MAX, tv_nsec: 0 },
            SleepCall::Nanosleep { tv_sec: i64::MAX, tv_nsec: 0 },
            SleepCall::Nanosleep { tv_sec: 4, tv_nsec: 321_000_000 },
        ]
    );
}

#[test]
fn calls_add_up_to_the_request() {
    let requests: [(Target, u128); 8] = [
        (Target::Posix, 1),
        (Target::Posix, 86_400_000),
        (Target::Posix, 3 * (i64::MAX as u128 * 1000) + 17),
        (Target::Windows, 999),
        (Target::Windows, 5 * (u32::MAX as u128) + 123),
        (Target::Windows, u64::MAX as u128 >> 20),
        (Target::Dos, 100),
        (Target::Dos, 4 * (u64::MAX as u128) + 1),
    ];
    for (target, ms) in requests {
        let calls = calls_u128(target, ms);
        let total: u128 = calls.iter().map(|call| duration(*call)).sum();
        assert_eq!(total, ms);
        assert!(calls.iter().all(|call| duration(*call) > 0));
    }
}

#[test]
fn number_of_calls_is_chunks_and_remainder() {
    let chunk: u64 = u32::MAX as u64;
    for (ms, expected) in [
        (0u64, 0usize),
        (1, 1),
        (chunk - 1, 1),
        (chunk, 1),
        (chunk + 1, 2),
        (2 * chunk, 2),
        (7 * chunk + 3, 8),
        (1000 * chunk, 1000),
    ] {
        assert_eq!(calls_u64(Target::Windows, ms).len(), expected);
    }
}
