use rand::jitter::{
    delta_of, fold4, lfsr, measured, stir, stuck, verdict, widen, Deltas, JitterRng, Timer,
    TimerError, TimerMeasurements,
};
use rand::ErrorKind;

/// A clock that goes on by steps that vary.
struct Varying {
    now: u64,
    state: u64,
    calls: u64,
}

// The view and the function that describes the clock are read by the
// verifier only; nothing calls them.
impl rand::View for Varying {
    type V = ();

    fn view(&self) {}
}

impl Timer for Varying {
    fn now_spec(_: ()) -> (u64, ()) {
        unreachable!()
    }

    fn now(&mut self) -> u64 {
        self.calls += 1;
        self.state = self.state.wrapping_mul(6364136223846793005).wrapping_add(1442695040888963407);
        self.now += 1000 + (self.state >> 54);
        self.now
    }
}

/// A clock that goes on by the same step at every reading.
struct Regular {
    now: u64,
    step: u64,
}

impl rand::View for Regular {
    type V = ();

    fn view(&self) {}
}

impl Timer for Regular {
    fn now_spec(_: ()) -> (u64, ()) {
        unreachable!()
    }

    fn now(&mut self) -> u64 {
        self.now = self.now.wrapping_add(self.step);
        self.now
    }
}

fn varying() -> Varying {
    Varying { now: 1, state: 42, calls: 0 }
}

#[test]
fn shift_register() {
    assert_eq!(lfsr(0, 0), 0);
    assert_eq!(lfsr(0, 1), 0x42400100603);
    assert_eq!(lfsr(1, 0), 0x42400100603);
    assert_eq!(lfsr(0x0123456789abcdef, 0xfedcba9876543210), 0xfba233957761caf2);
    assert_eq!(lfsr(u64::MAX, u64::MAX), 0x7c7ffe00402);
    assert_eq!(lfsr(0, 0x8000000000000000), 2);
}

#[test]
fn stirring() {
    assert_eq!(stir(0), 0x98badcfe10325476);
    assert_eq!(stir(1), 0xfffffffffffffffe);
    assert_eq!(stir(u64::MAX), 0x67452301efcdab89);
    assert_eq!(stir(0x0123456789abcdef), 0x8989898989898989);
    assert_eq!(stir(0x8000000000000000), 0xd6309afdcfa90364);
}

#[test]
fn folding_and_differences() {
    assert_eq!(fold4(0), 0);
    assert_eq!(fold4(0xf), 15);
    assert_eq!(fold4(0xff), 0);
    assert_eq!(fold4(0x1234), 1 ^ 2 ^ 3 ^ 4);
    assert_eq!(fold4(u64::MAX), 0);
    assert_eq!(delta_of(10, 7), 3);
    assert_eq!(delta_of(7, 10), -3);
    assert_eq!(delta_of(0, u64::MAX), 1);
    assert_eq!(delta_of(1 << 32, 0), 0);
    assert_eq!(delta_of((1 << 31) + 5, 5), i32::MIN);
    assert_eq!(widen(5), 5);
    assert_eq!(widen(-1), u64::MAX);
    assert_eq!(widen(i32::MIN), 0xffff_ffff_8000_0000);
}

#[test]
fn stuck_test() {
    let mut d = Deltas { last_delta: 0, last_delta2: 0 };
    // no time has passed
    assert!(stuck(&mut d, 0));
    // differences 5 then 5: the second difference of differences is zero
    assert!(!stuck(&mut d, 5));
    assert_eq!((d.last_delta, d.last_delta2), (5, -5));
    assert!(stuck(&mut d, 5));
    assert_eq!((d.last_delta, d.last_delta2), (5, 0));
    // differences 5, 7, 9: the change of the differences does not change
    assert!(!stuck(&mut d, 7));
    assert!(stuck(&mut d, 9));
    assert!(!stuck(&mut d, 12));
}

#[test]
fn verdict_on_measurements() {
    let good = TimerMeasurements { delta_sum: 300 * 20, time_backwards: 0, count_mod: 3, count_stuck: 1 };
    assert_eq!(verdict(good), Ok(26));
    assert_eq!(verdict(TimerMeasurements { time_backwards: 3, ..good }), Ok(26));
    assert_eq!(verdict(TimerMeasurements { time_backwards: 4, ..good }), Err(TimerError::NotMonotonic));
    assert_eq!(verdict(TimerMeasurements { delta_sum: 299, ..good }), Err(TimerError::TinyVariantions));
    assert_eq!(verdict(TimerMeasurements { count_mod: 270, ..good }), Ok(26));
    assert_eq!(verdict(TimerMeasurements { count_mod: 271, ..good }), Err(TimerError::CoarseTimer));
    assert_eq!(verdict(TimerMeasurements { count_stuck: 270, ..good }), Ok(26));
    assert_eq!(verdict(TimerMeasurements { count_stuck: 271, ..good }), Err(TimerError::TooManyStuck));
    // the order of the tests
    let bad = TimerMeasurements { delta_sum: 0, time_backwards: 4, count_mod: 300, count_stuck: 300 };
    assert_eq!(verdict(bad), Err(TimerError::NotMonotonic));
    assert_eq!(verdict(TimerMeasurements { time_backwards: 0, ..bad }), Err(TimerError::TinyVariantions));
    assert_eq!(verdict(TimerMeasurements { time_backwards: 0, delta_sum: 300, ..bad }), Err(TimerError::CoarseTimer));
    // the rounds for the average variation
    for &(average, rounds) in [
        (1u64, 0u8),
        (2, 128),
        (15, 33),
        (16, 26),
        (31, 26),
        (32, 22),
        (1000, 13),
        (1 << 20, 7),
        ((1 << 32) - 1, 4),
    ]
    .iter()
    {
        let m = TimerMeasurements { delta_sum: 300 * average + 299, ..good };
        assert_eq!(verdict(m), Ok(rounds));
    }
}

#[test]
fn counting_a_measurement() {
    let m = TimerMeasurements { delta_sum: 10, time_backwards: 1, count_mod: 2, count_stuck: 3 };
    let mut d = Deltas { last_delta: 50, last_delta2: 7 };
    // forward by 200 after a difference of 50: a multiple of 100, not stuck
    let r = measured(m, &mut d, 1000, 1200, 200, 50);
    assert_eq!((r.delta_sum, r.time_backwards, r.count_mod, r.count_stuck), (160, 1, 3, 3));
    assert_eq!((d.last_delta, d.last_delta2), (200, -150));
    // backwards by 30
    let r = measured(m, &mut d, 1200, 1170, -30, 200);
    assert_eq!((r.delta_sum, r.time_backwards, r.count_mod, r.count_stuck), (240, 2, 2, 3));
    // the same difference again: stuck
    let r = measured(m, &mut d, 1200, 1170, -30, -30);
    assert_eq!((r.delta_sum, r.time_backwards, r.count_mod, r.count_stuck), (10, 2, 2, 4));
}

#[test]
fn a_clock_that_stands_is_refused() {
    let mut rng = JitterRng::new_with_timer(Regular { now: 0, step: 0 });
    assert_eq!(rng.test_timer(), Err(TimerError::NoTimer));
    let mut rng = JitterRng::new_with_timer(Regular { now: 5, step: 0 });
    assert_eq!(rng.test_timer(), Err(TimerError::CoarseTimer));
}

#[test]
fn a_clock_that_is_regular_is_refused() {
    // the differences never vary
    let mut rng = JitterRng::new_with_timer(Regular { now: 5, step: 7 });
    assert_eq!(rng.test_timer(), Err(TimerError::TinyVariantions));
    // a clock that runs backwards
    let mut rng = JitterRng::new_with_timer(Regular { now: 1 << 40, step: u64::MAX });
    assert_eq!(rng.test_timer(), Err(TimerError::NotMonotonic));
}

#[test]
fn a_clock_that_varies_is_accepted() {
    let mut rng = JitterRng::new_with_timer(varying());
    let rounds = rng.test_timer().unwrap();
    assert!(rounds > 0 && rounds <= 128);
    rng.set_rounds(rounds);
    let a = rng.next_u64();
    let b = rng.next_u64();
    assert!(a != b);
    // the two halves of one pool
    let lo = rng.next_u32();
    let hi = rng.next_u32();
    assert!(lo != 0 || hi != 0);
    let mut buf = [0u8; 37];
    rng.fill_bytes(&mut buf);
    assert!(buf.iter().any(|&b| b != 0));
    assert!(rng.timer_stats(true) > 0);
    assert!(rng.timer_stats(false) > 0);
}

#[test]
fn the_harvester_depends_on_the_clock_alone() {
    let mut a = JitterRng::new_with_timer(varying());
    let mut b = JitterRng::new_with_timer(varying());
    a.set_rounds(3);
    b.set_rounds(3);
    for _ in 0..5 {
        assert_eq!(a.next_u64(), b.next_u64());
    }
    let mut c = JitterRng::new_with_timer(Varying { now: 1, state: 43, calls: 0 });
    c.set_rounds(3);
    assert!(c.next_u64() != JitterRng::new_with_timer(varying()).next_u64());
}

#[test]
fn failures_of_the_clock() {
    assert_eq!(TimerError::NoTimer.description(), "no timer available");
    assert_eq!(TimerError::CoarseTimer.description(), "coarse timer");
    assert_eq!(TimerError::NotMonotonic.description(), "timer not monotonic");
    assert_eq!(TimerError::TinyVariantions.description(), "time delta variations too small");
    assert_eq!(TimerError::TooManyStuck.description(), "too many stuck results");
    let e = TimerError::CoarseTimer.to_error();
    assert_eq!(e.kind, ErrorKind::Unavailable);
    assert_eq!(e.msg, "timer jitter failed basic quality tests");
}

#[test]
fn a_harvester_on_a_tested_clock() {
    let mut rng = JitterRng::new(varying()).ok().unwrap();
    assert!(rng.next_u64() != rng.next_u64());
    assert_eq!(JitterRng::new(Regular { now: 5, step: 0 }).err(), Some(TimerError::CoarseTimer));
    assert_eq!(JitterRng::new(Regular { now: 5, step: 7 }).err(), Some(TimerError::TinyVariantions));
}

#[test]
fn the_harvester_reads_the_clock_as_stated() {
    // Without variable rounds the statistics take two readings, and their
    // difference is what is returned.
    let mut rng = JitterRng::new_with_timer(Regular { now: 100, step: 9 });
    assert_eq!(rng.timer_stats(false), 9);
    assert_eq!(rng.timer_stats(false), 9);
    // With variable rounds the walk and the injection read the clock once
    // each, between the two readings.
    assert_eq!(rng.timer_stats(true), 27);
    // The second half of a pool is handed out without a reading.
    let mut a = JitterRng::new_with_timer(varying());
    let mut b = JitterRng::new_with_timer(varying());
    a.set_rounds(2);
    b.set_rounds(2);
    let whole = a.next_u64();
    assert_eq!(b.next_u32(), whole as u32);
    assert_eq!(b.next_u32(), (whole >> 32) as u32);
    // and twelve bytes are a pool and the low half of the next
    let mut buf = [0u8; 12];
    b.fill_bytes(&mut buf);
    let first = a.next_u64();
    let second = a.next_u64();
    assert_eq!(&buf[..8], &first.to_le_bytes());
    assert_eq!(&buf[8..], &second.to_le_bytes()[..4]);
}
