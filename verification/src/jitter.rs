//! Non-physical true random number generator based on timing jitter.
//!
//! The harvester reads a fine-grained clock before and after short pieces of
//! work and folds the low-order variation of the differences into a pool of
//! 64 bits. Before it is used, the clock is tested: one that is too coarse or
//! too regular is refused.
//!
//! The clock is handed in by the user of the harvester. Nothing is known of
//! what it returns. A reading is taken for a function of the state of the
//! clock, into which the clock counts the time; what the harvester does is
//! stated as a function of its own state and that of the clock. The
//! arithmetic on the readings is in functions of their own that take the
//! readings as arguments.

use vstd::prelude::*;
use crate::error::{Error, ErrorKind};
use crate::le::{put_u64, u64_bytes};

verus! {

/// The blocks of the memory that the harvester walks through.
pub const MEMORY_BLOCKS: usize = 64;

/// The bytes of one block.
pub const MEMORY_BLOCKSIZE: usize = 32;

/// The bytes of the memory that the harvester walks through.
pub const MEMORY_SIZE: usize = MEMORY_BLOCKS * MEMORY_BLOCKSIZE;

/// The measurements of the test of the clock that are looked at.
pub const TESTLOOPCOUNT: u64 = 300;

/// The measurements of the test of the clock that come first and are not
/// looked at: they settle the caches.
pub const CLEARCACHE: u64 = 100;

/// How many measurements in a row the harvester takes at most for one round
/// when each of them is stuck.
pub const STUCK_LIMIT: u64 = 0xffff_ffff_ffff_ffff;

/// A clock: a counter that goes up with time, the finer the better.
///
/// The view of a clock is its state as a mathematical value. A clock counts
/// the time into its state: nothing is said of what a reading is, only
/// that it is the reading of that state.
pub trait Timer: View + Sized {
    /// The reading that the clock gives in state `s`, and the state after.
    spec fn now_spec(s: Self::V) -> (u64, Self::V);

    /// The reading of the clock now.
    fn now(&mut self) -> (t: u64)
        ensures
            (t, final(self)@) == Self::now_spec(old(self)@),
    ;
}

/// Why a clock is not fit for the harvester.
#[derive(Clone, Copy, Debug, PartialEq, Eq, Structural)]
pub enum TimerError {
    /// No timer available.
    NoTimer,
    /// Timer too coarse to use as an entropy source.
    CoarseTimer,
    /// Timer is not monotonically increasing.
    NotMonotonic,
    /// Variations of deltas of time too small.
    TinyVariantions,
    /// Too many stuck results (indicating no added entropy).
    TooManyStuck,
}

impl TimerError {
    /// The text of `description`.
    pub open spec fn description_spec(self) -> Seq<char> {
        match self {
            TimerError::NoTimer => "no timer available"@,
            TimerError::CoarseTimer => "coarse timer"@,
            TimerError::NotMonotonic => "timer not monotonic"@,
            TimerError::TinyVariantions => "time delta variations too small"@,
            TimerError::TooManyStuck => "too many stuck results"@,
        }
    }

    /// What is wrong with the clock, in words.
    pub fn description(self) -> (s: &'static str)
        ensures
            s@ == self.description_spec(),
    {
        match self {
            TimerError::NoTimer => "no timer available",
            TimerError::CoarseTimer => "coarse timer",
            TimerError::NotMonotonic => "timer not monotonic",
            TimerError::TinyVariantions => "time delta variations too small",
            TimerError::TooManyStuck => "too many stuck results",
        }
    }

    /// The failure of a random source that this failure of the clock
    /// amounts to: the source is not to be had here.
    pub fn to_error(self) -> (e: Error)
        ensures
            e == (Error {
                kind: ErrorKind::Unavailable,
                msg: "timer jitter failed basic quality tests",
            }),
    {
        // Timer check is already quite permissive of failures so we don't
        // expect false-positive failures, i.e. any error is irrecoverable.
        Error::new(ErrorKind::Unavailable, "timer jitter failed basic quality tests")
    }
}

/// `x` rotated left by `n` bits.
pub open spec fn rotl64(x: u64, n: u64) -> u64 {
    (x << n) | (x >> ((64 - n) as u64))
}

/// One step of the shift register: the bit `bit` is mixed into `data`, the
/// taps of the polynomial x^64 + x^61 + x^56 + x^31 + x^28 + x^23 + 1 are
/// folded in, and the register is turned by one place.
pub open spec fn lfsr_step(data: u64, bit: u64) -> u64 {
    let d0 = data ^ bit;
    let d1 = d0 ^ ((d0 >> 63u64) & 1);
    let d2 = d1 ^ ((d1 >> 60u64) & 1);
    let d3 = d2 ^ ((d2 >> 55u64) & 1);
    let d4 = d3 ^ ((d3 >> 30u64) & 1);
    let d5 = d4 ^ ((d4 >> 27u64) & 1);
    let d6 = d5 ^ ((d5 >> 22u64) & 1);
    rotl64(d6, 1)
}

/// The register `data` after the lowest `n` bits of `time` were mixed in,
/// the lowest first.
pub open spec fn lfsr_spec(data: u64, time: u64, n: nat) -> u64
    decreases n,
{
    if n == 0 {
        data
    } else {
        let before = lfsr_spec(data, time, (n - 1) as nat);
        let bit = (time << ((64 - n) as u64)) >> 63u64;
        lfsr_step(before, bit)
    }
}

/// Mixes the 64 bits of `time` into the register `data`.
pub fn lfsr(start: u64, time: u64) -> (r: u64)
    ensures
        r == lfsr_spec(start, time, 64),
{
    let mut data: u64 = start;
    let mut i: u32 = 1;
    while i < 65
        invariant
            1 <= i <= 65,
            data == lfsr_spec(start, time, (i - 1) as nat),
        decreases 65 - i,
    {
        let mut tmp: u64 = time << (64 - i);
        tmp = tmp >> 63;
        data = data ^ tmp;
        data = data ^ ((data >> 63) & 1);
        data = data ^ ((data >> 60) & 1);
        data = data ^ ((data >> 55) & 1);
        data = data ^ ((data >> 30) & 1);
        data = data ^ ((data >> 27) & 1);
        data = data ^ ((data >> 22) & 1);
        data = (data << 1) | (data >> 63);
        i += 1;
    }
    data
}

/// The value that `n` rounds of stirring make of the mixer `mixer` for the
/// pool `data`: for each of the lowest `n` bits of the pool that is set, a
/// constant is folded in, and after each bit the mixer is turned by one
/// place.
pub open spec fn mixer_spec(data: u64, mixer: u64, n: nat) -> u64
    decreases n,
{
    if n == 0 {
        mixer
    } else {
        let before = mixer_spec(data, mixer, (n - 1) as nat);
        let apply = (data >> ((n - 1) as u64)) & 1;
        let mask = !(apply.wrapping_sub(1));
        rotl64(before ^ (0x67452301efcdab89u64 & mask), 1)
    }
}

/// The pool after stirring: the pool with a mixer value folded in that
/// depends on which of its bits are set. Stirring is one-to-one on what the
/// pool holds apart from the mixer, so it loses nothing of it.
pub open spec fn stir_spec(data: u64) -> u64 {
    data ^ mixer_spec(data, 0x98badcfe10325476u64, 64)
}

/// Shuffles the pool a bit by folding a value into it that depends on the
/// bits of the pool, in a time that does not depend on them.
pub fn stir(data: u64) -> (r: u64)
    ensures
        r == stir_spec(data),
{
    // This constant is derived from the first two 32 bit initialization
    // vectors of SHA-1. The order does not really matter as we do not rely
    // on the specific numbers: they have a good mix of bits set and unset.
    let constant: u64 = 0x67452301efcdab89;
    // The start value of the mixer is derived from the third and fourth
    // initialization vector of SHA-1.
    let mut mixer: u64 = 0x98badcfe10325476;
    let mut i: u32 = 0;
    while i < 64
        invariant
            i <= 64,
            constant == 0x67452301efcdab89u64,
            mixer == mixer_spec(data, 0x98badcfe10325476u64, i as nat),
        decreases 64 - i,
    {
        let apply: u64 = (data >> i) & 1;
        let mask: u64 = !(apply.wrapping_sub(1));
        mixer = mixer ^ (constant & mask);
        mixer = (mixer << 1) | (mixer >> 63);
        i += 1;
    }
    data ^ mixer
}

/// The time `time` folded to four bits: the exclusive or of its sixteen
/// groups of four bits.
pub open spec fn fold4_spec(time: u64, n: nat) -> u64
    decreases n,
{
    if n == 0 {
        0
    } else {
        fold4_spec(time, (n - 1) as nat) ^ ((time >> ((4 * (n - 1)) as u64)) & 15)
    }
}

/// Folds `time` to a number of four bits, so that as many of its bits as
/// possible have a part in the result.
pub fn fold4(time: u64) -> (r: u32)
    ensures
        r == fold4_spec(time, 16),
        r < 16,
{
    let mut rounds: u64 = 0;
    let mut i: u32 = 0;
    while i < 16
        invariant
            i <= 16,
            rounds == fold4_spec(time, i as nat),
            rounds < 16,
        decreases 16 - i,
    {
        let part: u64 = (time >> (4 * i)) & 15;
        assert(rounds ^ part < 16) by (bit_vector)
            requires
                rounds < 16,
                part == (time >> ((4 * i) as u64)) & 15,
        ;
        rounds = rounds ^ part;
        i += 1;
    }
    rounds as u32
}

/// The difference of two readings of the clock, cut to 32 bits with a sign:
/// right even where the clock has gone backwards a little.
pub open spec fn delta_spec(time: u64, prev: u64) -> i32 {
    time.wrapping_sub(prev) as i32
}

/// The difference of two readings of the clock, cut to 32 bits with a sign.
pub fn delta_of(time: u64, prev: u64) -> (d: i32)
    ensures
        d == delta_spec(time, prev),
{
    #[verifier::truncate]
    (time.wrapping_sub(prev) as i32)
}

/// The differences that the stuck test keeps: the last difference of two
/// readings, and the last difference of two such differences.
#[derive(Clone, Copy, Debug)]
pub struct Deltas {
    /// The last difference of two readings.
    pub last_delta: i32,
    /// The last difference of two differences.
    pub last_delta2: i32,
}

/// What the stuck test answers for the difference `current` after the
/// differences `d`, and the differences that it keeps: a measurement is
/// stuck if the difference, the difference of the differences or the
/// difference of those is zero. The test is a heuristic to see whether the
/// measurement holds entropy.
pub open spec fn stuck_spec(d: Deltas, current: i32) -> (bool, Deltas) {
    let delta2 = d.last_delta.wrapping_sub(current);
    let delta3 = delta2.wrapping_sub(d.last_delta2);
    (
        current == 0 || delta2 == 0 || delta3 == 0,
        Deltas { last_delta: current, last_delta2: delta2 },
    )
}

/// The stuck test: whether the measurement with the difference `current`
/// holds no entropy.
pub fn stuck(d: &mut Deltas, current: i32) -> (r: bool)
    ensures
        (r, *final(d)) == stuck_spec(*old(d), current),
{
    let delta2: i32 = d.last_delta.wrapping_sub(current);
    let delta3: i32 = delta2.wrapping_sub(d.last_delta2);
    d.last_delta = current;
    d.last_delta2 = delta2;
    current == 0 || delta2 == 0 || delta3 == 0
}

/// What the test of a clock has counted in the measurements that it looked
/// at.
#[derive(Clone, Copy, Debug)]
pub struct TimerMeasurements {
    /// The sum of the changes from one difference of readings to the next.
    pub delta_sum: u64,
    /// How often the clock did not go forward.
    pub time_backwards: u64,
    /// How often the difference of two readings was a multiple of 100.
    pub count_mod: u64,
    /// How often the measurement was stuck.
    pub count_stuck: u64,
}

/// The verdict on a clock with the measurements `m`: the number of rounds
/// that 64 bits of entropy take with it, or why it is refused.
///
/// The clock may run backwards up to three times, as when it is being
/// adjusted. The differences must vary by one on average. At most nine
/// tenths of the differences may be multiples of 100, and at most nine
/// tenths of the measurements stuck. The rounds are 64 divided by half the
/// number of bits of the average variation, rounded up; for an average
/// below 16 they are read from a table.
pub open spec fn verdict_spec(m: TimerMeasurements) -> Result<u8, TimerError> {
    if m.time_backwards > 3 {
        Err(TimerError::NotMonotonic)
    } else if m.delta_sum < TESTLOOPCOUNT {
        Err(TimerError::TinyVariantions)
    } else if m.count_mod > TESTLOOPCOUNT * 9 / 10 {
        Err(TimerError::CoarseTimer)
    } else if m.count_stuck > TESTLOOPCOUNT * 9 / 10 {
        Err(TimerError::TooManyStuck)
    } else {
        Ok(rounds_spec(m.delta_sum / TESTLOOPCOUNT))
    }
}

/// The number of bits of `x`: the position of its highest bit that is set,
/// counted from one.
pub open spec fn bit_length(x: u64) -> nat
    decreases x,
{
    if x == 0 {
        0
    } else {
        1 + bit_length(x / 2)
    }
}

/// The rounds for an average variation of `delta_average`. For an average
/// of 1 the table has no rounds.
pub open spec fn rounds_spec(delta_average: u64) -> u8 {
    if delta_average >= 16 {
        let log2 = bit_length(delta_average) as int;
        ((64 * 2 + log2 - 1) / log2) as u8
    } else {
        seq![0u8, 0, 128, 81, 64, 56, 50, 46, 43, 41, 39, 38, 36, 35, 34, 33][delta_average as int]
    }
}

/// The number of bits of `x`.
fn bits_of(x: u64) -> (n: u32)
    ensures
        n == bit_length(x),
        n <= 64,
        x >= 16 ==> n >= 5,
{
    let mut n: u32 = 0;
    let mut rest: u64 = x;
    proof {
        vstd::arithmetic::power2::lemma2_to64();
    }
    while rest > 0
        invariant
            n + bit_length(rest) == bit_length(x),
            n <= 64,
            rest as int * vstd::arithmetic::power2::pow2(n as nat) <= x,
            n < 64 || rest == 0,
        decreases rest,
    {
        proof {
            vstd::arithmetic::power2::lemma_pow2_unfold((n + 1) as nat);
            assert((rest / 2) * (2 * vstd::arithmetic::power2::pow2(n as nat)) <= rest
                * vstd::arithmetic::power2::pow2(n as nat)) by (nonlinear_arith)
                requires
                    0 <= rest,
                    0 <= vstd::arithmetic::power2::pow2(n as nat),
            ;
            if n == 63 {
                vstd::arithmetic::power2::lemma2_to64();
                vstd::arithmetic::power2::lemma2_to64_rest();
                if rest / 2 > 0 {
                    assert((rest / 2) * vstd::arithmetic::power2::pow2(64)
                        >= vstd::arithmetic::power2::pow2(64)) by (nonlinear_arith)
                        requires
                            rest / 2 >= 1,
                            vstd::arithmetic::power2::pow2(64) > 0,
                    ;
                }
            }
        }
        rest = rest / 2;
        n += 1;
    }
    proof {
        if x >= 16 {
            reveal_with_fuel(bit_length, 6);
        }
    }
    n
}

/// The verdict on a clock with the measurements `m`.
pub fn verdict(m: TimerMeasurements) -> (r: Result<u8, TimerError>)
    ensures
        r == verdict_spec(m),
{
    // We allow the time to run backwards for up to three times. This can
    // happen if the clock is being adjusted by NTP operations.
    if m.time_backwards > 3 {
        return Err(TimerError::NotMonotonic);
    }
    // Test that the available amount of entropy per round does not get too
    // low. We expect 1 bit of entropy per round as a reasonable minimum
    // (although less is possible, it means the collector loop has to run
    // much more often).
    if m.delta_sum < TESTLOOPCOUNT {
        return Err(TimerError::TinyVariantions);
    }
    // Ensure that we have variations in the time stamp below 100 for at
    // least 10% of all checks -- on some platforms, the counter increments
    // in multiples of 100, but not always
    if m.count_mod > TESTLOOPCOUNT * 9 / 10 {
        return Err(TimerError::CoarseTimer);
    }
    // If we have more than 90% stuck results, then this harvester is likely
    // to not work well.
    if m.count_stuck > TESTLOOPCOUNT * 9 / 10 {
        return Err(TimerError::TooManyStuck);
    }
    // Estimate the number of rounds necessary for 64 bits of entropy.
    let delta_average: u64 = m.delta_sum / TESTLOOPCOUNT;
    if delta_average >= 16 {
        let log2: u32 = bits_of(delta_average);
        // Do something similar to roundup(64/(log2/2)):
        Ok(((64u32 * 2 + log2 - 1) / log2) as u8)
    } else {
        // For values < 16 the rounding error becomes too large, use a
        // lookup table. Values 0 and 1 are invalid, and filtered out by the
        // test of the sum above.
        let log2_lookup: [u8; 16] = [0, 0, 128, 81, 64, 56, 50, 46, 43, 41, 39, 38, 36, 35, 34, 33];
        assert(log2_lookup@ =~= seq![
            0u8, 0, 128, 81, 64, 56, 50, 46, 43, 41, 39, 38, 36, 35, 34, 33,
        ]);
        Ok(log2_lookup[delta_average as usize])
    }
}

/// The difference `d` of two readings as a number of 64 bits: its sign
/// fills the high bits.
pub open spec fn widen_spec(d: i32) -> u64 {
    d as i64 as u64
}

/// The difference `d` of two readings as a number of 64 bits.
pub fn widen(d: i32) -> (r: u64)
    ensures
        r == widen_spec(d),
{
    #[verifier::truncate]
    ((d as i64) as u64)
}

/// The state of a `JitterRng` as a mathematical value.
pub struct JitterState<C> {
    /// The pool: the random number of the moment.
    pub data: u64,
    /// The rounds that the collector runs for 64 bits.
    pub rounds: u8,
    /// The state of the clock.
    pub timer: C,
    /// Where the walk through the memory has got to.
    pub mem_prev_index: u16,
    /// Whether the high half of the pool is still to be handed out.
    pub data_half_used: bool,
}

/// The state `s` with the clock in state `timer`.
pub open spec fn with_timer<C>(s: JitterState<C>, timer: C) -> JitterState<C> {
    JitterState {
        data: s.data,
        rounds: s.rounds,
        timer,
        mem_prev_index: s.mem_prev_index,
        data_half_used: s.data_half_used,
    }
}

/// The state `s` with the pool `data`.
pub open spec fn with_data<C>(s: JitterState<C>, data: u64) -> JitterState<C> {
    JitterState {
        data,
        rounds: s.rounds,
        timer: s.timer,
        mem_prev_index: s.mem_prev_index,
        data_half_used: s.data_half_used,
    }
}

/// The state `s` with the walk through the memory at `index`.
pub open spec fn with_index<C>(s: JitterState<C>, index: u16) -> JitterState<C> {
    JitterState {
        data: s.data,
        rounds: s.rounds,
        timer: s.timer,
        mem_prev_index: index,
        data_half_used: s.data_half_used,
    }
}

/// The state `s` with `rounds` rounds.
pub open spec fn with_rounds<C>(s: JitterState<C>, rounds: u8) -> JitterState<C> {
    JitterState {
        data: s.data,
        rounds,
        timer: s.timer,
        mem_prev_index: s.mem_prev_index,
        data_half_used: s.data_half_used,
    }
}

/// The state `s` with the mark `used` on the high half of the pool.
pub open spec fn with_half<C>(s: JitterState<C>, used: bool) -> JitterState<C> {
    JitterState {
        data: s.data,
        rounds: s.rounds,
        timer: s.timer,
        mem_prev_index: s.mem_prev_index,
        data_half_used: used,
    }
}

/// What the collector keeps while it runs, as a mathematical value: the
/// reading that the next difference is taken from, and the differences of
/// the stuck test.
pub struct Collector {
    /// The reading that the next difference is taken from.
    pub prev_time: u64,
    /// The differences of the stuck test.
    pub deltas: Deltas,
}

/// The random loop count in state `s`, and the state after: a reading of
/// the clock, mixed with the pool and folded to four bits. The pool is as
/// it was.
pub open spec fn loop_cnt_spec<T: Timer>(s: JitterState<T::V>) -> (u32, JitterState<T::V>) {
    let (time, timer) = T::now_spec(s.timer);
    (fold4_spec(time ^ s.data, 16) as u32, with_timer(s, timer))
}

/// The state after the time `time` was injected into the pool in state `s`:
/// the pool is the shift register of the old pool and the time. With
/// `var_rounds` the clock was read once, for the number of rounds on the
/// value that is thrown away.
pub open spec fn lfsr_time_spec<T: Timer>(
    s: JitterState<T::V>,
    time: u64,
    var_rounds: bool,
) -> JitterState<T::V> {
    let s1 = if var_rounds {
        loop_cnt_spec::<T>(s).1
    } else {
        s
    };
    with_data(s1, lfsr_spec(s1.data, time, 64))
}

/// The place that the walk through the memory has got to after `n` steps
/// from `index`: each step goes on by the size of a block less one, round
/// the end of the memory.
pub open spec fn walk_index(index: int, n: nat) -> int
    decreases n,
{
    if n == 0 {
        index
    } else {
        (walk_index(index, (n - 1) as nat) + MEMORY_BLOCKSIZE - 1) % (MEMORY_SIZE as int)
    }
}

/// The memory after `n` steps of the walk from `index`: the byte at each
/// place that the walk came to has gone up by one, round its greatest
/// value.
pub open spec fn walk_mem(mem: Seq<u8>, index: int, n: nat) -> Seq<u8>
    decreases n,
{
    if n == 0 {
        mem
    } else {
        let before = walk_mem(mem, index, (n - 1) as nat);
        let at = walk_index(index, n);
        before.update(at, before[at].wrapping_add(1))
    }
}

/// The steps of one walk through the memory in state `s`: 128, and with
/// `var_rounds` as many more as the random loop count says.
pub open spec fn walk_steps<T: Timer>(s: JitterState<T::V>, var_rounds: bool) -> nat {
    if var_rounds {
        (128 + loop_cnt_spec::<T>(s).0) as nat
    } else {
        128
    }
}

/// The state after a walk through the memory in state `s`: the walk has
/// gone on by its steps. With `var_rounds` the clock was read once.
pub open spec fn memaccess_spec<T: Timer>(s: JitterState<T::V>, var_rounds: bool) -> JitterState<
    T::V,
> {
    let s1 = if var_rounds {
        loop_cnt_spec::<T>(s).1
    } else {
        s
    };
    with_index(s1, walk_index(s.mem_prev_index as int, walk_steps::<T>(s, var_rounds)) as u16)
}

/// One measurement in state `s` with the collector at `ec`: whether it
/// holds entropy, and the states after. The memory is walked through, the
/// clock is read, the difference to the reading before is injected into
/// the pool, and the stuck test is made on it. The pool of a measurement
/// that is not stuck is turned by seven places.
pub open spec fn measure_spec<T: Timer>(s: JitterState<T::V>, ec: Collector) -> (
    bool,
    JitterState<T::V>,
    Collector,
) {
    let s1 = memaccess_spec::<T>(s, true);
    let (time, timer) = T::now_spec(s1.timer);
    let s2 = with_timer(s1, timer);
    let delta = delta_spec(time, ec.prev_time);
    let s3 = lfsr_time_spec::<T>(s2, widen_spec(delta), true);
    let (is_stuck, deltas) = stuck_spec(ec.deltas, delta);
    let ec1 = Collector { prev_time: time, deltas };
    if is_stuck {
        (false, s3, ec1)
    } else {
        (true, with_data(s3, rotl64(s3.data, 7)), ec1)
    }
}

/// One round of the collector: measurements are taken until one holds
/// entropy, or until `tries` of them were stuck and one more was taken.
pub open spec fn round_spec<T: Timer>(s: JitterState<T::V>, ec: Collector, tries: nat) -> (
    JitterState<T::V>,
    Collector,
)
    decreases tries,
{
    let (fresh, s1, ec1) = measure_spec::<T>(s, ec);
    if fresh || tries == 0 {
        (s1, ec1)
    } else {
        round_spec::<T>(s1, ec1, (tries - 1) as nat)
    }
}

/// `n` rounds of the collector, one after the other.
pub open spec fn collect_spec<T: Timer>(s: JitterState<T::V>, ec: Collector, n: nat) -> (
    JitterState<T::V>,
    Collector,
)
    decreases n,
{
    if n == 0 {
        (s, ec)
    } else {
        let (s1, ec1) = round_spec::<T>(s, ec, STUCK_LIMIT as nat);
        collect_spec::<T>(s1, ec1, (n - 1) as nat)
    }
}

/// A run of the collector in state `s`: the pool that it hands out, and
/// the state after. The clock is read for the reading that the first
/// difference is taken from, one measurement is made and not counted, then
/// the rounds are run, and the pool is stirred.
pub open spec fn gen_entropy_spec<T: Timer>(s: JitterState<T::V>) -> (u64, JitterState<T::V>) {
    let (now, timer) = T::now_spec(s.timer);
    let ec = Collector { prev_time: now, deltas: Deltas { last_delta: 0, last_delta2: 0 } };
    let (fresh, s1, ec1) = measure_spec::<T>(with_timer(s, timer), ec);
    let (s2, ec2) = collect_spec::<T>(s1, ec1, s.rounds as nat);
    let data = stir_spec(s2.data);
    (data, with_data(s2, data))
}

/// What `next_u64` hands out in state `s`, and the state after: the pool
/// after a run of the collector. Both halves of the pool count as handed
/// out.
pub open spec fn next_u64_spec<T: Timer>(s: JitterState<T::V>) -> (u64, JitterState<T::V>) {
    gen_entropy_spec::<T>(with_half(s, false))
}

/// What `next_u32` hands out in state `s`, and the state after: the high
/// half of the pool if it is still to be handed out, else the low half of
/// the pool after a run of the collector.
pub open spec fn next_u32_spec<T: Timer>(s: JitterState<T::V>) -> (u32, JitterState<T::V>) {
    if s.data_half_used {
        ((s.data >> 32u64) as u32, with_half(s, false))
    } else {
        let (data, s1) = next_u64_spec::<T>(s);
        ((data & 0xffff_ffff) as u32, with_half(s1, true))
    }
}

/// The `len` bytes that `fill_bytes` writes in state `s`, and the state
/// after: eight bytes of a word of 64 bits while more than four are
/// wanted, then the bytes of a word of 32 bits.
pub open spec fn fill_spec<T: Timer>(s: JitterState<T::V>, len: nat) -> (
    Seq<u8>,
    JitterState<T::V>,
)
    decreases len,
{
    if len == 0 {
        (Seq::empty(), s)
    } else if len > 4 {
        let k: nat = if len < 8 {
            len
        } else {
            8
        };
        let (w, s1) = next_u64_spec::<T>(s);
        let (rest, s2) = fill_spec::<T>(s1, (len - k) as nat);
        (u64_bytes(w, k) + rest, s2)
    } else {
        let (w, s1) = next_u32_spec::<T>(s);
        let (rest, s2) = fill_spec::<T>(s1, 0);
        (u64_bytes(w as u64, len) + rest, s2)
    }
}

/// What `timer_stats` returns in state `s`, and the state after: the
/// difference of the readings of the clock before and after one walk
/// through the memory and one injection of the first reading into the pool.
pub open spec fn timer_stats_spec<T: Timer>(s: JitterState<T::V>, var_rounds: bool) -> (
    i64,
    JitterState<T::V>,
) {
    let (time, timer) = T::now_spec(s.timer);
    let s1 = memaccess_spec::<T>(with_timer(s, timer), var_rounds);
    let s2 = lfsr_time_spec::<T>(s1, time, var_rounds);
    let (time2, timer2) = T::now_spec(s2.timer);
    (time2.wrapping_sub(time) as i64, with_timer(s2, timer2))
}

/// The test of the clock from its measurement `i` on, in state `s`: the
/// verdict and the state after. A measurement reads the clock, does the
/// work of the collector, and reads the clock again. A reading of zero ends
/// the test: there is no clock. A difference of zero ends it: the clock is
/// too coarse. The measurements after the first `CLEARCACHE` are counted
/// into `m`; after the last the verdict is that on `m`.
pub open spec fn test_loop_spec<T: Timer>(
    s: JitterState<T::V>,
    deltas: Deltas,
    m: TimerMeasurements,
    old_delta: i32,
    i: nat,
) -> (Result<u8, TimerError>, JitterState<T::V>)
    decreases CLEARCACHE + TESTLOOPCOUNT - i,
{
    if i >= CLEARCACHE + TESTLOOPCOUNT {
        (verdict_spec(m), s)
    } else {
        let (time, timer) = T::now_spec(s.timer);
        let s1 = memaccess_spec::<T>(with_timer(s, timer), true);
        let s2 = lfsr_time_spec::<T>(s1, time, true);
        let (time2, timer2) = T::now_spec(s2.timer);
        let s3 = with_timer(s2, timer2);
        let delta = delta_spec(time2, time);
        if time == 0 || time2 == 0 {
            (Err(TimerError::NoTimer), s3)
        } else if delta == 0 {
            (Err(TimerError::CoarseTimer), s3)
        } else if i >= CLEARCACHE {
            let (m1, deltas1) = measured_spec(m, deltas, time, time2, delta, old_delta);
            test_loop_spec::<T>(s3, deltas1, m1, delta, i + 1)
        } else {
            test_loop_spec::<T>(s3, deltas, m, old_delta, i + 1)
        }
    }
}

/// What `test_timer` returns in state `s`, and the state after.
pub open spec fn test_timer_spec<T: Timer>(s: JitterState<T::V>) -> (
    Result<u8, TimerError>,
    JitterState<T::V>,
) {
    let (now, timer) = T::now_spec(s.timer);
    test_loop_spec::<T>(
        with_timer(s, timer),
        Deltas { last_delta: 0, last_delta2: 0 },
        TimerMeasurements { delta_sum: 0, time_backwards: 0, count_mod: 0, count_stuck: 0 },
        0,
        0,
    )
}

/// The state of a harvester that was just made on a clock in state `timer`,
/// without a test of the clock.
pub open spec fn untested<C>(timer: C) -> JitterState<C> {
    JitterState { data: 0, rounds: 64, timer, mem_prev_index: 0, data_half_used: false }
}

/// What `new` makes of a clock in state `timer`: the state of the
/// harvester, or why the clock is refused. The clock is tested; it is
/// refused with the failure of the test, and for the smallness of its
/// variations if the test finds no round. Else the rounds are those of the
/// test, and the collector has run once.
pub open spec fn new_spec<T: Timer>(timer: T::V) -> Result<JitterState<T::V>, TimerError> {
    let (tested, s1) = test_timer_spec::<T>(untested(timer));
    match tested {
        Err(e) => Err(e),
        Ok(rounds) => if rounds == 0 {
            Err(TimerError::TinyVariantions)
        } else {
            Ok(gen_entropy_spec::<T>(with_rounds(s1, rounds)).1)
        },
    }
}

/// A true random number generator based on jitter in the CPU execution time,
/// and jitter in memory access time.
///
/// It takes its clock from its user. It is slow, but needs nothing of the
/// operating system.
#[derive(Clone)]
pub struct JitterRng<T: Timer> {
    /// The pool: the random number of the moment.
    data: u64,
    /// Number of rounds to run the entropy collector per 64 bits
    rounds: u8,
    /// The clock.
    timer: T,
    /// Where the walk through the memory has got to.
    mem_prev_index: u16,
    /// Whether the high half of the pool is still to be handed out.
    data_half_used: bool,
}

impl<T: Timer> View for JitterRng<T> {
    type V = JitterState<T::V>;

    closed spec fn view(&self) -> JitterState<T::V> {
        JitterState {
            data: self.data,
            rounds: self.rounds,
            timer: self.timer@,
            mem_prev_index: self.mem_prev_index,
            data_half_used: self.data_half_used,
        }
    }
}

/// What the collector needs while it runs, and not between runs.
struct EcState {
    /// The reading that the next difference is taken from.
    prev_time: u64,
    /// The differences of the stuck test.
    deltas: Deltas,
    /// The memory that is walked through.
    mem: [u8; 2048],
}

impl View for EcState {
    type V = Collector;

    closed spec fn view(&self) -> Collector {
        Collector { prev_time: self.prev_time, deltas: self.deltas }
    }
}

/// Keeps the compiler from leaving out the work that led to `x`.
///
/// This is `core::hint::black_box`, which returns its argument.
#[verifier::external_body]
fn black_box(x: u64) -> (r: u64)
    ensures
        r == x,
{
    core::hint::black_box(x)
}

impl<T: Timer> crate::rng::CryptoRng for JitterRng<T> {

}

impl<T: Timer> JitterRng<T> {
    /// The invariant: the walk through the memory is inside the memory, and
    /// there is a round to run.
    pub open spec fn valid(&self) -> bool {
        self@.mem_prev_index < MEMORY_SIZE && self@.rounds > 0
    }

    /// The rounds that the collector runs for 64 bits.
    pub open spec fn spec_rounds(&self) -> u8 {
        self@.rounds
    }

    /// Create a new `JitterRng` on the clock `timer`, or say why the clock
    /// is not fit.
    ///
    /// During initialization CPU execution timing jitter is measured a few
    /// hundred times. If this does not pass basic quality tests, an error is
    /// returned. The test result is used to set the number of rounds; a clock
    /// for which the test finds no round is refused for the smallness of
    /// its variations. The pool is filled once, so that the first number
    /// handed out has been through a run of the collector.
    pub fn new(timer: T) -> (r: Result<JitterRng<T>, TimerError>)
        ensures
            match new_spec::<T>(timer@) {
                Ok(s) => r matches Ok(rng) && rng.valid() && rng@ == s,
                Err(e) => r matches Err(f) && f == e,
            },
    {
        let mut state = JitterRng::new_with_timer(timer);
        let rounds: u8 = match state.test_timer() {
            Ok(rounds) => rounds,
            Err(e) => {
                return Err(e);
            },
        };
        if rounds == 0 {
            return Err(TimerError::TinyVariantions);
        }
        state.set_rounds(rounds);
        // Fill `data` with a non-zero value.
        state.gen_entropy();
        Ok(state)
    }

    /// Create a new `JitterRng`. A custom timer can be supplied, making it
    /// possible to use `JitterRng` where the standard library has no
    /// clock.
    ///
    /// The timer must have nanosecond precision.
    ///
    /// This method is more low-level than a constructor that tests the
    /// clock. It is the responsibility of the caller to run `test_timer`
    /// before using any numbers generated with `JitterRng`, and optionally
    /// call `set_rounds`. Also it is important to consume at least one
    /// `u64` before using the first result to initialize the entropy
    /// collection pool.
    pub fn new_with_timer(timer: T) -> (r: JitterRng<T>)
        ensures
            r.valid(),
            r.spec_rounds() == 64,
            r@ == untested(timer@),
    {
        JitterRng { data: 0, rounds: 64, timer, mem_prev_index: 0, data_half_used: false }
    }

    /// Configures how many rounds are used to generate each 64-bit value.
    /// This must be greater than zero, and has a big impact on performance
    /// and output quality.
    ///
    /// `new_with_timer` conservatively uses 64 rounds, but often less rounds
    /// can be used. The `test_timer()` function returns the minimum number of
    /// rounds required for full strength (platform dependent), so one may use
    /// `rng.set_rounds(rng.test_timer()?)` or cache the value.
    pub fn set_rounds(&mut self, rounds: u8)
        requires
            old(self).valid(),
            rounds > 0,
        ensures
            final(self).valid(),
            final(self).spec_rounds() == rounds,
            final(self)@ == with_rounds(old(self)@, rounds),
    {
        self.rounds = rounds;
    }

    /// Calculate a random loop count used for the next round of an entropy
    /// collection, based on bits from a fresh value from the timer: a
    /// number of four bits.
    ///
    /// Note: A constant should be added to the resulting random loop count
    /// to prevent loops that run 0 times.
    fn random_loop_cnt(&mut self) -> (r: u32)
        requires
            old(self).valid(),
        ensures
            final(self).valid(),
            (r, final(self)@) == loop_cnt_spec::<T>(old(self)@),
            r < 16,
    {
        let mut time: u64 = self.timer.now();
        // Mix with the current state of the random number to balance the
        // random loop counter a bit more.
        time = time ^ self.data;
        // We fold the time value as much as possible to ensure that as many
        // bits of the time stamp are included as possible.
        fold4(time)
    }

    /// CPU jitter noise source: injects the bits of the time value into the
    /// entropy pool using a shift register.
    ///
    /// The work of this function is what the clock measures. It runs some
    /// rounds on a value that is thrown away before the round that counts.
    fn lfsr_time(&mut self, time: u64, var_rounds: bool)
        requires
            old(self).valid(),
        ensures
            final(self).valid(),
            final(self)@ == lfsr_time_spec::<T>(old(self)@, time, var_rounds),
    {
        let mut lfsr_loop_cnt: u32 = 0;
        if var_rounds {
            lfsr_loop_cnt = self.random_loop_cnt();
        }
        let mut throw_away: u64 = 0;
        let mut i: u32 = 0;
        while i < lfsr_loop_cnt
            invariant
                i <= lfsr_loop_cnt,
            decreases lfsr_loop_cnt - i,
        {
            throw_away = lfsr(throw_away, time);
            i += 1;
        }
        black_box(throw_away);
        self.data = lfsr(self.data, time);
    }

    /// Memory access noise source: walks through the memory and adds one to
    /// a byte of each block that it comes to, so that the time of the walk
    /// varies with the wait states of the memory.
    fn memaccess(&mut self, mem: &mut [u8; 2048], var_rounds: bool)
        requires
            old(self).valid(),
        ensures
            final(self).valid(),
            final(self)@ == memaccess_spec::<T>(old(self)@, var_rounds),
            final(mem)@ == walk_mem(
                old(mem)@,
                old(self)@.mem_prev_index as int,
                walk_steps::<T>(old(self)@, var_rounds),
            ),
    {
        let ghost start = self@.mem_prev_index as int;
        let mut acc_loop_cnt: u32 = 128;
        if var_rounds {
            acc_loop_cnt = acc_loop_cnt + self.random_loop_cnt();
        }
        let mut index: usize = self.mem_prev_index as usize;
        let mut i: u32 = 0;
        while i < acc_loop_cnt
            invariant
                i <= acc_loop_cnt,
                index < MEMORY_SIZE,
                index == walk_index(start, i as nat),
                mem@ == walk_mem(old(mem)@, start, i as nat),
            decreases acc_loop_cnt - i,
        {
            // Addition of the size of a block less one to the index, with
            // wrap around, to ensure that every memory location is hit
            // evenly.
            index = (index + MEMORY_BLOCKSIZE - 1) % MEMORY_SIZE;
            // memory access: just add 1 to one byte
            let b: u8 = mem[index];
            mem[index] = b.wrapping_add(1);
            i += 1;
        }
        self.mem_prev_index = index as u16;
    }

    /// The heart of the entropy generation: takes the difference of two
    /// readings of the clock and folds its jitter into the pool. Returns
    /// whether the measurement holds entropy: whether it is not stuck.
    fn measure_jitter(&mut self, ec: &mut EcState) -> (fresh: bool)
        requires
            old(self).valid(),
        ensures
            final(self).valid(),
            (fresh, final(self)@, final(ec)@) == measure_spec::<T>(old(self)@, old(ec)@),
    {
        // Invoke one noise source before time measurement to add variations
        self.memaccess(&mut ec.mem, true);
        // Get time stamp and calculate time delta to previous invocation to
        // measure the timing variations
        let time: u64 = self.timer.now();
        let current_delta: i32 = delta_of(time, ec.prev_time);
        ec.prev_time = time;
        // Call the next noise source which also injects the data
        self.lfsr_time(widen(current_delta), true);
        // Check whether we have a stuck measurement (i.e. does the last
        // measurement holds entropy?).
        if stuck(&mut ec.deltas, current_delta) {
            return false;
        }
        // Rotate the data buffer by a prime number (any odd number would do)
        // to ensure that every bit position of the input time stamp has an
        // even chance of being merged with a bit position in the entropy
        // pool. We do not use one here as the adjacent bits in successive
        // time deltas may have some form of dependency.
        self.data = (self.data << 7) | (self.data >> 57);
        true
    }

    /// Collects 64 bits of entropy and returns the pool.
    fn gen_entropy(&mut self) -> (r: u64)
        requires
            old(self).valid(),
        ensures
            final(self).valid(),
            final(self).spec_rounds() == old(self).spec_rounds(),
            (r, final(self)@) == gen_entropy_spec::<T>(old(self)@),
    {
        // Prime the reading that differences are taken from, and run the
        // noise sources to make sure the first loop round collects the
        // expected entropy.
        let now: u64 = self.timer.now();
        let mut ec = EcState {
            prev_time: now,
            deltas: Deltas { last_delta: 0, last_delta2: 0 },
            mem: [0u8; 2048],
        };
        let _ = self.measure_jitter(&mut ec);
        let rounds: u8 = self.rounds;
        let ghost s1 = self@;
        let ghost ec1 = ec@;
        let mut round: u8 = 0;
        while round < rounds
            invariant
                round <= rounds,
                self.valid(),
                self@.rounds == rounds,
                collect_spec::<T>(s1, ec1, rounds as nat) == collect_spec::<T>(
                    self@,
                    ec@,
                    (rounds - round) as nat,
                ),
            decreases rounds - round,
        {
            // If a stuck measurement is received, repeat measurement
            let ghost s2 = self@;
            let ghost ec2 = ec@;
            let mut tries: u64 = 0;
            loop
                invariant_except_break
                    tries <= STUCK_LIMIT,
                    self.valid(),
                    self@.rounds == rounds,
                    round_spec::<T>(s2, ec2, STUCK_LIMIT as nat) == round_spec::<T>(
                        self@,
                        ec@,
                        (STUCK_LIMIT - tries) as nat,
                    ),
                ensures
                    self.valid(),
                    self@.rounds == rounds,
                    (self@, ec@) == round_spec::<T>(s2, ec2, STUCK_LIMIT as nat),
                decreases STUCK_LIMIT - tries,
            {
                let fresh: bool = self.measure_jitter(&mut ec);
                if fresh || tries == STUCK_LIMIT {
                    break;
                }
                tries += 1;
            }
            round += 1;
        }
        // Do a single read from the memory to make sure the memory access
        // noise source is not optimised out.
        black_box(ec.mem[0] as u64);
        self.data = stir(self.data);
        self.data
    }

    /// Basic quality tests on the timer, by measuring CPU timing jitter a
    /// few hundred times.
    ///
    /// If successful, this will return the estimated number of rounds
    /// necessary to collect 64 bits of entropy. Otherwise a `TimerError`
    /// with the cause of the failure will be returned. The verdict is that
    /// of `verdict` on what was measured; whoever hands the rounds to
    /// `set_rounds` makes sure that there is one.
    pub fn test_timer(&mut self) -> (r: Result<u8, TimerError>)
        requires
            old(self).valid(),
        ensures
            final(self).valid(),
            final(self).spec_rounds() == old(self).spec_rounds(),
            (r, final(self)@) == test_timer_spec::<T>(old(self)@),
            r == Err::<u8, TimerError>(TimerError::NoTimer) || r == Err::<u8, TimerError>(
                TimerError::CoarseTimer,
            ) || exists|m: TimerMeasurements| r == #[trigger] verdict_spec(m),
    {
        let mut m = TimerMeasurements { delta_sum: 0, time_backwards: 0, count_mod: 0, count_stuck: 0 };
        let mut old_delta: i32 = 0;
        let now: u64 = self.timer.now();
        let mut ec = EcState {
            prev_time: now,
            deltas: Deltas { last_delta: 0, last_delta2: 0 },
            mem: [0u8; 2048],
        };
        let mut i: u64 = 0;
        while i < CLEARCACHE + TESTLOOPCOUNT
            invariant
                i <= CLEARCACHE + TESTLOOPCOUNT,
                self.valid(),
                self.spec_rounds() == old(self).spec_rounds(),
                m.delta_sum <= i * 0x1_0000_0000,
                m.time_backwards <= i,
                m.count_mod <= i,
                m.count_stuck <= i,
                test_timer_spec::<T>(old(self)@) == test_loop_spec::<T>(
                    self@,
                    ec.deltas,
                    m,
                    old_delta,
                    i as nat,
                ),
            decreases CLEARCACHE + TESTLOOPCOUNT - i,
        {
            // Measure time delta of core entropy collection logic
            let time: u64 = self.timer.now();
            self.memaccess(&mut ec.mem, true);
            self.lfsr_time(time, true);
            let time2: u64 = self.timer.now();
            // Test whether timer works
            if time == 0 || time2 == 0 {
                return Err(TimerError::NoTimer);
            }
            let delta: i32 = delta_of(time2, time);
            // Test whether timer is fine grained enough to provide delta
            // even when called shortly after each other -- this implies that
            // we also have a high resolution timer
            if delta == 0 {
                return Err(TimerError::CoarseTimer);
            }
            // Up to here we did not modify any variable that will be
            // evaluated later, but we already performed some work. Thus we
            // already have had an impact on the caches, branch prediction,
            // etc. with the goal to clear it to get the worst case
            // measurements.
            if i >= CLEARCACHE {
                m = measured(m, &mut ec.deltas, time, time2, delta, old_delta);
                old_delta = delta;
            }
            i += 1;
        }
        // Do a single read from the memory to make sure the memory access
        // noise source is not optimised out.
        black_box(ec.mem[0] as u64);
        verdict(m)
    }

    /// Statistical test: return the timer delta of one normal run of the
    /// entropy collector.
    ///
    /// Setting `var_rounds` to `true` will execute the memory access and the
    /// CPU jitter noise sources a variable amount of times (just like a real
    /// run does).
    ///
    /// Setting `var_rounds` to `false` will execute the noise sources the
    /// minimal number of times. This can be used to measure the minimum
    /// amount of entropy one round of the entropy collector can collect in
    /// the worst case.
    pub fn timer_stats(&mut self, var_rounds: bool) -> (r: i64)
        requires
            old(self).valid(),
        ensures
            final(self).valid(),
            final(self).spec_rounds() == old(self).spec_rounds(),
            (r, final(self)@) == timer_stats_spec::<T>(old(self)@, var_rounds),
    {
        let mut mem: [u8; 2048] = [0u8; 2048];
        let time: u64 = self.timer.now();
        self.memaccess(&mut mem, var_rounds);
        self.lfsr_time(time, var_rounds);
        let time2: u64 = self.timer.now();
        #[verifier::truncate]
        (time2.wrapping_sub(time) as i64)
    }

    /// Returns the next random 32-bit word: one half of a pool of 64 bits,
    /// the low half first.
    pub fn next_u32(&mut self) -> (r: u32)
        requires
            old(self).valid(),
        ensures
            final(self).valid(),
            final(self).spec_rounds() == old(self).spec_rounds(),
            (r, final(self)@) == next_u32_spec::<T>(old(self)@),
    {
        // We want to use both parts of the generated entropy
        if self.data_half_used {
            self.data_half_used = false;
            (self.data >> 32) as u32
        } else {
            self.data = self.next_u64();
            self.data_half_used = true;
            (self.data & 0xffff_ffff) as u32
        }
    }

    /// Returns the next random 64-bit word: the pool after a run of the
    /// collector.
    pub fn next_u64(&mut self) -> (r: u64)
        requires
            old(self).valid(),
        ensures
            final(self).valid(),
            final(self).spec_rounds() == old(self).spec_rounds(),
            (r, final(self)@) == next_u64_spec::<T>(old(self)@),
    {
        self.data_half_used = false;
        self.gen_entropy()
    }

    /// Fills every byte of `dest` with random data: eight bytes of each run
    /// of the collector, of the last run only as many as are wanted.
    pub fn fill_bytes(&mut self, dest: &mut [u8])
        requires
            old(self).valid(),
        ensures
            final(self).valid(),
            final(self).spec_rounds() == old(self).spec_rounds(),
            final(dest)@.len() == old(dest)@.len(),
            (final(dest)@, final(self)@) == fill_spec::<T>(old(self)@, old(dest)@.len()),
    {
        let n: usize = dest.len();
        let mut at: usize = 0;
        while at < n
            invariant
                at <= n == dest@.len(),
                n == old(dest)@.len(),
                self.valid(),
                self.spec_rounds() == old(self).spec_rounds(),
                fill_spec::<T>(old(self)@, n as nat) == ({
                    let (rest, s) = fill_spec::<T>(self@, (n - at) as nat);
                    (dest@.take(at as int) + rest, s)
                }),
            decreases n - at,
        {
            let k: usize = if n - at < 8 {
                n - at
            } else {
                8
            };
            let w: u64 = if k > 4 {
                self.next_u64()
            } else {
                self.next_u32() as u64
            };
            let ghost prev = dest@;
            put_u64(dest, at, w, k);
            proof {
                let (rest, s2) = fill_spec::<T>(self@, (n - at - k) as nat);
                assert(dest@.take(at + k) =~= prev.take(at as int) + u64_bytes(w, k as nat));
                assert((prev.take(at as int) + u64_bytes(w, k as nat)) + rest =~= prev.take(
                    at as int,
                ) + (u64_bytes(w, k as nat) + rest));
                if k <= 4 {
                    assert(rest =~= Seq::<u8>::empty());
                }
            }
            at += k;
        }
        assert(dest@.take(n as int) =~= dest@);
        assert(dest@ + Seq::<u8>::empty() =~= dest@);
    }
}

/// The measurements `m` with one more measurement counted in: the readings
/// `time` and `time2` before and after the work, their difference `delta`,
/// and the difference `old_delta` of the measurement before.
pub open spec fn measured_spec(
    m: TimerMeasurements,
    d: Deltas,
    time: u64,
    time2: u64,
    delta: i32,
    old_delta: i32,
) -> (TimerMeasurements, Deltas) {
    let (is_stuck, d1) = stuck_spec(d, delta);
    let change = delta - old_delta;
    (
        TimerMeasurements {
            delta_sum: (m.delta_sum + if change < 0 {
                -change
            } else {
                change
            }) as u64,
            time_backwards: (m.time_backwards + if time2 > time {
                0int
            } else {
                1int
            }) as u64,
            count_mod: (m.count_mod + if delta % 100 == 0 {
                1int
            } else {
                0int
            }) as u64,
            count_stuck: (m.count_stuck + if is_stuck {
                1int
            } else {
                0int
            }) as u64,
        },
        d1,
    )
}

/// Counts one measurement of the test of the clock into `m`.
pub fn measured(
    m: TimerMeasurements,
    d: &mut Deltas,
    time: u64,
    time2: u64,
    delta: i32,
    old_delta: i32,
) -> (r: TimerMeasurements)
    requires
        m.delta_sum <= 0xffff_ffff_0000_0000,
        m.time_backwards < u64::MAX,
        m.count_mod < u64::MAX,
        m.count_stuck < u64::MAX,
    ensures
        (r, *final(d)) == measured_spec(m, *old(d), time, time2, delta, old_delta),
        r.delta_sum <= m.delta_sum + 0xffff_ffff,
        r.time_backwards <= m.time_backwards + 1,
        r.count_mod <= m.count_mod + 1,
        r.count_stuck <= m.count_stuck + 1,
{
    let mut r = m;
    if stuck(d, delta) {
        r.count_stuck = r.count_stuck + 1;
    }
    // Test whether we have an increasing timer.
    if !(time2 > time) {
        r.time_backwards = r.time_backwards + 1;
    }
    // Count the number of times the counter increases in steps of 100ns or
    // greater.
    if delta % 100 == 0 {
        r.count_mod = r.count_mod + 1;
    }
    // Ensure that we have a varying delta timer which is necessary for the
    // calculation of entropy -- perform this check only after the first loop
    // is executed as we need to prime the old_delta value
    let change: i64 = delta as i64 - old_delta as i64;
    let size: i64 = if change < 0 {
        -change
    } else {
        change
    };
    r.delta_sum = r.delta_sum + size as u64;
    r
}

} // verus!
