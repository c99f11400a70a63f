//! Small pseudo-random numbers for tests and debugging.
//!
//! Neither generator is fit for anything that needs to be unpredictable: each
//! stirs a seed with shifts and exclusive-ors and reduces it to a range.

use vstd::prelude::*;

verus! {

/// The time of the system clock.
#[verifier::external_type_specification]
#[verifier::external_body]
pub struct ExSystemTime(std::time::SystemTime);

/// What the clock gives when it reads a time before the one it is compared
/// with.
#[verifier::external_type_specification]
#[verifier::external_body]
pub struct ExSystemTimeError(std::time::SystemTimeError);

/// Reads the system clock: `SystemTime::now`. Nothing is known of the result.
#[verifier::external_body]
fn now() -> std::time::SystemTime {
    std::time::SystemTime::now()
}

/// The time from the Unix epoch to `time`: `SystemTime::duration_since` with
/// `UNIX_EPOCH`. An error where `time` lies before the epoch; nothing else is
/// known of the result.
#[verifier::external_body]
fn since_epoch(
    time: &std::time::SystemTime,
) -> Result<core::time::Duration, std::time::SystemTimeError> {
    time.duration_since(std::time::UNIX_EPOCH)
}

/// The part of a duration below one second, in nanoseconds:
/// `Duration::subsec_nanos`, which is documented to stay below one billion.
#[verifier::external_body]
fn subsec_nanos(duration: &core::time::Duration) -> (r: u32)
    ensures
        r < 1_000_000_000,
{
    duration.subsec_nanos()
}

/// The shift widths that [`range`] stirs with, in order.
pub open spec fn range_shifts() -> Seq<u32> {
    seq![3u32, 5u32, 7u32, 9u32, 11u32, 13u32, 15u32, 17u32, 19u32]
}

/// The shift widths that [`num`] stirs with, in order.
pub open spec fn num_shifts() -> Seq<u32> {
    seq![13u32, 17u32, 5u32, 11u32, 3u32, 19u32, 7u32]
}

/// `seed + 1`, wrapping round to zero.
pub open spec fn bumped(seed: u32) -> u32 {
    if seed == u32::MAX {
        0
    } else {
        (seed + 1) as u32
    }
}

/// One round of [`range`] with the shift width `x`.
pub open spec fn range_round(seed: u32, min: u32, max: u32, x: u32) -> u32 {
    let a = seed ^ (bumped(seed) << x);
    let b = a ^ ((a / ((21 + min) as u32)) >> x);
    b ^ ((b / ((23 + max) as u32)) << x)
}

/// The seed after the first `n` rounds of [`range`].
pub open spec fn range_stirred(seed: u32, min: u32, max: u32, n: int) -> u32
    decreases n,
{
    if n <= 0 {
        seed
    } else {
        range_round(range_stirred(seed, min, max, n - 1), min, max, range_shifts()[n - 1])
    }
}

/// What [`range`] returns.
pub open spec fn range_of(seed: u32, min: u32, max: u32) -> u32 {
    (range_stirred(seed, min, max, 9) % ((max - min + 1) as u32) + min) as u32
}

/// One round of [`num`] with the shift width `x`.
pub open spec fn num_round(seed: u32, x: u32) -> u32 {
    let a = seed ^ (seed << x);
    a ^ (a >> ((x % 9) as u32))
}

/// The seed after the first `n` rounds of [`num`].
pub open spec fn num_stirred(seed: u32, n: int) -> u32
    decreases n,
{
    if n <= 0 {
        seed
    } else {
        num_round(num_stirred(seed, n - 1), num_shifts()[n - 1])
    }
}

/// What [`num_from`] returns.
pub open spec fn num_of(seed: u32, min: u32, max: u32) -> u32 {
    (num_stirred(seed, 7) % ((max + 1) as u32) + min) as u32
}

/// A number from `min` to `max`, both included, that depends on the seed
/// alone. The seed is stirred in nine rounds; `seed + 1` wraps round.
pub fn range(seed: u32, min: u32, max: u32) -> (r: u32)
    requires
        min <= max,
        max <= u32::MAX - 23,
    ensures
        r == range_of(seed, min, max),
        min <= r <= max,
{
    let shifts: [u32; 9] = [3, 5, 7, 9, 11, 13, 15, 17, 19];
    assert(shifts@ =~= range_shifts());
    let mut seed: u32 = seed;
    let ghost start: u32 = seed;
    let mut i: usize = 0;
    while i < 9
        invariant
            i <= 9,
            shifts@ == range_shifts(),
            min <= max,
            max <= u32::MAX - 23,
            seed == range_stirred(start, min, max, i as int),
        decreases 9 - i,
    {
        let x: u32 = shifts[i];
        assert(x < 32);
        let next: u32 = if seed == u32::MAX {
            0
        } else {
            seed + 1
        };
        seed = seed ^ (next << x);
        seed = seed ^ ((seed / (21 + min)) >> x);
        seed = seed ^ ((seed / (23 + max)) << x);
        i = i + 1;
    }
    (seed % (max - min + 1)) + min
}

/// A number from `min` to `min + max`, both included, that depends on the
/// seed alone. The seed is stirred in seven rounds.
pub fn num_from(seed: u32, min: u32, max: u32) -> (r: u32)
    requires
        min + max <= u32::MAX,
        max < u32::MAX,
    ensures
        r == num_of(seed, min, max),
        min <= r <= min + max,
{
    let shifts: [u32; 7] = [13, 17, 5, 11, 3, 19, 7];
    assert(shifts@ =~= num_shifts());
    let mut seed: u32 = seed;
    let ghost start: u32 = seed;
    let mut i: usize = 0;
    while i < 7
        invariant
            i <= 7,
            shifts@ == num_shifts(),
            seed == num_stirred(start, i as int),
        decreases 7 - i,
    {
        let x: u32 = shifts[i];
        assert(x < 32);
        seed = seed ^ (seed << x);
        seed = seed ^ (seed >> (x % 9));
        i = i + 1;
    }
    (seed % (max + 1)) + min
}

/// What [`num`] returns for a reading of the clock: the number seeded with
/// the nanoseconds of the reading, or nothing where the clock read a time
/// before the Unix epoch.
pub fn num_at(nanos: Option<u32>, min: u32, max: u32) -> (r: Option<u32>)
    requires
        min + max <= u32::MAX,
        max < u32::MAX,
    ensures
        r == match nanos {
            Some(seed) => Some(num_of(seed, min, max)),
            None => None,
        },
{
    match nanos {
        Some(seed) => Some(num_from(seed, min, max)),
        None => None,
    }
}

/// A number from `min` to `min + max`, both included, seeded with the
/// nanoseconds of the system clock; nothing where the clock reads a time
/// before the Unix epoch.
pub fn num(min: u32, max: u32) -> (r: Option<u32>)
    requires
        min + max <= u32::MAX,
        max < u32::MAX,
    ensures
        r matches Some(n) ==> min <= n <= min + max && exists|seed: u32|
            seed < 1_000_000_000 && n == num_of(seed, min, max),
{
    let time = now();
    let nanos = match since_epoch(&time) {
        Ok(duration) => Some(subsec_nanos(&duration)),
        Err(_) => None,
    };
    num_at(nanos, min, max)
}

} // verus!
