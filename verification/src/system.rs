//! The machine's clock and random source, and what the library makes of their readings.

use std::time::{Duration, SystemTime, SystemTimeError};
use vstd::prelude::*;
use crate::clock::Clock;
use crate::time::UnixNanos;

verus! {

#[verifier::external_type_specification]
#[verifier::external_body]
pub struct ExSystemTime(SystemTime);

#[verifier::external_type_specification]
#[verifier::external_body]
pub struct ExSystemTimeError(SystemTimeError);

#[verifier::external_type_specification]
#[verifier::external_body]
pub struct ExGetrandomError(getrandom::Error);

/// `SystemTime::now`. Nothing is promised of the time it reads.
#[verifier::external_body]
fn system_now() -> (r: SystemTime) {
    SystemTime::now()
}

/// `SystemTime::duration_since(UNIX_EPOCH)`: `Err` when the time lies before the epoch.
#[verifier::external_body]
fn since_unix_epoch(t: &SystemTime) -> (r: Result<Duration, SystemTimeError>) {
    t.duration_since(std::time::UNIX_EPOCH)
}

/// `SystemTimeError::duration`: how far before the epoch the time lies.
#[verifier::external_body]
fn error_duration(e: &SystemTimeError) -> (r: Duration) {
    e.duration()
}

/// `Duration::as_nanos`.
#[verifier::external_body]
fn duration_nanos(d: &Duration) -> (r: u128) {
    d.as_nanos()
}

/// `Duration::as_millis`.
#[verifier::external_body]
fn duration_millis(d: &Duration) -> (r: u128) {
    d.as_millis()
}

/// `getrandom::getrandom`: fills the bytes from the platform's random source; `Err` when
/// it fails. Nothing is promised of the bytes.
#[verifier::external_body]
fn fill_random(bytes: &mut [u8; 16]) -> (r: Result<(), getrandom::Error>) {
    getrandom::getrandom(bytes)
}

/// The number whose little-endian base-256 digits are `s`: `s[0]` is the lowest.
spec fn le_value(s: Seq<u8>) -> nat
    decreases s.len(),
{
    if s.len() == 0 {
        0
    } else {
        s[0] as nat + 256 * le_value(s.drop_first())
    }
}

/// `256` to the power `n`.
spec fn pow256(n: nat) -> nat
    decreases n,
{
    if n == 0 {
        1
    } else {
        256 * pow256((n - 1) as nat)
    }
}

/// A number of `n` digits lies below `256` to the power `n`.
proof fn lemma_le_value_bound(s: Seq<u8>)
    ensures
        le_value(s) < pow256(s.len()),
    decreases s.len(),
{
    if s.len() > 0 {
        lemma_le_value_bound(s.drop_first());
        let low = s[0] as nat;
        let high = le_value(s.drop_first());
        let p = pow256(s.drop_first().len());
        assert(low + 256 * high < 256 * p) by (nonlinear_arith)
            requires
                low < 256,
                high < p,
        ;
    }
}

proof fn lemma_pow256_monotone(n: nat, m: nat)
    requires
        n <= m,
    ensures
        pow256(n) <= pow256(m),
    decreases m,
{
    if n < m {
        lemma_pow256_monotone(n, (m - 1) as nat);
    }
}

/// The number whose little-endian bytes are `b`.
fn u128_from_le_bytes(b: &[u8; 16]) -> (r: u128)
    ensures
        r == le_value(b@),
{
    let mut value: u128 = 0;
    let mut i: usize = 16;
    proof {
        assert(b@.subrange(16, 16) =~= Seq::<u8>::empty());
    }
    while i > 0
        invariant
            i <= 16,
            b@.len() == 16,
            value == le_value(b@.subrange(i as int, 16)),
        decreases i,
    {
        i = i - 1;
        let x: u8 = b[i];
        proof {
            let rest = b@.subrange(i + 1, 16);
            assert(b@.subrange(i as int, 16).drop_first() =~= rest);
            lemma_le_value_bound(rest);
            lemma_pow256_monotone(rest.len(), 15);
            assert(pow256(15) == 0x100_0000_0000_0000_0000_0000_0000_0000nat) by {
                reveal_with_fuel(pow256, 16);
            }
            let v: u128 = value;
            assert((v << 8u128) | (x as u128) == v * 256 + x) by (bit_vector)
                requires
                    v < 0x100_0000_0000_0000_0000_0000_0000_0000u128,
            ;
        }
        value = (value << 8u128) | (x as u128);
    }
    assert(b@.subrange(0, 16) =~= b@);
    value
}

/// A random 128-bit value, or `None` when the platform's random source fails.
pub fn random_u128() -> (r: Option<u128>) {
    let mut bytes = [0u8; 16];
    match fill_random(&mut bytes) {
        Ok(()) => Some(u128_from_le_bytes(&bytes)),
        Err(_) => None,
    }
}

/// The current time against the Unix epoch, in nanoseconds: `Ok` after it, `Err` before it.
pub fn epoch_offset_nanos() -> (r: Result<u128, u128>) {
    let now = system_now();
    match since_unix_epoch(&now) {
        Ok(d) => Ok(duration_nanos(&d)),
        Err(e) => {
            let d = error_duration(&e);
            Err(duration_nanos(&d))
        },
    }
}

/// Nanoseconds since the Unix epoch, or 0 before it.
pub fn nanos_since_epoch() -> (r: u128) {
    let now = system_now();
    match since_unix_epoch(&now) {
        Ok(d) => duration_nanos(&d),
        Err(_) => 0,
    }
}

/// Milliseconds since the Unix epoch, or 0 before it.
pub fn millis_since_epoch() -> (r: u128) {
    let now = system_now();
    match since_unix_epoch(&now) {
        Ok(d) => duration_millis(&d),
        Err(_) => 0,
    }
}

/// A count of nanoseconds as a signed 64-bit value, saturating at `i64::MAX`.
pub open spec fn saturated_nanos(n: u128) -> i64 {
    if n > i64::MAX as u128 {
        i64::MAX
    } else {
        n as i64
    }
}

pub open spec fn unix_nanos_of_offset(offset: Result<u128, u128>) -> i64 {
    match offset {
        Ok(n) => saturated_nanos(n),
        Err(n) => (-saturated_nanos(n)) as i64,
    }
}

pub fn nanos_to_i64(value: u128) -> (r: i64)
    ensures
        r == saturated_nanos(value),
{
    if value > i64::MAX as u128 {
        i64::MAX
    } else {
        value as i64
    }
}

/// The wall-clock time of an offset from the epoch: times after it count up from 0,
/// times before it down; both saturate.
pub fn unix_nanos_from_offset(offset: Result<u128, u128>) -> (r: UnixNanos)
    ensures
        r@ == unix_nanos_of_offset(offset),
{
    match offset {
        Ok(n) => UnixNanos::new(nanos_to_i64(n)),
        Err(n) => UnixNanos::new(-nanos_to_i64(n)),
    }
}

/// The system's wall clock.
#[derive(Clone, Copy, Debug, Default)]
pub struct SystemClock;

impl Clock for SystemClock {
    /// The system clock can read any time but `i64::MIN`; reading it changes nothing.
    open spec fn gives(self, after: Self, nanos: i64) -> bool {
        nanos > i64::MIN
    }

    /// The current wall-clock time, never below `-i64::MAX`.
    fn now(&mut self) -> (r: UnixNanos)
        ensures
            r@ > i64::MIN,
    {
        unix_nanos_from_offset(epoch_offset_nanos())
    }
}

} // verus!
