//! Clock readings and the delays that a session observes.
//!
//! A clock reading counts nanoseconds from one fixed moment, such as the start
//! of the program.
use vstd::prelude::*;

verus! {

/// Nanoseconds in a second.
pub const NANOS_PER_SEC: u64 = 1_000_000_000;

/// Seconds between the start of a connection and the first exchange of data.
/// They leave the simulator time to report its variables.
pub const CONNECTION_DELAY_SECS: u64 = 3;

/// Milliseconds for which a pass of the main loop sleeps, and below which a
/// pass counts as short enough to sleep.
pub const LOOP_SLEEP_MILLIS: u64 = 10;

/// Nanoseconds from `since` to `now`, zero where the clock has gone back.
pub open spec fn elapsed(since: u64, now: u64) -> nat {
    if since <= now {
        (now - since) as nat
    } else {
        0
    }
}

/// Whether the connection delay is over at `now`, for a connection that began
/// at `since`.
pub open spec fn delay_over(since: u64, now: u64) -> bool {
    elapsed(since, now) >= CONNECTION_DELAY_SECS * NANOS_PER_SEC
}

/// Whether more than one `rate`-th of a second has passed from `since` to
/// `now`. A rate of zero makes the interval endless.
pub open spec fn interval_over(since: u64, now: u64, rate: u16) -> bool {
    elapsed(since, now) * rate > NANOS_PER_SEC
}

/// Tells whether data may flow on a connection that began at `since`: three
/// whole seconds must have passed.
pub fn connection_delay_over(since: u64, now: u64) -> (over: bool)
    ensures
        over == delay_over(since, now),
{
    now.saturating_sub(since) / NANOS_PER_SEC >= CONNECTION_DELAY_SECS
}

/// Tells whether data last sent at `since` is due again at `now`, for `rate`
/// sendings per second: the time passed is more than `1 / rate` seconds.
pub fn update_due(since: u64, now: u64, rate: u16) -> (due: bool)
    ensures
        due == interval_over(since, now, rate),
{
    let passed: u64 = now.saturating_sub(since);
    assert(passed * rate <= 0xffff_ffff_ffff_ffff * 0xffff) by (nonlinear_arith)
        requires
            passed <= 0xffff_ffff_ffff_ffff,
            rate <= 0xffff,
    ;
    assert(0 <= passed * rate) by (nonlinear_arith);
    passed as u128 * rate as u128 > NANOS_PER_SEC as u128
}

} // verus!
