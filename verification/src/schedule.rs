use vstd::prelude::*;
use crate::instant::Instant;

verus! {

/// How long before sunrise the lights go off, in seconds.
pub const LEAD_SECONDS: u64 = 1800;

/// What the scheduler decides: act at once, or sleep first.
#[derive(Clone, Copy, Debug, PartialEq, Eq, Structural)]
pub enum Wait {
    /// The target time is now, or has passed.
    ActNow,
    /// The target time is still ahead: sleep this many whole seconds, then
    /// act. Zero where less than one second remains.
    Sleep(u64),
}

impl Wait {
    /// The seconds to sleep; zero where the decision is to act at once.
    pub open spec fn seconds(self) -> int {
        match self {
            Wait::ActNow => 0,
            Wait::Sleep(s) => s as int,
        }
    }

    /// The seconds to sleep, zero for `ActNow`.
    pub fn sleep_seconds(&self) -> (s: u64)
        ensures
            s == self.seconds(),
    {
        match self {
            Wait::ActNow => 0,
            Wait::Sleep(s) => *s,
        }
    }
}

/// Nanoseconds from `now` to the target time, which lies `LEAD_SECONDS`
/// before `sunrise`. Negative once the target has passed.
pub open spec fn nanos_until_target(sunrise: Instant, now: Instant) -> int {
    sunrise.total_nanos() - LEAD_SECONDS * 1_000_000_000 - now.total_nanos()
}

/// The scheduler's decision as a function of the two moments: while the
/// target is still ahead, by however little, sleep the whole seconds that
/// remain, the part of a second dropped; otherwise act now.
pub open spec fn wait_for(sunrise: Instant, now: Instant) -> Wait {
    let remaining = nanos_until_target(sunrise, now);
    if remaining > 0 {
        Wait::Sleep((remaining / 1_000_000_000) as u64)
    } else {
        Wait::ActNow
    }
}

/// Decides how long to wait at `now` before switching the lights off for a
/// sunrise at `sunrise`.
pub fn compute_wait(sunrise: Instant, now: Instant) -> (wait: Wait)
    ensures
        wait == wait_for(sunrise, now),
        wait is Sleep <==> nanos_until_target(sunrise, now) > 0,
        wait is Sleep ==> wait.seconds() == nanos_until_target(sunrise, now) / 1_000_000_000,
        wait == Wait::ActNow <==> nanos_until_target(sunrise, now) <= 0,
{
    let whole: i128 = sunrise.secs as i128 - now.secs as i128 - LEAD_SECONDS as i128;
    let part: i128 = sunrise.nanos as i128 - now.nanos as i128;
    let remaining: i128 = whole * 1_000_000_000 + part;
    assert(remaining == nanos_until_target(sunrise, now));
    if remaining > 0 {
        let seconds: i128 = remaining / 1_000_000_000;
        assert(0 <= seconds <= u64::MAX);
        Wait::Sleep(seconds as u64)
    } else {
        Wait::ActNow
    }
}

/// The target time: `LEAD_SECONDS` before `sunrise`, written with less than a
/// second of nanoseconds. `None` only where that moment lies before the
/// earliest second an `Instant` can name.
pub fn target_time(sunrise: Instant) -> (target: Option<Instant>)
    ensures
        target is Some <==> sunrise.secs - LEAD_SECONDS + sunrise.nanos / 1_000_000_000
            >= i64::MIN,
        target is Some ==> target->Some_0.total_nanos() == sunrise.total_nanos() - LEAD_SECONDS
            * 1_000_000_000,
        target is Some ==> target->Some_0.nanos < 1_000_000_000,
{
    let carry: i64 = (sunrise.nanos / 1_000_000_000) as i64;
    let nanos: u32 = sunrise.nanos % 1_000_000_000;
    let back: i64 = LEAD_SECONDS as i64 - carry;
    if sunrise.secs >= i64::MIN + back {
        Some(Instant { secs: sunrise.secs - back, nanos })
    } else {
        None
    }
}

/// For a sunrise more than the lead time ahead of `now`, the decision is a
/// sleep: the time from `now` to the target, counted in whole seconds. The
/// count is positive as soon as one whole second remains.
pub proof fn lemma_future_sunrise_sleeps_until_target(sunrise: Instant, now: Instant)
    requires
        sunrise.total_nanos() - now.total_nanos() > LEAD_SECONDS * 1_000_000_000,
    ensures
        wait_for(sunrise, now) is Sleep,
        wait_for(sunrise, now).seconds() == nanos_until_target(sunrise, now) / 1_000_000_000,
        wait_for(sunrise, now).seconds() >= 0,
        wait_for(sunrise, now).seconds() * 1_000_000_000 <= nanos_until_target(sunrise, now)
            < (wait_for(sunrise, now).seconds() + 1) * 1_000_000_000,
        wait_for(sunrise, now).seconds() > 0 <==> nanos_until_target(sunrise, now)
            >= 1_000_000_000,
{
    let remaining = nanos_until_target(sunrise, now);
    assert(0 <= remaining / 1_000_000_000 <= u64::MAX);
}

/// Where the target is ahead of `now` by less than one whole second, the
/// decision is still a sleep, of zero seconds: the part of a second is
/// dropped, never rounded up.
pub proof fn lemma_under_a_second_sleeps_zero(sunrise: Instant, now: Instant)
    requires
        0 < nanos_until_target(sunrise, now) < 1_000_000_000,
    ensures
        wait_for(sunrise, now) == Wait::Sleep(0),
{
}

/// For a sunrise that is at most the lead time ahead of `now`, or behind it,
/// the decision is to act at once: no sleep is asked for, of any length.
pub proof fn lemma_near_or_past_sunrise_acts_now(sunrise: Instant, now: Instant)
    requires
        sunrise.total_nanos() - now.total_nanos() <= LEAD_SECONDS * 1_000_000_000,
    ensures
        wait_for(sunrise, now) == Wait::ActNow,
        wait_for(sunrise, now).seconds() == 0,
{
}

} // verus!
