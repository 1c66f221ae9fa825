use vstd::prelude::*;

use crate::error::BotError;
use crate::service::ServiceName;

verus! {

/// How many times a subscriber retries a failed connection before giving up.
pub const CONNECT_RETRIES: u32 = 5;

/// The delay before the first connection retry, in milliseconds; each later one doubles it.
pub const CONNECT_BACKOFF_MS: u64 = 200;

/// The wait after the first rate-limited report check, in seconds; each later one doubles it.
pub const RATE_LIMIT_BACKOFF_SECS: u64 = 120;

/// The wait after a check that found the report not yet published, in seconds.
pub const UNPUBLISHED_WAIT_SECS: u64 = 60;

/// `base` doubled `times` times.
pub open spec fn doubling(base: nat, times: nat) -> nat
    decreases times,
{
    if times == 0 {
        base
    } else {
        2 * doubling(base, (times - 1) as nat)
    }
}

/// `x`, or `u64::MAX` when `x` does not fit.
pub open spec fn saturate(x: nat) -> u64 {
    if x > u64::MAX {
        u64::MAX
    } else {
        x as u64
    }
}

/// `base` doubled `times` times, saturating at `u64::MAX`.
pub fn saturating_doubling(base: u64, times: u32) -> (r: u64)
    ensures
        r == saturate(doubling(base as nat, times as nat)),
{
    let mut r = base;
    let mut k: u32 = 0;
    while k < times
        invariant
            k <= times,
            r == saturate(doubling(base as nat, k as nat)),
        decreases times - k,
    {
        assert(doubling(base as nat, (k + 1) as nat) == 2 * doubling(base as nat, k as nat));
        if r > u64::MAX / 2 {
            r = u64::MAX;
        } else {
            r = 2 * r;
        }
        k = k + 1;
    }
    r
}

/// What a subscriber does after a failed connection attempt.
#[derive(Debug, PartialEq, Eq)]
pub enum ConnectStep {
    /// Sleep for `delay_ms`, then try again; `retries` retries will then have been made.
    Retry { delay_ms: u64, retries: u32 },
    /// Stop and report the error.
    GiveUp { error: BotError },
}

/// The decision after a failed connection attempt, when `retries` retries were already made:
/// retry after 200 ms doubled once per earlier retry (200, 400, 800, 1600, 3200 ms), and give
/// up with `BusUnreachable` once five retries have failed.
pub fn after_connect_failure(service: ServiceName, retries: u32) -> (r: ConnectStep)
    ensures
        retries < CONNECT_RETRIES ==> r == (ConnectStep::Retry {
            delay_ms: doubling(CONNECT_BACKOFF_MS as nat, retries as nat) as u64,
            retries: (retries + 1) as u32,
        }),
        retries >= CONNECT_RETRIES ==> r == (ConnectStep::GiveUp {
            error: BotError::BusUnreachable { service, attempts: CONNECT_RETRIES },
        }),
{
    if retries < CONNECT_RETRIES {
        let delay_ms = saturating_doubling(CONNECT_BACKOFF_MS, retries);
        proof {
            reveal_with_fuel(doubling, 6);
        }
        ConnectStep::Retry { delay_ms, retries: retries + 1 }
    } else {
        ConnectStep::GiveUp {
            error: BotError::BusUnreachable { service, attempts: CONNECT_RETRIES },
        }
    }
}

/// What a HEAD request says of a forecast report.
#[derive(Clone, Copy, Debug, PartialEq, Eq, Structural)]
pub enum ReportState {
    Exists,
    DoesntExist,
    RateLimit,
    Error(u16),
}

impl ReportState {
    /// The state an HTTP status reports: 200 exists, 404 does not, 302 is a rate limit, any other
    /// status an error.
    pub fn from_status(status: u16) -> (r: ReportState)
        ensures
            status == 200 ==> r == ReportState::Exists,
            status == 404 ==> r == ReportState::DoesntExist,
            status == 302 ==> r == ReportState::RateLimit,
            status != 200 && status != 404 && status != 302 ==> r == ReportState::Error(status),
    {
        if status == 200 {
            ReportState::Exists
        } else if status == 404 {
            ReportState::DoesntExist
        } else if status == 302 {
            ReportState::RateLimit
        } else {
            ReportState::Error(status)
        }
    }
}

/// What the report poller does after one check.
#[derive(Debug, PartialEq, Eq)]
pub enum WaitStep {
    /// The report exists: stop waiting.
    Done,
    /// Sleep `secs` seconds and check again, with `retries` as the new rate-limit count.
    Sleep { secs: u64, retries: u32 },
    /// Stop and report the error.
    Fail { error: BotError },
}

/// The poller's decision after a check that found `state`, `retries` being the number of
/// rate-limited checks since the last one that found the report missing: a rate limit waits
/// 120 s doubled once per such check and counts one more; a missing report waits 60 s and
/// resets the count; an error fails at once.
pub fn after_report_check(state: ReportState, retries: u32) -> (r: WaitStep)
    ensures
        state == ReportState::Exists ==> r == WaitStep::Done,
        state == ReportState::RateLimit ==> r == (WaitStep::Sleep {
            secs: saturate(doubling(RATE_LIMIT_BACKOFF_SECS as nat, retries as nat)),
            retries: if retries == u32::MAX {
                u32::MAX
            } else {
                (retries + 1) as u32
            },
        }),
        state == ReportState::DoesntExist ==> r == (WaitStep::Sleep {
            secs: UNPUBLISHED_WAIT_SECS,
            retries: 0,
        }),
        state matches ReportState::Error(status) ==> r == (WaitStep::Fail {
            error: BotError::ReportHttpError { status },
        }),
{
    match state {
        ReportState::Exists => WaitStep::Done,
        ReportState::RateLimit => WaitStep::Sleep {
            secs: saturating_doubling(RATE_LIMIT_BACKOFF_SECS, retries),
            retries: if retries == u32::MAX {
                u32::MAX
            } else {
                retries + 1
            },
        },
        ReportState::DoesntExist => WaitStep::Sleep { secs: UNPUBLISHED_WAIT_SECS, retries: 0 },
        ReportState::Error(status) => WaitStep::Fail {
            error: BotError::ReportHttpError { status },
        },
    }
}

} // verus!
