//! When the statistics of a subject are told.
//!
//! Every change of a subject's counters asks for its statistics to be told after a short wait,
//! and pushes an earlier request for the same subject back, but never beyond the longest wait
//! counted from the first request.
use crate::decimal;
use crate::text;
use crate::types::{self, TnId};
use vstd::prelude::*;

verus! {

/// The shortest and the longest wait, in seconds, where the settings cannot be read.
pub const DEFAULT_WINDOW_SECS: i64 = 10;

pub const DEFAULT_MAX_WINDOW_SECS: i64 = 60;

/// The two waits, with the defaults for what could not be read.
pub fn read_coalesce_window(window: Option<i64>, max_window: Option<i64>) -> (r: (i64, i64))
    ensures
        r.0 == (match window {
            Some(w) => w,
            None => DEFAULT_WINDOW_SECS,
        }),
        r.1 == (match max_window {
            Some(w) => w,
            None => DEFAULT_MAX_WINDOW_SECS,
        }),
{
    let w: i64 = match window {
        Some(w) => w,
        None => DEFAULT_WINDOW_SECS,
    };
    let m: i64 = match max_window {
        Some(m) => m,
        None => DEFAULT_MAX_WINDOW_SECS,
    };
    (w, m)
}

/// The key under which the request for a subject is scheduled.
pub fn emit_key(tn_id: TnId, subject_id: &str) -> (r: String)
    ensures
        r@ == "stat.emit:"@ + decimal::decimal_text(tn_id.0 as nat) + ":"@ + subject_id@,
{
    let mut k = text::owned("stat.emit:");
    k.append(decimal::unsigned_to_text(tn_id.0 as u64).as_str());
    k.append(":");
    k.append(subject_id);
    k
}

/// The time of the first request in the current wait: that of the pending one, where it has one.
pub open spec fn first_request(pending: Option<i64>, now: i64) -> i64 {
    match pending {
        Some(t) => if t > 0 {
            t
        } else {
            now
        },
        None => now,
    }
}

/// The time at which the statistics are told.
pub open spec fn emit_time(first: i64, now: i64, window: i64, max_window: i64) -> int {
    let soon = types::saturating_sum(now as int, window as int);
    let latest = types::saturating_sum(first as int, max_window as int);
    if soon <= latest {
        soon
    } else {
        latest
    }
}

/// Schedules the statistics of a subject: the time of the first request, and the time at which
/// to tell them. `pending` is the time of the first request in a request already scheduled.
pub fn emit_schedule(pending: Option<i64>, now: i64, window: i64, max_window: i64) -> (r: (i64, i64))
    ensures
        r.0 == first_request(pending, now),
        r.1 == emit_time(r.0, now, window, max_window),
{
    let first: i64 = match pending {
        Some(t) => {
            if t > 0 {
                t
            } else {
                now
            }
        },
        None => now,
    };
    let soon: i64 = types::saturating_add(now, window);
    let latest: i64 = types::saturating_add(first, max_window);
    let at: i64 = if soon <= latest {
        soon
    } else {
        latest
    };
    (first, at)
}

/// However often the counters change, the statistics are told no later than the longest wait
/// after the first request, and a later request keeps the time of the first one.
pub proof fn law_bounded_deferral(
    pending: Option<i64>,
    now: i64,
    later: i64,
    window: i64,
    max_window: i64,
)
    requires
        first_request(pending, now) > 0,
    ensures
        emit_time(first_request(pending, now), now, window, max_window) <= types::saturating_sum(
            first_request(pending, now) as int,
            max_window as int,
        ),
        first_request(Some(first_request(pending, now)), later) == first_request(pending, now),
{
}

} // verus!
