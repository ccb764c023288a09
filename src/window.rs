use vstd::prelude::*;
use crate::history::{BUCKET_SECS, NDAYS};

verus! {

/// Length of the lookback window in seconds.
pub const WINDOW_SECS: u64 = 3600 * 24 * NDAYS;

/// The aggregation asked of the backend: per domain, the maximum over the
/// matching probe series of the one-hour rolling average of probe success.
pub const UPTIME_QUERY: &'static str = "max(avg_over_time(probe_success{job=~\"xmppobserve:xmpps?-(client|server)\", domain=\"zombofant.net\"}[1h])) by (domain)";

/// End of the window: the current time floored to the start of its hour.
pub open spec fn window_end(now: int) -> int {
    now - now % (BUCKET_SECS as int)
}

/// Start of the window: `NDAYS` days before its end.
pub open spec fn window_start(now: int) -> int {
    window_end(now) - WINDOW_SECS
}

/// The window start is always on an hour boundary.
pub proof fn lemma_window_start_aligned(now: int)
    requires
        now >= 0,
    ensures
        window_start(now) % (BUCKET_SECS as int) == 0,
        window_end(now) % (BUCKET_SECS as int) == 0,
        window_end(now) - window_start(now) == (BUCKET_SECS as int) * 24 * (NDAYS as int),
{
    assert(window_end(now) % 3600 == 0) by (nonlinear_arith)
        requires
            now >= 0,
            window_end(now) == now - now % 3600,
    ;
    assert(window_start(now) % 3600 == 0) by (nonlinear_arith)
        requires
            window_end(now) % 3600 == 0,
            window_start(now) == window_end(now) - 3600 * 336,
    ;
}

/// The range `[t0, t1]` that is asked of the backend at time `now` (epoch
/// seconds).
pub fn query_window(now: u64) -> (r: (u64, u64))
    requires
        now >= WINDOW_SECS,
    ensures
        r.0 == window_start(now as int),
        r.1 == window_end(now as int),
{
    let t1: u64 = now - now % BUCKET_SECS;
    assert(t1 >= WINDOW_SECS) by (nonlinear_arith)
        requires
            now >= 1209600,
            t1 == now - now % 3600,
    ;
    let t0: u64 = t1 - WINDOW_SECS;
    (t0, t1)
}

/// The query expression, as an owned string.
pub fn uptime_query() -> (r: String)
    ensures
        r@ == UPTIME_QUERY@,
{
    String::from_str(UPTIME_QUERY)
}

} // verus!
