use vstd::prelude::*;

verus! {

/// Milliseconds still to wait, at `now_ms`, before a run due at `fire_at_ms`
/// (both since the Unix epoch): none once the time has come.
pub open spec fn spec_wait_millis(now_ms: int, fire_at_ms: int) -> int {
    if fire_at_ms > now_ms {
        fire_at_ms - now_ms
    } else {
        0
    }
}

/// How long to sleep, at `now_ms`, before a run due at `fire_at_ms`: one
/// computed wait per scheduled run, rather than polling for it.
pub fn wait_millis(now_ms: i64, fire_at_ms: i64) -> (r: u64)
    ensures
        r as int == spec_wait_millis(now_ms as int, fire_at_ms as int),
{
    if fire_at_ms > now_ms {
        (fire_at_ms as i128 - now_ms as i128) as u64
    } else {
        0
    }
}

} // verus!
