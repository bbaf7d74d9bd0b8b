//! Health of the back end.

use vstd::prelude::*;
use crate::clock::{ClockReading, read_clock};

verus! {

#[derive(Debug, Clone)]
pub struct HealthResponse {
    pub status: String,
    pub kuzu_connected: bool,
    pub qdrant_connected: bool,
    pub timestamp: i64,
}

/// The health report at time `now`: the back end is up, with neither store
/// connected.
pub fn health_response(now: i64) -> (r: HealthResponse)
    ensures
        r.status@ == "ok"@,
        !r.kuzu_connected,
        !r.qdrant_connected,
        r.timestamp == now,
{
    HealthResponse {
        status: String::from_str("ok"),
        kuzu_connected: false,
        qdrant_connected: false,
        timestamp: now,
    }
}

/// The health report now, stamped with the time of the call read from the
/// clock.
pub fn health_check() -> (r: Result<HealthResponse, String>)
    ensures
        r matches Ok(h) && h.status@ == "ok"@ && !h.kuzu_connected && !h.qdrant_connected
            && h.timestamp >= 0,
        r matches Ok(h) && exists|t: ClockReading| #[trigger] t.spec_millis() == h.timestamp,
{
    let t = read_clock();
    let h = health_response(t.millis());
    assert(t.spec_millis() == h.timestamp);
    Ok(h)
}

} // verus!
