use vstd::prelude::*;

verus! {

pub const EVENTS_WRITTEN_TOTAL: &'static str = "audit_events_written_total";
pub const EVENTS_FAILED_TOTAL: &'static str = "audit_events_failed_total";
pub const WRITE_DURATION_SECONDS: &'static str = "audit_write_duration_seconds";

} // verus!
