use vstd::prelude::*;

verus! {

pub const READS_TOTAL: &'static str = "auth_storage_reads_total";
pub const WRITES_TOTAL: &'static str = "auth_storage_writes_total";
pub const ERRORS_TOTAL: &'static str = "auth_storage_errors_total";
pub const READ_DURATION_SECONDS: &'static str = "auth_storage_read_duration_seconds";
pub const WRITE_DURATION_SECONDS: &'static str = "auth_storage_write_duration_seconds";

} // verus!
