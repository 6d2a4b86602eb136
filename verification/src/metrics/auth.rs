use vstd::prelude::*;

verus! {

pub const LOGIN_SUCCESS_TOTAL: &'static str = "auth_login_success_total";
pub const LOGIN_FAILED_TOTAL: &'static str = "auth_login_failed_total";
pub const REGISTER_TOTAL: &'static str = "auth_register_total";
pub const ACTIVE_SESSIONS: &'static str = "auth_active_sessions";
pub const SESSION_CREATED_TOTAL: &'static str = "auth_session_created_total";
pub const SESSION_REVOKED_TOTAL: &'static str = "auth_session_revoked_total";
pub const SESSION_ROTATED_TOTAL: &'static str = "auth_session_rotated_total";
pub const LOGIN_DURATION_SECONDS: &'static str = "auth_login_duration_seconds";
pub const REGISTER_DURATION_SECONDS: &'static str = "auth_register_duration_seconds";
pub const ROTATE_DURATION_SECONDS: &'static str = "auth_rotate_duration_seconds";

} // verus!
