use vstd::prelude::*;

verus! {

pub const LOGIN_RATE_LIMITED_TOTAL: &'static str = "auth_login_rate_limited_total";
pub const REGISTER_RATE_LIMITED_TOTAL: &'static str = "auth_register_rate_limited_total";

} // verus!
