use vstd::prelude::*;

verus! {

pub const INVALID_PASSWORD_TOTAL: &'static str = "security_invalid_password_total";
pub const UNKNOWN_USER_TOTAL: &'static str = "security_unknown_user_total";
pub const ACCOUNT_DISABLED_TOTAL: &'static str = "security_account_disabled_total";

} // verus!
