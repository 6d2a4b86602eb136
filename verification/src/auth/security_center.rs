//! Security center: read-only aggregation of the account's security
//! posture with a deterministic score.

use vstd::prelude::*;
use crate::auth::events::{event_kind, event_metadata, kind_name, kind_severity, SecurityEvent, SecuritySeverity};
use crate::clock::{shift, shifted, Timestamp, MICROS_PER_DAY};

verus! {

/// Maximum number of security events exposed by the security center.
pub const SECURITY_CENTER_EVENT_LIMIT: usize = 10;

/// Password-change freshness window, in days.
pub const PASSWORD_RECENCY_DAYS: i64 = 90;

/// Maximum possible security posture score.
pub const SECURITY_SCORE_MAX: u8 = 100;

pub open spec fn severity_name(s: SecuritySeverity) -> Seq<char> {
    match s {
        SecuritySeverity::Info => "info"@,
        SecuritySeverity::Warning => "warning"@,
        SecuritySeverity::Critical => "critical"@,
    }
}

/// Client-safe summary of a security event: no identifiers, addresses or
/// user agents.
#[derive(Debug, Clone, PartialEq, Eq)]
pub struct EventSummary {
    pub event_type: String,
    pub occurred_at: Timestamp,
    pub severity: String,
}

/// `s` is the client-safe summary of `e`: its kind by name, its time and
/// its severity by name.
pub open spec fn summarizes(s: EventSummary, e: SecurityEvent) -> bool {
    &&& s.event_type@ == kind_name(event_kind(e))
    &&& s.occurred_at == event_metadata(e).timestamp
    &&& s.severity@ == severity_name(kind_severity(event_kind(e)))
}

impl EventSummary {
    pub fn from_event(event: &SecurityEvent) -> (r: Self)
        ensures
            r.event_type@ == kind_name(event_kind(*event)),
            r.occurred_at == event_metadata(*event).timestamp,
            r.severity@ == severity_name(kind_severity(event_kind(*event))),
    {
        let name = event.event_name();
        let severity = match event.severity() {
            SecuritySeverity::Info => "info",
            SecuritySeverity::Warning => "warning",
            SecuritySeverity::Critical => "critical",
        };
        EventSummary {
            event_type: name.to_owned(),
            occurred_at: event.timestamp(),
            severity: severity.to_owned(),
        }
    }
}

/// Input of the security posture calculation.
#[derive(Debug, Clone, Copy, PartialEq, Eq)]
pub struct SecurityScoreInput {
    pub email_verified: bool,
    pub two_factor_enabled: bool,
    pub has_backup_codes: bool,
    pub password_changed_recently: bool,
}

/// Verified e-mail 20, 2FA 35, backup codes 15, recent password change 30.
pub open spec fn security_score(input: SecurityScoreInput) -> int {
    (if input.email_verified {
        20int
    } else {
        0int
    }) + (if input.two_factor_enabled {
        35int
    } else {
        0int
    }) + (if input.has_backup_codes {
        15int
    } else {
        0int
    }) + (if input.password_changed_recently {
        30int
    } else {
        0int
    })
}

/// The account-security posture score, at most 100.
pub fn calculate_security_score(input: SecurityScoreInput) -> (r: u8)
    ensures
        r == security_score(input),
        r <= SECURITY_SCORE_MAX,
{
    let mut score: u16 = 0;
    if input.email_verified {
        score += 20;
    }
    if input.two_factor_enabled {
        score += 35;
    }
    if input.has_backup_codes {
        score += 15;
    }
    if input.password_changed_recently {
        score += 30;
    }
    let capped = if score < SECURITY_SCORE_MAX as u16 {
        score
    } else {
        SECURITY_SCORE_MAX as u16
    };
    capped as u8
}

/// A change is recent when it is not in the future and at most 90 days old.
pub open spec fn changed_recently(changed_at: Option<Timestamp>, now: Timestamp) -> bool {
    match changed_at {
        None => false,
        Some(c) => c <= now && c >= shifted(now, -(PASSWORD_RECENCY_DAYS * MICROS_PER_DAY)),
    }
}

/// Whether a password change falls inside the freshness window.
pub fn password_changed_recently(changed_at: Option<Timestamp>, now: Timestamp) -> (r: bool)
    ensures
        r == changed_recently(changed_at, now),
{
    let changed_at = match changed_at {
        Some(c) => c,
        None => return false,
    };
    if changed_at > now {
        return false;
    }
    changed_at >= shift(now, -(PASSWORD_RECENCY_DAYS * MICROS_PER_DAY))
}

/// Read-only security posture summary for the authenticated account.
#[derive(Debug, Clone, PartialEq, Eq)]
pub struct SecurityCenterResponse {
    pub email_verified: bool,
    pub two_factor_enabled: bool,
    pub backup_codes_remaining: usize,
    pub active_sessions: usize,
    pub password_changed_at: Option<Timestamp>,
    pub security_score: u8,
    pub recent_events: Vec<EventSummary>,
}

/// Assemble the security center view from the account's current state.
pub fn build_security_center(
    email_verified: bool,
    two_factor_enabled: bool,
    backup_codes_remaining: usize,
    active_sessions: usize,
    password_changed_at: Option<Timestamp>,
    recent: &Vec<SecurityEvent>,
    now: Timestamp,
) -> (r: SecurityCenterResponse)
    ensures
        r.email_verified == email_verified,
        r.two_factor_enabled == two_factor_enabled,
        r.backup_codes_remaining == backup_codes_remaining,
        r.active_sessions == active_sessions,
        r.password_changed_at == password_changed_at,
        r.security_score == security_score(
            SecurityScoreInput {
                email_verified,
                two_factor_enabled,
                has_backup_codes: backup_codes_remaining > 0,
                password_changed_recently: changed_recently(password_changed_at, now),
            },
        ),
        r.recent_events@.len() == recent@.len(),
        forall|i: int| 0 <= i < recent@.len() ==> summarizes(#[trigger] r.recent_events@[i], recent@[i]),
{
    let mut summaries: Vec<EventSummary> = Vec::new();
    let mut i: usize = 0;
    while i < recent.len()
        invariant
            i <= recent@.len(),
            summaries@.len() == i,
            forall|k: int| 0 <= k < i ==> summarizes(#[trigger] summaries@[k], recent@[k]),
        decreases recent@.len() - i,
    {
        summaries.push(EventSummary::from_event(&recent[i]));
        i = i + 1;
    }
    let recently = password_changed_recently(password_changed_at, now);
    let score = calculate_security_score(
        SecurityScoreInput {
            email_verified,
            two_factor_enabled,
            has_backup_codes: backup_codes_remaining > 0,
            password_changed_recently: recently,
        },
    );
    SecurityCenterResponse {
        email_verified,
        two_factor_enabled,
        backup_codes_remaining,
        active_sessions,
        password_changed_at,
        security_score: score,
        recent_events: summaries,
    }
}

} // verus!
