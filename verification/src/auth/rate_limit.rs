//! Brute-force protection for login and registration.
//!
//! Attempts are counted per client IP and per e-mail address in buckets
//! that open at the first attempt. A check refuses once a bucket has
//! reached its limit inside the tracking window, and locks it for one
//! window. Times are microseconds of a monotonic clock.

use vstd::prelude::*;
use crate::error::ApiError;
use crate::table::{KeyEq, Table};

verus! {

/// Microseconds of a monotonic clock.
pub type Instant = u64;

/// Rate limit configuration.
#[derive(Debug, Clone, Copy)]
pub struct RateLimitConfig {
    /// Maximum login attempts per IP in the tracking window.
    pub login_ip_limit: u32,
    /// Maximum login attempts per e-mail in the tracking window.
    pub login_email_limit: u32,
    /// Maximum registration attempts per IP in the tracking window.
    pub register_ip_limit: u32,
    /// Tracking window for login attempts, in microseconds.
    pub login_window: u64,
    /// Tracking window for registration attempts, in microseconds.
    pub register_window: u64,
}

/// Fifteen minutes in microseconds.
pub const FIFTEEN_MINUTES: u64 = 900_000_000;

impl Default for RateLimitConfig {
    fn default() -> (r: Self)
        ensures
            r.login_ip_limit == 20,
            r.login_email_limit == 5,
            r.register_ip_limit == 5,
            r.login_window == FIFTEEN_MINUTES,
            r.register_window == FIFTEEN_MINUTES,
    {
        RateLimitConfig {
            login_ip_limit: 20,
            login_email_limit: 5,
            register_ip_limit: 5,
            login_window: FIFTEEN_MINUTES,
            register_window: FIFTEEN_MINUTES,
        }
    }
}

/// Why a rate limit was triggered.
#[derive(Debug, Clone, Copy, PartialEq, Eq, Structural)]
pub enum RateLimitReason {
    LoginIp,
    LoginEmail,
    RegisterIp,
}

/// One rate-limit bucket: attempt count, first attempt, optional lock.
#[derive(Debug, Clone, Copy, PartialEq, Eq, Structural)]
pub struct AttemptBucket {
    pub count: u32,
    pub first_attempt: Instant,
    pub locked_until: Option<Instant>,
}

/// An empty bucket opened at `now`.
pub open spec fn fresh_bucket(now: Instant) -> AttemptBucket {
    AttemptBucket { count: 0, first_attempt: now, locked_until: None }
}

pub open spec fn bucket_locked(b: AttemptBucket, now: Instant) -> bool {
    b.locked_until matches Some(u) && now < u
}

/// Time since the first attempt (zero if the clock reads earlier) has
/// reached the window.
pub open spec fn bucket_elapsed(b: AttemptBucket, window: u64, now: Instant) -> bool {
    (if now >= b.first_attempt {
        now - b.first_attempt
    } else {
        0
    }) >= window
}

/// `a + b`, saturating at `u64::MAX`.
pub open spec fn sat_add(a: u64, b: u64) -> u64 {
    if a + b > u64::MAX {
        u64::MAX
    } else {
        (a + b) as u64
    }
}

/// One check on a bucket: the bucket afterwards and whether it passes.
pub open spec fn check_bucket(b: AttemptBucket, limit: u32, window: u64, now: Instant) -> (
    AttemptBucket,
    bool,
) {
    if b.locked_until matches Some(u) && now >= u {
        (fresh_bucket(now), true)
    } else if bucket_locked(b, now) {
        (b, false)
    } else if bucket_elapsed(b, window, now) {
        (fresh_bucket(now), true)
    } else if b.count >= limit {
        (AttemptBucket { locked_until: Some(sat_add(now, window)), ..b }, false)
    } else {
        (b, true)
    }
}

/// A bucket survives clean-up when it is neither locked nor past its window.
pub open spec fn bucket_kept(b: AttemptBucket, window: u64, now: Instant) -> bool {
    !bucket_locked(b, now) && !bucket_elapsed(b, window, now)
}

pub open spec fn cleaned(m: Map<Seq<char>, AttemptBucket>, window: u64, now: Instant) -> Map<
    Seq<char>,
    AttemptBucket,
> {
    Map::new(|k: Seq<char>| m.contains_key(k) && bucket_kept(m[k], window, now), |k: Seq<char>| m[k])
}

/// A check for `key`: stale buckets are dropped, the key's bucket (a fresh
/// one if missing) is checked and stored back.
pub open spec fn check_map(
    m: Map<Seq<char>, AttemptBucket>,
    key: Seq<char>,
    limit: u32,
    window: u64,
    now: Instant,
) -> (Map<Seq<char>, AttemptBucket>, bool) {
    let m1 = cleaned(m, window, now);
    let b = if m1.contains_key(key) {
        m1[key]
    } else {
        fresh_bucket(now)
    };
    let (b2, ok) = check_bucket(b, limit, window, now);
    (m1.insert(key, b2), ok)
}

/// `count + 1`, saturating at `u32::MAX`.
pub open spec fn bumped(b: AttemptBucket) -> AttemptBucket {
    AttemptBucket {
        count: if b.count == u32::MAX {
            u32::MAX
        } else {
            (b.count + 1) as u32
        },
        ..b
    }
}

/// Recording an attempt for `key` (opening its bucket at `now` if missing).
pub open spec fn attempt_map(m: Map<Seq<char>, AttemptBucket>, key: Seq<char>, now: Instant) -> Map<
    Seq<char>,
    AttemptBucket,
> {
    m.insert(
        key,
        bumped(
            if m.contains_key(key) {
                m[key]
            } else {
                fresh_bucket(now)
            },
        ),
    )
}

impl AttemptBucket {
    pub fn new(now: Instant) -> (r: Self)
        ensures
            r == fresh_bucket(now),
    {
        AttemptBucket { count: 0, first_attempt: now, locked_until: None }
    }

    pub fn record_attempt(&mut self)
        ensures
            *final(self) == bumped(*old(self)),
    {
        self.count = self.count.saturating_add(1);
    }

    pub fn reset(&mut self, now: Instant)
        ensures
            *final(self) == fresh_bucket(now),
    {
        self.count = 0;
        self.first_attempt = now;
        self.locked_until = None;
    }

    pub fn is_locked_at(&self, now: Instant) -> (r: bool)
        ensures
            r == bucket_locked(*self, now),
    {
        match self.locked_until {
            Some(until) => now < until,
            None => false,
        }
    }

    pub fn window_elapsed(&self, window: u64, now: Instant) -> (r: bool)
        ensures
            r == bucket_elapsed(*self, window, now),
    {
        let since = if now >= self.first_attempt {
            now - self.first_attempt
        } else {
            0
        };
        since >= window
    }

    /// Reset the bucket if its lock has run out; reports whether it did.
    pub fn unlock_if_expired(&mut self, now: Instant) -> (r: bool)
        ensures
            r == (old(self).locked_until matches Some(u) && now >= u),
            r ==> *final(self) == fresh_bucket(now),
            !r ==> *final(self) == *old(self),
    {
        if let Some(until) = self.locked_until {
            if now >= until {
                self.reset(now);
                return true;
            }
        }
        false
    }
}

fn check_one(b: AttemptBucket, limit: u32, window: u64, now: Instant) -> (r: (AttemptBucket, bool))
    ensures
        r == check_bucket(b, limit, window, now),
{
    let mut bucket = b;
    if bucket.unlock_if_expired(now) {
        return (bucket, true);
    }
    if bucket.is_locked_at(now) {
        return (bucket, false);
    }
    if bucket.window_elapsed(window, now) {
        bucket.reset(now);
        return (bucket, true);
    }
    if bucket.count >= limit {
        bucket.locked_until = Some(now.saturating_add(window));
        return (bucket, false);
    }
    (bucket, true)
}

/// Drop the buckets that are locked or past their window.
fn cleanup_expired(t: &Table<String, AttemptBucket>, window: u64, now: Instant) -> (r: Table<
    String,
    AttemptBucket,
>)
    requires
        t.wf(),
    ensures
        r.wf(),
        r.view() == cleaned(t.view(), window, now),
{
    let mut out: Table<String, AttemptBucket> = Table::new();
    let mut i: usize = 0;
    while i < t.len()
        invariant
            t.wf(),
            out.wf(),
            i <= t.entries().len(),
            forall|k: Seq<char>|
                #[trigger] out.view().contains_key(k) ==> t.view().contains_key(k) && bucket_kept(
                    t.view()[k],
                    window,
                    now,
                ) && out.view()[k] == t.view()[k],
            forall|j: int|
                0 <= j < i && bucket_kept(#[trigger] t.entries()[j].1, window, now)
                    ==> out.view().contains_key(t.entries()[j].0@),
        decreases t.entries().len() - i,
    {
        let entry = t.entry(i);
        proof {
            t.lemma_entry_in_view(i as int);
        }
        if entry.1.is_locked_at(now) || entry.1.window_elapsed(window, now) {
        } else {
            out.insert(entry.0.key_copy(), entry.1);
        }
        i = i + 1;
    }
    proof {
        assert forall|k: Seq<char>| #[trigger]
            out.view().contains_key(k) == cleaned(t.view(), window, now).contains_key(k) by {
            if t.view().contains_key(k) && bucket_kept(t.view()[k], window, now) {
                t.lemma_view_has_entry(k);
            }
        }
        assert(out.view() =~= cleaned(t.view(), window, now));
    }
    out
}

/// The check of `check_map`, on a table.
fn check_key(t: &mut Table<String, AttemptBucket>, key: &str, limit: u32, window: u64, now: Instant) -> (r: bool)
    requires
        old(t).wf(),
    ensures
        final(t).wf(),
        (final(t).view(), r) == check_map(old(t).view(), key@, limit, window, now),
{
    let cleaned_table = cleanup_expired(t, window, now);
    *t = cleaned_table;
    let k = key.to_owned();
    let b = match t.get(&k) {
        Some(b) => *b,
        None => AttemptBucket::new(now),
    };
    let (b2, ok) = check_one(b, limit, window, now);
    t.insert(k, b2);
    ok
}

/// Record one attempt for `key`.
fn attempt_key(t: &mut Table<String, AttemptBucket>, key: &str, now: Instant)
    requires
        old(t).wf(),
    ensures
        final(t).wf(),
        final(t).view() == attempt_map(old(t).view(), key@, now),
{
    let k = key.to_owned();
    let mut b = match t.get(&k) {
        Some(b) => *b,
        None => AttemptBucket::new(now),
    };
    b.record_attempt();
    t.insert(k, b);
}

/// Transport-agnostic login rate limiter: every entry point (HTTP, CLI, ...)
/// shares one instance. `inv` is the implementation's own invariant.
pub trait LoginRateLimiter {
    spec fn inv(&self) -> bool;

    fn check_login_ip(&mut self, ip: &str, now: Instant) -> (r: Result<(), ApiError>)
        requires
            old(self).inv(),
        ensures
            final(self).inv(),
            r is Err ==> (r matches Err(e) && e == ApiError::RateLimited),
    ;

    fn check_login_email(&mut self, email: &str, now: Instant) -> (r: Result<(), ApiError>)
        requires
            old(self).inv(),
        ensures
            final(self).inv(),
            r is Err ==> (r matches Err(e) && e == ApiError::RateLimited),
    ;

    fn record_login_failure(&mut self, ip: &str, email: &str, now: Instant)
        requires
            old(self).inv(),
        ensures
            final(self).inv(),
    ;

    fn record_login_success(&mut self, ip: &str, email: &str)
        requires
            old(self).inv(),
        ensures
            final(self).inv(),
    ;

    fn check_register_ip(&mut self, ip: &str, now: Instant) -> (r: Result<(), ApiError>)
        requires
            old(self).inv(),
        ensures
            final(self).inv(),
            r is Err ==> (r matches Err(e) && e == ApiError::RateLimited),
    ;

    fn record_successful_registration(&mut self, ip: &str, now: Instant)
        requires
            old(self).inv(),
        ensures
            final(self).inv(),
    ;
}

/// In-memory rate limiter.
pub struct InMemoryRateLimiter {
    login_ip: Table<String, AttemptBucket>,
    login_email: Table<String, AttemptBucket>,
    register_ip: Table<String, AttemptBucket>,
    config: RateLimitConfig,
}

impl InMemoryRateLimiter {
    pub closed spec fn wf(&self) -> bool {
        self.login_ip.wf() && self.login_email.wf() && self.register_ip.wf()
    }

    /// Login buckets by client IP.
    pub closed spec fn login_ip_buckets(&self) -> Map<Seq<char>, AttemptBucket> {
        self.login_ip.view()
    }

    /// Login buckets by e-mail address.
    pub closed spec fn login_email_buckets(&self) -> Map<Seq<char>, AttemptBucket> {
        self.login_email.view()
    }

    /// Registration buckets by client IP.
    pub closed spec fn register_ip_buckets(&self) -> Map<Seq<char>, AttemptBucket> {
        self.register_ip.view()
    }

    pub closed spec fn config(&self) -> RateLimitConfig {
        self.config
    }

    pub fn new(config: RateLimitConfig) -> (r: Self)
        ensures
            r.wf(),
            r.config() == config,
            r.login_ip_buckets().dom() == Set::<Seq<char>>::empty(),
            r.login_email_buckets().dom() == Set::<Seq<char>>::empty(),
            r.register_ip_buckets().dom() == Set::<Seq<char>>::empty(),
    {
        InMemoryRateLimiter {
            login_ip: Table::new(),
            login_email: Table::new(),
            register_ip: Table::new(),
            config,
        }
    }

    /// The limiter with the default configuration.
    pub fn with_defaults() -> (r: Self)
        ensures
            r.wf(),
            r.config().login_ip_limit == 20,
            r.config().login_email_limit == 5,
            r.config().register_ip_limit == 5,
            r.config().login_window == FIFTEEN_MINUTES,
            r.config().register_window == FIFTEEN_MINUTES,
            r.login_ip_buckets().dom() == Set::<Seq<char>>::empty(),
            r.login_email_buckets().dom() == Set::<Seq<char>>::empty(),
            r.register_ip_buckets().dom() == Set::<Seq<char>>::empty(),
    {
        InMemoryRateLimiter::new(RateLimitConfig::default())
    }

}

impl LoginRateLimiter for InMemoryRateLimiter {
    open spec fn inv(&self) -> bool {
        self.wf()
    }

    fn check_login_ip(&mut self, ip: &str, now: Instant) -> (r: Result<(), ApiError>)
        ensures
            final(self).wf(),
            final(self).config() == old(self).config(),
            final(self).login_email_buckets() == old(self).login_email_buckets(),
            final(self).register_ip_buckets() == old(self).register_ip_buckets(),
            ({
                let (m, ok) = check_map(
                    old(self).login_ip_buckets(),
                    ip@,
                    old(self).config().login_ip_limit,
                    old(self).config().login_window,
                    now,
                );
                &&& final(self).login_ip_buckets() == m
                &&& ok ==> r is Ok
                &&& !ok ==> (r matches Err(e) && e == ApiError::RateLimited)
            }),
    {
        let limit = self.config.login_ip_limit;
        let window = self.config.login_window;
        if check_key(&mut self.login_ip, ip, limit, window, now) {
            Ok(())
        } else {
            Err(ApiError::RateLimited)
        }
    }

    fn check_login_email(&mut self, email: &str, now: Instant) -> (r: Result<(), ApiError>)
        ensures
            final(self).wf(),
            final(self).config() == old(self).config(),
            final(self).login_ip_buckets() == old(self).login_ip_buckets(),
            final(self).register_ip_buckets() == old(self).register_ip_buckets(),
            ({
                let (m, ok) = check_map(
                    old(self).login_email_buckets(),
                    email@,
                    old(self).config().login_email_limit,
                    old(self).config().login_window,
                    now,
                );
                &&& final(self).login_email_buckets() == m
                &&& ok ==> r is Ok
                &&& !ok ==> (r matches Err(e) && e == ApiError::RateLimited)
            }),
    {
        let limit = self.config.login_email_limit;
        let window = self.config.login_window;
        if check_key(&mut self.login_email, email, limit, window, now) {
            Ok(())
        } else {
            Err(ApiError::RateLimited)
        }
    }

    /// Count a failed login against both the IP and the e-mail address.
    fn record_login_failure(&mut self, ip: &str, email: &str, now: Instant)
        ensures
            final(self).wf(),
            final(self).config() == old(self).config(),
            final(self).login_ip_buckets() == attempt_map(old(self).login_ip_buckets(), ip@, now),
            final(self).login_email_buckets() == attempt_map(
                old(self).login_email_buckets(),
                email@,
                now,
            ),
            final(self).register_ip_buckets() == old(self).register_ip_buckets(),
    {
        attempt_key(&mut self.login_ip, ip, now);
        attempt_key(&mut self.login_email, email, now);
    }

    /// A successful login clears the IP and e-mail buckets.
    fn record_login_success(&mut self, ip: &str, email: &str)
        ensures
            final(self).wf(),
            final(self).config() == old(self).config(),
            final(self).login_ip_buckets() == old(self).login_ip_buckets().remove(ip@),
            final(self).login_email_buckets() == old(self).login_email_buckets().remove(email@),
            final(self).register_ip_buckets() == old(self).register_ip_buckets(),
    {
        let ip_key = ip.to_owned();
        let _ = self.login_ip.remove(&ip_key);
        let email_key = email.to_owned();
        let _ = self.login_email.remove(&email_key);
    }

    fn check_register_ip(&mut self, ip: &str, now: Instant) -> (r: Result<(), ApiError>)
        ensures
            final(self).wf(),
            final(self).config() == old(self).config(),
            final(self).login_ip_buckets() == old(self).login_ip_buckets(),
            final(self).login_email_buckets() == old(self).login_email_buckets(),
            ({
                let (m, ok) = check_map(
                    old(self).register_ip_buckets(),
                    ip@,
                    old(self).config().register_ip_limit,
                    old(self).config().register_window,
                    now,
                );
                &&& final(self).register_ip_buckets() == m
                &&& ok ==> r is Ok
                &&& !ok ==> (r matches Err(e) && e == ApiError::RateLimited)
            }),
    {
        let limit = self.config.register_ip_limit;
        let window = self.config.register_window;
        if check_key(&mut self.register_ip, ip, limit, window, now) {
            Ok(())
        } else {
            Err(ApiError::RateLimited)
        }
    }

    /// Count a successful registration against the IP.
    fn record_successful_registration(&mut self, ip: &str, now: Instant)
        ensures
            final(self).wf(),
            final(self).config() == old(self).config(),
            final(self).register_ip_buckets() == attempt_map(old(self).register_ip_buckets(), ip@, now),
            final(self).login_ip_buckets() == old(self).login_ip_buckets(),
            final(self).login_email_buckets() == old(self).login_email_buckets(),
    {
        attempt_key(&mut self.register_ip, ip, now);
    }
}

/// The bucket of `key` after a run of attempts at the given times, starting
/// from map `m`.
pub open spec fn after_attempts(m: Map<Seq<char>, AttemptBucket>, key: Seq<char>, times: Seq<Instant>) -> Map<
    Seq<char>,
    AttemptBucket,
>
    decreases times.len(),
{
    if times.len() == 0 {
        m
    } else {
        attempt_map(after_attempts(m, key, times.drop_last()), key, times.last())
    }
}

proof fn lemma_after_attempts(m: Map<Seq<char>, AttemptBucket>, key: Seq<char>, times: Seq<Instant>)
    requires
        !m.contains_key(key),
        times.len() > 0,
        times.len() < u32::MAX,
    ensures
        after_attempts(m, key, times).contains_key(key),
        after_attempts(m, key, times)[key] == (AttemptBucket {
            count: times.len() as u32,
            first_attempt: times[0],
            locked_until: None,
        }),
    decreases times.len(),
{
    let prev = after_attempts(m, key, times.drop_last());
    if times.len() > 1 {
        lemma_after_attempts(m, key, times.drop_last());
        assert(times.drop_last()[0] == times[0]);
        assert(prev[key].count == times.len() - 1);
    } else {
        assert(prev == m);
    }
}

/// Lockout: once `limit` failures (and at least one) have been recorded
/// for a key that had no bucket, a check inside the window that opened at
/// the first failure is refused.
pub proof fn law_limit_enforced(
    m: Map<Seq<char>, AttemptBucket>,
    key: Seq<char>,
    limit: u32,
    window: u64,
    times: Seq<Instant>,
    now: Instant,
)
    requires
        !m.contains_key(key),
        times.len() > 0,
        times.len() >= limit,
        times.len() < u32::MAX,
        times[0] <= now,
        now - times[0] < window,
    ensures
        !check_map(after_attempts(m, key, times), key, limit, window, now).1,
{
    lemma_after_attempts(m, key, times);
}

/// Below the limit, inside the window, a check for a key with a bucket
/// passes.
pub proof fn law_below_limit_passes(
    m: Map<Seq<char>, AttemptBucket>,
    key: Seq<char>,
    limit: u32,
    window: u64,
    times: Seq<Instant>,
    now: Instant,
)
    requires
        !m.contains_key(key),
        times.len() > 0,
        times.len() < limit,
        times[0] <= now,
        now - times[0] < window,
    ensures
        check_map(after_attempts(m, key, times), key, limit, window, now).1,
{
    lemma_after_attempts(m, key, times);
}

/// A cleared key passes its next check (for any positive limit).
pub proof fn law_cleared_key_passes(
    m: Map<Seq<char>, AttemptBucket>,
    key: Seq<char>,
    limit: u32,
    window: u64,
    now: Instant,
)
    requires
        limit > 0,
    ensures
        check_map(m.remove(key), key, limit, window, now).1,
{
}

} // verus!
