//! The security event log: its storage trait and the in-memory backend.
//!
//! Events are appended in arrival order; queries answer newest first.

use vstd::prelude::*;
use crate::auth::events::{event_kind, event_user, SecurityEvent, SecurityEventKind, SecurityEventRecord};
use crate::clock::{Id, Timestamp};
use crate::error::ApiError;

verus! {

/// Which records a query selects.
#[derive(Clone, Copy)]
pub enum EventFilter {
    All,
    User(Id),
    Kind(SecurityEventKind),
    Since(Timestamp),
    UserKind(Id, SecurityEventKind),
}

pub open spec fn selects(f: EventFilter, r: SecurityEventRecord) -> bool {
    match f {
        EventFilter::All => true,
        EventFilter::User(u) => event_user(r.event) == Some(u),
        EventFilter::Kind(k) => event_kind(r.event) == k,
        EventFilter::Since(t) => r.timestamp >= t,
        EventFilter::UserKind(u, k) => event_user(r.event) == Some(u) && event_kind(r.event) == k,
    }
}

/// The events of at most `limit` selected records, newest first.
pub open spec fn newest_selected(rs: Seq<SecurityEventRecord>, f: EventFilter, limit: nat) -> Seq<
    SecurityEvent,
>
    decreases rs.len(),
{
    if rs.len() == 0 || limit == 0 {
        Seq::empty()
    } else if selects(f, rs.last()) {
        seq![rs.last().event] + newest_selected(rs.drop_last(), f, (limit - 1) as nat)
    } else {
        newest_selected(rs.drop_last(), f, limit)
    }
}

/// The records stamped at or after `t`, in their order.
pub open spec fn kept_since(rs: Seq<SecurityEventRecord>, t: Timestamp) -> Seq<SecurityEventRecord>
    decreases rs.len(),
{
    if rs.len() == 0 {
        Seq::empty()
    } else if rs.last().timestamp >= t {
        kept_since(rs.drop_last(), t).push(rs.last())
    } else {
        kept_since(rs.drop_last(), t)
    }
}

/// Pruning keeps exactly the records stamped at or after the cut, in their
/// order: none older remains, and none at or after it is lost.
pub proof fn law_prune_keeps_recent(rs: Seq<SecurityEventRecord>, t: Timestamp)
    ensures
        forall|i: int| 0 <= i < kept_since(rs, t).len() ==> (#[trigger] kept_since(rs, t)[i]).timestamp >= t,
        forall|i: int| 0 <= i < rs.len() && (#[trigger] rs[i]).timestamp >= t ==> kept_since(rs, t).contains(rs[i]),
        forall|r: SecurityEventRecord| #[trigger] kept_since(rs, t).contains(r) ==> rs.contains(r),
    decreases rs.len(),
{
    if rs.len() > 0 {
        let init = rs.drop_last();
        law_prune_keeps_recent(init, t);
        let k = kept_since(init, t);
        assert forall|i: int| 0 <= i < rs.len() && (#[trigger] rs[i]).timestamp >= t implies kept_since(
            rs,
            t,
        ).contains(rs[i]) by {
            if i < rs.len() - 1 {
                assert(init[i] == rs[i]);
                let j = choose|j: int| 0 <= j < k.len() && k[j] == rs[i];
                if rs.last().timestamp >= t {
                    assert(kept_since(rs, t)[j] == rs[i]);
                }
            } else {
                assert(kept_since(rs, t).last() == rs[i]);
            }
        }
        assert forall|r: SecurityEventRecord| #[trigger] kept_since(rs, t).contains(r) implies rs.contains(r) by {
            let j = choose|j: int| 0 <= j < kept_since(rs, t).len() && kept_since(rs, t)[j] == r;
            if j < k.len() {
                assert(k.contains(r));
                let m = choose|m: int| 0 <= m < init.len() && init[m] == r;
                assert(rs[m] == r);
            } else {
                assert(rs[rs.len() - 1] == r);
            }
        }
    }
}

proof fn lemma_newest_selected_len(rs: Seq<SecurityEventRecord>, f: EventFilter, limit: nat)
    ensures
        newest_selected(rs, f, limit).len() <= limit,
    decreases rs.len(),
{
    if rs.len() > 0 && limit > 0 {
        if selects(f, rs.last()) {
            lemma_newest_selected_len(rs.drop_last(), f, (limit - 1) as nat);
        } else {
            lemma_newest_selected_len(rs.drop_last(), f, limit);
        }
    }
}

proof fn lemma_kept_since_len(rs: Seq<SecurityEventRecord>, t: Timestamp)
    ensures
        kept_since(rs, t).len() <= rs.len(),
    decreases rs.len(),
{
    if rs.len() > 0 {
        lemma_kept_since_len(rs.drop_last(), t);
    }
}

/// `after` is `before` with one record of `event` appended, stamped with
/// the event's own time.
pub open spec fn appended(before: Seq<SecurityEventRecord>, after: Seq<SecurityEventRecord>, event: SecurityEvent) -> bool {
    &&& after.len() == before.len() + 1
    &&& after.drop_last() == before
    &&& after.last().event == event
    &&& after.last().timestamp == crate::auth::events::event_metadata(event).timestamp
}

/// Storage of the security audit log. Queries answer newest first.
pub trait SecurityEventStorage: Send + Sync {
    /// The stored records, oldest first.
    spec fn records(&self) -> Seq<SecurityEventRecord>;

    /// The backend never fails.
    spec fn infallible(&self) -> bool;

    /// Append an event, wrapped in a record with a fresh id.
    fn record_event(&mut self, event: SecurityEvent) -> (r: Result<(), ApiError>)
        ensures
            final(self).infallible() == old(self).infallible(),
            r is Ok ==> appended(old(self).records(), final(self).records(), event),
            r is Err ==> final(self).records() == old(self).records(),
            old(self).infallible() ==> r is Ok,
    ;

    /// Events about a user, newest first, at most `limit`.
    fn get_events_for_user(&self, user_id: Id, limit: usize) -> (r: Result<Vec<SecurityEvent>, ApiError>)
        ensures
            r matches Ok(v) ==> v@ == newest_selected(self.records(), EventFilter::User(user_id), limit as nat),
            self.infallible() ==> r is Ok,
    ;

    /// Events of one kind, newest first, at most `limit`.
    fn get_events_by_type(&self, event_kind: SecurityEventKind, limit: usize) -> (r: Result<
        Vec<SecurityEvent>,
        ApiError,
    >)
        ensures
            r matches Ok(v) ==> v@ == newest_selected(self.records(), EventFilter::Kind(event_kind), limit as nat),
            self.infallible() ==> r is Ok,
    ;

    /// The latest events, newest first, at most `limit`.
    fn get_recent_events(&self, limit: usize) -> (r: Result<Vec<SecurityEvent>, ApiError>)
        ensures
            r matches Ok(v) ==> v@ == newest_selected(self.records(), EventFilter::All, limit as nat),
            self.infallible() ==> r is Ok,
    ;

    /// Events stamped at or after `timestamp`, newest first, at most `limit`.
    fn get_events_since(&self, timestamp: Timestamp, limit: usize) -> (r: Result<Vec<SecurityEvent>, ApiError>)
        ensures
            r matches Ok(v) ==> v@ == newest_selected(self.records(), EventFilter::Since(timestamp), limit as nat),
            self.infallible() ==> r is Ok,
    ;

    /// The newest event of one kind about a user, if any.
    fn get_latest_event_for_user(&self, user_id: Id, event_kind: SecurityEventKind) -> (r: Result<
        Option<SecurityEvent>,
        ApiError,
    >)
        ensures
            r matches Ok(o) ==> {
                let sel = newest_selected(self.records(), EventFilter::UserKind(user_id, event_kind), 1);
                match o {
                    Some(e) => sel.len() == 1 && sel[0] == e,
                    None => sel.len() == 0,
                }
            },
            self.infallible() ==> r is Ok,
    ;

    /// Drop the records stamped before `timestamp`; returns how many went.
    fn prune_before(&mut self, timestamp: Timestamp) -> (r: Result<usize, ApiError>)
        ensures
            final(self).infallible() == old(self).infallible(),
            r matches Ok(n) ==> final(self).records() == kept_since(old(self).records(), timestamp) && n
                == old(self).records().len() - final(self).records().len(),
            r is Err ==> final(self).records() == old(self).records(),
            old(self).infallible() ==> r is Ok,
    ;

    /// Write out anything buffered.
    fn flush(&self) -> (r: Result<(), ApiError>)
        ensures
            self.infallible() ==> r is Ok,
    ;
}

/// In-memory security event storage for development and tests.
pub struct InMemorySecurityEventStorage {
    events: Vec<SecurityEventRecord>,
}

impl InMemorySecurityEventStorage {
    pub fn new() -> (r: Self)
        ensures
            r.records() == Seq::<SecurityEventRecord>::empty(),
    {
        InMemorySecurityEventStorage { events: Vec::new() }
    }

    pub fn event_count(&self) -> (r: usize)
        ensures
            r == self.records().len(),
    {
        self.events.len()
    }

    fn newest(&self, filter: EventFilter, limit: usize) -> (r: Vec<SecurityEvent>)
        ensures
            r@ == newest_selected(self.records(), filter, limit as nat),
    {
        let mut out: Vec<SecurityEvent> = Vec::new();
        let mut i: usize = self.events.len();
        let ghost rs = self.events@;
        assert(rs.take(rs.len() as int) =~= rs);
        while i > 0 && out.len() < limit
            invariant
                rs == self.events@,
                i <= rs.len(),
                out@.len() <= limit,
                out@ + newest_selected(rs.take(i as int), filter, (limit - out@.len()) as nat)
                    == newest_selected(rs, filter, limit as nat),
            decreases i,
        {
            let record = &self.events[i - 1];
            let ghost pre = rs.take(i as int);
            assert(pre.drop_last() =~= rs.take(i - 1));
            assert(pre.last() == *record);
            let hit = match filter {
                EventFilter::All => true,
                EventFilter::User(u) => match record.event.user_id() {
                    Some(v) => v == u,
                    None => false,
                },
                EventFilter::Kind(k) => record.event.kind() == k,
                EventFilter::Since(t) => record.timestamp >= t,
                EventFilter::UserKind(u, k) => record.event.kind() == k && match record.event.user_id() {
                    Some(v) => v == u,
                    None => false,
                },
            };
            assert(hit == selects(filter, *record));
            if hit {
                let e = record.event.copy();
                let ghost before = out@;
                out.push(e);
                assert(out@ =~= before + seq![record.event]);
                assert(before + seq![record.event] + newest_selected(
                    rs.take(i - 1),
                    filter,
                    (limit - out@.len()) as nat,
                ) =~= before + (seq![record.event] + newest_selected(
                    rs.take(i - 1),
                    filter,
                    (limit - out@.len()) as nat,
                )));
            }
            i = i - 1;
        }
        proof {
            let k = (limit - out@.len()) as nat;
            if i == 0 {
                assert(rs.take(0).len() == 0);
            }
            assert(newest_selected(rs.take(i as int), filter, k) == Seq::<SecurityEvent>::empty()
                || k > 0);
            assert(out@ + Seq::<SecurityEvent>::empty() =~= out@);
        }
        out
    }

}

impl SecurityEventStorage for InMemorySecurityEventStorage {
    closed spec fn records(&self) -> Seq<SecurityEventRecord> {
        self.events@
    }

    open spec fn infallible(&self) -> bool {
        true
    }

    fn record_event(&mut self, event: SecurityEvent) -> (r: Result<(), ApiError>) {
        let record = SecurityEventRecord::new(event);
        self.events.push(record);
        assert(self.events@.drop_last() =~= old(self).events@);
        Ok(())
    }

    /// Events about a user, newest first, at most `limit`.
    fn get_events_for_user(&self, user_id: Id, limit: usize) -> (r: Result<Vec<SecurityEvent>, ApiError>) {
        Ok(self.newest(EventFilter::User(user_id), limit))
    }

    /// Events of one kind, newest first, at most `limit`.
    fn get_events_by_type(&self, event_kind: SecurityEventKind, limit: usize) -> (r: Result<
        Vec<SecurityEvent>,
        ApiError,
    >) {
        Ok(self.newest(EventFilter::Kind(event_kind), limit))
    }

    /// The latest events, newest first, at most `limit`.
    fn get_recent_events(&self, limit: usize) -> (r: Result<Vec<SecurityEvent>, ApiError>) {
        Ok(self.newest(EventFilter::All, limit))
    }

    /// Events stamped at or after `timestamp`, newest first, at most `limit`.
    fn get_events_since(&self, timestamp: Timestamp, limit: usize) -> (r: Result<Vec<SecurityEvent>, ApiError>) {
        Ok(self.newest(EventFilter::Since(timestamp), limit))
    }

    /// The newest event of one kind about a user, if any.
    fn get_latest_event_for_user(&self, user_id: Id, event_kind: SecurityEventKind) -> (r: Result<
        Option<SecurityEvent>,
        ApiError,
    >) {
        let mut v = self.newest(EventFilter::UserKind(user_id, event_kind), 1);
        proof {
            lemma_newest_selected_len(self.records(), EventFilter::UserKind(user_id, event_kind), 1);
        }
        Ok(v.pop())
    }

    /// Drop the records stamped before `timestamp`; returns how many went.
    fn prune_before(&mut self, timestamp: Timestamp) -> (r: Result<usize, ApiError>) {
        let mut kept: Vec<SecurityEventRecord> = Vec::new();
        let n = self.events.len();
        let mut i: usize = 0;
        let ghost rs = self.events@;
        while i < n
            invariant
                rs == self.events@,
                n == rs.len(),
                i <= n,
                kept@ == kept_since(rs.take(i as int), timestamp),
            decreases n - i,
        {
            assert(rs.take(i + 1).drop_last() =~= rs.take(i as int));
            if self.events[i].timestamp >= timestamp {
                let r = SecurityEventRecord {
                    id: self.events[i].id,
                    timestamp: self.events[i].timestamp,
                    event: self.events[i].event.copy(),
                };
                kept.push(r);
            }
            i = i + 1;
        }
        assert(rs.take(n as int) =~= rs);
        proof {
            lemma_kept_since_len(rs, timestamp);
        }
        let pruned = n - kept.len();
        self.events = kept;
        Ok(pruned)
    }

    /// Nothing is buffered: flushing always succeeds.
    fn flush(&self) -> (r: Result<(), ApiError>) {
        Ok(())
    }
}

} // verus!
