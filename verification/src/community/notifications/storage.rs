//! Notification storage: idempotent creation, paginated listing, the
//! unread index and mark-as-read.
//!
//! The idempotency identity of a notification is
//! `(user_id, kind, sha256(source_id))`. Listing order is
//! `created_at DESC, id DESC`.

use vstd::prelude::*;
use crate::clock::{Id, Timestamp};
use crate::community::notifications::models::{
    CreateNotificationResult, Notification, NotificationCursor, NotificationKind, NotificationPage,
};
use crate::crypto::{hex_encode, hex_lower, sha256, sha256_digest};
use crate::error::ApiError;
use crate::table::{KeyEq, Table};

verus! {

/// Length of the lowercase hex SHA-256 digest used to key source ids.
pub const SOURCE_HASH_HEX_LEN: usize = 64;

/// The lowercase hex SHA-256 digest of a source id's UTF-8 bytes.
pub open spec fn source_hash(source_id: Seq<char>) -> Seq<char> {
    hex_lower(sha256_digest(vstd::utf8::encode_utf8(source_id)))
}

/// Compute the key under which a source id is remembered.
pub fn hash_source_id(source_id: &str) -> (r: String)
    ensures
        r@ == source_hash(source_id@),
{
    let digest = sha256(source_id.as_bytes());
    hex_encode(&digest)
}

/// Where a notification is filed: owner and id.
pub open spec fn note_key(n: Notification) -> (Id, Id) {
    (n.user_id, n.id)
}

/// The idempotency identity of a notification emitted for `source_id`.
pub open spec fn idempotency_key(n: Notification, source_id: Seq<char>) -> (
    Id,
    NotificationKind,
    Seq<char>,
) {
    (n.user_id, n.kind, source_hash(source_id))
}

/// The stored state: notifications by (owner, id), the idempotency index
/// and the unread index.
pub struct NotificationState {
    pub notes: Map<(Id, Id), Notification>,
    pub idem: Map<(Id, NotificationKind, Seq<char>), Id>,
    pub unread: Set<(Id, Id)>,
}

/// Every state reachable from the empty one: notifications are filed
/// under their own (owner, id), the idempotency index points at stored
/// notifications of the same owner, and the unread index holds stored keys.
pub open spec fn state_ok(s: NotificationState) -> bool {
    &&& forall|k: (Id, Id)| #[trigger] s.notes.contains_key(k) ==> note_key(s.notes[k]) == k
    &&& forall|ik: (Id, NotificationKind, Seq<char>)| #[trigger]
        s.idem.contains_key(ik) ==> s.notes.contains_key((ik.0, s.idem[ik]))
    &&& forall|k: (Id, Id)| #[trigger] s.unread.contains(k) ==> s.notes.contains_key(k)
}

/// One idempotent create: a repeat of a known identity returns the stored
/// notification and changes nothing; a new identity stores the
/// notification, remembers its identity and marks it unread.
pub open spec fn create_step(s: NotificationState, n: Notification, source_id: Seq<char>) -> (
    NotificationState,
    Result<CreateNotificationResult, ApiError>,
) {
    let ik = idempotency_key(n, source_id);
    if s.idem.contains_key(ik) {
        let k = (n.user_id, s.idem[ik]);
        if s.notes.contains_key(k) {
            (s, Ok(CreateNotificationResult::AlreadyExists(s.notes[k])))
        } else {
            (s, Err(ApiError::Internal))
        }
    } else {
        (
            NotificationState {
                notes: s.notes.insert(note_key(n), n),
                idem: s.idem.insert(ik, n.id),
                unread: s.unread.insert(note_key(n)),
            },
            Ok(CreateNotificationResult::Created(n)),
        )
    }
}

/// Mark-as-read of `(user_id, id)` at `now`: the first call sets
/// `read_at` and leaves the unread index; a repeat keeps the first time.
pub open spec fn mark_read_step(s: NotificationState, user_id: Id, id: Id, now: Timestamp) -> (
    NotificationState,
    Result<Notification, ApiError>,
) {
    let k = (user_id, id);
    if !s.notes.contains_key(k) {
        (s, Err(ApiError::NotFound))
    } else if s.notes[k].read_at is None {
        let n = Notification { read_at: Some(now), ..s.notes[k] };
        (NotificationState { notes: s.notes.insert(k, n), idem: s.idem, unread: s.unread.remove(k) }, Ok(n))
    } else {
        (s, Ok(s.notes[k]))
    }
}

/// The listing position of a notification.
pub open spec fn order_key(n: Notification) -> (Timestamp, Id) {
    (n.created_at, n.id)
}

/// `a` comes strictly after `b` in `created_at DESC, id DESC` order.
pub open spec fn older(a: (Timestamp, Id), b: (Timestamp, Id)) -> bool {
    a.0 < b.0 || (a.0 == b.0 && a.1 < b.1)
}

pub open spec fn cursor_key(c: NotificationCursor) -> (Timestamp, Id) {
    (c.created_at, c.id)
}

pub open spec fn cursor_of(n: Notification) -> NotificationCursor {
    NotificationCursor { created_at: n.created_at, id: n.id }
}

/// `n` is a stored notification of `user_id` past the cursor (if any).
pub open spec fn in_listing(
    notes: Map<(Id, Id), Notification>,
    user_id: Id,
    cursor: Option<NotificationCursor>,
    n: Notification,
) -> bool {
    &&& notes.contains_key((user_id, n.id))
    &&& notes[(user_id, n.id)] == n
    &&& (cursor matches Some(c) ==> older(order_key(n), cursor_key(c)))
}

/// `items` and `next` form the page of at most `limit` notifications of
/// `user_id` that follow the cursor: the newest ones, newest first, with
/// a cursor to the last one exactly when more remain.
pub open spec fn page_ok(
    notes: Map<(Id, Id), Notification>,
    user_id: Id,
    cursor: Option<NotificationCursor>,
    limit: usize,
    items: Seq<Notification>,
    next: Option<NotificationCursor>,
) -> bool {
    &&& items.len() <= limit
    &&& forall|i: int| 0 <= i < items.len() ==> in_listing(notes, user_id, cursor, #[trigger] items[i])
    &&& forall|i: int, j: int|
        0 <= i < j < items.len() ==> older(order_key(#[trigger] items[j]), order_key(#[trigger] items[i]))
    &&& forall|n: Notification| #[trigger]
        in_listing(notes, user_id, cursor, n) && (items.len() < limit || (items.len() > 0 && !older(
            order_key(n),
            order_key(items.last()),
        ))) ==> items.contains(n)
    &&& next == if items.len() == limit && limit > 0 && (exists|n: Notification| #[trigger]
        in_listing(notes, user_id, cursor, n) && older(order_key(n), order_key(items.last()))) {
        Some(cursor_of(items.last()))
    } else {
        None
    }
}

/// Pages follow each other without overlap: every notification of the
/// page read with a page's next cursor is older than every notification of
/// that page, and still one of the user's stored notifications.
pub proof fn law_next_page_is_older(
    notes: Map<(Id, Id), Notification>,
    user_id: Id,
    cursor: Option<NotificationCursor>,
    limit: usize,
    items: Seq<Notification>,
    next: NotificationCursor,
    limit2: usize,
    items2: Seq<Notification>,
    next2: Option<NotificationCursor>,
)
    requires
        page_ok(notes, user_id, cursor, limit, items, Some(next)),
        page_ok(notes, user_id, Some(next), limit2, items2, next2),
    ensures
        forall|i: int, j: int|
            0 <= i < items.len() && 0 <= j < items2.len() ==> older(
                order_key(#[trigger] items2[j]),
                order_key(#[trigger] items[i]),
            ),
        forall|j: int| 0 <= j < items2.len() ==> notes.contains_key((user_id, (#[trigger] items2[j]).id)),
{
    let last = items.len() - 1;
    assert forall|i: int, j: int| 0 <= i < items.len() && 0 <= j < items2.len() implies older(
        order_key(#[trigger] items2[j]),
        order_key(#[trigger] items[i]),
    ) by {
        assert(in_listing(notes, user_id, Some(next), items2[j]));
        if i < last {
            assert(older(order_key(items[last]), order_key(items[i])));
        }
    }
    assert forall|j: int| 0 <= j < items2.len() implies notes.contains_key((user_id, (#[trigger] items2[j]).id)) by {
        assert(in_listing(notes, user_id, Some(next), items2[j]));
    }
}

/// Pages leave no gap: a notification listed past a cursor is on the page
/// read there (with a positive limit), or else the page has a next cursor
/// and the notification is listed past it. With the no-overlap law above,
/// reading pages until no next cursor comes yields each notification
/// exactly once, newest first.
pub proof fn law_pages_cover_listing(
    notes: Map<(Id, Id), Notification>,
    user_id: Id,
    cursor: Option<NotificationCursor>,
    limit: usize,
    items: Seq<Notification>,
    next: Option<NotificationCursor>,
    n: Notification,
)
    requires
        page_ok(notes, user_id, cursor, limit, items, next),
        in_listing(notes, user_id, cursor, n),
        limit > 0,
    ensures
        items.contains(n) || (next matches Some(c) && in_listing(notes, user_id, Some(c), n)),
{
    if items.len() == limit && older(order_key(n), order_key(items.last())) {
        assert(next == Some(cursor_of(items.last())));
    }
}

/// Keys owned by `user_id`.
pub open spec fn owned_by(user_id: Id) -> spec_fn((Id, Id)) -> bool {
    |k: (Id, Id)| k.0 == user_id
}

/// Unread notifications of `user_id`.
pub open spec fn unread_of(s: NotificationState, user_id: Id) -> Set<(Id, Id)> {
    s.unread.filter(owned_by(user_id))
}

/// Stored notifications of `user_id`.
pub open spec fn notes_of(s: NotificationState, user_id: Id) -> Set<(Id, Id)> {
    s.notes.dom().filter(owned_by(user_id))
}

/// Persistent storage for notifications. An operation that fails leaves
/// the state as it was.
pub trait NotificationStorage {
    spec fn inv(&self) -> bool;

    /// A backend that never fails where this trait says so.
    spec fn infallible(&self) -> bool;

    spec fn state(&self) -> NotificationState;

    proof fn lemma_state_ok(&self)
        requires
            self.inv(),
        ensures
            state_ok(self.state()),
    ;

    /// Store a new notification idempotently (see `create_step`).
    fn create(&mut self, notification: &Notification, source_id: &str) -> (r: Result<
        CreateNotificationResult,
        ApiError,
    >)
        requires
            old(self).inv(),
        ensures
            final(self).inv(),
            r is Ok ==> (final(self).state(), r) == create_step(
                old(self).state(),
                *notification,
                source_id@,
            ),
            r is Err ==> final(self).state() == old(self).state(),
            final(self).infallible() == old(self).infallible(),
            old(self).infallible() ==> (final(self).state(), r) == create_step(
                old(self).state(),
                *notification,
                source_id@,
            ),
    ;

    /// One page of `user_id`'s notifications after `cursor`.
    fn list(&self, user_id: &Id, cursor: Option<NotificationCursor>, limit: usize) -> (r: Result<
        NotificationPage,
        ApiError,
    >)
        requires
            self.inv(),
            limit < usize::MAX,
        ensures
            r matches Ok(page) ==> page_ok(
                self.state().notes,
                *user_id,
                cursor,
                limit,
                page.items@,
                page.next_cursor,
            ),
    ;

    /// Number of unread notifications of `user_id`.
    fn unread_count(&self, user_id: &Id) -> (r: Result<u64, ApiError>)
        requires
            self.inv(),
        ensures
            r matches Ok(c) ==> c == unread_of(self.state(), *user_id).len(),
            self.infallible() ==> r is Ok,
    ;

    /// Mark a notification read at `now`; idempotent (see `mark_read_step`).
    fn mark_read(&mut self, user_id: &Id, notification_id: &Id, now: Timestamp) -> (r: Result<
        Notification,
        ApiError,
    >)
        requires
            old(self).inv(),
        ensures
            final(self).inv(),
            r is Ok ==> (final(self).state(), r) == mark_read_step(
                old(self).state(),
                *user_id,
                *notification_id,
                now,
            ),
            r is Err ==> final(self).state() == old(self).state(),
            !old(self).state().notes.contains_key((*user_id, *notification_id)) ==> (r matches Err(
                e,
            ) && e == ApiError::NotFound),
            old(self).infallible() && old(self).state().notes.contains_key((*user_id, *notification_id))
                ==> r is Ok,
    ;
}

/// Key of the idempotency index.
pub struct IdempotencyKey {
    pub user_id: Id,
    pub kind: NotificationKind,
    pub source_hash: String,
}

impl View for IdempotencyKey {
    type V = (Id, NotificationKind, Seq<char>);

    open spec fn view(&self) -> (Id, NotificationKind, Seq<char>) {
        (self.user_id, self.kind, self.source_hash@)
    }
}

impl KeyEq for IdempotencyKey {
    fn key_eq(&self, other: &Self) -> (r: bool) {
        self.user_id == other.user_id && self.kind == other.kind && self.source_hash
            == other.source_hash
    }

    fn key_copy(&self) -> (r: Self) {
        IdempotencyKey {
            user_id: self.user_id,
            kind: self.kind,
            source_hash: self.source_hash.clone(),
        }
    }
}

/// In-memory notification storage for development and tests.
pub struct InMemoryNotificationStorage {
    notifications: Table<(Id, Id), Notification>,
    unread: Table<(Id, Id), ()>,
    idempotency: Table<IdempotencyKey, Id>,
}

impl InMemoryNotificationStorage {
    pub closed spec fn model(&self) -> NotificationState {
        NotificationState {
            notes: self.notifications.view(),
            idem: self.idempotency.view(),
            unread: self.unread.view().dom(),
        }
    }

    pub closed spec fn wf(&self) -> bool {
        &&& self.notifications.wf()
        &&& self.unread.wf()
        &&& self.idempotency.wf()
        &&& state_ok(self.model())
    }

    pub fn new() -> (r: Self)
        ensures
            r.wf(),
            r.model().notes.dom().is_empty(),
            r.model().idem.dom().is_empty(),
            r.model().unread.is_empty(),
    {
        InMemoryNotificationStorage {
            notifications: Table::new(),
            unread: Table::new(),
            idempotency: Table::new(),
        }
    }

    /// Number of stored notifications of `user_id`.
    pub fn notification_count(&self, user_id: &Id) -> (r: usize)
        requires
            self.wf(),
        ensures
            r == notes_of(self.model(), *user_id).len(),
    {
        count_owned(&self.notifications, *user_id)
    }

    /// The stored notification of `user_id` that comes first in listing
    /// order among those strictly past `bound` (all of them if no bound).
    fn newest_before(&self, user_id: Id, bound: Option<(Timestamp, Id)>) -> (r: Option<
        Notification,
    >)
        requires
            self.wf(),
        ensures
            match r {
                Some(m) => {
                    &&& in_listing(self.model().notes, user_id, None, m)
                    &&& (bound matches Some(b) ==> older(order_key(m), b))
                    &&& forall|n: Notification|
                        #[trigger] in_listing(self.model().notes, user_id, None, n) && (bound matches Some(
                            b,
                        ) ==> older(order_key(n), b)) ==> !older(order_key(m), order_key(n))
                },
                None => forall|n: Notification|
                    #[trigger] in_listing(self.model().notes, user_id, None, n) ==> (bound matches Some(
                        b,
                    ) && !older(order_key(n), b)),
            },
    {
        let t = &self.notifications;
        let mut best: Option<usize> = None;
        let mut i: usize = 0;
        while i < t.len()
            invariant
                self.wf(),
                t == &self.notifications,
                i <= t.entries().len(),
                best matches Some(b) ==> {
                    &&& b < i
                    &&& t.entries()[b as int].0.0 == user_id
                    &&& (bound matches Some(bd) ==> older(order_key(t.entries()[b as int].1), bd))
                },
                forall|j: int|
                    0 <= j < i && (#[trigger] t.entries()[j]).0.0 == user_id && (bound matches Some(
                        bd,
                    ) ==> older(order_key(t.entries()[j].1), bd)) ==> (best matches Some(b) && !older(
                        order_key(t.entries()[b as int].1),
                        order_key(t.entries()[j].1),
                    )),
            decreases t.entries().len() - i,
        {
            let entry = t.entry(i);
            let n = &entry.1;
            let below = match bound {
                None => true,
                Some(b) => n.created_at < b.0 || (n.created_at == b.0 && n.id < b.1),
            };
            if entry.0.0 == user_id && below {
                let better = match best {
                    None => true,
                    Some(b) => {
                        let cur = &t.entry(b).1;
                        cur.created_at < n.created_at || (cur.created_at == n.created_at && cur.id
                            < n.id)
                    },
                };
                if better {
                    best = Some(i);
                }
            }
            i = i + 1;
        }
        proof {
            let notes = self.model().notes;
            assert forall|n: Notification|
                #[trigger] in_listing(notes, user_id, None, n) && (bound matches Some(b) ==> older(
                    order_key(n),
                    b,
                )) implies (best matches Some(b) && !older(
                order_key(t.entries()[b as int].1),
                order_key(n),
            )) by {
                t.lemma_view_has_entry((user_id, n.id));
                let j = choose|j: int|
                    0 <= j < t.entries().len() && #[trigger] t.entries()[j].0@ == (user_id, n.id)
                        && t.entries()[j].1 == t.view()[(user_id, n.id)];
                assert(t.entries()[j].0.0 == user_id);
            }
        }
        match best {
            None => None,
            Some(b) => {
                proof {
                    t.lemma_entry_in_view(b as int);
                }
                Some(t.entry(b).1.copy())
            },
        }
    }
}

/// Number of keys of `t` owned by `user_id`.
fn count_owned<V>(t: &Table<(Id, Id), V>, user_id: Id) -> (r: usize)
    requires
        t.wf(),
    ensures
        r == t.view().dom().filter(owned_by(user_id)).len(),
{
    let ghost p = owned_by(user_id);
    let mut count: usize = 0;
    let mut i: usize = 0;
    proof {
        t.lemma_key_prefix_empty();
        assert(t.key_prefix_set(0).filter(p) =~= Set::<(Id, Id)>::empty());
    }
    while i < t.len()
        invariant
            t.wf(),
            i <= t.entries().len(),
            t.key_prefix_set(i as int).filter(p).finite(),
            count == t.key_prefix_set(i as int).filter(p).len(),
            count <= i,
            p == owned_by(user_id),
        decreases t.entries().len() - i,
    {
        let entry = t.entry(i);
        proof {
            t.lemma_key_prefix_step(i as int);
            let s = t.key_prefix_set(i as int);
            let k = t.entries()[i as int].0@;
            if p(k) {
                assert(t.key_prefix_set(i + 1).filter(p) =~= s.filter(p).insert(k));
            } else {
                assert(t.key_prefix_set(i + 1).filter(p) =~= s.filter(p));
            }
        }
        if entry.0.0 == user_id {
            count = count + 1;
        }
        i = i + 1;
    }
    proof {
        t.lemma_key_prefix_full();
    }
    count
}

impl NotificationStorage for InMemoryNotificationStorage {
    open spec fn inv(&self) -> bool {
        self.wf()
    }

    open spec fn infallible(&self) -> bool {
        true
    }

    open spec fn state(&self) -> NotificationState {
        self.model()
    }

    proof fn lemma_state_ok(&self) {
    }

    fn create(&mut self, notification: &Notification, source_id: &str) -> (r: Result<
        CreateNotificationResult,
        ApiError,
    >)
        ensures
            r is Ok,
            (final(self).state(), r) == create_step(old(self).state(), *notification, source_id@),
    {
        let key = IdempotencyKey {
            user_id: notification.user_id,
            kind: notification.kind,
            source_hash: hash_source_id(source_id),
        };
        match self.idempotency.get(&key) {
            Some(existing_id) => {
                proof {
                    assert(self.model().idem.contains_key(key@));
                }
                let nk = (notification.user_id, *existing_id);
                return match self.notifications.get(&nk) {
                    Some(existing) => Ok(CreateNotificationResult::AlreadyExists(existing.copy())),
                    None => Err(ApiError::Internal),
                };
            },
            None => {},
        }
        let ghost s0 = self.model();
        let nk = (notification.user_id, notification.id);
        self.notifications.insert(nk, notification.copy());
        self.idempotency.insert(key, notification.id);
        self.unread.insert(nk, ());
        proof {
            let s = self.model();
            assert(s.unread =~= s0.unread.insert(nk));
            assert forall|k: (Id, Id)| #[trigger] s.notes.contains_key(k) implies note_key(s.notes[k])
                == k by {
                if k != nk {
                    assert(s0.notes.contains_key(k));
                }
            }
            assert forall|ik: (Id, NotificationKind, Seq<char>)| #[trigger]
                s.idem.contains_key(ik) implies s.notes.contains_key((ik.0, s.idem[ik])) by {
                if ik != idempotency_key(*notification, source_id@) {
                    assert(s0.idem.contains_key(ik));
                }
            }
            assert forall|k: (Id, Id)| #[trigger] s.unread.contains(k) implies s.notes.contains_key(k) by {
                if k != nk {
                    assert(s0.unread.contains(k));
                }
            }
        }
        Ok(CreateNotificationResult::Created(notification.copy()))
    }

    fn list(&self, user_id: &Id, cursor: Option<NotificationCursor>, limit: usize) -> (r: Result<
        NotificationPage,
        ApiError,
    >)
        ensures
            r is Ok,
    {
        let uid = *user_id;
        let ghost notes = self.model().notes;
        let mut items: Vec<Notification> = Vec::new();
        let mut bound: Option<(Timestamp, Id)> = match cursor {
            Some(c) => Some((c.created_at, c.id)),
            None => None,
        };
        while items.len() < limit
            invariant
                self.wf(),
                notes == self.model().notes,
                items@.len() <= limit,
                bound == (if items@.len() == 0 {
                    match cursor {
                        Some(c) => Some(cursor_key(c)),
                        None => None,
                    }
                } else {
                    Some(order_key(items@.last()))
                }),
                forall|i: int| 0 <= i < items@.len() ==> in_listing(notes, uid, cursor, #[trigger] items@[i]),
                forall|i: int, j: int|
                    0 <= i < j < items@.len() ==> older(
                        order_key(#[trigger] items@[j]),
                        order_key(#[trigger] items@[i]),
                    ),
                forall|n: Notification| #[trigger]
                    in_listing(notes, uid, cursor, n) && (bound matches Some(b) && !older(
                        order_key(n),
                        b,
                    )) ==> items@.contains(n),
            ensures
                items@.len() <= limit,
                bound == (if items@.len() == 0 {
                    match cursor {
                        Some(c) => Some(cursor_key(c)),
                        None => None,
                    }
                } else {
                    Some(order_key(items@.last()))
                }),
                forall|i: int| 0 <= i < items@.len() ==> in_listing(notes, uid, cursor, #[trigger] items@[i]),
                forall|i: int, j: int|
                    0 <= i < j < items@.len() ==> older(
                        order_key(#[trigger] items@[j]),
                        order_key(#[trigger] items@[i]),
                    ),
                forall|n: Notification| #[trigger]
                    in_listing(notes, uid, cursor, n) && (items@.len() < limit || (bound matches Some(
                        b,
                    ) && !older(order_key(n), b))) ==> items@.contains(n),
            decreases limit - items@.len(),
        {
            match self.newest_before(uid, bound) {
                None => {
                    proof {
                        assert forall|n: Notification| #[trigger]
                            in_listing(notes, uid, cursor, n) implies items@.contains(n) by {
                            assert(in_listing(notes, uid, None, n));
                        }
                    }
                    break;
                },
                Some(m) => {
                    proof {
                        assert(in_listing(notes, uid, cursor, m));
                        assert forall|n: Notification| #[trigger]
                            in_listing(notes, uid, cursor, n) && !older(
                                order_key(n),
                                order_key(m),
                            ) implies items@.push(m).contains(n) by {
                            assert(in_listing(notes, uid, None, n));
                            if bound matches Some(b) && !older(order_key(n), b) {
                                assert(items@.contains(n));
                                let j = choose|j: int| 0 <= j < items@.len() && items@[j] == n;
                                assert(items@.push(m)[j] == n);
                            } else {
                                assert(n.id == m.id);
                                assert(n == m);
                                assert(items@.push(m)[items@.len() as int] == m);
                            }
                        }
                    }
                    bound = Some((m.created_at, m.id));
                    items.push(m);
                },
            }
        }
        let mut next_cursor: Option<NotificationCursor> = None;
        if items.len() == limit && limit > 0 {
            let last = items.len() - 1;
            let lc = NotificationCursor { created_at: items[last].created_at, id: items[last].id };
            match self.newest_before(uid, bound) {
                Some(m) => {
                    proof {
                        assert(in_listing(notes, uid, cursor, m));
                    }
                    next_cursor = Some(lc);
                },
                None => {
                    proof {
                        assert forall|n: Notification| #[trigger]
                            in_listing(notes, uid, cursor, n) implies !older(
                            order_key(n),
                            order_key(items@.last()),
                        ) by {
                            assert(in_listing(notes, uid, None, n));
                        }
                    }
                },
            }
        }
        Ok(NotificationPage { items, next_cursor })
    }

    fn unread_count(&self, user_id: &Id) -> (r: Result<u64, ApiError>)
        ensures
            r is Ok,
    {
        let c = count_owned(&self.unread, *user_id);
        proof {
            assert(unread_of(self.model(), *user_id) =~= self.unread.view().dom().filter(
                owned_by(*user_id),
            ));
        }
        Ok(c as u64)
    }

    fn mark_read(&mut self, user_id: &Id, notification_id: &Id, now: Timestamp) -> (r: Result<
        Notification,
        ApiError,
    >)
        ensures
            (final(self).state(), r) == mark_read_step(
                old(self).state(),
                *user_id,
                *notification_id,
                now,
            ),
    {
        let nk = (*user_id, *notification_id);
        let current = match self.notifications.get(&nk) {
            None => {
                return Err(ApiError::NotFound);
            },
            Some(n) => n.copy(),
        };
        if current.read_at.is_none() {
            let ghost s0 = self.model();
            let updated = Notification { read_at: Some(now), ..current };
            self.notifications.insert(nk, updated.copy());
            let _ = self.unread.remove(&nk);
            proof {
                let s = self.model();
                assert(s.unread =~= s0.unread.remove(nk));
                assert(note_key(s0.notes[nk]) == nk);
                assert forall|k: (Id, Id)| #[trigger] s.notes.contains_key(k) implies note_key(
                    s.notes[k],
                ) == k by {
                    assert(s0.notes.contains_key(k));
                }
                assert forall|ik: (Id, NotificationKind, Seq<char>)| #[trigger]
                    s.idem.contains_key(ik) implies s.notes.contains_key((ik.0, s.idem[ik])) by {
                    assert(s0.idem.contains_key(ik));
                }
                assert forall|k: (Id, Id)| #[trigger] s.unread.contains(k) implies s.notes.contains_key(
                    k,
                ) by {
                    assert(s0.unread.contains(k));
                }
            }
            Ok(updated)
        } else {
            Ok(current)
        }
    }
}

/// The notification a create answered with, new or existing.
pub open spec fn answered(r: CreateNotificationResult) -> Notification {
    match r {
        CreateNotificationResult::Created(n) => n,
        CreateNotificationResult::AlreadyExists(n) => n,
    }
}

/// Creating keeps the state well formed.
pub proof fn law_create_keeps_state_ok(s: NotificationState, n: Notification, source_id: Seq<char>)
    requires
        state_ok(s),
    ensures
        state_ok(create_step(s, n, source_id).0),
        create_step(s, n, source_id).1 is Ok,
{
    let ik = idempotency_key(n, source_id);
    if !s.idem.contains_key(ik) {
        let s1 = create_step(s, n, source_id).0;
        assert forall|k: (Id, Id)| #[trigger] s1.notes.contains_key(k) implies note_key(s1.notes[k]) == k by {
            if k != note_key(n) {
                assert(s.notes.contains_key(k));
            }
        }
        assert forall|j: (Id, NotificationKind, Seq<char>)| #[trigger]
            s1.idem.contains_key(j) implies s1.notes.contains_key((j.0, s1.idem[j])) by {
            if j != ik {
                assert(s.idem.contains_key(j));
            }
        }
        assert forall|k: (Id, Id)| #[trigger] s1.unread.contains(k) implies s1.notes.contains_key(k) by {
            if k != note_key(n) {
                assert(s.unread.contains(k));
            }
        }
    }
}

/// Idempotent emit: once a notification was created (or found) for an
/// identity, creating again with the same owner, kind and source id
/// changes nothing and answers with that same notification.
pub proof fn law_create_idempotent(
    s: NotificationState,
    first: Notification,
    second: Notification,
    source_id: Seq<char>,
)
    requires
        state_ok(s),
        first.user_id == second.user_id,
        first.kind == second.kind,
    ensures
        ({
            let (s1, r1) = create_step(s, first, source_id);
            let (s2, r2) = create_step(s1, second, source_id);
            &&& s2 == s1
            &&& r1 matches Ok(a)
            &&& r2 matches Ok(b)
            &&& b == CreateNotificationResult::AlreadyExists(answered(a))
        }),
{
    law_create_keeps_state_ok(s, first, source_id);
}

/// Marking read is idempotent: a second call, at any time, changes
/// nothing and answers with the notification as the first call left it.
pub proof fn law_mark_read_idempotent(s: NotificationState, user_id: Id, id: Id, t1: Timestamp, t2: Timestamp)
    requires
        state_ok(s),
    ensures
        ({
            let (s1, r1) = mark_read_step(s, user_id, id, t1);
            let (s2, r2) = mark_read_step(s1, user_id, id, t2);
            &&& s2 == s1
            &&& r2 == r1
        }),
{
}

/// A notification that was marked read is no longer unread.
pub proof fn law_mark_read_clears_unread(s: NotificationState, user_id: Id, id: Id, now: Timestamp)
    requires
        state_ok(s),
        s.unread.contains((user_id, id)) ==> s.notes[(user_id, id)].read_at is None,
    ensures
        !mark_read_step(s, user_id, id, now).0.unread.contains((user_id, id)),
{
}

} // verus!
