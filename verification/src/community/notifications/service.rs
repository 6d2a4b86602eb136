//! Notification service: validation, identifiers and timestamps,
//! idempotent emit, owner-scoped reads and best-effort delivery.

use vstd::prelude::*;
use crate::clock::{self, Id, Timestamp};
use crate::community::notifications::contracts::{
    notification_api_error, NotificationPageResponse, NotificationResponse, UnreadCountResponse,
    DEFAULT_PAGE_LIMIT, INVALID_CURSOR_CODE, INVALID_CURSOR_MESSAGE, MAX_CURSOR_LEN,
};
use crate::community::notifications::models::{
    cursor_decoding, cursor_text, CreateNotificationResult, Notification, NotificationCursor,
    NotificationKind,
};
use crate::community::notifications::sink::{NoopNotificationSink, NotificationSink};
use crate::community::notifications::storage::{
    answered, create_step, mark_read_step, page_ok, unread_of, NotificationState, NotificationStorage,
};
use crate::community::notifications::validation::{
    limit_check, payload_check, source_id_check, validate_limit, validate_payload_size,
    validate_source_id,
};
use crate::error::ApiError;

verus! {

/// `resp` shows notification `n` (without its owner).
pub open spec fn response_of(resp: NotificationResponse, n: Notification) -> bool {
    &&& resp.id == n.id
    &&& resp.kind == n.kind
    &&& resp.payload == n.payload
    &&& resp.read_at == n.read_at
    &&& resp.created_at == n.created_at
}

pub open spec fn invalid_cursor_error() -> ApiError {
    ApiError::ValidationFailed { code: INVALID_CURSOR_CODE, message: INVALID_CURSOR_MESSAGE }
}

/// The notification an emit stores for a new identity.
pub open spec fn emitted(
    id: Id,
    user_id: Id,
    kind: NotificationKind,
    payload: String,
    now: Timestamp,
) -> Notification {
    Notification { id, user_id, kind, payload, read_at: None, created_at: now }
}

/// The page limit a request asks for.
pub open spec fn requested_limit(limit: Option<usize>) -> usize {
    match limit {
        Some(l) => l,
        None => DEFAULT_PAGE_LIMIT,
    }
}

/// The error of a request's cursor, if it is too long or does not decode.
pub open spec fn cursor_error(cursor: Option<String>) -> bool {
    cursor matches Some(raw) && (vstd::utf8::encode_utf8(raw@).len() as usize > MAX_CURSOR_LEN
        || cursor_decoding(raw@) is Err)
}

/// The decoded cursor of a request.
pub open spec fn decoded_cursor(cursor: Option<String>) -> Option<NotificationCursor> {
    match cursor {
        Some(raw) => match cursor_decoding(raw@) {
            Ok(c) => Some(c),
            Err(_) => None,
        },
        None => None,
    }
}

/// `s2` is `s` after `user_id` marked notification `id` read at `now`,
/// answered by `resp` (see `mark_read_step`).
pub open spec fn marked_read(
    s: NotificationState,
    s2: NotificationState,
    user_id: Id,
    id: Id,
    now: Timestamp,
    resp: NotificationResponse,
) -> bool {
    let (t, mr) = mark_read_step(s, user_id, id, now);
    &&& s2 == t
    &&& mr matches Ok(n) && response_of(resp, n)
}

pub fn to_response(n: &Notification) -> (r: NotificationResponse)
    ensures
        response_of(r, *n),
{
    NotificationResponse {
        id: n.id,
        kind: n.kind,
        payload: n.payload.clone(),
        read_at: n.read_at,
        created_at: n.created_at,
    }
}

/// Application service for notifications.
pub struct NotificationService<S: NotificationStorage> {
    storage: S,
    sink: Box<dyn NotificationSink>,
    /// The notifications handed to the sink so far, in order.
    delivered: Ghost<Seq<Notification>>,
}

impl<S: NotificationStorage> NotificationService<S> {
    pub closed spec fn store(&self) -> S {
        self.storage
    }

    /// The notifications this service handed to its sink, in the order of
    /// the calls.
    pub closed spec fn deliveries(&self) -> Seq<Notification> {
        self.delivered@
    }

    pub fn new(storage: S, sink: Box<dyn NotificationSink>) -> (r: Self)
        ensures
            r.store() == storage,
            r.deliveries() == Seq::<Notification>::empty(),
    {
        NotificationService { storage, sink, delivered: Ghost(Seq::empty()) }
    }

    pub fn with_noop_sink(storage: S) -> (r: Self)
        ensures
            r.store() == storage,
            r.deliveries() == Seq::<Notification>::empty(),
    {
        NotificationService {
            storage,
            sink: Box::new(NoopNotificationSink::new()),
            delivered: Ghost(Seq::empty()),
        }
    }

    /// The storage behind the service.
    pub fn storage(&self) -> (r: &S)
        ensures
            *r == self.store(),
    {
        &self.storage
    }

    /// Emit a notification with the given id and time, idempotently:
    /// identity is `(user_id, kind, sha256(source_id))`; a repeat answers
    /// with the stored notification. A new notification is handed to the
    /// sink, once, after it is stored; the sink's answer changes nothing. A
    /// repeat or an error hands nothing to the sink.
    pub fn emit_at(
        &mut self,
        user_id: &Id,
        kind: NotificationKind,
        source_id: &str,
        payload: String,
        id: Id,
        now: Timestamp,
    ) -> (r: Result<NotificationResponse, ApiError>)
        requires
            old(self).store().inv(),
        ensures
            final(self).store().inv(),
            source_id_check(source_id@) matches Err(e) ==> (r matches Err(x) && x
                == notification_api_error(e)) && final(self).store().state() == old(self).store().state(),
            source_id_check(source_id@) is Ok ==> (payload_check(payload@) matches Err(e) ==> (r matches Err(
                x,
            ) && x == notification_api_error(e)) && final(self).store().state() == old(self).store().state()),
            r matches Ok(resp) ==> {
                let (s2, cr) = create_step(
                    old(self).store().state(),
                    emitted(id, *user_id, kind, payload, now),
                    source_id@,
                );
                &&& final(self).store().state() == s2
                &&& cr matches Ok(c) && response_of(resp, answered(c))
                &&& cr matches Ok(CreateNotificationResult::Created(n)) ==> final(self).deliveries() == old(
                    self,
                ).deliveries().push(n)
                &&& cr matches Ok(CreateNotificationResult::AlreadyExists(_)) ==> final(self).deliveries() == old(
                    self,
                ).deliveries()
            },
            r is Err ==> final(self).store().state() == old(self).store().state() && final(self).deliveries()
                == old(self).deliveries(),
            old(self).store().infallible() && source_id_check(source_id@) is Ok && payload_check(payload@) is Ok
                && create_step(
                old(self).store().state(),
                emitted(id, *user_id, kind, payload, now),
                source_id@,
            ).1 is Ok ==> r is Ok,
    {
        match validate_source_id(source_id) {
            Ok(()) => {},
            Err(e) => {
                return Err(ApiError::from(e));
            },
        }
        match validate_payload_size(payload.as_str()) {
            Ok(()) => {},
            Err(e) => {
                return Err(ApiError::from(e));
            },
        }
        let notification = Notification {
            id,
            user_id: *user_id,
            kind,
            payload,
            read_at: None,
            created_at: now,
        };
        let result = match self.storage.create(&notification, source_id) {
            Ok(result) => result,
            Err(e) => {
                return Err(e);
            },
        };
        match result {
            CreateNotificationResult::Created(created) => {
                let _ = self.sink.deliver(&created);
                self.delivered = Ghost(self.delivered@.push(created));
                Ok(to_response(&created))
            },
            CreateNotificationResult::AlreadyExists(existing) => Ok(to_response(&existing)),
        }
    }

    /// Emit with a fresh random id at the current time.
    pub fn emit(
        &mut self,
        user_id: &Id,
        kind: NotificationKind,
        source_id: &str,
        payload: String,
    ) -> (r: Result<NotificationResponse, ApiError>)
        requires
            old(self).store().inv(),
        ensures
            final(self).store().inv(),
            source_id_check(source_id@) matches Err(e) ==> (r matches Err(x) && x
                == notification_api_error(e)),
            source_id_check(source_id@) is Ok ==> (payload_check(payload@) matches Err(e) ==> (r matches Err(
                x,
            ) && x == notification_api_error(e))),
            r is Err ==> final(self).store().state() == old(self).store().state(),
            old(self).store().infallible() && source_id_check(source_id@) is Ok && payload_check(payload@) is Ok
                && (forall|id: Id, t: Timestamp|
                (#[trigger] create_step(
                    old(self).store().state(),
                    emitted(id, *user_id, kind, payload, t),
                    source_id@,
                )).1 is Ok) ==> r is Ok,
            r matches Ok(resp) ==> exists|id: Id, t: Timestamp|
                {
                    let (s2, cr) = #[trigger] create_step(
                        old(self).store().state(),
                        emitted(id, *user_id, kind, payload, t),
                        source_id@,
                    );
                    &&& final(self).store().state() == s2
                    &&& cr matches Ok(c) && response_of(resp, answered(c))
                    &&& cr matches Ok(CreateNotificationResult::Created(n)) ==> final(self).deliveries() == old(
                        self,
                    ).deliveries().push(n)
                    &&& cr matches Ok(CreateNotificationResult::AlreadyExists(_)) ==> final(self).deliveries()
                        == old(self).deliveries()
                },
            r is Err ==> final(self).deliveries() == old(self).deliveries(),
    {
        let id = clock::new_id();
        let now = clock::now();
        let ghost p = payload;
        let r = self.emit_at(user_id, kind, source_id, payload, id, now);
        proof {
            let _ = create_step(old(self).store().state(), emitted(id, *user_id, kind, p, now), source_id@);
        }
        r
    }

    /// One page of the caller's notifications, newest first.
    pub fn list(&self, user_id: &Id, cursor: Option<String>, limit: Option<usize>) -> (r: Result<
        NotificationPageResponse,
        ApiError,
    >)
        requires
            self.store().inv(),
        ensures
            limit_check(requested_limit(limit)) matches Err(e) ==> (r matches Err(x) && x
                == notification_api_error(e)),
            limit_check(requested_limit(limit)) is Ok && cursor_error(cursor) ==> (r matches Err(x)
                && x == invalid_cursor_error()),
            r matches Ok(resp) ==> exists|items: Seq<Notification>, next: Option<NotificationCursor>|
                {
                    &&& page_ok(
                        self.store().state().notes,
                        *user_id,
                        decoded_cursor(cursor),
                        requested_limit(limit),
                        items,
                        next,
                    )
                    &&& resp.items@.len() == items.len()
                    &&& forall|i: int| 0 <= i < items.len() ==> response_of(#[trigger] resp.items@[i], items[i])
                    &&& match next {
                        Some(c) => (resp.next_cursor matches Some(t) && t@ == cursor_text(c)),
                        None => resp.next_cursor is None,
                    }
                },
    {
        let limit = match limit {
            Some(l) => l,
            None => DEFAULT_PAGE_LIMIT,
        };
        match validate_limit(limit) {
            Ok(()) => {},
            Err(e) => {
                return Err(ApiError::from(e));
            },
        }
        let decoded = match &cursor {
            Some(raw) => {
                if raw.as_str().len() > MAX_CURSOR_LEN {
                    return Err(
                        ApiError::ValidationFailed {
                            code: INVALID_CURSOR_CODE,
                            message: INVALID_CURSOR_MESSAGE,
                        },
                    );
                }
                match NotificationCursor::decode(raw.as_str()) {
                    Ok(c) => Some(c),
                    Err(_) => {
                        return Err(
                            ApiError::ValidationFailed {
                                code: INVALID_CURSOR_CODE,
                                message: INVALID_CURSOR_MESSAGE,
                            },
                        );
                    },
                }
            },
            None => None,
        };
        let page = match self.storage.list(user_id, decoded, limit) {
            Ok(p) => p,
            Err(e) => {
                return Err(e);
            },
        };
        let mut items: Vec<NotificationResponse> = Vec::new();
        let mut i: usize = 0;
        while i < page.items.len()
            invariant
                i <= page.items@.len(),
                items@.len() == i,
                forall|j: int| 0 <= j < i ==> response_of(#[trigger] items@[j], page.items@[j]),
            decreases page.items@.len() - i,
        {
            items.push(to_response(&page.items[i]));
            i = i + 1;
        }
        let next_cursor = match &page.next_cursor {
            Some(c) => Some(c.encode()),
            None => None,
        };
        Ok(NotificationPageResponse { items, next_cursor })
    }

    pub fn unread_count(&self, user_id: &Id) -> (r: Result<UnreadCountResponse, ApiError>)
        requires
            self.store().inv(),
        ensures
            r matches Ok(c) ==> c.count == unread_of(self.store().state(), *user_id).len(),
            self.store().infallible() ==> r is Ok,
    {
        match self.storage.unread_count(user_id) {
            Ok(count) => Ok(UnreadCountResponse { count }),
            Err(e) => Err(e),
        }
    }

    /// Mark one of the caller's notifications read at `now`; idempotent.
    pub fn mark_read_at(&mut self, user_id: &Id, notification_id: &Id, now: Timestamp) -> (r: Result<
        NotificationResponse,
        ApiError,
    >)
        requires
            old(self).store().inv(),
        ensures
            final(self).store().inv(),
            final(self).deliveries() == old(self).deliveries(),
            r matches Ok(resp) ==> marked_read(
                old(self).store().state(),
                final(self).store().state(),
                *user_id,
                *notification_id,
                now,
                resp,
            ),
            r is Err ==> final(self).store().state() == old(self).store().state(),
            !old(self).store().state().notes.contains_key((*user_id, *notification_id)) ==> (r matches Err(
                e,
            ) && e == ApiError::NotFound),
            old(self).store().infallible() && old(self).store().state().notes.contains_key(
                (*user_id, *notification_id),
            ) ==> r is Ok,
    {
        match self.storage.mark_read(user_id, notification_id, now) {
            Ok(n) => Ok(to_response(&n)),
            Err(e) => Err(e),
        }
    }

    /// Mark read at the current time.
    pub fn mark_read(&mut self, user_id: &Id, notification_id: &Id) -> (r: Result<
        NotificationResponse,
        ApiError,
    >)
        requires
            old(self).store().inv(),
        ensures
            final(self).store().inv(),
            final(self).deliveries() == old(self).deliveries(),
            r is Err ==> final(self).store().state() == old(self).store().state(),
            !old(self).store().state().notes.contains_key((*user_id, *notification_id)) ==> (r matches Err(
                e,
            ) && e == ApiError::NotFound),
            old(self).store().infallible() && old(self).store().state().notes.contains_key(
                (*user_id, *notification_id),
            ) ==> r is Ok,
            r matches Ok(resp) ==> exists|now: Timestamp|
                #[trigger] marked_read(
                    old(self).store().state(),
                    final(self).store().state(),
                    *user_id,
                    *notification_id,
                    now,
                    resp,
                ),
    {
        let now = clock::now();
        let r = self.mark_read_at(user_id, notification_id, now);
        proof {
            if r is Ok {
                assert(marked_read(
                    old(self).store().state(),
                    self.store().state(),
                    *user_id,
                    *notification_id,
                    now,
                    r->Ok_0,
                ));
            }
        }
        r
    }
}

} // verus!
