//! Notification delivery sinks.
//!
//! A sink is called only after the notification is stored; its failure
//! never rolls the notification back and is not reported to the caller.

use vstd::prelude::*;
use vstd::std_specs::convert::FromSpecImpl;
use crate::community::notifications::models::Notification;

verus! {

/// Error of a `NotificationSink::deliver` implementation.
#[derive(Debug)]
pub enum NotificationSinkError {
    Delivery(String),
}

/// The message an error carries.
pub open spec fn sink_message(e: NotificationSinkError) -> Seq<char> {
    match e {
        NotificationSinkError::Delivery(m) => m@,
    }
}

impl NotificationSinkError {
    pub fn new(message: &str) -> (r: Self)
        ensures
            sink_message(r) == message@,
    {
        NotificationSinkError::Delivery(message.to_owned())
    }

    /// The error message.
    pub fn to_string(&self) -> (r: String)
        ensures
            r@ == sink_message(*self),
    {
        match self {
            NotificationSinkError::Delivery(m) => m.clone(),
        }
    }
}

impl From<String> for NotificationSinkError {
    fn from(value: String) -> (r: Self) {
        NotificationSinkError::Delivery(value)
    }
}

impl FromSpecImpl<String> for NotificationSinkError {
    open spec fn obeys_from_spec() -> bool {
        true
    }

    open spec fn from_spec(v: String) -> NotificationSinkError {
        NotificationSinkError::Delivery(v)
    }
}

impl<'a> From<&'a str> for NotificationSinkError {
    fn from(value: &'a str) -> (r: Self) {
        NotificationSinkError::Delivery(value.to_owned())
    }
}

/// A conversion from a string slice copies it into the message; the copy
/// is not a value that a spec function can name, so nothing is claimed.
impl<'a> FromSpecImpl<&'a str> for NotificationSinkError {
    open spec fn obeys_from_spec() -> bool {
        false
    }

    open spec fn from_spec(v: &'a str) -> NotificationSinkError {
        choose|e: NotificationSinkError| #[trigger] sink_message(e) == v@
    }
}

/// Delivery mechanism for notifications (realtime transports later).
pub trait NotificationSink: Send + Sync {
    /// Deliver a stored notification; best-effort.
    fn deliver(&self, notification: &Notification) -> (r: Result<(), NotificationSinkError>);
}

/// A sink that accepts everything and does nothing.
#[derive(Debug, Default, Clone, Copy)]
pub struct NoopNotificationSink;

impl NoopNotificationSink {
    pub fn new() -> (r: Self) {
        NoopNotificationSink
    }
}

impl NotificationSink for NoopNotificationSink {
    fn deliver(&self, notification: &Notification) -> (r: Result<(), NotificationSinkError>)
        ensures
            r is Ok,
    {
        Ok(())
    }
}

} // verus!
