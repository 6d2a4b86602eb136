//! Storage health model.

use vstd::prelude::*;

verus! {

#[derive(Debug, Clone, Copy, PartialEq, Eq, Structural)]
pub enum StorageStatus {
    Healthy,
    NotReady,
    Unavailable,
}

pub open spec fn status_name(s: StorageStatus) -> Seq<char> {
    match s {
        StorageStatus::Healthy => "healthy"@,
        StorageStatus::NotReady => "not_ready"@,
        StorageStatus::Unavailable => "unavailable"@,
    }
}

impl StorageStatus {
    pub fn is_healthy(self) -> (r: bool)
        ensures
            r == (self is Healthy),
    {
        match self {
            StorageStatus::Healthy => true,
            _ => false,
        }
    }

    pub fn is_retryable(self) -> (r: bool)
        ensures
            r == (self is NotReady || self is Unavailable),
    {
        match self {
            StorageStatus::NotReady | StorageStatus::Unavailable => true,
            _ => false,
        }
    }

    pub fn as_str(self) -> (r: &'static str)
        ensures
            r@ == status_name(self),
    {
        match self {
            StorageStatus::Healthy => "healthy",
            StorageStatus::NotReady => "not_ready",
            StorageStatus::Unavailable => "unavailable",
        }
    }
}

/// A storage backend that reports its health.
pub trait Storage: Send + Sync {
    fn health(&self) -> StorageStatus;

    fn name(&self) -> &'static str;

    fn is_ready(&self) -> (r: bool) {
        self.health().is_healthy()
    }
}

/// A storage backend shared behind a trait object.
pub type SharedStorage = std::sync::Arc<dyn Storage>;

/// Always-healthy storage used in development and tests.
#[derive(Debug, Clone, Copy, Default)]
pub struct MockStorage;

impl MockStorage {
    pub fn new() -> (r: Self) {
        MockStorage
    }
}

impl Storage for MockStorage {
    fn health(&self) -> (r: StorageStatus)
        ensures
            r == StorageStatus::Healthy,
    {
        StorageStatus::Healthy
    }

    fn name(&self) -> (r: &'static str)
        ensures
            r@ == "mock"@,
    {
        "mock"
    }
}

} // verus!
