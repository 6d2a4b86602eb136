//! Durable, idempotent notifications.

pub mod contracts;
pub mod models;
pub mod validation;
pub mod sink;
pub mod storage;
pub mod service;
