//! Community profiles and notifications.

pub mod validation;
pub mod models;
pub mod contracts;
pub mod storage;
pub mod service;
pub mod notifications;
