//! Stable metric names of the platform.
//!
//! Recording is done by the application around the library.

pub mod audit;
pub mod auth;
pub mod rate_limit;
pub mod security;
pub mod storage;
