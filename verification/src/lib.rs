//! Verified core of the Aevum platform API: authentication, community
//! profiles and notifications.

pub mod auth;
pub mod clock;
pub mod community;
pub mod config;
pub mod crypto;
pub mod keys;
pub mod error;
pub mod text;
pub mod metrics;
pub mod storage;
pub mod table;
