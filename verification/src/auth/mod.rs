//! Authentication subsystem.

pub mod backup_codes;
pub mod contracts;
pub mod avatar;
pub mod password;
pub mod csrf;
pub mod csrf_middleware;
pub mod models;
pub mod events;
pub mod email;
pub mod preferences;
pub mod secret_cipher;
pub mod security_center;
pub mod two_factor;
pub mod rate_limit;
pub mod storage;
pub mod service;
