//! Decisions, request construction and message texts of the wrangler
//! commands for building, key-value writes, subdomain registration and the
//! global user settings, each stated as a contract over plain values.

pub mod global_user;
pub mod kv;
pub mod subdomain;
pub mod text;
pub mod wranglerjs;
