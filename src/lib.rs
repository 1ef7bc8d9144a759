//! Subscription and dispatch core for a native input hook: per-category
//! callback slots, the category mask derived from them, the routing of each
//! captured event to at most one slot, and the capture session's lifecycle;
//! with them, subscription patterns and the key and button names shown to
//! users.

pub mod mask;
pub mod event;
pub mod registry;
pub mod session;
pub mod laws;
pub mod patterns;
pub mod keys;
