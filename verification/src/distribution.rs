//! Where components are published, and for which platform.

pub mod github;
pub mod platform;
