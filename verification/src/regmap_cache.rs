//! Register-map cache policy and byte formatting: access predicates, cache-only and bypass
//! decisions, dirty tracking, sync ordering, and register/value packing.

pub mod cache;
pub mod format;
pub mod policy;
