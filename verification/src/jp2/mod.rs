//! Helpers for assembling an API description out of several.

pub mod error;
pub mod general;
pub mod paths;
pub mod quotes;
