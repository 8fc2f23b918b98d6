//! Cats: what the image service delivers, and what is stored of a cat.

pub mod error;
pub mod model;
pub mod names;
