//! The weapon catalogue: rows of the relational view, the documents built
//! from them, and the transformation between the two.

pub mod model;
pub mod slots;
pub mod auth;
pub mod builder;
pub mod controller;
pub mod error;
pub mod grouping;
pub mod transform;
pub mod upload;
pub mod laws;
pub mod loadout;

