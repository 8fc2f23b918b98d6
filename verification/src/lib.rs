//! Verified logic of a small web backend: the transformation of flat weapon
//! rows into one document per weapon, and the helpers around it.

pub mod bustimetravel;
pub mod cats;
pub mod helpers;
pub mod jp2;
pub mod number;
pub mod storage;
pub mod tf2sc;

