//! The schemas of the modules.

pub mod battery;
pub mod python;
