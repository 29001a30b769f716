//! Helpers around Korean currency.
pub mod utils;
