//! The catalog's data model.
pub mod actor;
pub mod character;
pub mod error;
pub mod show;
pub mod show_collection;
