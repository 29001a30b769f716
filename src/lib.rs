//! # kd library
//! Catalog of TV shows, their characters and the relationships between them.
use vstd::prelude::*;

pub mod character;
pub mod config;
pub mod ids;
pub mod korean;
pub mod models;
pub mod render;
pub mod show;
pub mod suggest;

verus! {

/// A longer, multi-line description of a value.
pub trait DisplayMoreInfo {
    /// What `more_info` returns.
    spec fn more_info_text(&self) -> Seq<char>;

    fn more_info(&self) -> (r: String)
        ensures
            r@ == self.more_info_text(),
    ;
}

} // verus!
