//! A show described by name and release year alone.
use vstd::prelude::*;

use crate::models::show::show_text;
use crate::render::integer_text;

verus! {

/// Represents a TV series or movie.
#[derive(Debug)]
pub struct Show {
    name: String,
    release_year: i16,
}

impl Show {
    /// The show's name.
    pub closed spec fn name_spec(&self) -> Seq<char> {
        self.name@
    }

    /// The show's release year.
    pub closed spec fn release_year_spec(&self) -> i16 {
        self.release_year
    }

    pub fn new(name: String, release_year: i16) -> (r: Show)
        ensures
            r.name_spec() == name@,
            r.release_year_spec() == release_year,
    {
        Show { name, release_year }
    }

    /// Renders the show as `"{name} - {release_year}"`.
    pub fn to_string(&self) -> (r: String)
        ensures
            r@ == show_text(self.name_spec(), self.release_year_spec() as int),
    {
        let mut s = self.name.clone();
        s.append(" - ");
        let year = integer_text(self.release_year as i64);
        s.append(year.as_str());
        proof {
            reveal_strlit(" - ");
        }
        s
    }
}

} // verus!
