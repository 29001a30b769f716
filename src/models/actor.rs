use vstd::prelude::*;

use crate::render::{decimal_text, integer_text};

verus! {

/// An actor in a show.
#[derive(Debug)]
pub struct Actor {
    name: String,
    birth_year: i64,
}

/// The canonical one-line rendering of an actor: `"{name} - born {birth_year}"`.
pub open spec fn actor_text(name: Seq<char>, birth_year: int) -> Seq<char> {
    name + " - born "@ + decimal_text(birth_year)
}

impl Actor {
    /// The actor's name.
    pub closed spec fn name_spec(&self) -> Seq<char> {
        self.name@
    }

    /// The actor's birth year.
    pub closed spec fn birth_year_spec(&self) -> i64 {
        self.birth_year
    }

    pub fn new(name: String, birth_year: i64) -> (r: Actor)
        ensures
            r.name_spec() == name@,
            r.birth_year_spec() == birth_year,
    {
        Actor { name, birth_year }
    }

    /// Renders the actor as `"{name} - born {birth_year}"`.
    pub fn to_string(&self) -> (r: String)
        ensures
            r@ == actor_text(self.name_spec(), self.birth_year_spec() as int),
    {
        let mut s = self.name.clone();
        s.append(" - born ");
        let year = integer_text(self.birth_year);
        s.append(year.as_str());
        proof {
            reveal_strlit(" - born ");
        }
        s
    }
}

} // verus!
