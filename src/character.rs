//! A character described by name, role and gender alone.
use vstd::prelude::*;

use crate::models::character::character_text;

verus! {

/// Represents a character in a show.
#[derive(Debug)]
pub struct Character {
    pub name: String,
    role: String,
    gender: String,
}

impl Character {
    /// The character's name.
    pub closed spec fn name_spec(&self) -> Seq<char> {
        self.name@
    }

    /// The character's role.
    pub closed spec fn role_spec(&self) -> Seq<char> {
        self.role@
    }

    /// The character's gender.
    pub closed spec fn gender_spec(&self) -> Seq<char> {
        self.gender@
    }

    pub fn new(name: String, role: String, gender: String) -> (r: Character)
        ensures
            r.name_spec() == name@,
            r.role_spec() == role@,
            r.gender_spec() == gender@,
    {
        Character { name, role, gender }
    }

    /// Renders the character as `"{name} ({gender}) - {role}"`.
    pub fn to_string(&self) -> (r: String)
        ensures
            r@ == character_text(self.name_spec(), self.role_spec(), self.gender_spec()),
    {
        let mut s = self.name.clone();
        s.append(" (");
        s.append(self.gender.as_str());
        s.append(") - ");
        s.append(self.role.as_str());
        proof {
            reveal_strlit(" (");
            reveal_strlit(") - ");
        }
        s
    }
}

} // verus!
