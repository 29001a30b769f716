use vstd::prelude::*;

use crate::ids::{fresh_id, hyphenated_uuid};

verus! {

/// A character in a show.
#[derive(Debug)]
pub struct Character {
    pub id: String,
    pub name: String,
    pub role: String,
    pub gender: String,
}

/// The canonical one-line rendering of a character: `"{name} ({gender}) - {role}"`.
pub open spec fn character_text(name: Seq<char>, role: Seq<char>, gender: Seq<char>) -> Seq<char> {
    name + " ("@ + gender + ") - "@ + role
}

impl Character {
    /// Creates a character with a freshly generated id.
    pub fn new(name: String, role: String, gender: String) -> (r: Character)
        ensures
            r.name == name,
            r.role == role,
            r.gender == gender,
            hyphenated_uuid(r.id@),
    {
        Character { id: fresh_id(), name, role, gender }
    }

    /// A field-by-field copy of this character.
    pub fn duplicate(&self) -> (r: Character)
        ensures
            r == *self,
    {
        Character {
            id: self.id.clone(),
            name: self.name.clone(),
            role: self.role.clone(),
            gender: self.gender.clone(),
        }
    }

    /// Renders the character as `"{name} ({gender}) - {role}"`.
    pub fn to_string(&self) -> (r: String)
        ensures
            r@ == character_text(self.name@, self.role@, self.gender@),
    {
        let mut s = self.name.clone();
        s.append(" (");
        s.append(self.gender.as_str());
        s.append(") - ");
        s.append(self.role.as_str());
        proof {
            reveal_strlit(" (");
            reveal_strlit(") - ");
        }
        s
    }
}

} // verus!
