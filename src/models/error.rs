use vstd::prelude::*;

verus! {

/// Why an operation on the catalog was refused. Each kind carries the name
/// that the operation could not use.
#[derive(Debug)]
pub enum CatalogError {
    /// A character of that name already exists in the show.
    DuplicateCharacterName { name: String },
    /// No character of that name exists in the show.
    CharacterNotFound { name: String },
    /// No show of that name exists in the collection.
    ShowNotFound { name: String },
}

impl CatalogError {
    /// The name that the failed operation looked for or tried to add.
    pub fn name(&self) -> (r: &String)
        ensures
            match *self {
                CatalogError::DuplicateCharacterName { name } => *r == name,
                CatalogError::CharacterNotFound { name } => *r == name,
                CatalogError::ShowNotFound { name } => *r == name,
            },
    {
        match self {
            CatalogError::DuplicateCharacterName { name } => name,
            CatalogError::CharacterNotFound { name } => name,
            CatalogError::ShowNotFound { name } => name,
        }
    }

    /// A short human-readable description of the error kind.
    pub fn message(&self) -> (r: &'static str)
        ensures
            r@ == match *self {
                CatalogError::DuplicateCharacterName { .. } => "Character already exists"@,
                CatalogError::CharacterNotFound { .. } => "Character not found"@,
                CatalogError::ShowNotFound { .. } => "Show not found"@,
            },
    {
        match self {
            CatalogError::DuplicateCharacterName { .. } => "Character already exists",
            CatalogError::CharacterNotFound { .. } => "Character not found",
            CatalogError::ShowNotFound { .. } => "Show not found",
        }
    }
}

} // verus!
