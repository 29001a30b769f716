use vstd::prelude::*;

use crate::ids::{fresh_id, hyphenated_uuid, plain_id};
use crate::models::character::{character_text, Character};
use crate::models::error::CatalogError;
use crate::render::{decimal_text, integer_text};
use crate::DisplayMoreInfo;

verus! {

/// A directed, typed edge from one character of a show to another.
#[derive(Debug)]
pub struct Relationship {
    pub id: String,
    pub source: String,
    pub target: String,
    pub kind: String,
}

/// A TV series or movie with its characters and their relationships.
#[derive(Debug)]
pub struct Show {
    pub id: String,
    pub name: String,
    pub release_year: i16,
    pub characters: Vec<Character>,
    pub relationships: Vec<Relationship>,
}

/// The key under which a relationship from `source` to `target` is stored:
/// the two ids joined by `--`.
pub open spec fn relationship_key(source: Seq<char>, target: Seq<char>) -> Seq<char> {
    source + "--"@ + target
}

/// The character at index `i` of `cs` is called `name`.
pub open spec fn named(cs: Seq<Character>, name: Seq<char>, i: int) -> bool {
    0 <= i < cs.len() && cs[i].name@ == name
}

/// Some character of `cs` is called `name`.
pub open spec fn has_character_named(cs: Seq<Character>, name: Seq<char>) -> bool {
    exists|i: int| named(cs, name, i)
}

/// Index `i` holds the first character of `cs` called `name`.
pub open spec fn first_named(cs: Seq<Character>, name: Seq<char>, i: int) -> bool {
    named(cs, name, i) && forall|j: int| 0 <= j < i ==> !named(cs, name, j)
}

/// The relationship at index `i` of `rs` goes from `source` to `target`.
pub open spec fn linked(rs: Seq<Relationship>, source: Seq<char>, target: Seq<char>, i: int) -> bool {
    0 <= i < rs.len() && rs[i].source@ == source && rs[i].target@ == target
}

/// Some relationship of `rs` goes from `source` to `target`.
pub open spec fn has_link(rs: Seq<Relationship>, source: Seq<char>, target: Seq<char>) -> bool {
    exists|i: int| linked(rs, source, target, i)
}

/// Index `i` holds the first relationship of `rs` from `source` to `target`.
pub open spec fn first_linked(rs: Seq<Relationship>, source: Seq<char>, target: Seq<char>, i: int) -> bool {
    linked(rs, source, target, i) && forall|j: int| 0 <= j < i ==> !linked(rs, source, target, j)
}

/// `a` and `b` go from the same source to the same target.
pub open spec fn same_pair(a: Relationship, b: Relationship) -> bool {
    a.source@ == b.source@ && a.target@ == b.target@
}

/// `a` and `b` agree on everything but their characters and relationships.
pub open spec fn same_header(a: Show, b: Show) -> bool {
    a.id == b.id && a.name == b.name && a.release_year == b.release_year
}

/// `a` and `b` hold the same values: same header, characters and relationships.
pub open spec fn same_content(a: Show, b: Show) -> bool {
    &&& same_header(a, b)
    &&& a.characters@ == b.characters@
    &&& a.relationships@ == b.relationships@
}

/// What `Show::add_character` does: `after` is `before` with `character`
/// appended, unless a character of that name was already there, in which case
/// nothing changes and the name is reported as a duplicate.
pub open spec fn character_added(
    before: Show,
    after: Show,
    character: Character,
    r: Result<Character, CatalogError>,
) -> bool {
    if has_character_named(before.characters@, character.name@) {
        &&& after == before
        &&& r matches Err(CatalogError::DuplicateCharacterName { name }) && name == character.name
    } else {
        &&& same_header(after, before)
        &&& after.relationships@ == before.relationships@
        &&& after.characters@ == before.characters@.push(character)
        &&& r == Ok::<Character, CatalogError>(character)
    }
}

/// What `Show::update_character` does: the first character called `old_name`
/// takes the name, role and gender of `character` in place and keeps its id;
/// without one nothing changes and the name is reported as not found. `r` is
/// the stored character.
pub open spec fn character_updated(
    before: Show,
    after: Show,
    old_name: Seq<char>,
    character: Character,
    r: Result<Character, CatalogError>,
) -> bool {
    if has_character_named(before.characters@, old_name) {
        &&& same_header(after, before)
        &&& after.relationships@ == before.relationships@
        &&& exists|i: int|
            {
                let stored = Character { id: before.characters@[i].id, ..character };
                &&& #[trigger] first_named(before.characters@, old_name, i)
                &&& after.characters@ == before.characters@.update(i, stored)
                &&& r == Ok::<Character, CatalogError>(stored)
            }
    } else {
        &&& after == before
        &&& r matches Err(CatalogError::CharacterNotFound { name }) && name@ == old_name
    }
}

/// What `Show::set_relationship` does: the first relationship from `source` to
/// `target` gets the new kind, or, if there is none, a new relationship keyed
/// by the pair is appended. `r` is the stored relationship.
pub open spec fn relationship_set(
    before: Show,
    after: Show,
    source: Seq<char>,
    target: Seq<char>,
    kind: Seq<char>,
    r: Relationship,
) -> bool {
    &&& same_header(after, before)
    &&& after.characters@ == before.characters@
    &&& if has_link(before.relationships@, source, target) {
        exists|i: int|
            first_linked(before.relationships@, source, target, i) && r
                == (Relationship { kind: r.kind, ..before.relationships@[i] }) && r.kind@ == kind
                && after.relationships@ == before.relationships@.update(i, r)
    } else {
        &&& r.id@ == relationship_key(source, target)
        &&& r.source@ == source
        &&& r.target@ == target
        &&& r.kind@ == kind
        &&& after.relationships@ == before.relationships@.push(r)
    }
}

/// The canonical one-line rendering of a show: `"{name} - {release_year}"`.
pub open spec fn show_text(name: Seq<char>, release_year: int) -> Seq<char> {
    name + " - "@ + decimal_text(release_year)
}

/// One bullet line per character, in order: `"\t- {character}\n"`.
pub open spec fn character_lines(cs: Seq<Character>) -> Seq<char>
    decreases cs.len(),
{
    if cs.len() == 0 {
        Seq::empty()
    } else {
        character_lines(cs.drop_last()) + "\t- "@ + character_text(
            cs.last().name@,
            cs.last().role@,
            cs.last().gender@,
        ) + "\n"@
    }
}

impl Relationship {
    /// The id is the key derived from the endpoints.
    pub open spec fn well_formed(&self) -> bool {
        self.id@ == relationship_key(self.source@, self.target@)
    }

    /// A field-by-field copy of this relationship.
    pub fn duplicate(&self) -> (r: Relationship)
        ensures
            r == *self,
    {
        Relationship {
            id: self.id.clone(),
            source: self.source.clone(),
            target: self.target.clone(),
            kind: self.kind.clone(),
        }
    }
}

/// Builds the key under which the relationship from `source` to `target` is
/// stored: `"{source}--{target}"`.
pub fn derive_key(source: &str, target: &str) -> (r: String)
    ensures
        r@ == relationship_key(source@, target@),
{
    let mut key = source.to_owned();
    key.append("--");
    key.append(target);
    key
}

impl Show {
    /// Every relationship is keyed by its endpoints, and no two relationships
    /// share an ordered pair of endpoints.
    pub open spec fn wf(&self) -> bool {
        &&& forall|i: int| 0 <= i < self.relationships@.len() ==> #[trigger] self.relationships@[i].well_formed()
        &&& forall|i: int, j: int|
            0 <= i < j < self.relationships@.len() ==> !same_pair(
                #[trigger] self.relationships@[i],
                #[trigger] self.relationships@[j],
            )
    }

    /// Creates a show with a fresh id and no characters or relationships.
    pub fn new(name: String, release_year: i16) -> (r: Show)
        ensures
            r.name == name,
            r.release_year == release_year,
            hyphenated_uuid(r.id@),
            r.characters@.len() == 0,
            r.relationships@.len() == 0,
            r.wf(),
    {
        Show {
            id: fresh_id(),
            name,
            release_year,
            characters: Vec::new(),
            relationships: Vec::new(),
        }
    }

    pub fn get_id(&self) -> (r: &String)
        ensures
            *r == self.id,
    {
        &self.id
    }

    pub fn get_name(&self) -> (r: &String)
        ensures
            *r == self.name,
    {
        &self.name
    }

    /// Index of the first character called `name`.
    fn character_index(&self, name: &String) -> (r: Option<usize>)
        ensures
            match r {
                Some(i) => first_named(self.characters@, name@, i as int),
                None => !has_character_named(self.characters@, name@),
            },
    {
        let mut i: usize = 0;
        while i < self.characters.len()
            invariant
                i <= self.characters@.len(),
                forall|j: int| 0 <= j < i ==> !named(self.characters@, name@, j),
            decreases self.characters@.len() - i,
        {
            if self.characters[i].name == *name {
                return Some(i);
            }
            i += 1;
        }
        None
    }

    /// Index of the first relationship from `source` to `target`.
    fn relationship_index(&self, source: &String, target: &String) -> (r: Option<usize>)
        ensures
            match r {
                Some(i) => first_linked(self.relationships@, source@, target@, i as int),
                None => !has_link(self.relationships@, source@, target@),
            },
    {
        let mut i: usize = 0;
        while i < self.relationships.len()
            invariant
                i <= self.relationships@.len(),
                forall|j: int| 0 <= j < i ==> !linked(self.relationships@, source@, target@, j),
            decreases self.relationships@.len() - i,
        {
            if self.relationships[i].source == *source && self.relationships[i].target == *target {
                return Some(i);
            }
            i += 1;
        }
        None
    }

    /// Appends `character` unless a character of the same name is already in
    /// the show. Returns a copy of the stored character.
    pub fn add_character(&mut self, character: Character) -> (r: Result<Character, CatalogError>)
        ensures
            character_added(*old(self), *final(self), character, r),
            old(self).wf() ==> final(self).wf(),
    {
        match self.character_index(&character.name) {
            Some(_) => Err(CatalogError::DuplicateCharacterName { name: character.name }),
            None => {
                let copy = character.duplicate();
                self.characters.push(character);
                Ok(copy)
            },
        }
    }

    /// Gives the first character called `old_name` the name, role and gender
    /// of `character`, keeping its position and its id. Returns a copy of the
    /// stored character.
    pub fn update_character(&mut self, old_name: &str, character: Character) -> (r: Result<
        Character,
        CatalogError,
    >)
        ensures
            character_updated(*old(self), *final(self), old_name@, character, r),
            old(self).wf() ==> final(self).wf(),
    {
        let old_name = old_name.to_owned();
        match self.character_index(&old_name) {
            Some(i) => {
                let stored = Character { id: self.characters[i].id.clone(), ..character };
                let copy = stored.duplicate();
                self.characters.set(i, stored);
                Ok(copy)
            },
            None => Err(CatalogError::CharacterNotFound { name: old_name }),
        }
    }

    /// The first character called `name`, if any.
    pub fn get_character_by_name(&self, name: &str) -> (r: Option<&Character>)
        ensures
            match r {
                Some(c) => exists|i: int| first_named(self.characters@, name@, i) && *c == self.characters@[i],
                None => !has_character_named(self.characters@, name@),
            },
    {
        let name = name.to_owned();
        match self.character_index(&name) {
            Some(i) => Some(&self.characters[i]),
            None => None,
        }
    }

    /// Stores a relationship of the given kind from `source` to `target`,
    /// replacing the kind of an existing one. Returns a copy of the stored
    /// relationship.
    ///
    /// `source` and `target` are not checked against the show's characters:
    /// whether a relationship may join ids that no character has is an open
    /// question, and for now the caller is responsible for passing ids of
    /// characters of this show.
    pub fn set_relationship(&mut self, source: String, target: String, kind: String) -> (r: Relationship)
        ensures
            relationship_set(*old(self), *final(self), source@, target@, kind@, r),
            old(self).wf() ==> final(self).wf(),
    {
        let ghost (s, t, k) = (source@, target@, kind@);
        let r = match self.relationship_index(&source, &target) {
            Some(i) => {
                let stored = Relationship {
                    id: self.relationships[i].id.clone(),
                    source: self.relationships[i].source.clone(),
                    target: self.relationships[i].target.clone(),
                    kind,
                };
                let copy = stored.duplicate();
                self.relationships.set(i, stored);
                copy
            },
            None => {
                let stored = Relationship {
                    id: derive_key(source.as_str(), target.as_str()),
                    source,
                    target,
                    kind,
                };
                let copy = stored.duplicate();
                self.relationships.push(stored);
                copy
            },
        };
        proof {
            if old(self).wf() {
                lemma_relationship_set_keeps_wf(*old(self), *self, s, t, k, r);
            }
        }
        r
    }

    /// The first relationship from `source_id` to `target_id`, if any.
    pub fn find_rel(&self, source_id: &str, target_id: &str) -> (r: Option<&Relationship>)
        ensures
            match r {
                Some(x) => exists|i: int|
                    first_linked(self.relationships@, source_id@, target_id@, i) && *x
                        == self.relationships@[i],
                None => !has_link(self.relationships@, source_id@, target_id@),
            },
    {
        let source = source_id.to_owned();
        let target = target_id.to_owned();
        match self.relationship_index(&source, &target) {
            Some(i) => Some(&self.relationships[i]),
            None => None,
        }
    }
}

impl Show {
    /// Renders the show as `"{name} - {release_year}"`.
    pub fn to_string(&self) -> (r: String)
        ensures
            r@ == show_text(self.name@, self.release_year as int),
    {
        let mut s = self.name.clone();
        s.append(" - ");
        let year = integer_text(self.release_year as i64);
        s.append(year.as_str());
        proof {
            reveal_strlit(" - ");
        }
        s
    }

    /// A copy of this show, characters and relationships included.
    pub fn duplicate(&self) -> (r: Show)
        ensures
            same_content(r, *self),
    {
        let mut characters: Vec<Character> = Vec::new();
        for i in 0..self.characters.len()
            invariant
                characters@ == self.characters@.subrange(0, i as int),
        {
            characters.push(self.characters[i].duplicate());
        }
        let mut relationships: Vec<Relationship> = Vec::new();
        for i in 0..self.relationships.len()
            invariant
                relationships@ == self.relationships@.subrange(0, i as int),
        {
            relationships.push(self.relationships[i].duplicate());
        }
        assert(characters@ == self.characters@);
        assert(relationships@ == self.relationships@);
        Show {
            id: self.id.clone(),
            name: self.name.clone(),
            release_year: self.release_year,
            characters,
            relationships,
        }
    }
}

impl DisplayMoreInfo for Show {
    /// The show line, a `Characters:` heading, then one bullet per character.
    open spec fn more_info_text(&self) -> Seq<char> {
        show_text(self.name@, self.release_year as int) + "\n"@ + "Characters:\n"@ + character_lines(
            self.characters@,
        )
    }

    fn more_info(&self) -> (r: String) {
        let mut message = self.to_string();
        message.append("\n");
        message.append("Characters:\n");
        for i in 0..self.characters.len()
            invariant
                message@ == show_text(self.name@, self.release_year as int) + "\n"@ + "Characters:\n"@
                    + character_lines(self.characters@.subrange(0, i as int)),
        {
            let line = self.characters[i].to_string();
            message.append("\t- ");
            message.append(line.as_str());
            message.append("\n");
            assert(self.characters@.subrange(0, i + 1).drop_last() == self.characters@.subrange(0, i as int));
        }
        assert(self.characters@.subrange(0, self.characters@.len() as int) == self.characters@);
        message
    }
}

/// Setting a relationship keeps a well-formed show well formed.
pub proof fn lemma_relationship_set_keeps_wf(
    before: Show,
    after: Show,
    source: Seq<char>,
    target: Seq<char>,
    kind: Seq<char>,
    r: Relationship,
)
    requires
        before.wf(),
        relationship_set(before, after, source, target, kind, r),
    ensures
        after.wf(),
{
    let old_rs = before.relationships@;
    let new_rs = after.relationships@;
    if has_link(old_rs, source, target) {
        let i = choose|i: int|
            first_linked(old_rs, source, target, i) && r == (Relationship { kind: r.kind, ..old_rs[i] })
                && r.kind@ == kind && new_rs == old_rs.update(i, r);
        assert(old_rs[i].well_formed());
        assert forall|k: int| 0 <= k < new_rs.len() implies #[trigger] new_rs[k].well_formed() by {
            assert(old_rs[k].well_formed());
        }
        assert forall|a: int, b: int| 0 <= a < b < new_rs.len() implies !same_pair(
            #[trigger] new_rs[a],
            #[trigger] new_rs[b],
        ) by {
            assert(!same_pair(old_rs[a], old_rs[b]));
        }
    } else {
        assert forall|k: int| 0 <= k < new_rs.len() implies #[trigger] new_rs[k].well_formed() by {
            if k < old_rs.len() {
                assert(old_rs[k].well_formed());
            }
        }
        assert forall|a: int, b: int| 0 <= a < b < new_rs.len() implies !same_pair(
            #[trigger] new_rs[a],
            #[trigger] new_rs[b],
        ) by {
            if b < old_rs.len() {
                assert(!same_pair(old_rs[a], old_rs[b]));
            } else {
                assert(!linked(old_rs, source, target, a));
            }
        }
    }
}

/// Once a character name is in a show, adding another character with that
/// name fails as a duplicate and leaves the number of characters unchanged.
pub proof fn lemma_duplicate_name_rejected(
    s0: Show,
    s1: Show,
    s2: Show,
    c1: Character,
    c2: Character,
    r1: Result<Character, CatalogError>,
    r2: Result<Character, CatalogError>,
)
    requires
        c1.name@ == c2.name@,
        character_added(s0, s1, c1, r1),
        character_added(s1, s2, c2, r2),
    ensures
        r2 matches Err(CatalogError::DuplicateCharacterName { name }) && name == c2.name,
        s2.characters@.len() == s1.characters@.len(),
{
    if !has_character_named(s0.characters@, c1.name@) {
        assert(named(s1.characters@, c2.name@, s0.characters@.len() as int));
    }
}

/// Updating a character by a name that no character has fails with
/// `CharacterNotFound` and leaves the characters as they were, in order.
pub proof fn lemma_update_missing_character(
    s0: Show,
    s1: Show,
    old_name: Seq<char>,
    character: Character,
    r: Result<Character, CatalogError>,
)
    requires
        !has_character_named(s0.characters@, old_name),
        character_updated(s0, s1, old_name, character, r),
    ensures
        r matches Err(CatalogError::CharacterNotFound { name }) && name@ == old_name,
        s1.characters@ == s0.characters@,
{
}

/// Setting the same relationship twice leaves exactly one relationship between
/// the two characters in that direction, with the given kind, and the
/// relationship's id is the same after both calls.
pub proof fn lemma_set_relationship_idempotent(
    s0: Show,
    s1: Show,
    s2: Show,
    source: Seq<char>,
    target: Seq<char>,
    kind: Seq<char>,
    r1: Relationship,
    r2: Relationship,
)
    requires
        s0.wf(),
        relationship_set(s0, s1, source, target, kind, r1),
        relationship_set(s1, s2, source, target, kind, r2),
    ensures
        r1.id == r2.id,
        s2.relationships@.len() == s1.relationships@.len(),
        exists|i: int|
            linked(s2.relationships@, source, target, i) && s2.relationships@[i].kind@ == kind
                && forall|j: int| linked(s2.relationships@, source, target, j) ==> j == i,
{
    lemma_relationship_set_keeps_wf(s0, s1, source, target, kind, r1);
    lemma_relationship_set_keeps_wf(s1, s2, source, target, kind, r2);
    let rs1 = s1.relationships@;
    let rs2 = s2.relationships@;
    // after the first call a relationship from source to target is stored, and it is r1
    let k = if has_link(s0.relationships@, source, target) {
        choose|i: int|
            first_linked(s0.relationships@, source, target, i) && r1 == (Relationship {
                kind: r1.kind,
                ..s0.relationships@[i]
            }) && r1.kind@ == kind && rs1 == s0.relationships@.update(i, r1)
    } else {
        s0.relationships@.len() as int
    };
    assert(linked(rs1, source, target, k) && rs1[k] == r1);
    let i = choose|i: int|
        first_linked(rs1, source, target, i) && r2 == (Relationship { kind: r2.kind, ..rs1[i] })
            && r2.kind@ == kind && rs2 == rs1.update(i, r2);
    if i != k {
        assert(same_pair(rs1[i], rs1[k]));
        if i < k {
            assert(!same_pair(rs1[i], rs1[k]));
        } else {
            assert(!same_pair(rs1[k], rs1[i]));
        }
    }
    assert forall|j: int| linked(rs2, source, target, j) implies j == i by {
        if j != i {
            assert(same_pair(rs2[i], rs2[j]));
            if i < j {
                assert(!same_pair(rs2[i], rs2[j]));
            } else {
                assert(!same_pair(rs2[j], rs2[i]));
            }
        }
    }
    assert(linked(rs2, source, target, i));
}

/// Relationships are directed: after setting one from `a` to `b` in a show
/// that had none from `b` to `a`, there is still none from `b` to `a`, while
/// the first one from `a` to `b` has the given kind.
pub proof fn lemma_relationships_are_directed(
    s0: Show,
    s1: Show,
    a: Seq<char>,
    b: Seq<char>,
    kind: Seq<char>,
    r: Relationship,
)
    requires
        a != b,
        !has_link(s0.relationships@, b, a),
        relationship_set(s0, s1, a, b, kind, r),
    ensures
        !has_link(s1.relationships@, b, a),
        exists|i: int| first_linked(s1.relationships@, a, b, i) && s1.relationships@[i].kind@ == kind,
{
    let rs0 = s0.relationships@;
    let rs1 = s1.relationships@;
    let k = if has_link(rs0, a, b) {
        choose|i: int|
            first_linked(rs0, a, b, i) && r == (Relationship { kind: r.kind, ..rs0[i] }) && r.kind@
                == kind && rs1 == rs0.update(i, r)
    } else {
        rs0.len() as int
    };
    assert forall|j: int| 0 <= j < rs1.len() implies !linked(rs1, b, a, j) by {
        if j != k {
            assert(!linked(rs0, b, a, j));
        }
    }
    assert forall|j: int| 0 <= j < k implies !linked(rs1, a, b, j) by {
        if has_link(rs0, a, b) {
            assert(!linked(rs0, a, b, j));
        } else {
            assert(!linked(rs0, a, b, j));
        }
    }
    assert(first_linked(rs1, a, b, k));
}

/// Between plain ids (no `--`, no `-` at either end, as with hyphenated
/// UUIDs) the stored key tells the ordered pair apart: two pairs get the same
/// key only when they are the same pair.
pub proof fn lemma_key_determines_pair(s1: Seq<char>, t1: Seq<char>, s2: Seq<char>, t2: Seq<char>)
    requires
        plain_id(s1),
        plain_id(t1),
        plain_id(s2),
        plain_id(t2),
        relationship_key(s1, t1) == relationship_key(s2, t2),
    ensures
        s1 == s2,
        t1 == t2,
{
    reveal_strlit("--");
    lemma_separator_position(s1, t1, s2, t2);
    lemma_separator_position(s2, t2, s1, t1);
    let k = relationship_key(s1, t1);
    assert(s1 == k.subrange(0, s1.len() as int));
    assert(s2 == k.subrange(0, s2.len() as int));
    assert(t1 == k.subrange(s1.len() as int + 2, k.len() as int));
    assert(t2 == k.subrange(s2.len() as int + 2, k.len() as int));
}

/// Where two keys agree, the separator of the first cannot stand earlier than
/// the separator of the second.
proof fn lemma_separator_position(s1: Seq<char>, t1: Seq<char>, s2: Seq<char>, t2: Seq<char>)
    requires
        plain_id(s2),
        plain_id(t1),
        relationship_key(s1, t1) == relationship_key(s2, t2),
    ensures
        s1.len() >= s2.len(),
{
    reveal_strlit("--");
    let k = relationship_key(s1, t1);
    let p = s1.len() as int;
    if p < s2.len() {
        assert(k[p] == '-' && k[p + 1] == '-');
        assert(k[p] == s2[p]);
        if p + 1 < s2.len() {
            assert(k[p + 1] == s2[p + 1]);
            assert(!(s2[p] == '-' && s2[p + 1] == '-'));
        } else {
            assert(s2[s2.len() - 1] != '-');
        }
    }
}

/// In a well-formed show whose relationships join plain ids, no two
/// relationships share a stored key, so a document keyed by those ids holds
/// every relationship.
pub proof fn lemma_relationship_ids_distinct(show: Show)
    requires
        show.wf(),
        forall|i: int|
            0 <= i < show.relationships@.len() ==> plain_id(#[trigger] show.relationships@[i].source@)
                && plain_id(show.relationships@[i].target@),
    ensures
        forall|i: int, j: int|
            0 <= i < j < show.relationships@.len() ==> #[trigger] show.relationships@[i].id@
                != #[trigger] show.relationships@[j].id@,
{
    let rs = show.relationships@;
    assert forall|i: int, j: int| 0 <= i < j < rs.len() implies #[trigger] rs[i].id@ != #[trigger] rs[j].id@ by {
        assert(rs[i].well_formed() && rs[j].well_formed());
        assert(!same_pair(rs[i], rs[j]));
        if rs[i].id@ == rs[j].id@ {
            lemma_key_determines_pair(rs[i].source@, rs[i].target@, rs[j].source@, rs[j].target@);
        }
    }
}

} // verus!
