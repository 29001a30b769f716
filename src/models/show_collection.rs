use std::path::PathBuf;
use vstd::prelude::*;

use crate::config::{join_path, joined, Config};
use crate::models::character::Character;
use crate::models::error::CatalogError;
use crate::models::show::{
    character_added, character_updated, same_content, Show,
};

verus! {

/// The name of the document that holds the collection, inside the data directory.
pub const SHOWS_FILE_NAME: &'static str = "shows.json";

/// Every show of the catalog.
#[derive(Debug)]
pub struct ShowCollection {
    pub shows: Vec<Show>,
}

/// The show at index `i` of `ss` is called `name`.
pub open spec fn show_named(ss: Seq<Show>, name: Seq<char>, i: int) -> bool {
    0 <= i < ss.len() && ss[i].name@ == name
}

/// Some show of `ss` is called `name`.
pub open spec fn has_show_named(ss: Seq<Show>, name: Seq<char>) -> bool {
    exists|i: int| show_named(ss, name, i)
}

/// Index `i` holds the first show of `ss` called `name`.
pub open spec fn first_show_named(ss: Seq<Show>, name: Seq<char>, i: int) -> bool {
    show_named(ss, name, i) && forall|j: int| 0 <= j < i ==> !show_named(ss, name, j)
}

/// The show at index `i` of `ss` has the id `id`.
pub open spec fn show_with_id(ss: Seq<Show>, id: Seq<char>, i: int) -> bool {
    0 <= i < ss.len() && ss[i].id@ == id
}

/// Some show of `ss` has the id `id`.
pub open spec fn has_show_id(ss: Seq<Show>, id: Seq<char>) -> bool {
    exists|i: int| show_with_id(ss, id, i)
}

/// What `ShowCollection::add` does: a show with the same id is replaced in
/// place; otherwise the show is appended.
pub open spec fn show_added(before: Seq<Show>, after: Seq<Show>, show: Show) -> bool {
    if has_show_id(before, show.id@) {
        exists|i: int|
            {
                &&& show_with_id(before, show.id@, i)
                &&& forall|j: int| 0 <= j < i ==> !show_with_id(before, show.id@, j)
                &&& after == before.update(i, show)
            }
    } else {
        after == before.push(show)
    }
}

/// What the collection's `add_character` does: the first show called
/// `show_name` gets `character` as `Show::add_character` adds it; without such
/// a show nothing changes and the show name is reported as not found.
pub open spec fn character_added_to_show(
    before: Seq<Show>,
    after: Seq<Show>,
    show_name: Seq<char>,
    character: Character,
    r: Result<Character, CatalogError>,
) -> bool {
    if has_show_named(before, show_name) {
        exists|i: int|
            first_show_named(before, show_name, i) && after == before.update(i, after[i])
                && character_added(before[i], after[i], character, r)
    } else {
        &&& after == before
        &&& r matches Err(CatalogError::ShowNotFound { name }) && name@ == show_name
    }
}

/// What the collection's `update_character` does: the first show called
/// `show_name` has its character replaced as `Show::update_character` does;
/// without such a show nothing changes and the show name is reported as not
/// found.
pub open spec fn character_updated_in_show(
    before: Seq<Show>,
    after: Seq<Show>,
    show_name: Seq<char>,
    old_name: Seq<char>,
    character: Character,
    r: Result<Character, CatalogError>,
) -> bool {
    if has_show_named(before, show_name) {
        exists|i: int|
            first_show_named(before, show_name, i) && after == before.update(i, after[i])
                && character_updated(before[i], after[i], old_name, character, r)
    } else {
        &&& after == before
        &&& r matches Err(CatalogError::ShowNotFound { name }) && name@ == show_name
    }
}

/// What `ShowCollection::update` does: the first show called `old_name` takes
/// the name and release year of `show` and keeps its id, characters and
/// relationships; without such a show nothing changes and the old name is
/// reported as not found.
pub open spec fn show_updated(
    before: Seq<Show>,
    after: Seq<Show>,
    old_name: Seq<char>,
    show: Show,
    r: Result<Show, CatalogError>,
) -> bool {
    if has_show_named(before, old_name) {
        exists|i: int|
            {
                &&& first_show_named(before, old_name, i)
                &&& after == before.update(i, after[i])
                &&& after[i].id == before[i].id
                &&& after[i].name == show.name
                &&& after[i].release_year == show.release_year
                &&& after[i].characters@ == before[i].characters@
                &&& after[i].relationships@ == before[i].relationships@
                &&& r matches Ok(s) && same_content(s, after[i])
            }
    } else {
        &&& after == before
        &&& r matches Err(CatalogError::ShowNotFound { name }) && name@ == old_name
    }
}

impl ShowCollection {
    /// No two shows share an id, and every show is well formed.
    pub open spec fn wf(&self) -> bool {
        &&& forall|i: int| 0 <= i < self.shows@.len() ==> #[trigger] self.shows@[i].wf()
        &&& forall|i: int, j: int|
            0 <= i < j < self.shows@.len() ==> #[trigger] self.shows@[i].id@
                != #[trigger] self.shows@[j].id@
    }

    /// The path of the document that holds the collection: `shows.json` in
    /// the data directory of `config`.
    pub fn get_file_path(config: &Config) -> (r: PathBuf)
        ensures
            r == joined(config.data_path(), SHOWS_FILE_NAME@),
    {
        join_path(config.get_data_dir(), SHOWS_FILE_NAME)
    }

    /// An empty collection, as on a first run.
    pub fn new() -> (r: ShowCollection)
        ensures
            r.shows@.len() == 0,
            r.wf(),
    {
        ShowCollection { shows: Vec::new() }
    }

    /// Index of the first show called `name`.
    pub fn show_index(&self, name: &String) -> (r: Option<usize>)
        ensures
            match r {
                Some(i) => first_show_named(self.shows@, name@, i as int),
                None => !has_show_named(self.shows@, name@),
            },
    {
        let mut i: usize = 0;
        while i < self.shows.len()
            invariant
                i <= self.shows@.len(),
                forall|j: int| 0 <= j < i ==> !show_named(self.shows@, name@, j),
            decreases self.shows@.len() - i,
        {
            if self.shows[i].name == *name {
                return Some(i);
            }
            i += 1;
        }
        None
    }

    /// Index of the show with id `id`.
    fn id_index(&self, id: &String) -> (r: Option<usize>)
        ensures
            match r {
                Some(i) => show_with_id(self.shows@, id@, i as int) && forall|j: int|
                    0 <= j < i ==> !show_with_id(self.shows@, id@, j),
                None => !has_show_id(self.shows@, id@),
            },
    {
        let mut i: usize = 0;
        while i < self.shows.len()
            invariant
                i <= self.shows@.len(),
                forall|j: int| 0 <= j < i ==> !show_with_id(self.shows@, id@, j),
            decreases self.shows@.len() - i,
        {
            if self.shows[i].id == *id {
                return Some(i);
            }
            i += 1;
        }
        None
    }

    /// Stores `show` under its id, replacing a show with the same id.
    pub fn add(&mut self, show: Show)
        ensures
            show_added(old(self).shows@, final(self).shows@, show),
            old(self).wf() && show.wf() ==> final(self).wf(),
    {
        match self.id_index(&show.id) {
            Some(i) => {
                let ghost before = self.shows@;
                self.shows.set(i, show);
                proof {
                    assert forall|a: int, b: int|
                        0 <= a < b < self.shows@.len() implies self.shows@[a].id@ == before[a].id@
                        && self.shows@[b].id@ == before[b].id@ by {}
                }
            },
            None => {
                let ghost before = self.shows@;
                self.shows.push(show);
                proof {
                    assert forall|a: int| 0 <= a < before.len() implies #[trigger] self.shows@[a].id@
                        != show.id@ by {
                        assert(!show_with_id(before, show.id@, a));
                    }
                }
            },
        }
    }

    /// The name of every show, in the collection's order.
    pub fn get_show_names(&self) -> (r: Vec<&str>)
        ensures
            r@.len() == self.shows@.len(),
            forall|i: int| 0 <= i < r@.len() ==> (#[trigger] r@[i])@ == self.shows@[i].name@,
    {
        let mut names: Vec<&str> = Vec::new();
        for i in 0..self.shows.len()
            invariant
                names@.len() == i,
                forall|j: int| 0 <= j < i ==> (#[trigger] names@[j])@ == self.shows@[j].name@,
        {
            names.push(self.shows[i].name.as_str());
        }
        names
    }

    /// The first show called `name`, if any.
    pub fn get_show_by_name(&self, name: &str) -> (r: Option<&Show>)
        ensures
            match r {
                Some(s) => exists|i: int| first_show_named(self.shows@, name@, i) && *s == self.shows@[i],
                None => !has_show_named(self.shows@, name@),
            },
    {
        let name = name.to_owned();
        match self.show_index(&name) {
            Some(i) => Some(&self.shows[i]),
            None => None,
        }
    }

    /// Adds `character` to the first show called `show_name`.
    pub fn add_character(&mut self, show_name: &str, character: Character) -> (r: Result<
        Character,
        CatalogError,
    >)
        ensures
            character_added_to_show(old(self).shows@, final(self).shows@, show_name@, character, r),
            old(self).wf() ==> final(self).wf(),
    {
        let show_name = show_name.to_owned();
        match self.show_index(&show_name) {
            Some(i) => self.shows[i].add_character(character),
            None => Err(CatalogError::ShowNotFound { name: show_name }),
        }
    }

    /// Replaces the character called `old_name` in the first show called
    /// `show_name`.
    pub fn update_character(&mut self, show_name: &str, old_name: &str, character: Character) -> (r:
        Result<Character, CatalogError>)
        ensures
            character_updated_in_show(
                old(self).shows@,
                final(self).shows@,
                show_name@,
                old_name@,
                character,
                r,
            ),
            old(self).wf() ==> final(self).wf(),
    {
        let show_name = show_name.to_owned();
        match self.show_index(&show_name) {
            Some(i) => self.shows[i].update_character(old_name, character),
            None => Err(CatalogError::ShowNotFound { name: show_name }),
        }
    }

    /// Gives the first show called `old_name` the name and release year of
    /// `show`; its id, characters and relationships stay. Returns a copy of the
    /// updated show.
    pub fn update(&mut self, old_name: &str, show: Show) -> (r: Result<Show, CatalogError>)
        ensures
            show_updated(old(self).shows@, final(self).shows@, old_name@, show, r),
            old(self).wf() ==> final(self).wf(),
    {
        let old_name = old_name.to_owned();
        match self.show_index(&old_name) {
            Some(i) => {
                let ghost before = self.shows@;
                let stored = &mut self.shows[i];
                stored.name = show.name;
                stored.release_year = show.release_year;
                let copy = stored.duplicate();
                proof {
                    assert forall|a: int| 0 <= a < self.shows@.len() implies #[trigger] self.shows@[a].id@
                        == before[a].id@ && self.shows@[a].relationships@ == before[a].relationships@ by {}
                    if old(self).wf() {
                        assert forall|a: int| 0 <= a < self.shows@.len() implies #[trigger] self.shows@[a].wf() by {
                            assert(before[a].wf());
                        }
                    }
                }
                Ok(copy)
            },
            None => Err(CatalogError::ShowNotFound { name: old_name }),
        }
    }
}

} // verus!
