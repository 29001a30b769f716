use kd::models::character::Character;
use kd::models::error::CatalogError;
use kd::models::show::{derive_key, Show};
use kd::models::show_collection::ShowCollection;
use kd::DisplayMoreInfo;

fn character(name: &str, role: &str, gender: &str) -> Character {
    Character::new(name.to_string(), role.to_string(), gender.to_string())
}

fn our_blues() -> (Show, String, String) {
    let mut show = Show::new("Our Blues".to_string(), 2022);
    let eun_hee = show
        .add_character(character("Jung Eun-hee", "protagonist", "female"))
        .unwrap();
    let jung_ja = show
        .add_character(character("Park Jung-ja", "comic-relief", "female"))
        .unwrap();
    show.set_relationship(eun_hee.id.clone(), jung_ja.id.clone(), "mother".to_string());
    (show, eun_hee.id, jung_ja.id)
}

#[test]
fn scenario_our_blues_characters_and_relationship() {
    let (show, eun_hee, jung_ja) = our_blues();
    assert_eq!(show.characters.len(), 2);
    assert_eq!(show.characters[0].name, "Jung Eun-hee");
    assert_eq!(show.characters[0].role, "protagonist");
    assert_eq!(show.characters[0].gender, "female");
    assert_eq!(show.characters[1].name, "Park Jung-ja");
    assert_eq!(show.characters[1].role, "comic-relief");
    assert_eq!(show.find_rel(&eun_hee, &jung_ja).unwrap().kind, "mother");
    assert!(show.find_rel(&jung_ja, &eun_hee).is_none());
}

#[test]
fn scenario_duplicate_character_is_rejected() {
    let (mut show, _, _) = our_blues();
    let r = show.add_character(character("Jung Eun-hee", "antagonist", "other"));
    match r {
        Err(CatalogError::DuplicateCharacterName { name }) => assert_eq!(name, "Jung Eun-hee"),
        _ => panic!("expected a duplicate name error"),
    }
    assert_eq!(show.characters.len(), 2);
    assert_eq!(show.characters[0].role, "protagonist");
}

#[test]
fn duplicate_name_rejected_for_any_characters() {
    let mut show = Show::new("Show".to_string(), 2000);
    let first = show.add_character(character("Same", "a", "b"));
    assert!(first.is_ok());
    let second = show.add_character(character("Same", "c", "d"));
    assert!(matches!(second, Err(CatalogError::DuplicateCharacterName { .. })));
    assert_eq!(show.characters.len(), 1);
    // names are compared exactly: a different case is another name
    assert!(show.add_character(character("same", "c", "d")).is_ok());
    assert_eq!(show.characters.len(), 2);
}

#[test]
fn add_character_returns_the_stored_character() {
    let mut show = Show::new("Show".to_string(), 2000);
    let c = character("A", "protagonist", "male");
    let id = c.id.clone();
    let stored = show.add_character(c).unwrap();
    assert_eq!(stored.id, id);
    assert_eq!(show.characters[0].id, id);
    assert_eq!(id.len(), 36);
}

#[test]
fn update_missing_character_changes_nothing() {
    let (mut show, eun_hee, jung_ja) = our_blues();
    let r = show.update_character("missing", character("New", "x", "y"));
    match r {
        Err(CatalogError::CharacterNotFound { name }) => assert_eq!(name, "missing"),
        _ => panic!("expected a not-found error"),
    }
    assert_eq!(show.characters.len(), 2);
    assert_eq!(show.characters[0].id, eun_hee);
    assert_eq!(show.characters[1].id, jung_ja);
}

#[test]
fn update_character_replaces_in_place() {
    let (mut show, eun_hee, jung_ja) = our_blues();
    let replacement = character("Jung Eun-hee 2", "antagonist", "female");
    let new_id = replacement.id.clone();
    let stored = show.update_character("Jung Eun-hee", replacement).unwrap();
    assert_eq!(stored.name, "Jung Eun-hee 2");
    assert_eq!(stored.id, eun_hee);
    assert_eq!(show.characters.len(), 2);
    assert_eq!(show.characters[0].name, "Jung Eun-hee 2");
    assert_eq!(show.characters[0].role, "antagonist");
    // the id is kept, so relationships still point at the character
    assert_eq!(show.characters[0].id, eun_hee);
    assert_ne!(show.characters[0].id, new_id);
    assert_eq!(show.find_rel(&eun_hee, &jung_ja).unwrap().kind, "mother");
    assert_eq!(show.characters[1].id, jung_ja);
    assert!(show.get_character_by_name("Jung Eun-hee").is_none());
}

#[test]
fn get_character_by_name_finds_exact_match() {
    let (show, eun_hee, _) = our_blues();
    assert_eq!(show.get_character_by_name("Jung Eun-hee").unwrap().id, eun_hee);
    assert!(show.get_character_by_name("jung eun-hee").is_none());
    assert!(show.get_character_by_name("").is_none());
}

#[test]
fn set_relationship_twice_keeps_one() {
    let (mut show, eun_hee, jung_ja) = our_blues();
    let first = show.set_relationship(eun_hee.clone(), jung_ja.clone(), "friend".to_string());
    let second = show.set_relationship(eun_hee.clone(), jung_ja.clone(), "friend".to_string());
    assert_eq!(first.id, second.id);
    assert_eq!(show.relationships.len(), 1);
    assert_eq!(show.relationships[0].kind, "friend");
    assert_eq!(show.find_rel(&eun_hee, &jung_ja).unwrap().kind, "friend");
}

#[test]
fn set_relationship_replaces_kind_only() {
    let (mut show, eun_hee, jung_ja) = our_blues();
    let before = show.find_rel(&eun_hee, &jung_ja).unwrap().id.clone();
    let r = show.set_relationship(eun_hee.clone(), jung_ja.clone(), "friend".to_string());
    assert_eq!(r.id, before);
    assert_eq!(r.source, eun_hee);
    assert_eq!(r.target, jung_ja);
    assert_eq!(r.kind, "friend");
}

#[test]
fn relationships_are_directed() {
    let mut show = Show::new("Show".to_string(), 2000);
    show.set_relationship("A".to_string(), "B".to_string(), "friend".to_string());
    assert!(show.find_rel("B", "A").is_none());
    let rel = show.find_rel("A", "B").unwrap();
    assert_eq!(rel.kind, "friend");
    assert_eq!(rel.id, "A--B");
    show.set_relationship("B".to_string(), "A".to_string(), "rival".to_string());
    assert_eq!(show.relationships.len(), 2);
    assert_eq!(show.find_rel("A", "B").unwrap().kind, "friend");
    assert_eq!(show.find_rel("B", "A").unwrap().kind, "rival");
}

#[test]
fn relationship_pairs_are_kept_apart_when_keys_collide() {
    let mut show = Show::new("Show".to_string(), 2000);
    show.set_relationship("a-".to_string(), "-b".to_string(), "one".to_string());
    show.set_relationship("a".to_string(), "--b".to_string(), "two".to_string());
    assert_eq!(show.relationships.len(), 2);
    assert_eq!(show.find_rel("a-", "-b").unwrap().kind, "one");
    assert_eq!(show.find_rel("a", "--b").unwrap().kind, "two");
}

#[test]
fn derive_key_joins_with_two_dashes() {
    assert_eq!(derive_key("abc", "def"), "abc--def");
    assert_eq!(derive_key("", ""), "--");
}

#[test]
fn character_renders_name_gender_role() {
    let c = character("Jung Eun-hee", "protagonist", "female");
    assert_eq!(c.to_string(), "Jung Eun-hee (female) - protagonist");
}

#[test]
fn show_renders_name_and_year() {
    let show = Show::new("Our Blues".to_string(), 2022);
    assert_eq!(show.to_string(), "Our Blues - 2022");
    let old = Show::new("Old".to_string(), -44);
    assert_eq!(old.to_string(), "Old - -44");
    let zero = Show::new("Zero".to_string(), 0);
    assert_eq!(zero.to_string(), "Zero - 0");
}

#[test]
fn more_info_lists_characters_in_order() {
    let (show, _, _) = our_blues();
    assert_eq!(
        show.more_info(),
        "Our Blues - 2022\nCharacters:\n\t- Jung Eun-hee (female) - protagonist\n\t- Park Jung-ja (female) - comic-relief\n"
    );
    let empty = Show::new("Empty".to_string(), 1999);
    assert_eq!(empty.more_info(), "Empty - 1999\nCharacters:\n");
}

#[test]
fn duplicate_copies_everything() {
    let (show, _, _) = our_blues();
    let copy = show.duplicate();
    assert_eq!(copy.id, show.id);
    assert_eq!(copy.name, show.name);
    assert_eq!(copy.release_year, show.release_year);
    assert_eq!(copy.characters.len(), 2);
    assert_eq!(copy.characters[1].name, "Park Jung-ja");
    assert_eq!(copy.relationships.len(), 1);
    assert_eq!(copy.relationships[0].kind, "mother");
}

#[test]
fn error_names_and_messages() {
    let dup = CatalogError::DuplicateCharacterName { name: "A".to_string() };
    let missing = CatalogError::CharacterNotFound { name: "B".to_string() };
    let no_show = CatalogError::ShowNotFound { name: "C".to_string() };
    assert_eq!(dup.message(), "Character already exists");
    assert_eq!(missing.message(), "Character not found");
    assert_eq!(no_show.message(), "Show not found");
    assert_eq!(dup.name(), "A");
    assert_eq!(missing.name(), "B");
    assert_eq!(no_show.name(), "C");
}

fn collection_with_our_blues() -> (ShowCollection, String) {
    let mut collection = ShowCollection::new();
    let (show, _, _) = our_blues();
    let id = show.id.clone();
    collection.add(show);
    collection.add(Show::new("Another".to_string(), 2010));
    (collection, id)
}

#[test]
fn scenario_update_show_keeps_id_and_characters() {
    let (mut collection, id) = collection_with_our_blues();
    let updated = collection
        .update("Our Blues", Show::new("Our Blues 2".to_string(), 2023))
        .unwrap();
    assert_eq!(updated.name, "Our Blues 2");
    assert_eq!(updated.release_year, 2023);
    assert_eq!(updated.id, id);
    let show = collection.get_show_by_name("Our Blues 2").unwrap();
    assert_eq!(show.id, id);
    assert_eq!(show.release_year, 2023);
    assert_eq!(show.characters.len(), 2);
    assert_eq!(show.characters[0].name, "Jung Eun-hee");
    assert_eq!(show.characters[1].name, "Park Jung-ja");
    assert_eq!(show.relationships.len(), 1);
    assert!(collection.get_show_by_name("Our Blues").is_none());
}

#[test]
fn scenario_update_unknown_show_fails() {
    let (mut collection, _) = collection_with_our_blues();
    let r = collection.update("Not There", Show::new("X".to_string(), 2023));
    match r {
        Err(CatalogError::ShowNotFound { name }) => assert_eq!(name, "Not There"),
        _ => panic!("expected a show-not-found error"),
    }
    assert_eq!(collection.shows.len(), 2);
    assert!(collection.get_show_by_name("Our Blues").is_some());
}

#[test]
fn new_collection_is_empty() {
    let collection = ShowCollection::new();
    assert_eq!(collection.shows.len(), 0);
    assert!(collection.get_show_names().is_empty());
}

#[test]
fn add_replaces_show_with_same_id() {
    let (mut collection, id) = collection_with_our_blues();
    let mut replacement = Show::new("Replacement".to_string(), 2001);
    replacement.id = id.clone();
    collection.add(replacement);
    assert_eq!(collection.shows.len(), 2);
    assert_eq!(collection.shows[0].id, id);
    assert_eq!(collection.shows[0].name, "Replacement");
    assert_eq!(collection.get_show_names(), vec!["Replacement", "Another"]);
}

#[test]
fn collection_add_character_goes_to_named_show() {
    let (mut collection, _) = collection_with_our_blues();
    let r = collection.add_character("Another", character("Lee", "protagonist", "male"));
    assert_eq!(r.unwrap().name, "Lee");
    assert_eq!(collection.get_show_by_name("Another").unwrap().characters.len(), 1);
    let r = collection.add_character("Another", character("Lee", "antagonist", "male"));
    assert!(matches!(r, Err(CatalogError::DuplicateCharacterName { .. })));
    let r = collection.add_character("Missing", character("Kim", "protagonist", "male"));
    match r {
        Err(CatalogError::ShowNotFound { name }) => assert_eq!(name, "Missing"),
        _ => panic!("expected a show-not-found error"),
    }
}

#[test]
fn collection_update_character_goes_to_named_show() {
    let (mut collection, _) = collection_with_our_blues();
    let old_id = collection.get_show_by_name("Our Blues").unwrap().characters[1].id.clone();
    let r = collection.update_character("Our Blues", "Park Jung-ja", character("Park", "protagonist", "female"));
    let stored = r.unwrap();
    assert_eq!(stored.name, "Park");
    assert_eq!(stored.id, old_id);
    let show = collection.get_show_by_name("Our Blues").unwrap();
    assert_eq!(show.characters[1].name, "Park");
    assert_eq!(show.characters[1].role, "protagonist");
    assert_eq!(show.characters[1].id, old_id);
    let r = collection.update_character("Our Blues", "Nobody", character("X", "y", "z"));
    assert!(matches!(r, Err(CatalogError::CharacterNotFound { .. })));
    let r = collection.update_character("Nope", "Park", character("X", "y", "z"));
    assert!(matches!(r, Err(CatalogError::ShowNotFound { .. })));
}

#[test]
fn show_getters_return_fields() {
    let show = Show::new("Our Blues".to_string(), 2022);
    assert_eq!(show.get_name(), "Our Blues");
    assert_eq!(show.get_id(), &show.id);
    assert_eq!(show.get_id().len(), 36);
    assert!(show.characters.is_empty());
    assert!(show.relationships.is_empty());
}

#[test]
fn show_index_finds_first_named_show() {
    let (collection, _) = collection_with_our_blues();
    assert_eq!(collection.show_index(&"Another".to_string()), Some(1));
    assert_eq!(collection.show_index(&"Our Blues".to_string()), Some(0));
    assert_eq!(collection.show_index(&"Nope".to_string()), None);
}

#[test]
fn fresh_ids_are_hyphenated_uuids() {
    let c = character("A", "b", "c");
    let s = Show::new("S".to_string(), 1);
    assert_ne!(c.id, s.id);
    for id in [c.id, s.id] {
        assert_eq!(id.len(), 36);
        for (i, ch) in id.chars().enumerate() {
            if i == 8 || i == 13 || i == 18 || i == 23 {
                assert_eq!(ch, '-');
            } else {
                assert!(ch.is_ascii_digit() || ('a'..='f').contains(&ch));
            }
        }
    }
}
