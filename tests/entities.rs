use kd::config::Config;
use kd::models::actor::Actor;
use kd::models::show_collection::ShowCollection;

#[test]
fn actor_renders_birth_year() {
    let actor = Actor::new("Lee Byung-hun".to_string(), 1970);
    assert_eq!(actor.to_string(), "Lee Byung-hun - born 1970");
    let negative = Actor::new("Old".to_string(), -12);
    assert_eq!(negative.to_string(), "Old - born -12");
}

#[test]
fn plain_character_renders() {
    let c = kd::character::Character::new("Name".to_string(), "role".to_string(), "gender".to_string());
    assert_eq!(c.name, "Name");
    assert_eq!(c.to_string(), "Name (gender) - role");
}

#[test]
fn plain_show_renders() {
    let s = kd::show::Show::new("Title".to_string(), 1999);
    assert_eq!(s.to_string(), "Title - 1999");
}

#[test]
fn config_directories_sit_under_the_reverse_domain() {
    if let Some(config) = Config::new() {
        assert!(config.get_config_dir().ends_with("com.webspence.kd/config"));
        assert!(config.get_data_dir().ends_with("com.webspence.kd/data"));
        let path = ShowCollection::get_file_path(&config);
        assert!(path.ends_with("com.webspence.kd/data/shows.json"));
    }
}
