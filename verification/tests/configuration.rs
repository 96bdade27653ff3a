use configure::configuration::{ConfigurationFile, File};

fn mapping(source: &str, destination: &str) -> File {
    File { source: source.to_string(), destination: destination.to_string() }
}

fn configured() -> ConfigurationFile {
    ConfigurationFile {
        project_name: "mobile".to_string(),
        branch: "trunk".to_string(),
        pinned_hash: "a1b2c3".to_string(),
        files_to_copy: vec![mapping("ios/keys.plist", "App/keys.plist")],
    }
}

#[test]
fn encrypted_destination_appends_the_suffix() {
    let file = mapping("secrets/api.yml", "config/api.yml");
    assert_eq!(file.get_encrypted_destination(), "config/api.yml.enc");
    assert_eq!(mapping("a", "").get_encrypted_destination(), ".enc");
    assert_eq!(mapping("a", "dir/").get_encrypted_destination(), "dir/.enc");
    assert_eq!(mapping("a", "x.enc").get_encrypted_destination(), "x.enc.enc");
}

#[test]
fn decrypted_destination_is_the_destination() {
    let file = mapping("secrets/api.yml", "config/api.yml");
    assert_eq!(file.get_decrypted_destination(), "config/api.yml");
    assert_eq!(mapping("a", "").get_decrypted_destination(), "");
    assert_eq!(mapping("a", "dir/").get_decrypted_destination(), "dir/");
}

#[test]
fn default_configuration_is_empty() {
    let configuration = ConfigurationFile::default();
    assert!(configuration.is_empty());
    assert_eq!(configuration.project_name, "");
    assert_eq!(configuration.branch, "");
    assert_eq!(configuration.pinned_hash, "");
    assert!(configuration.files_to_copy.is_empty());
}

#[test]
fn any_field_set_makes_a_configuration_non_empty() {
    let mut named = ConfigurationFile::default();
    named.project_name = "mobile".to_string();
    assert!(!named.is_empty());

    let mut tracking = ConfigurationFile::default();
    tracking.branch = "trunk".to_string();
    assert!(!tracking.is_empty());

    let mut pinned = ConfigurationFile::default();
    pinned.pinned_hash = "a1b2c3".to_string();
    assert!(!pinned.is_empty());

    let mut mapped = ConfigurationFile::default();
    mapped.files_to_copy.push(mapping("", ""));
    assert!(!mapped.is_empty());

    let mut blank = ConfigurationFile::default();
    blank.project_name = " ".to_string();
    assert!(!blank.is_empty());

    assert!(!configured().is_empty());
}

#[test]
fn a_field_is_needed_only_while_it_is_the_empty_string() {
    let empty = ConfigurationFile::default();
    assert!(empty.needs_project_name());
    assert!(empty.needs_branch());
    assert!(empty.needs_pinned_hash());

    let full = configured();
    assert!(!full.needs_project_name());
    assert!(!full.needs_branch());
    assert!(!full.needs_pinned_hash());

    let mut blank = ConfigurationFile::default();
    blank.project_name = " ".to_string();
    blank.branch = "\t".to_string();
    blank.pinned_hash = "\n".to_string();
    assert!(!blank.needs_project_name());
    assert!(!blank.needs_branch());
    assert!(!blank.needs_pinned_hash());

    let mut only_name = ConfigurationFile::default();
    only_name.project_name = "mobile".to_string();
    assert!(!only_name.needs_project_name());
    assert!(only_name.needs_branch());
    assert!(only_name.needs_pinned_hash());
}

#[test]
fn equality_is_structural() {
    assert_eq!(configured(), configured());
    let mut other = configured();
    other.files_to_copy[0].destination = "App/keys.plist/".to_string();
    assert_ne!(configured(), other);
    assert_ne!(mapping("a", "b"), mapping("a", "b/"));
}

#[test]
fn a_clone_equals_what_it_was_made_from() {
    let first = configured();
    let copy = first.clone();
    assert_eq!(copy, first);
    assert_eq!(mapping("a", "b").clone(), mapping("a", "b"));
}

#[test]
fn mappings_keep_their_order() {
    let mut configuration = ConfigurationFile::default();
    configuration.files_to_copy.push(mapping("b", "2"));
    configuration.files_to_copy.push(mapping("a", "1"));
    let copy = configuration.clone();
    assert_eq!(copy.files_to_copy, vec![mapping("b", "2"), mapping("a", "1")]);
}
