use configure::backup::backup_file_name;
use configure::clock::Timestamp;
use configure::configuration::File;
use configure::path::{source_stays_under_root, split_file_name};

fn to(destination: &str) -> File {
    File { source: "secret".to_string(), destination: destination.to_string() }
}

fn at(year: i32, month: u32, day: u32, hour: u32, minute: u32, second: u32) -> Timestamp {
    Timestamp::new(year, month, day, hour, minute, second).unwrap()
}

fn parts(name: &str) -> (String, String) {
    split_file_name(name)
}

#[test]
fn backup_destination_at_a_fixed_time() {
    let file = to("/a/b/secret.yml");
    let when = at(2024, 1, 2, 3, 4, 5);
    assert_eq!(file.get_backup_destination_at(&when), "/a/b/secret-2024-01-02-03-04-05.yml.bak");
    assert_eq!(
        file.backup_destination_at(&when),
        Some("/a/b/secret-2024-01-02-03-04-05.yml.bak".to_string())
    );
}

#[test]
fn backup_destination_is_the_same_for_the_same_time() {
    let file = to("config/keys.json");
    let when = at(2031, 12, 31, 23, 59, 59);
    assert_eq!(file.get_backup_destination_at(&when), file.get_backup_destination_at(&when));
    assert_eq!(file.get_backup_destination_at(&when), "config/keys-2031-12-31-23-59-59.json.bak");
}

#[test]
fn backup_of_a_bare_file_name_stays_beside_it() {
    let when = at(2024, 1, 2, 3, 4, 5);
    assert_eq!(to("secret.yml").get_backup_destination_at(&when), "secret-2024-01-02-03-04-05.yml.bak");
    assert_eq!(to("/secret.yml").get_backup_destination_at(&when), "/secret-2024-01-02-03-04-05.yml.bak");
}

#[test]
fn backup_without_an_extension_keeps_the_dots() {
    let when = at(2024, 1, 2, 3, 4, 5);
    assert_eq!(to("etc/secret").get_backup_destination_at(&when), "etc/secret-2024-01-02-03-04-05..bak");
    assert_eq!(to("etc/.env").get_backup_destination_at(&when), "etc/.env-2024-01-02-03-04-05..bak");
    assert_eq!(
        to("etc/archive.tar.gz").get_backup_destination_at(&when),
        "etc/archive.tar-2024-01-02-03-04-05.gz.bak"
    );
}

#[test]
fn backup_needs_a_file_name() {
    let when = at(2024, 1, 2, 3, 4, 5);
    assert_eq!(to("").backup_destination_at(&when), None);
    assert_eq!(to("/").backup_destination_at(&when), None);
    assert_eq!(to("a/..").backup_destination_at(&when), None);
    assert_eq!(to("").backup_destination(), None);
}

#[test]
fn backup_needs_a_point_in_time() {
    let never = Timestamp { year: 2023, month: 2, day: 29, hour: 0, minute: 0, second: 0 };
    assert_eq!(to("/a/b/secret.yml").backup_destination_at(&never), None);
}

#[test]
fn backup_made_now_has_the_shape_of_a_backup() {
    let made = to("/a/b/secret.yml").get_backup_destination();
    assert!(made.starts_with("/a/b/secret-"));
    assert!(made.ends_with(".yml.bak"));
    assert_eq!(made.len(), "/a/b/secret-2024-01-02-03-04-05.yml.bak".len());
    let stamp = &made["/a/b/secret-".len()..made.len() - ".yml.bak".len()];
    let fields: Vec<&str> = stamp.split('-').collect();
    assert_eq!(fields.len(), 6);
    assert!(fields.iter().all(|field| field.chars().all(|c| c.is_ascii_digit())));
    assert_eq!(to("/a/b/secret.yml").backup_destination().map(|path| path.len()), Some(made.len()));
}

#[test]
fn years_are_written_as_chrono_writes_them() {
    let file = to("f.txt");
    assert_eq!(file.get_backup_destination_at(&at(999, 3, 4, 5, 6, 7)), "f-0999-03-04-05-06-07.txt.bak");
    assert_eq!(file.get_backup_destination_at(&at(0, 1, 1, 0, 0, 0)), "f-0000-01-01-00-00-00.txt.bak");
    assert_eq!(file.get_backup_destination_at(&at(9999, 12, 31, 23, 59, 59)), "f-9999-12-31-23-59-59.txt.bak");
    assert_eq!(file.get_backup_destination_at(&at(10000, 1, 1, 0, 0, 0)), "f-+10000-01-01-00-00-00.txt.bak");
    assert_eq!(file.get_backup_destination_at(&at(262142, 12, 31, 0, 0, 0)), "f-+262142-12-31-00-00-00.txt.bak");
    assert_eq!(file.get_backup_destination_at(&at(-1, 1, 1, 0, 0, 0)), "f--0001-01-01-00-00-00.txt.bak");
    assert_eq!(file.get_backup_destination_at(&at(-12345, 1, 1, 0, 0, 0)), "f--12345-01-01-00-00-00.txt.bak");
    assert_eq!(file.get_backup_destination_at(&at(-262143, 1, 1, 0, 0, 0)), "f--262143-01-01-00-00-00.txt.bak");
}

#[test]
fn timestamps_are_days_of_the_calendar() {
    assert!(Timestamp::new(2024, 2, 29, 0, 0, 0).is_some());
    assert!(Timestamp::new(2023, 2, 29, 0, 0, 0).is_none());
    assert!(Timestamp::new(1900, 2, 29, 0, 0, 0).is_none());
    assert!(Timestamp::new(2000, 2, 29, 0, 0, 0).is_some());
    assert!(Timestamp::new(-4, 2, 29, 0, 0, 0).is_some());
    assert!(Timestamp::new(-100, 2, 29, 0, 0, 0).is_none());
    assert!(Timestamp::new(-400, 2, 29, 0, 0, 0).is_some());
    assert!(Timestamp::new(2023, 4, 31, 0, 0, 0).is_none());
    assert!(Timestamp::new(2023, 4, 30, 0, 0, 0).is_some());
    assert!(Timestamp::new(2023, 1, 31, 0, 0, 0).is_some());
    assert!(Timestamp::new(2023, 0, 1, 0, 0, 0).is_none());
    assert!(Timestamp::new(2023, 13, 1, 0, 0, 0).is_none());
    assert!(Timestamp::new(2023, 1, 0, 0, 0, 0).is_none());
    assert!(Timestamp::new(2023, 1, 32, 0, 0, 0).is_none());
    assert!(Timestamp::new(2023, 1, 1, 24, 0, 0).is_none());
    assert!(Timestamp::new(2023, 1, 1, 23, 60, 0).is_none());
    assert!(Timestamp::new(2023, 1, 1, 23, 59, 60).is_none());
    assert!(Timestamp::new(262143, 1, 1, 0, 0, 0).is_none());
    assert!(Timestamp::new(-262144, 1, 1, 0, 0, 0).is_none());
    assert_eq!(
        Timestamp::new(2024, 1, 2, 3, 4, 5),
        Some(Timestamp { year: 2024, month: 1, day: 2, hour: 3, minute: 4, second: 5 })
    );
}

#[test]
fn check_agrees_with_new() {
    assert!(at(2024, 2, 29, 12, 0, 0).check());
    assert!(!Timestamp { year: 2024, month: 2, day: 30, hour: 12, minute: 0, second: 0 }.check());
    assert!(!Timestamp { year: 2024, month: 6, day: 31, hour: 0, minute: 0, second: 0 }.check());
    assert!(!Timestamp { year: 2024, month: 9, day: 31, hour: 0, minute: 0, second: 0 }.check());
    assert!(!Timestamp { year: 2024, month: 11, day: 31, hour: 0, minute: 0, second: 0 }.check());
    assert!(Timestamp { year: 2024, month: 12, day: 31, hour: 0, minute: 0, second: 0 }.check());
}

#[test]
fn file_names_part_at_the_last_dot() {
    assert_eq!(parts("secret.yml"), ("secret".to_string(), "yml".to_string()));
    assert_eq!(parts("archive.tar.gz"), ("archive.tar".to_string(), "gz".to_string()));
    assert_eq!(parts("secret"), ("secret".to_string(), "".to_string()));
    assert_eq!(parts(".env"), (".env".to_string(), "".to_string()));
    assert_eq!(parts(".env.local"), (".env".to_string(), "local".to_string()));
    assert_eq!(parts("secret."), ("secret".to_string(), "".to_string()));
    assert_eq!(parts(""), ("".to_string(), "".to_string()));
    assert_eq!(parts("."), (".".to_string(), "".to_string()));
    assert_eq!(parts("schlüssel.törn"), ("schlüssel".to_string(), "törn".to_string()));
}

#[test]
fn file_names_part_as_std_parts_them() {
    for name in ["secret.yml", "archive.tar.gz", "secret", ".env", ".env.local", "secret.", "a.b.", "ü.é"] {
        let path = std::path::Path::new(name);
        let stem = path.file_stem().and_then(|stem| stem.to_str()).unwrap_or("");
        let extension = path.extension().and_then(|extension| extension.to_str()).unwrap_or("");
        assert_eq!(parts(name), (stem.to_string(), extension.to_string()), "{}", name);
    }
}

#[test]
fn backup_names_put_the_stamp_before_the_extension() {
    assert_eq!(backup_file_name("secret.yml", "STAMP"), "secret-STAMP.yml.bak");
    assert_eq!(backup_file_name("secret", "STAMP"), "secret-STAMP..bak");
    assert_eq!(backup_file_name(".env", ""), ".env-..bak");
}

#[test]
fn paths_that_never_step_above_the_root_stay_under_it() {
    for source in [
        "api.yml", "ios/keys.plist", "a/b/c", "", ".", "./a", "a/./b", ".env", "a..b", "...", "a/...",
        "..a", "a..", "a/..b/c", "dir/", "a/../b", "a//../b", "ü/../x", "a/..", "a/b/../..", "./a/..",
        "a/b/../../c", "a/./../b", "a/../b/../c", ".../..",
    ] {
        assert!(source_stays_under_root(source), "{:?}", source);
    }
}

#[test]
fn absolute_paths_and_steps_above_the_root_leave_it() {
    for source in [
        "/", "/etc/hosts", "//x", "/a/../b", "..", "../x", "../api.yml", "./..", "../..", ".//..", "a/../..",
        "a/../../x", "a/../../a/b", "a/b/../../..", "a/../b/../../c", "ü/../../x", "../a/b",
    ] {
        assert!(!source_stays_under_root(source), "{:?}", source);
    }
}
