use protonic::paths::{first_user_dir, get_localconfig_path, is_user_id, userdata_path, DirEntryInfo};

#[test]
fn localconfig_path_under_user_dir() {
    assert_eq!(
        get_localconfig_path("/home/me/.steam/steam/userdata/12345"),
        "/home/me/.steam/steam/userdata/12345/config/localconfig.vdf"
    );
}

#[test]
fn localconfig_path_after_trailing_separator() {
    assert_eq!(
        get_localconfig_path("/data/userdata/7/"),
        "/data/userdata/7/config/localconfig.vdf"
    );
}

#[test]
fn userdata_under_steam_root() {
    assert_eq!(userdata_path("/home/me/.steam/steam"), "/home/me/.steam/steam/userdata");
    assert_eq!(userdata_path(""), "userdata");
}

#[test]
fn user_id_names_are_digits() {
    assert!(is_user_id("12345678"));
    assert!(!is_user_id("anonymous"));
    assert!(!is_user_id("123a"));
    assert!(!is_user_id("١٢٣"));
}

fn entry(name: &str, is_dir: bool) -> DirEntryInfo {
    DirEntryInfo { path: format!("/u/{}", name), name: name.to_string(), is_dir }
}

#[test]
fn first_numeric_directory_is_chosen() {
    let entries = vec![
        entry("ac", true),
        entry("555", false),
        entry("42", true),
        entry("43", true),
    ];
    assert_eq!(first_user_dir(&entries), Some(2));
    assert_eq!(first_user_dir(&vec![entry("x", true)]), None);
    assert_eq!(first_user_dir(&Vec::new()), None);
}
