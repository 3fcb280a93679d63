use protonic::prefs::{AppConfig, ExeSlot};

#[test]
fn default_preferences() {
    let c = AppConfig::default();
    assert_eq!(c.last_game_name, "");
    assert_eq!(c.last_app_id, "");
    assert!(c.auto_configure);
    assert!(c.games.is_empty());
    let g = c.game_config("440");
    assert_eq!(g.exe1_path, "");
    assert_eq!(g.exe2_path, "");
}

#[test]
fn set_and_read_programs() {
    let mut c = AppConfig::default();
    c.set_exe_path("440", ExeSlot::First, "/a.exe".to_string());
    c.set_exe_path("440", ExeSlot::Second, "/b.exe".to_string());
    c.set_exe_path("620", ExeSlot::Second, "/c.exe".to_string());
    assert_eq!(c.games.len(), 2);
    let g = c.game_config("440");
    assert_eq!((g.exe1_path.as_str(), g.exe2_path.as_str()), ("/a.exe", "/b.exe"));
    let g = c.game_config("620");
    assert_eq!((g.exe1_path.as_str(), g.exe2_path.as_str()), ("", "/c.exe"));
}

#[test]
fn clear_only_touches_existing_entries() {
    let mut c = AppConfig::default();
    c.set_exe_path("440", ExeSlot::First, "/a.exe".to_string());
    c.set_exe_path("440", ExeSlot::Second, "/b.exe".to_string());
    c.clear_exe_path("440", ExeSlot::First);
    let g = c.game_config("440");
    assert_eq!((g.exe1_path.as_str(), g.exe2_path.as_str()), ("", "/b.exe"));
    c.clear_exe_path("999", ExeSlot::First);
    assert_eq!(c.games.len(), 1);
}

#[test]
fn selection_and_flag() {
    let mut c = AppConfig::default();
    c.select_game("Portal 2".to_string(), "620".to_string());
    c.set_auto_configure(false);
    assert_eq!(c.last_game_name, "Portal 2");
    assert_eq!(c.last_app_id, "620");
    assert!(!c.auto_configure);
}
