use protonic::vdf::{
    configure_launch_options, has_protonhax_configured, ConfigError, EditError, LaunchEdit,
};

fn rewritten(r: Result<LaunchEdit, EditError>) -> String {
    match r {
        Ok(LaunchEdit::Rewritten(bytes)) => String::from_utf8(bytes).unwrap(),
        other => panic!("expected a rewrite, got {:?}", other),
    }
}

fn value_of(file: &str, app_id: &str) -> String {
    let at = file.find(&format!("\"{}\"", app_id)).unwrap();
    let key = at + file[at..].find("\"LaunchOptions\"").unwrap();
    let open = key + 15 + file[key + 15..].find('"').unwrap() + 1;
    let close = open + file[open..].find('"').unwrap();
    file[open..close].to_string()
}

const EMPTY_VALUE: &str = "\"Apps\"\n{\n\t\"440\"\n\t{\n\t\t\"LaunchOptions\"\t\"\"\n\t}\n}";

#[test]
fn install_into_empty_launch_options() {
    let out = rewritten(configure_launch_options(EMPTY_VALUE.as_bytes(), "440"));
    assert_eq!(
        out,
        "\"Apps\"\n{\n\t\"440\"\n\t{\n\t\t\"LaunchOptions\"\t\"protonhax init %COMMAND%\"\n\t}\n}"
    );
    assert_eq!(value_of(&out, "440"), "protonhax init %COMMAND%");
}

#[test]
fn install_preserves_existing_flags() {
    let file = "\"Apps\"\n{\n\t\"440\"\n\t{\n\t\t\"LaunchOptions\"\t\"MANGOHUD=1 %COMMAND% --vulkan\"\n\t}\n}";
    let out = rewritten(configure_launch_options(file.as_bytes(), "440"));
    assert_eq!(
        value_of(&out, "440"),
        "protonhax init MANGOHUD=1 %COMMAND% --vulkan %COMMAND%"
    );
}

#[test]
fn no_op_when_already_installed() {
    let file = "\"Apps\"\n{\n\t\"440\"\n\t{\n\t\t\"LaunchOptions\"\t\"protonhax init %COMMAND%\"\n\t}\n}";
    assert!(has_protonhax_configured(file.as_bytes(), "440"));
    let r = configure_launch_options(file.as_bytes(), "440");
    assert_eq!(r, Ok(LaunchEdit::AlreadyConfigured));
    assert_eq!(r.unwrap().message(), "Launch options already configured");
}

#[test]
fn key_absent_inserts_at_block_head() {
    let file = "\"Apps\"\n{\n\t\"620\"\n\t{\n\t\t\"LastPlayed\"\t\"1700000000\"\n\t}\n}";
    let out = rewritten(configure_launch_options(file.as_bytes(), "620"));
    assert_eq!(
        out,
        "\"Apps\"\n{\n\t\"620\"\n\t{\n\t\t\t\t\t\t\t\"LaunchOptions\"\t\t\"protonhax init %COMMAND%\"\n\t\t\"LastPlayed\"\t\"1700000000\"\n\t}\n}"
    );
}

#[test]
fn app_not_present_is_not_found() {
    let r = configure_launch_options(EMPTY_VALUE.as_bytes(), "999999");
    assert_eq!(r, Err(EditError::GameNotFound));
    assert_eq!(
        r.unwrap_err().message(),
        "Game not found in Steam config. Launch the game from Steam at least once first."
    );
    assert!(!has_protonhax_configured(EMPTY_VALUE.as_bytes(), "999999"));
}

#[test]
fn missing_brace_is_invalid_structure() {
    let file = "\"Apps\" \"440\" \"LaunchOptions\" \"\"";
    let r = configure_launch_options(file.as_bytes(), "440");
    assert_eq!(r, Err(EditError::InvalidStructure));
    assert_eq!(r.unwrap_err().message(), "Invalid VDF structure");
}

#[test]
fn unterminated_value_is_invalid_launch_options() {
    let file = "\"440\"\n{\n\t\"LaunchOptions\"\t\"-novid";
    let r = configure_launch_options(file.as_bytes(), "440");
    assert_eq!(r, Err(EditError::InvalidLaunchOptions));
    assert_eq!(r.unwrap_err().message(), "Invalid LaunchOptions format");
}

#[test]
fn install_then_check_finds_wrapper() {
    for file in [
        EMPTY_VALUE,
        "\"440\"\n{\n\t\"LaunchOptions\"\t\"-novid\"\n}",
        "\"440\"\n{\n\t\"LastPlayed\"\t\"1\"\n}",
    ] {
        assert!(!has_protonhax_configured(file.as_bytes(), "440"));
        let out = rewritten(configure_launch_options(file.as_bytes(), "440"));
        assert!(has_protonhax_configured(out.as_bytes(), "440"));
    }
}

#[test]
fn install_twice_equals_install_once() {
    let once = rewritten(configure_launch_options(EMPTY_VALUE.as_bytes(), "440"));
    let twice = configure_launch_options(once.as_bytes(), "440");
    assert_eq!(twice, Ok(LaunchEdit::AlreadyConfigured));
}

#[test]
fn bytes_outside_the_value_are_kept() {
    let file = "\"Apps\"\n{\n\t\"10\"\n\t{\n\t\t\"LaunchOptions\"\t\"x\"\n\t}\n\t\"440\"\n\t{\n\t\t\"LaunchOptions\"\t\"-novid\"\n\t\t\"Other\"\t\"y\"\n\t}\n}";
    let out = rewritten(configure_launch_options(file.as_bytes(), "440"));
    let start = file.find("-novid").unwrap();
    let end = start + "-novid".len();
    let new_value = "protonhax init -novid %COMMAND%";
    assert_eq!(&out[..start], &file[..start]);
    assert_eq!(&out[start..start + new_value.len()], new_value);
    assert_eq!(&out[start + new_value.len()..], &file[end..]);
    assert_eq!(value_of(&out, "10"), "x");
}

#[test]
fn key_beyond_window_gets_new_entry() {
    let filler = "\t\t\"Pad\"\t\"".to_string() + &"p".repeat(520) + "\"\n";
    let file = format!("\"440\"\n{{\n{}\t\t\"LaunchOptions\"\t\"-novid\"\n}}", filler);
    let out = rewritten(configure_launch_options(file.as_bytes(), "440"));
    let head = "\"440\"\n{\n\t\t\t\t\t\t\t\"LaunchOptions\"\t\t\"protonhax init %COMMAND%\"\n";
    assert!(out.starts_with(head));
    assert_eq!(&out[head.len() - 1..], &file[7..]);
}

#[test]
fn first_occurrence_of_app_id_is_used() {
    let file = "\"Apps\"\n{\n\t\"440\"\n\t{\n\t\t\"LaunchOptions\"\t\"a\"\n\t}\n\t\"440\"\n\t{\n\t\t\"LaunchOptions\"\t\"b\"\n\t}\n}";
    let out = rewritten(configure_launch_options(file.as_bytes(), "440"));
    assert!(out.contains("\"protonhax init a %COMMAND%\""));
    assert!(out.contains("\"b\""));
}

#[test]
fn check_reads_only_the_app_window() {
    let file = "\"440\"\n{\n\t\"LaunchOptions\"\t\"-novid\"\n}\n\"730\"\n{\n\t\"LaunchOptions\"\t\"protonhax init %COMMAND%\"\n}";
    assert!(!has_protonhax_configured(file.as_bytes(), "440"));
    assert!(has_protonhax_configured(file.as_bytes(), "730"));
}

#[test]
fn success_message() {
    let r = configure_launch_options(EMPTY_VALUE.as_bytes(), "440").unwrap();
    assert_eq!(r.message(), "Launch options configured successfully");
}

#[test]
fn config_error_messages() {
    assert_eq!(ConfigError::NotLocated.message(), "Could not find Steam localconfig.vdf");
    assert_eq!(
        ConfigError::ReadFailed("denied".to_string()).message(),
        "Failed to read localconfig.vdf: denied"
    );
    assert_eq!(
        ConfigError::WriteFailed("disk full".to_string()).message(),
        "Failed to write localconfig.vdf: disk full"
    );
    assert_eq!(
        ConfigError::Edit(EditError::InvalidStructure).message(),
        "Invalid VDF structure"
    );
}
