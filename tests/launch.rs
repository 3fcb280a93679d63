use protonic::launch::{
    begin_launch, launch_options_status, Cue, HotkeyWorker, LaunchError, LaunchStatus,
    LaunchStep, ProcessCommand, WorkerState,
};

fn spawn(program: &str, args: &[&str]) -> LaunchStep {
    LaunchStep::Spawn(ProcessCommand {
        program: program.to_string(),
        args: args.iter().map(|a| a.to_string()).collect(),
    })
}

#[test]
fn launch_needs_first_program() {
    let r = begin_launch("440", "", true);
    assert_eq!(r, Err(LaunchError::NoExecutable));
    assert_eq!(r.unwrap_err().message(), "No executable selected!");
}

#[test]
fn launch_configures_then_starts_game() {
    assert_eq!(
        begin_launch("440", "/a.exe", true).unwrap(),
        vec![
            LaunchStep::ConfigureWrapper,
            LaunchStep::PlayCue(Cue::LaunchGame),
            spawn("steam", &["steam://run/440"]),
        ]
    );
    assert_eq!(
        begin_launch("440", "/a.exe", false).unwrap(),
        vec![LaunchStep::PlayCue(Cue::LaunchGame), spawn("steam", &["steam://run/440"])]
    );
}

#[test]
fn worker_waits_then_fires_both_programs() {
    let mut w = HotkeyWorker::new("440".to_string(), "/a.exe".to_string(), "/b.exe".to_string());
    assert!(!w.is_done());
    assert_eq!(w.on_poll(false), vec![LaunchStep::Sleep(100)]);
    assert_eq!(w.state, WorkerState::Waiting);
    assert_eq!(
        w.on_poll(true),
        vec![
            LaunchStep::PlayCue(Cue::LaunchProgram),
            spawn("protonhax", &["run", "440", "/a.exe"]),
            LaunchStep::Sleep(500),
            spawn("protonhax", &["run", "440", "/b.exe"]),
        ]
    );
    assert!(w.is_done());
    assert_eq!(w.on_poll(true), vec![]);
}

#[test]
fn worker_without_second_program() {
    let mut w = HotkeyWorker::new("440".to_string(), "/a.exe".to_string(), String::new());
    assert_eq!(
        w.on_poll(true),
        vec![
            LaunchStep::PlayCue(Cue::LaunchProgram),
            spawn("protonhax", &["run", "440", "/a.exe"]),
        ]
    );
}

#[test]
fn status_lines() {
    let s = launch_options_status("440", true, true);
    assert_eq!(s, LaunchStatus::Configured);
    assert_eq!(s.message(), "✓ Launch options configured");
    let s = launch_options_status("440", true, false);
    assert_eq!(s, LaunchStatus::WillConfigure);
    assert_eq!(s.message(), "Launch options will be configured on launch");
    assert_eq!(launch_options_status("440", false, true), LaunchStatus::Hidden);
    assert_eq!(launch_options_status("", true, true), LaunchStatus::Hidden);
    assert_eq!(LaunchStatus::Hidden.message(), "");
}
