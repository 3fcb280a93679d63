//! The launch sequencer's decisions: what to show about the launch
//! options, what to do when a launch starts, and what the hotkey worker does
//! on each poll. The caller performs each step and reports the key state.

use vstd::prelude::*;

verus! {

/// How long the hotkey worker waits between two polls, in milliseconds.
pub const POLL_INTERVAL_MS: u64 = 100;

/// How long to wait before starting the second program, in milliseconds.
pub const SECOND_PROGRAM_DELAY_MS: u64 = 500;

/// What the front end shows about the selected game's launch options.
#[derive(Debug, Clone, Copy, PartialEq, Eq, Structural)]
pub enum LaunchStatus {
    /// The wrapper is installed.
    Configured,
    /// The wrapper is missing and will be installed at launch.
    WillConfigure,
    /// Nothing to show: no game selected, or auto-configuration off.
    Hidden,
}

/// The status for a selection: hidden without a selected app or with
/// auto-configuration off, else whether the wrapper is installed.
pub open spec fn status_of(app_selected: bool, auto_configure: bool, configured: bool) -> LaunchStatus {
    if !app_selected || !auto_configure {
        LaunchStatus::Hidden
    } else if configured {
        LaunchStatus::Configured
    } else {
        LaunchStatus::WillConfigure
    }
}

/// The status to show for `app_id`, given the auto-configure flag and
/// whether the wrapper is installed.
pub fn launch_options_status(app_id: &str, auto_configure: bool, configured: bool) -> (r: LaunchStatus)
    ensures
        r == status_of(app_id@.len() > 0, auto_configure, configured),
{
    if app_id.is_empty() || !auto_configure {
        LaunchStatus::Hidden
    } else if configured {
        LaunchStatus::Configured
    } else {
        LaunchStatus::WillConfigure
    }
}

impl LaunchStatus {
    /// The line that the front end shows.
    pub fn message(&self) -> (r: String)
        ensures
            r@ == match self {
                LaunchStatus::Configured => "✓ Launch options configured"@,
                LaunchStatus::WillConfigure => "Launch options will be configured on launch"@,
                LaunchStatus::Hidden => Seq::<char>::empty(),
            },
    {
        match self {
            LaunchStatus::Configured => String::from_str("✓ Launch options configured"),
            LaunchStatus::WillConfigure => String::from_str("Launch options will be configured on launch"),
            LaunchStatus::Hidden => String::new(),
        }
    }
}

/// An audio cue.
#[derive(Debug, Clone, Copy, PartialEq, Eq, Structural)]
pub enum Cue {
    /// The game is being started.
    LaunchGame,
    /// The programs are being started.
    LaunchProgram,
}

/// A program to start, detached, with its arguments.
#[derive(Debug, PartialEq, Eq)]
pub struct ProcessCommand {
    pub program: String,
    pub args: Vec<String>,
}

/// A step for the caller to perform.
#[derive(Debug, PartialEq, Eq)]
pub enum LaunchStep {
    /// Install the wrapper in the app's launch options; a failure is
    /// reported and the launch goes on.
    ConfigureWrapper,
    /// Play an audio cue without waiting for it.
    PlayCue(Cue),
    /// Start a process without waiting for it.
    Spawn(ProcessCommand),
    /// Wait this many milliseconds.
    Sleep(u64),
}

/// A step as mathematical values.
pub enum StepView {
    ConfigureWrapper,
    PlayCue(Cue),
    Spawn(Seq<char>, Seq<Seq<char>>),
    Sleep(u64),
}

pub open spec fn command_view(c: ProcessCommand) -> (Seq<char>, Seq<Seq<char>>) {
    (c.program@, c.args@.map_values(|a: String| a@))
}

pub open spec fn step_view(s: LaunchStep) -> StepView {
    match s {
        LaunchStep::ConfigureWrapper => StepView::ConfigureWrapper,
        LaunchStep::PlayCue(c) => StepView::PlayCue(c),
        LaunchStep::Spawn(c) => StepView::Spawn(command_view(c).0, command_view(c).1),
        LaunchStep::Sleep(ms) => StepView::Sleep(ms),
    }
}

pub open spec fn steps_view(s: Seq<LaunchStep>) -> Seq<StepView> {
    s.map_values(|x: LaunchStep| step_view(x))
}

/// The Steam client started on `steam://run/<app_id>`.
pub open spec fn steam_run(app_id: Seq<char>) -> StepView {
    StepView::Spawn("steam"@, seq!["steam://run/"@ + app_id])
}

/// `protonhax run <app_id> <exe>`.
pub open spec fn prefix_run(app_id: Seq<char>, exe: Seq<char>) -> StepView {
    StepView::Spawn("protonhax"@, seq!["run"@, app_id, exe])
}

/// Why a launch does not start.
#[derive(Debug, Clone, Copy, PartialEq, Eq, Structural)]
pub enum LaunchError {
    /// No first program is selected.
    NoExecutable,
}

impl LaunchError {
    /// The line reported for the error.
    pub fn message(&self) -> (r: String)
        ensures
            r@ == "No executable selected!"@,
    {
        String::from_str("No executable selected!")
    }
}

/// The steps that start a launch, up to the wait for the hotkey: none
/// without a first program; otherwise the wrapper's installation where
/// auto-configuration is on, the game's cue, and the game started through
/// Steam.
pub open spec fn launch_start(app_id: Seq<char>, exe1: Seq<char>, auto_configure: bool) -> Result<
    Seq<StepView>,
    LaunchError,
> {
    if exe1.len() == 0 {
        Err(LaunchError::NoExecutable)
    } else {
        let tail = seq![StepView::PlayCue(Cue::LaunchGame), steam_run(app_id)];
        if auto_configure {
            Ok(seq![StepView::ConfigureWrapper] + tail)
        } else {
            Ok(tail)
        }
    }
}

fn string_of(s: &str) -> (r: String)
    ensures
        r@ == s@,
{
    String::from_str(s)
}

fn spawn_steam(app_id: &str) -> (r: LaunchStep)
    ensures
        step_view(r) == steam_run(app_id@),
{
    let mut url = string_of("steam://run/");
    url.append(app_id);
    let mut args: Vec<String> = Vec::new();
    args.push(url);
    let cmd = ProcessCommand { program: string_of("steam"), args };
    assert(command_view(cmd).1 =~= seq!["steam://run/"@ + app_id@]);
    LaunchStep::Spawn(cmd)
}

fn spawn_in_prefix(app_id: &str, exe: &str) -> (r: LaunchStep)
    ensures
        step_view(r) == prefix_run(app_id@, exe@),
{
    let mut args: Vec<String> = Vec::new();
    args.push(string_of("run"));
    args.push(string_of(app_id));
    args.push(string_of(exe));
    let cmd = ProcessCommand { program: string_of("protonhax"), args };
    assert(command_view(cmd).1 =~= seq!["run"@, app_id@, exe@]);
    LaunchStep::Spawn(cmd)
}

/// The steps that start the launch of `app_id` with `exe1` as first
/// program: exactly `launch_start`.
pub fn begin_launch(app_id: &str, exe1: &str, auto_configure: bool) -> (r: Result<
    Vec<LaunchStep>,
    LaunchError,
>)
    ensures
        match r {
            Ok(steps) => launch_start(app_id@, exe1@, auto_configure) == Ok::<
                Seq<StepView>,
                LaunchError,
            >(steps_view(steps@)),
            Err(e) => launch_start(app_id@, exe1@, auto_configure) == Err::<
                Seq<StepView>,
                LaunchError,
            >(e),
        },
{
    if exe1.is_empty() {
        return Err(LaunchError::NoExecutable);
    }
    let mut steps: Vec<LaunchStep> = Vec::new();
    if auto_configure {
        steps.push(LaunchStep::ConfigureWrapper);
    }
    steps.push(LaunchStep::PlayCue(Cue::LaunchGame));
    steps.push(spawn_steam(app_id));
    assert(steps_view(steps@) =~= launch_start(app_id@, exe1@, auto_configure)->Ok_0);
    Ok(steps)
}

/// Where the hotkey worker stands.
#[derive(Debug, Clone, Copy, PartialEq, Eq, Structural)]
pub enum WorkerState {
    /// Polling for the hotkey.
    Waiting,
    /// The hotkey was seen and the programs started; nothing is left to do.
    Fired,
}

/// The steps once the hotkey is seen: the programs' cue, the first program
/// in the game's prefix, and, where a second is set, a pause and the second.
pub open spec fn fire_steps(app_id: Seq<char>, exe1: Seq<char>, exe2: Seq<char>) -> Seq<StepView> {
    let first = seq![StepView::PlayCue(Cue::LaunchProgram), prefix_run(app_id, exe1)];
    if exe2.len() == 0 {
        first
    } else {
        first + seq![StepView::Sleep(SECOND_PROGRAM_DELAY_MS), prefix_run(app_id, exe2)]
    }
}

/// The state after one poll.
pub open spec fn next_state(state: WorkerState, hotkey_down: bool) -> WorkerState {
    if hotkey_down {
        WorkerState::Fired
    } else {
        state
    }
}

/// The steps of one poll: fire on the hotkey, else wait for the next poll;
/// nothing once fired.
pub open spec fn poll_steps(
    state: WorkerState,
    hotkey_down: bool,
    app_id: Seq<char>,
    exe1: Seq<char>,
    exe2: Seq<char>,
) -> Seq<StepView> {
    match state {
        WorkerState::Fired => Seq::empty(),
        WorkerState::Waiting => if hotkey_down {
            fire_steps(app_id, exe1, exe2)
        } else {
            seq![StepView::Sleep(POLL_INTERVAL_MS)]
        },
    }
}

/// The worker that waits for the hotkey and then starts the programs in
/// the game's prefix.
pub struct HotkeyWorker {
    pub app_id: String,
    pub exe1: String,
    pub exe2: String,
    pub state: WorkerState,
}

impl HotkeyWorker {
    /// A worker for `app_id` that waits for the hotkey.
    pub fn new(app_id: String, exe1: String, exe2: String) -> (r: HotkeyWorker)
        ensures
            r.app_id == app_id,
            r.exe1 == exe1,
            r.exe2 == exe2,
            r.state == WorkerState::Waiting,
    {
        HotkeyWorker { app_id, exe1, exe2, state: WorkerState::Waiting }
    }

    /// Whether the worker has fired and can stop.
    pub fn is_done(&self) -> (r: bool)
        ensures
            r == (self.state == WorkerState::Fired),
    {
        match self.state {
            WorkerState::Fired => true,
            WorkerState::Waiting => false,
        }
    }

    /// One poll, given whether the hotkey is down: the steps to perform and
    /// the worker's next state.
    pub fn on_poll(&mut self, hotkey_down: bool) -> (r: Vec<LaunchStep>)
        ensures
            final(self).state == next_state(old(self).state, hotkey_down),
            final(self).app_id == old(self).app_id,
            final(self).exe1 == old(self).exe1,
            final(self).exe2 == old(self).exe2,
            steps_view(r@) == poll_steps(
                old(self).state,
                hotkey_down,
                old(self).app_id@,
                old(self).exe1@,
                old(self).exe2@,
            ),
    {
        let mut steps: Vec<LaunchStep> = Vec::new();
        match self.state {
            WorkerState::Fired => {},
            WorkerState::Waiting => {
                if hotkey_down {
                    steps.push(LaunchStep::PlayCue(Cue::LaunchProgram));
                    steps.push(spawn_in_prefix(self.app_id.as_str(), self.exe1.as_str()));
                    if !self.exe2.as_str().is_empty() {
                        steps.push(LaunchStep::Sleep(SECOND_PROGRAM_DELAY_MS));
                        steps.push(spawn_in_prefix(self.app_id.as_str(), self.exe2.as_str()));
                    }
                } else {
                    steps.push(LaunchStep::Sleep(POLL_INTERVAL_MS));
                }
            },
        }
        if hotkey_down {
            self.state = WorkerState::Fired;
        }
        assert(steps_view(steps@) =~= poll_steps(
            old(self).state,
            hotkey_down,
            old(self).app_id@,
            old(self).exe1@,
            old(self).exe2@,
        ));
        steps
    }
}

} // verus!
