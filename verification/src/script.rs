//! Script fetch-and-run: installing the shell framework.
//!
//! The framework comes as a remote install script. The machine has it
//! fetched, stored verbatim in a file of the temporary directory, and run
//! through a shell. A fetch that fails ends the process; a script that runs
//! and fails is only reported.

use crate::host::{
    abort, command, err, err_line, optional_step, out, out_line, quiet, quiet_step, report,
    separator_line, texts, Action, ActionView, CommandView, Event, EventView, LineView, Step,
    StepView,
};
use crate::paths::{script_path, script_path_spec};
use vstd::prelude::*;
use vstd::string::*;

verus! {

/// Where the framework's install script is fetched from.
pub const SCRIPT_URL: &'static str =
    "https://raw.githubusercontent.com/ohmyzsh/ohmyzsh/master/tools/install.sh";

/// What is said when the script cannot be fetched.
pub const FETCH_FAILURE: &'static str = "Failed to download Oh My Zsh install script";

/// What the run gives up with when the script's file cannot be created.
pub const CREATE_FAILURE: &'static str = "Failed to create temporary file";

/// What the run gives up with when the script's file cannot be written.
pub const WRITE_FAILURE: &'static str = "Failed to write to temporary file";

/// What the run gives up with when the shell cannot be started on the script.
pub const RUN_FAILURE: &'static str = "Failed to run Oh My Zsh install script";

/// The status line for a script that ran and succeeded.
pub const FRAMEWORK_INSTALLED: &'static str = "Oh My Zsh has been installed successfully.";

/// The status line for a script that ran and failed.
pub const FRAMEWORK_FAILED: &'static str = "Failed to install Oh My Zsh.";

/// Where the fetch-and-run machine stands.
#[derive(Clone, Copy, Debug, PartialEq, Eq, Structural)]
pub enum ScriptPhase {
    /// It asked for the script to be fetched.
    Fetching,
    /// It asked for the fetched bytes to be stored.
    Storing,
    /// It asked for the stored script to be run.
    Running,
    /// The script ran and succeeded.
    Installed,
    /// The script ran and failed.
    Failed,
    /// The fetch failed: the process is to exit.
    FetchFailed,
    /// A program could not be started or the file could not be written: the
    /// run was given up.
    Aborted,
}

impl ScriptPhase {
    /// Whether the machine is through: no event moves it any further.
    pub open spec fn finished(self) -> bool {
        !(self is Fetching || self is Storing || self is Running)
    }
}

/// The machine's state, as plain values: where the script is stored, and
/// where the machine stands.
pub struct ScriptView {
    pub path: Seq<char>,
    pub phase: ScriptPhase,
}

/// The command that fetches the script and writes it to standard output.
pub open spec fn fetch_command() -> CommandView {
    CommandView { program: "curl"@, args: seq!["-fsSL"@, SCRIPT_URL@] }
}

/// The command that runs the script stored at `path`.
pub open spec fn run_command(path: Seq<char>) -> CommandView {
    CommandView { program: "sh"@, args: seq![path] }
}

/// The state in which fetch-and-run begins, with `temp_dir` as the
/// temporary directory.
pub open spec fn begin(temp_dir: Seq<char>) -> ScriptView {
    ScriptView { path: script_path_spec(temp_dir), phase: ScriptPhase::Fetching }
}

/// The step with which fetch-and-run begins.
pub open spec fn first_step() -> StepView {
    quiet_step(ActionView::Capture(fetch_command()))
}

/// The phase that `event` takes the machine to from `phase`, or `None` if
/// `event` is no answer to what the machine is waiting for.
pub open spec fn next_phase(phase: ScriptPhase, event: EventView) -> Option<ScriptPhase> {
    match (phase, event) {
        (ScriptPhase::Fetching, EventView::Captured { success, .. }) => Some(
            if success {
                ScriptPhase::Storing
            } else {
                ScriptPhase::FetchFailed
            },
        ),
        (ScriptPhase::Fetching, EventView::LaunchFailed) => Some(ScriptPhase::Aborted),
        (ScriptPhase::Storing, EventView::Stored) => Some(ScriptPhase::Running),
        (ScriptPhase::Storing, EventView::CreateFailed) => Some(ScriptPhase::Aborted),
        (ScriptPhase::Storing, EventView::WriteFailed) => Some(ScriptPhase::Aborted),
        (ScriptPhase::Running, EventView::Exited { success }) => Some(
            if success {
                ScriptPhase::Installed
            } else {
                ScriptPhase::Failed
            },
        ),
        (ScriptPhase::Running, EventView::LaunchFailed) => Some(ScriptPhase::Aborted),
        _ => None,
    }
}

/// The state that `event` takes `s` to, or `None` if `event` is no answer to
/// what `s` is waiting for.
pub open spec fn react(s: ScriptView, event: EventView) -> Option<ScriptView> {
    match next_phase(s.phase, event) {
        Some(phase) => Some(ScriptView { phase, ..s }),
        None => None,
    }
}

/// The lines printed when `event` arrives in state `s`.
pub open spec fn lines(s: ScriptView, event: EventView) -> Seq<LineView> {
    match (s.phase, event) {
        (ScriptPhase::Fetching, EventView::Captured { success, .. }) => if success {
            Seq::empty()
        } else {
            seq![err_line(FETCH_FAILURE@), separator_line()]
        },
        (ScriptPhase::Running, EventView::Exited { success }) => if success {
            seq![out_line(FRAMEWORK_INSTALLED@), separator_line()]
        } else {
            seq![err_line(FRAMEWORK_FAILED@), separator_line()]
        },
        _ => Seq::empty(),
    }
}

/// What the machine asks for when `event` arrives in state `s`.
///
/// The bytes to store are the bytes that were fetched, unchanged.
pub open spec fn action(s: ScriptView, event: EventView) -> ActionView {
    match (s.phase, event) {
        (ScriptPhase::Fetching, EventView::Captured { success, stdout }) => if success {
            ActionView::Store { path: s.path, bytes: stdout }
        } else {
            ActionView::Exit { code: 1 }
        },
        (ScriptPhase::Fetching, EventView::LaunchFailed) => ActionView::Abort {
            message: FETCH_FAILURE@,
        },
        (ScriptPhase::Storing, EventView::Stored) => ActionView::Run(run_command(s.path)),
        (ScriptPhase::Storing, EventView::CreateFailed) => ActionView::Abort {
            message: CREATE_FAILURE@,
        },
        (ScriptPhase::Storing, EventView::WriteFailed) => ActionView::Abort {
            message: WRITE_FAILURE@,
        },
        (ScriptPhase::Running, EventView::LaunchFailed) => ActionView::Abort {
            message: RUN_FAILURE@,
        },
        _ => ActionView::Done,
    }
}

/// The step with which the machine answers `event` in state `s`, if `event`
/// takes it anywhere.
pub open spec fn step(s: ScriptView, event: EventView) -> Option<StepView> {
    match react(s, event) {
        Some(_) => Some(StepView { lines: lines(s, event), action: action(s, event) }),
        None => None,
    }
}

/// Script fetch-and-run: a machine that installs the shell framework from
/// its remote install script.
#[derive(Debug)]
pub struct ScriptRun {
    path: String,
    phase: ScriptPhase,
}

impl View for ScriptRun {
    type V = ScriptView;

    closed spec fn view(&self) -> ScriptView {
        ScriptView { path: self.path@, phase: self.phase }
    }
}

/// Starts fetch-and-run for the shell framework, with `temp_dir` as the
/// temporary directory.
///
/// The first step prints nothing and asks for the script to be fetched.
pub fn install_oh_my_zsh(temp_dir: &str) -> (started: (ScriptRun, Step))
    ensures
        started.0@ == begin(temp_dir@),
        started.1@ == first_step(),
{
    let run = ScriptRun { path: script_path(temp_dir), phase: ScriptPhase::Fetching };
    let mut args: Vec<String> = Vec::new();
    args.push(String::from_str("-fsSL"));
    args.push(String::from_str(SCRIPT_URL));
    assert(texts(args@) =~= seq!["-fsSL"@, SCRIPT_URL@]);
    (run, quiet(Action::Capture(command("curl", args))))
}

impl ScriptRun {
    /// Where the machine stands.
    pub fn phase(&self) -> (phase: ScriptPhase)
        ensures
            phase == self@.phase,
    {
        self.phase
    }

    /// Takes in what the driver reports and answers with the next step.
    ///
    /// An event that is no answer to the pending action changes nothing and
    /// yields `None`. Any other event moves the machine on as [`react`]
    /// says; the step holds the lines to print and the next action.
    pub fn handle(&mut self, event: Event) -> (answer: Option<Step>)
        ensures
            final(self)@ == match react(old(self)@, event@) {
                Some(next) => next,
                None => old(self)@,
            },
            optional_step(answer) == step(old(self)@, event@),
    {
        match (self.phase, event) {
            (ScriptPhase::Fetching, Event::Captured { success, stdout }) => {
                if success {
                    self.phase = ScriptPhase::Storing;
                    Some(quiet(Action::Store { path: self.path.clone(), bytes: stdout }))
                } else {
                    self.phase = ScriptPhase::FetchFailed;
                    Some(
                        Step {
                            lines: report(err(String::from_str(FETCH_FAILURE))),
                            action: Action::Exit { code: 1 },
                        },
                    )
                }
            },
            (ScriptPhase::Fetching, Event::LaunchFailed) => {
                self.phase = ScriptPhase::Aborted;
                Some(abort(FETCH_FAILURE))
            },
            (ScriptPhase::Storing, Event::Stored) => {
                self.phase = ScriptPhase::Running;
                let mut args: Vec<String> = Vec::new();
                args.push(self.path.clone());
                assert(texts(args@) =~= seq![self.path@]);
                Some(quiet(Action::Run(command("sh", args))))
            },
            (ScriptPhase::Storing, Event::CreateFailed) => {
                self.phase = ScriptPhase::Aborted;
                Some(abort(CREATE_FAILURE))
            },
            (ScriptPhase::Storing, Event::WriteFailed) => {
                self.phase = ScriptPhase::Aborted;
                Some(abort(WRITE_FAILURE))
            },
            (ScriptPhase::Running, Event::Exited { success }) => {
                if success {
                    self.phase = ScriptPhase::Installed;
                    Some(
                        Step {
                            lines: report(out(String::from_str(FRAMEWORK_INSTALLED))),
                            action: Action::Done,
                        },
                    )
                } else {
                    self.phase = ScriptPhase::Failed;
                    Some(
                        Step {
                            lines: report(err(String::from_str(FRAMEWORK_FAILED))),
                            action: Action::Done,
                        },
                    )
                }
            },
            (ScriptPhase::Running, Event::LaunchFailed) => {
                self.phase = ScriptPhase::Aborted;
                Some(abort(RUN_FAILURE))
            },
            _ => None,
        }
    }
}

} // verus!
