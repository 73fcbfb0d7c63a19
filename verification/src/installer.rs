//! The orchestrator: one linear run from platform detection to the last
//! plugin.
//!
//! On macOS the run makes sure the package manager is there, installs the
//! shell and installs the shell framework. On Linux it updates the package
//! index, installs the shell, installs the shell framework and provisions
//! the plugins. A step that fails ends the run, with three exceptions: the
//! package manager's own installer, whose exit status is not looked at; the
//! framework's install script, whose failure is only reported; and a plugin
//! whose clone fails, which is reported and skipped.

use crate::host::{
    abort, abort_step, command, err, err_line, line_views, optional_step, out, out_line, quiet,
    quiet_step, texts, Action, ActionView, Command, CommandView, Event, EventView, Line, LineView,
    Step, StepView,
};
use crate::package::Package;
use crate::paths::{optional_text, plugin_root, plugin_root_spec};
use crate::platform::{detect_platform, platform_of, Platform};
use crate::plugins;
use crate::plugins::{default_catalog, default_catalog_spec, Phase, Provisioner, ProvisionerView};
use crate::script;
use crate::script::{ScriptPhase, ScriptRun, ScriptView};
use vstd::prelude::*;
use vstd::string::*;

verus! {

/// What is said of an operating system the bootstrap does not know.
pub const UNSUPPORTED: &'static str = "Unsupported platform";

/// What the run gives up with when the package manager cannot be installed.
pub const MANAGER_FAILURE: &'static str = "Failed to install Homebrew";

/// What the run gives up with when the package index cannot be updated.
pub const INDEX_FAILURE: &'static str = "Failed to update package list";

/// What the run gives up with when the shell cannot be installed.
pub const SHELL_FAILURE: &'static str = "Failed to install Zsh";

/// What the run gives up with when there is neither a plugin root override
/// nor a home directory.
pub const HOME_MISSING: &'static str = "HOME is not set";

/// The last line of a run that came through.
pub const SUCCESS: &'static str = "Homebrew, Zsh, and Oh My Zsh have been installed successfully.";

/// What the run reads from its environment.
#[derive(Clone, Debug, PartialEq, Eq)]
pub struct Settings {
    /// The temporary directory.
    pub temp_dir: String,
    /// The plugin root override, if set.
    pub zsh_custom: Option<String>,
    /// The home directory, if set.
    pub home: Option<String>,
}

/// What [`Settings`] are, as plain text.
pub struct SettingsView {
    pub temp_dir: Seq<char>,
    pub zsh_custom: Option<Seq<char>>,
    pub home: Option<Seq<char>>,
}

impl View for Settings {
    type V = SettingsView;

    open spec fn view(&self) -> SettingsView {
        SettingsView {
            temp_dir: self.temp_dir@,
            zsh_custom: optional_text(self.zsh_custom),
            home: optional_text(self.home),
        }
    }
}

/// Where the run stands, as plain values.
pub enum StageView {
    /// macOS: it asked for the package manager to be started, to see whether
    /// it is there.
    ManagerProbe,
    /// macOS: it asked for the package manager to be installed.
    ManagerInstall,
    /// Linux: it asked for the package index to be updated.
    IndexUpdate,
    /// It asked for the shell to be installed.
    ShellInstall,
    /// The shell framework is being installed.
    Framework(ScriptView),
    /// Linux: the plugins are being provisioned.
    Plugins(ProvisionerView),
    /// The run is over.
    Finished,
}

/// The run's state, as plain values.
pub struct InstallerView {
    pub platform: Platform,
    pub settings: SettingsView,
    pub stage: StageView,
}

/// The command that starts the package manager with no arguments.
pub open spec fn manager_probe_command() -> CommandView {
    CommandView { program: "brew"@, args: Seq::empty() }
}

/// The command that installs the package manager.
pub open spec fn manager_install_command() -> CommandView {
    CommandView {
        program: "bash"@,
        args: seq![
            "-c"@,
            "\"$(curl -fsSL https://raw.githubusercontent.com/Homebrew/install/HEAD/install.sh)\""@,
        ],
    }
}

/// The command that updates the package index.
pub open spec fn index_update_command() -> CommandView {
    CommandView { program: "sudo"@, args: seq!["apt"@, "update"@] }
}

/// The command that installs the shell on `platform`.
pub open spec fn shell_install_command(platform: Platform) -> CommandView {
    match platform {
        Platform::Darwin => CommandView {
            program: "brew"@,
            args: seq!["install"@, Package::Zsh.name_spec()],
        },
        Platform::Linux => CommandView {
            program: "sudo"@,
            args: seq!["apt"@, "install"@, "-y"@, Package::Zsh.name_spec()],
        },
    }
}

/// The step that ends a run on an unknown operating system.
pub open spec fn unsupported_step() -> StepView {
    StepView { lines: seq![err_line(UNSUPPORTED@)], action: ActionView::Exit { code: 1 } }
}

/// The state in which a run on `platform` begins.
pub open spec fn begin(platform: Platform, settings: SettingsView) -> InstallerView {
    InstallerView {
        platform,
        settings,
        stage: match platform {
            Platform::Darwin => StageView::ManagerProbe,
            Platform::Linux => StageView::IndexUpdate,
        },
    }
}

/// The step with which a run on `platform` begins.
pub open spec fn first_step(platform: Platform) -> StepView {
    quiet_step(
        ActionView::Run(
            match platform {
                Platform::Darwin => manager_probe_command(),
                Platform::Linux => index_update_command(),
            },
        ),
    )
}

/// The run ends after `lines`: the success line follows them.
pub open spec fn finish(lines: Seq<LineView>) -> (StageView, StepView) {
    (StageView::Finished, StepView { lines: lines.push(out_line(SUCCESS@)), action: ActionView::Done })
}

/// The run gives up with `message`.
pub open spec fn give_up(message: Seq<char>) -> (StageView, StepView) {
    (StageView::Finished, abort_step(message))
}

/// The run goes on to install the shell.
pub open spec fn enter_shell_install(platform: Platform) -> (StageView, StepView) {
    (StageView::ShellInstall, quiet_step(ActionView::Run(shell_install_command(platform))))
}

/// Where the run stands once the provisioner is in state `p` and has
/// answered with `answer`: through when the provisioner is, else still
/// provisioning.
pub open spec fn after_plugins(p: ProvisionerView, answer: StepView) -> (StageView, StepView) {
    match p.phase {
        Phase::Done => finish(answer.lines),
        Phase::Aborted => (StageView::Finished, answer),
        _ => (StageView::Plugins(p), answer),
    }
}

/// The run goes on to provision the plugins, after printing `lines`. With
/// no plugin root to be had it gives up.
pub open spec fn enter_plugins(settings: SettingsView, lines: Seq<LineView>) -> (
    StageView,
    StepView,
) {
    match plugin_root_spec(settings.zsh_custom, settings.home) {
        Some(root) => {
            let p = plugins::begin(root, default_catalog_spec());
            after_plugins(p, StepView { lines, action: plugins::pending(p) })
        },
        None => (
            StageView::Finished,
            StepView { lines, action: ActionView::Abort { message: HOME_MISSING@ } },
        ),
    }
}

/// Where the run stands once fetch-and-run is in state `s` and has answered
/// with `answer`. When the script has run, macOS is through and Linux goes
/// on to the plugins, whether or not the script succeeded.
pub open spec fn after_script(m: InstallerView, s: ScriptView, answer: StepView) -> (
    StageView,
    StepView,
) {
    match s.phase {
        ScriptPhase::Installed | ScriptPhase::Failed => match m.platform {
            Platform::Darwin => finish(answer.lines),
            Platform::Linux => enter_plugins(m.settings, answer.lines),
        },
        ScriptPhase::FetchFailed | ScriptPhase::Aborted => (StageView::Finished, answer),
        _ => (StageView::Framework(s), answer),
    }
}

/// The stage that `event` takes the run to from state `m`, with the step
/// that answers it; `None` if `event` is no answer to what `m` is waiting
/// for.
pub open spec fn moved(m: InstallerView, event: EventView) -> Option<(StageView, StepView)> {
    match m.stage {
        StageView::ManagerProbe => match event {
            EventView::Exited { .. } => Some(enter_shell_install(m.platform)),
            EventView::LaunchFailed => Some(
                (
                    StageView::ManagerInstall,
                    quiet_step(ActionView::Run(manager_install_command())),
                ),
            ),
            _ => None,
        },
        StageView::ManagerInstall => match event {
            EventView::Exited { .. } => Some(enter_shell_install(m.platform)),
            EventView::LaunchFailed => Some(give_up(MANAGER_FAILURE@)),
            _ => None,
        },
        StageView::IndexUpdate => match event {
            EventView::Exited { success } => Some(
                if success {
                    enter_shell_install(m.platform)
                } else {
                    give_up(INDEX_FAILURE@)
                },
            ),
            EventView::LaunchFailed => Some(give_up(INDEX_FAILURE@)),
            _ => None,
        },
        StageView::ShellInstall => match event {
            EventView::Exited { success } => Some(
                if success {
                    (
                        StageView::Framework(script::begin(m.settings.temp_dir)),
                        script::first_step(),
                    )
                } else {
                    give_up(SHELL_FAILURE@)
                },
            ),
            EventView::LaunchFailed => Some(give_up(SHELL_FAILURE@)),
            _ => None,
        },
        StageView::Framework(s) => match script::react(s, event) {
            Some(next) => Some(after_script(m, next, script::step(s, event)->0)),
            None => None,
        },
        StageView::Plugins(p) => match plugins::react(p, event) {
            Some(next) => Some(after_plugins(next, plugins::step(p, event)->0)),
            None => None,
        },
        StageView::Finished => None,
    }
}

/// The state that `event` takes `m` to, or `None` if `event` is no answer to
/// what `m` is waiting for.
pub open spec fn react(m: InstallerView, event: EventView) -> Option<InstallerView> {
    match moved(m, event) {
        Some((stage, _)) => Some(InstallerView { stage, ..m }),
        None => None,
    }
}

/// The step with which the run answers `event` in state `m`, if `event`
/// takes it anywhere.
pub open spec fn step(m: InstallerView, event: EventView) -> Option<StepView> {
    match moved(m, event) {
        Some((_, answer)) => Some(answer),
        None => None,
    }
}

/// Where the run stands.
#[derive(Debug)]
enum Stage {
    ManagerProbe,
    ManagerInstall,
    IndexUpdate,
    ShellInstall,
    Framework(ScriptRun),
    Plugins(Provisioner),
    Finished,
}

impl View for Stage {
    type V = StageView;

    closed spec fn view(&self) -> StageView {
        match self {
            Stage::ManagerProbe => StageView::ManagerProbe,
            Stage::ManagerInstall => StageView::ManagerInstall,
            Stage::IndexUpdate => StageView::IndexUpdate,
            Stage::ShellInstall => StageView::ShellInstall,
            Stage::Framework(run) => StageView::Framework(run@),
            Stage::Plugins(provisioner) => StageView::Plugins(provisioner@),
            Stage::Finished => StageView::Finished,
        }
    }
}

/// The orchestrator: a machine that takes one platform through the whole
/// installation.
#[derive(Debug)]
pub struct Installer {
    platform: Platform,
    settings: Settings,
    stage: Stage,
}

impl View for Installer {
    type V = InstallerView;

    closed spec fn view(&self) -> InstallerView {
        InstallerView { platform: self.platform, settings: self.settings@, stage: self.stage@ }
    }
}

/// The command that starts `program` with the arguments `first` and `second`.
fn command2(program: &str, first: &str, second: &str) -> (command: Command)
    ensures
        command@ == (CommandView { program: program@, args: seq![first@, second@] }),
{
    let mut args: Vec<String> = Vec::new();
    args.push(String::from_str(first));
    args.push(String::from_str(second));
    assert(texts(args@) =~= seq![first@, second@]);
    command(program, args)
}

/// The command that installs the shell on `platform`.
fn shell_install(platform: Platform) -> (command: Command)
    ensures
        command@ == shell_install_command(platform),
{
    match platform {
        Platform::Darwin => command2("brew", "install", Package::Zsh.name()),
        Platform::Linux => {
            let mut args: Vec<String> = Vec::new();
            args.push(String::from_str("apt"));
            args.push(String::from_str("install"));
            args.push(String::from_str("-y"));
            args.push(String::from_str(Package::Zsh.name()));
            assert(texts(args@) =~= seq!["apt"@, "install"@, "-y"@, Package::Zsh.name_spec()]);
            command("sudo", args)
        },
    }
}

/// The last step of a run that came through: `lines`, then the success line.
fn finishing(lines: Vec<Line>) -> (step: Step)
    ensures
        step@ == finish(line_views(lines@)).1,
{
    let mut lines = lines;
    let ghost before = line_views(lines@);
    lines.push(out(String::from_str(SUCCESS)));
    assert(line_views(lines@) =~= before.push(out_line(SUCCESS@)));
    Step { lines, action: Action::Done }
}

/// Starts the installation on `platform`.
///
/// The first step prints nothing and runs the platform's first command: the
/// package manager's probe on macOS, the package index update on Linux.
pub fn install_software(platform: Platform, settings: Settings) -> (started: (Installer, Step))
    ensures
        started.0@ == begin(platform, settings@),
        started.1@ == first_step(platform),
{
    match platform {
        Platform::Darwin => {
            let args: Vec<String> = Vec::new();
            assert(texts(args@) =~= Seq::empty());
            (
                Installer { platform, settings, stage: Stage::ManagerProbe },
                quiet(Action::Run(command("brew", args))),
            )
        },
        Platform::Linux => (
            Installer { platform, settings, stage: Stage::IndexUpdate },
            quiet(Action::Run(command2("sudo", "apt", "update"))),
        ),
    }
}

/// Detects the platform from the operating-system identifier `os` and
/// starts the installation on it.
///
/// On an identifier that stands for no supported platform there is no
/// installation: the only step says so and leaves the process with code 1.
pub fn bootstrap(os: &str, settings: Settings) -> (started: (Option<Installer>, Step))
    ensures
        match platform_of(os@) {
            Some(platform) => {
                &&& started.0 matches Some(installer)
                &&& installer@ == begin(platform, settings@)
                &&& started.1@ == first_step(platform)
            },
            None => started.0 is None && started.1@ == unsupported_step(),
        },
{
    match detect_platform(os) {
        Some(platform) => {
            let (installer, step) = install_software(platform, settings);
            (Some(installer), step)
        },
        None => {
            let mut lines: Vec<Line> = Vec::new();
            lines.push(err(String::from_str(UNSUPPORTED)));
            assert(line_views(lines@) =~= seq![err_line(UNSUPPORTED@)]);
            (None, Step { lines, action: Action::Exit { code: 1 } })
        },
    }
}

impl Installer {
    /// The platform the run is for.
    pub fn platform(&self) -> (platform: Platform)
        ensures
            platform == self@.platform,
    {
        self.platform
    }

    /// Whether the run is over.
    pub fn is_finished(&self) -> (finished: bool)
        ensures
            finished == (self@.stage is Finished),
    {
        match self.stage {
            Stage::Finished => true,
            _ => false,
        }
    }

    /// Ends the run by giving up with `message`.
    fn give_up(&mut self, message: &str) -> (step: Step)
        ensures
            final(self)@ == (InstallerView { stage: StageView::Finished, ..old(self)@ }),
            step@ == abort_step(message@),
    {
        self.stage = Stage::Finished;
        abort(message)
    }

    /// Goes on to install the shell.
    fn enter_shell_install(&mut self) -> (step: Step)
        ensures
            final(self)@ == (InstallerView { stage: StageView::ShellInstall, ..old(self)@ }),
            step@ == enter_shell_install(old(self)@.platform).1,
    {
        self.stage = Stage::ShellInstall;
        quiet(Action::Run(shell_install(self.platform)))
    }

    /// Goes on to provision the plugins, after printing `lines`.
    fn enter_plugins(&mut self, lines: Vec<Line>) -> (step: Step)
        ensures
            final(self)@ == (InstallerView {
                stage: enter_plugins(old(self)@.settings, line_views(lines@)).0,
                ..old(self)@
            }),
            step@ == enter_plugins(old(self)@.settings, line_views(lines@)).1,
    {
        let custom = match &self.settings.zsh_custom {
            Some(custom) => Some(custom.as_str()),
            None => None,
        };
        let home = match &self.settings.home {
            Some(home) => Some(home.as_str()),
            None => None,
        };
        match plugin_root(custom, home) {
            Some(root) => {
                let (provisioner, first) = plugins::install_omz_plugins(root, default_catalog());
                match provisioner.phase() {
                    Phase::Done => {
                        self.stage = Stage::Finished;
                        finishing(lines)
                    },
                    Phase::Aborted => {
                        self.stage = Stage::Finished;
                        Step { lines, action: first.action }
                    },
                    _ => {
                        self.stage = Stage::Plugins(provisioner);
                        Step { lines, action: first.action }
                    },
                }
            },
            None => {
                self.stage = Stage::Finished;
                Step { lines, action: Action::Abort { message: String::from_str(HOME_MISSING) } }
            },
        }
    }

    /// Hands `event` to fetch-and-run and goes on from where that leaves it.
    fn framework_event(&mut self, event: Event) -> (answer: Option<Step>)
        requires
            old(self)@.stage is Framework,
        ensures
            final(self)@ == match react(old(self)@, event@) {
                Some(next) => next,
                None => old(self)@,
            },
            optional_step(answer) == step(old(self)@, event@),
    {
        let (answer, phase) = match &mut self.stage {
            Stage::Framework(run) => {
                let answer = run.handle(event);
                (answer, run.phase())
            },
            _ => (None, ScriptPhase::Aborted),
        };
        match answer {
            Some(answer) => match phase {
                ScriptPhase::Installed | ScriptPhase::Failed => match self.platform {
                    Platform::Darwin => {
                        self.stage = Stage::Finished;
                        Some(finishing(answer.lines))
                    },
                    Platform::Linux => Some(self.enter_plugins(answer.lines)),
                },
                ScriptPhase::FetchFailed | ScriptPhase::Aborted => {
                    self.stage = Stage::Finished;
                    Some(answer)
                },
                _ => Some(answer),
            },
            None => None,
        }
    }

    /// Hands `event` to the provisioner and goes on from where that leaves it.
    fn plugins_event(&mut self, event: Event) -> (answer: Option<Step>)
        requires
            old(self)@.stage is Plugins,
        ensures
            final(self)@ == match react(old(self)@, event@) {
                Some(next) => next,
                None => old(self)@,
            },
            optional_step(answer) == step(old(self)@, event@),
    {
        let (answer, phase) = match &mut self.stage {
            Stage::Plugins(provisioner) => {
                let answer = provisioner.handle(event);
                (answer, provisioner.phase())
            },
            _ => (None, Phase::Aborted),
        };
        match answer {
            Some(answer) => match phase {
                Phase::Done => {
                    self.stage = Stage::Finished;
                    Some(finishing(answer.lines))
                },
                Phase::Aborted => {
                    self.stage = Stage::Finished;
                    Some(answer)
                },
                _ => Some(answer),
            },
            None => None,
        }
    }

    /// Takes in what the driver reports and answers with the next step.
    ///
    /// An event that is no answer to the pending action changes nothing and
    /// yields `None`. Any other event moves the run on as [`react`] says;
    /// the step holds the lines to print and the next action.
    pub fn handle(&mut self, event: Event) -> (answer: Option<Step>)
        ensures
            final(self)@ == match react(old(self)@, event@) {
                Some(next) => next,
                None => old(self)@,
            },
            optional_step(answer) == step(old(self)@, event@),
    {
        match self.stage {
            Stage::ManagerProbe => match event {
                Event::Exited { .. } => Some(self.enter_shell_install()),
                Event::LaunchFailed => {
                    self.stage = Stage::ManagerInstall;
                    Some(
                        quiet(
                            Action::Run(
                                command2(
                                    "bash",
                                    "-c",
                                    "\"$(curl -fsSL https://raw.githubusercontent.com/Homebrew/install/HEAD/install.sh)\"",
                                ),
                            ),
                        ),
                    )
                },
                _ => None,
            },
            Stage::ManagerInstall => match event {
                Event::Exited { .. } => Some(self.enter_shell_install()),
                Event::LaunchFailed => Some(self.give_up(MANAGER_FAILURE)),
                _ => None,
            },
            Stage::IndexUpdate => match event {
                Event::Exited { success } => if success {
                    Some(self.enter_shell_install())
                } else {
                    Some(self.give_up(INDEX_FAILURE))
                },
                Event::LaunchFailed => Some(self.give_up(INDEX_FAILURE)),
                _ => None,
            },
            Stage::ShellInstall => match event {
                Event::Exited { success } => if success {
                    let (run, first) = script::install_oh_my_zsh(self.settings.temp_dir.as_str());
                    self.stage = Stage::Framework(run);
                    Some(first)
                } else {
                    Some(self.give_up(SHELL_FAILURE))
                },
                Event::LaunchFailed => Some(self.give_up(SHELL_FAILURE)),
                _ => None,
            },
            Stage::Framework(_) => self.framework_event(event),
            Stage::Plugins(_) => self.plugins_event(event),
            Stage::Finished => None,
        }
    }
}

} // verus!
