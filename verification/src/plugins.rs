//! The plugin provisioner.
//!
//! Given a plugin root and a catalog, the provisioner goes through the
//! catalog in order. For each entry it asks whether the entry's directory
//! exists; if so the entry is skipped, otherwise it is cloned into place.
//! An entry whose clone fails is reported and the next one is tried. Only a
//! clone that cannot even be started stops the run.

use crate::host::{
    command, err, err_line, line_views, optional_step, out, out_line, quiet, quiet_step, report,
    separator_line, texts, Action, ActionView, CommandView, Event, EventView, Line, LineView,
    Step, StepView,
};
use crate::paths::{plugin_dir, plugin_dir_spec};
use vstd::prelude::*;
use vstd::string::*;

verus! {

/// What the run gives up with when the clone program cannot be started.
pub const CLONE_LAUNCH_FAILURE: &'static str = "Failed to execute git command";

/// One catalog entry: a plugin's name and the repository it is cloned from.
#[derive(Clone, Debug, PartialEq, Eq)]
pub struct Plugin {
    pub name: String,
    pub url: String,
}

/// What a [`Plugin`] is, as plain text.
pub struct PluginView {
    pub name: Seq<char>,
    pub url: Seq<char>,
}

impl View for Plugin {
    type V = PluginView;

    open spec fn view(&self) -> PluginView {
        PluginView { name: self.name@, url: self.url@ }
    }
}

/// The view of each entry of `catalog`.
pub open spec fn catalog_view(catalog: Seq<Plugin>) -> Seq<PluginView> {
    catalog.map_values(|plugin: Plugin| plugin@)
}

/// The catalog that the bootstrap installs.
pub open spec fn default_catalog_spec() -> Seq<PluginView> {
    seq![
        PluginView { name: "zsh-z"@, url: "https://github.com/agkozak/zsh-z"@ },
        PluginView {
            name: "zsh-autosuggestions"@,
            url: "https://github.com/zsh-users/zsh-autosuggestions"@,
        },
        PluginView {
            name: "zsh-completions"@,
            url: "https://github.com/zsh-users/zsh-completions"@,
        },
        PluginView {
            name: "zsh-syntax-highlighting"@,
            url: "https://github.com/zsh-users/zsh-syntax-highlighting"@,
        },
        PluginView { name: "powerlevel10k"@, url: "https://github.com/romkatv/powerlevel10k"@ },
    ]
}

/// The plugin `name`, cloned from `url`.
pub fn plugin(name: &str, url: &str) -> (plugin: Plugin)
    ensures
        plugin@ == (PluginView { name: name@, url: url@ }),
{
    Plugin { name: String::from_str(name), url: String::from_str(url) }
}

/// The catalog that the bootstrap installs: five plugins, in a fixed order.
pub fn default_catalog() -> (catalog: Vec<Plugin>)
    ensures
        catalog_view(catalog@) == default_catalog_spec(),
{
    let mut catalog: Vec<Plugin> = Vec::new();
    catalog.push(plugin("zsh-z", "https://github.com/agkozak/zsh-z"));
    catalog.push(plugin("zsh-autosuggestions", "https://github.com/zsh-users/zsh-autosuggestions"));
    catalog.push(plugin("zsh-completions", "https://github.com/zsh-users/zsh-completions"));
    catalog.push(
        plugin("zsh-syntax-highlighting", "https://github.com/zsh-users/zsh-syntax-highlighting"),
    );
    catalog.push(plugin("powerlevel10k", "https://github.com/romkatv/powerlevel10k"));
    assert(catalog_view(catalog@) =~= default_catalog_spec());
    catalog
}

/// How one catalog entry ended.
#[derive(Clone, Copy, Debug, PartialEq, Eq, Structural)]
pub enum Status {
    /// The entry's directory existed: nothing was run for it.
    AlreadyPresent,
    /// The entry was cloned.
    Installed,
    /// The clone ran and failed.
    Failed,
}

/// Where the provisioner stands.
#[derive(Clone, Copy, Debug, PartialEq, Eq, Structural)]
pub enum Phase {
    /// It asked whether the current entry's directory exists.
    Probing,
    /// It asked for the current entry to be cloned.
    Cloning,
    /// Every entry has been dealt with.
    Done,
    /// The clone program could not be started; the run was given up.
    Aborted,
}

/// The command that clones `url` into `dir`.
pub open spec fn clone_command(url: Seq<char>, dir: Seq<char>) -> CommandView {
    CommandView { program: "git"@, args: seq!["clone"@, url, dir] }
}

/// The status line for an entry whose directory exists.
pub open spec fn present_text(name: Seq<char>, dir: Seq<char>) -> Seq<char> {
    name + " plugin already exists at: "@ + dir
}

/// The line printed before an entry is cloned.
pub open spec fn installing_text(name: Seq<char>) -> Seq<char> {
    "Installing "@ + name + " plugin..."@
}

/// The status line for an entry that was cloned.
pub open spec fn installed_text(name: Seq<char>) -> Seq<char> {
    name + " plugin has been installed successfully."@
}

/// The status line for an entry whose clone failed.
pub open spec fn failed_text(name: Seq<char>) -> Seq<char> {
    "Failed to install "@ + name + " plugin."@
}

/// The provisioner's state, as plain values.
///
/// `report` holds the status of every entry dealt with so far, so its length
/// is the index of the current entry.
pub struct ProvisionerView {
    pub root: Seq<char>,
    pub catalog: Seq<PluginView>,
    pub phase: Phase,
    pub report: Seq<Status>,
}

impl ProvisionerView {
    /// The index of the current entry.
    pub open spec fn cursor(self) -> int {
        self.report.len() as int
    }

    /// The states a provisioner can be in: it is done exactly when every
    /// entry has a status.
    pub open spec fn wf(self) -> bool {
        &&& self.report.len() <= self.catalog.len()
        &&& self.phase is Done <==> self.report.len() == self.catalog.len()
    }

    /// The current entry.
    pub open spec fn entry(self) -> PluginView
        recommends
            self.cursor() < self.catalog.len(),
    {
        self.catalog[self.cursor()]
    }

    /// The directory of the current entry.
    pub open spec fn target(self) -> Seq<char> {
        plugin_dir_spec(self.root, self.entry().name)
    }

    /// Whether the run is over.
    pub open spec fn finished(self) -> bool {
        self.phase is Done || self.phase is Aborted
    }
}

/// The state in which a run over `catalog` under `root` begins.
pub open spec fn begin(root: Seq<char>, catalog: Seq<PluginView>) -> ProvisionerView {
    ProvisionerView {
        root,
        catalog,
        phase: if catalog.len() == 0 {
            Phase::Done
        } else {
            Phase::Probing
        },
        report: Seq::empty(),
    }
}

/// What the provisioner in state `p` is waiting for its driver to do.
pub open spec fn pending(p: ProvisionerView) -> ActionView {
    match p.phase {
        Phase::Probing => ActionView::Probe { path: p.target() },
        Phase::Cloning => ActionView::Run(clone_command(p.entry().url, p.target())),
        Phase::Done => ActionView::Done,
        Phase::Aborted => ActionView::Abort { message: CLONE_LAUNCH_FAILURE@ },
    }
}

/// The state after the current entry ended with `status`: the next entry is
/// probed, or the run is done.
pub open spec fn advance(p: ProvisionerView, status: Status) -> ProvisionerView {
    ProvisionerView {
        phase: if p.report.len() + 1 < p.catalog.len() {
            Phase::Probing
        } else {
            Phase::Done
        },
        report: p.report.push(status),
        ..p
    }
}

/// The state that `event` takes `p` to, or `None` if `event` is no answer to
/// what `p` is waiting for.
pub open spec fn react(p: ProvisionerView, event: EventView) -> Option<ProvisionerView> {
    match (p.phase, event) {
        (Phase::Probing, EventView::Probed { exists }) => Some(
            if exists {
                advance(p, Status::AlreadyPresent)
            } else {
                ProvisionerView { phase: Phase::Cloning, ..p }
            },
        ),
        (Phase::Cloning, EventView::Exited { success }) => Some(
            advance(
                p,
                if success {
                    Status::Installed
                } else {
                    Status::Failed
                },
            ),
        ),
        (Phase::Cloning, EventView::LaunchFailed) => Some(
            ProvisionerView { phase: Phase::Aborted, ..p },
        ),
        _ => None,
    }
}

/// The lines printed when `event` arrives in state `p`.
pub open spec fn lines(p: ProvisionerView, event: EventView) -> Seq<LineView> {
    match (p.phase, event) {
        (Phase::Probing, EventView::Probed { exists }) => if exists {
            seq![out_line(present_text(p.entry().name, p.target())), separator_line()]
        } else {
            seq![out_line(installing_text(p.entry().name))]
        },
        (Phase::Cloning, EventView::Exited { success }) => if success {
            seq![out_line(installed_text(p.entry().name)), separator_line()]
        } else {
            seq![err_line(failed_text(p.entry().name)), separator_line()]
        },
        _ => Seq::empty(),
    }
}

/// The step with which the provisioner answers `event` in state `p`, if
/// `event` takes it anywhere.
pub open spec fn step(p: ProvisionerView, event: EventView) -> Option<StepView> {
    match react(p, event) {
        Some(next) => Some(StepView { lines: lines(p, event), action: pending(next) }),
        None => None,
    }
}

/// What the provisioner is doing about the current entry.
#[derive(Clone, Copy, Debug, PartialEq, Eq, Structural)]
enum Mode {
    Probing,
    Cloning,
    Aborted,
}

/// The plugin provisioner: a machine that installs each catalog entry that
/// is not there yet.
#[derive(Debug)]
pub struct Provisioner {
    root: String,
    catalog: Vec<Plugin>,
    mode: Mode,
    report: Vec<Status>,
}

impl View for Provisioner {
    type V = ProvisionerView;

    closed spec fn view(&self) -> ProvisionerView {
        ProvisionerView {
            root: self.root@,
            catalog: catalog_view(self.catalog@),
            phase: match self.mode {
                Mode::Probing => if self.report.len() < self.catalog.len() {
                    Phase::Probing
                } else {
                    Phase::Done
                },
                Mode::Cloning => Phase::Cloning,
                Mode::Aborted => Phase::Aborted,
            },
            report: self.report@,
        }
    }
}

/// Starts the plugin provisioner on `catalog` under the plugin root `root`.
///
/// The first step prints nothing and probes the first entry's directory, or
/// is done at once if the catalog is empty.
pub fn install_omz_plugins(root: String, catalog: Vec<Plugin>) -> (started: (Provisioner, Step))
    ensures
        started.0@ == begin(root@, catalog_view(catalog@)),
        started.0@.wf(),
        started.1@ == quiet_step(pending(started.0@)),
{
    let provisioner = Provisioner { root, catalog, mode: Mode::Probing, report: Vec::new() };
    let action = provisioner.action();
    (provisioner, quiet(action))
}

impl Provisioner {
    #[verifier::type_invariant]
    spec fn inv(self) -> bool {
        &&& self.report.len() <= self.catalog.len()
        &&& self.mode != Mode::Probing ==> self.report.len() < self.catalog.len()
    }

    /// Appends `status` to the report, which moves on to the next entry.
    fn record(&mut self, status: Status)
        requires
            old(self).mode == Mode::Probing,
            old(self).report.len() < old(self).catalog.len(),
        ensures
            final(self).root == old(self).root,
            final(self).catalog == old(self).catalog,
            final(self).mode == old(self).mode,
            final(self).report@ == old(self).report@.push(status),
    {
        let mut report: Vec<Status> = Vec::new();
        core::mem::swap(&mut self.report, &mut report);
        report.push(status);
        self.report = report;
    }

    /// The status of every entry dealt with so far, in catalog order.
    pub fn report(&self) -> (report: &Vec<Status>)
        ensures
            report@ == self@.report,
    {
        &self.report
    }

    /// Where the provisioner stands. Whatever it has been through, its state
    /// is well-formed.
    pub fn phase(&self) -> (phase: Phase)
        ensures
            phase == self@.phase,
            self@.wf(),
    {
        proof {
            use_type_invariant(self);
        }
        match self.mode {
            Mode::Probing => if self.report.len() < self.catalog.len() {
                Phase::Probing
            } else {
                Phase::Done
            },
            Mode::Cloning => Phase::Cloning,
            Mode::Aborted => Phase::Aborted,
        }
    }

    /// What the provisioner is waiting for its driver to do.
    pub fn action(&self) -> (action: Action)
        ensures
            action@ == pending(self@),
    {
        proof {
            use_type_invariant(self);
        }
        match self.phase() {
            Phase::Probing => {
                let entry = &self.catalog[self.report.len()];
                Action::Probe { path: plugin_dir(self.root.as_str(), entry.name.as_str()) }
            },
            Phase::Cloning => {
                let entry = &self.catalog[self.report.len()];
                let dir = plugin_dir(self.root.as_str(), entry.name.as_str());
                let mut args: Vec<String> = Vec::new();
                args.push(String::from_str("clone"));
                args.push(entry.url.clone());
                args.push(dir);
                assert(texts(args@) =~= seq!["clone"@, entry.url@, dir@]);
                Action::Run(command("git", args))
            },
            Phase::Done => Action::Done,
            Phase::Aborted => Action::Abort { message: String::from_str(CLONE_LAUNCH_FAILURE) },
        }
    }

    /// Takes in what the driver reports and answers with the next step.
    ///
    /// An event that is no answer to the pending action changes nothing and
    /// yields `None`. Any other event moves the provisioner on as [`react`]
    /// says; the step holds the lines to print and the next pending action.
    pub fn handle(&mut self, event: Event) -> (answer: Option<Step>)
        ensures
            final(self)@ == match react(old(self)@, event@) {
                Some(next) => next,
                None => old(self)@,
            },
            optional_step(answer) == step(old(self)@, event@),
            old(self)@.wf(),
            final(self)@.wf(),
    {
        proof {
            use_type_invariant(&*self);
        }
        match (self.phase(), event) {
            (Phase::Probing, Event::Probed { exists }) => {
                let entry = &self.catalog[self.report.len()];
                let lines = if exists {
                    let dir = plugin_dir(self.root.as_str(), entry.name.as_str());
                    let text = entry.name.clone().concat(" plugin already exists at: ").concat(
                        dir.as_str(),
                    );
                    report(out(text))
                } else {
                    let text = String::from_str("Installing ").concat(entry.name.as_str()).concat(
                        " plugin...",
                    );
                    let mut lines: Vec<Line> = Vec::new();
                    lines.push(out(text));
                    assert(line_views(lines@) =~= seq![out_line(text@)]);
                    lines
                };
                if exists {
                    self.record(Status::AlreadyPresent);
                } else {
                    self.mode = Mode::Cloning;
                }
                Some(Step { lines, action: self.action() })
            },
            (Phase::Cloning, Event::Exited { success }) => {
                let entry = &self.catalog[self.report.len()];
                let lines = if success {
                    report(out(entry.name.clone().concat(" plugin has been installed successfully.")))
                } else {
                    report(
                        err(
                            String::from_str("Failed to install ").concat(
                                entry.name.as_str(),
                            ).concat(" plugin."),
                        ),
                    )
                };
                self.mode = Mode::Probing;
                self.record(
                    if success {
                        Status::Installed
                    } else {
                        Status::Failed
                    },
                );
                Some(Step { lines, action: self.action() })
            },
            (Phase::Cloning, Event::LaunchFailed) => {
                self.mode = Mode::Aborted;
                Some(quiet(self.action()))
            },
            _ => None,
        }
    }
}

} // verus!
