//! Whole runs of the plugin provisioner, and what holds of every one.

use crate::host::{answers, ActionView, EventView, StepView};
use crate::paths::plugin_dir_spec;
use crate::plugins::{
    begin, clone_command, pending, react, step, Phase, PluginView, ProvisionerView, Status,
};
use vstd::prelude::*;

verus! {

/// One move of a run: the state an event arrived in, the event, the step
/// that answered it and the state it led to.
pub struct Moment {
    pub before: ProvisionerView,
    pub event: EventView,
    pub step: StepView,
    pub after: ProvisionerView,
}

/// The moves the provisioner makes from state `p` when `events` arrive in
/// order. An event that is no answer to the pending action makes no move.
pub open spec fn run(p: ProvisionerView, events: Seq<EventView>) -> Seq<Moment>
    decreases events.len(),
{
    if events.len() == 0 {
        Seq::empty()
    } else {
        match react(p, events[0]) {
            Some(next) => seq![
                Moment { before: p, event: events[0], step: step(p, events[0])->0, after: next },
            ] + run(next, events.drop_first()),
            None => run(p, events.drop_first()),
        }
    }
}

/// Whether the move `m` invokes the clone for entry `i`: its step starts a
/// program while entry `i` is the current one.
pub open spec fn clones(m: Moment, i: int) -> bool {
    m.step.action is Run && m.after.cursor() == i
}

/// How far a state is into the run. Every move goes further.
spec fn rank(p: ProvisionerView) -> int {
    2 * p.cursor() + match p.phase {
        Phase::Probing => 0int,
        Phase::Cloning => 1int,
        Phase::Done => 0int,
        Phase::Aborted => 2int,
    }
}

/// The provisioner moves exactly on the events that answer its pending
/// action.
pub proof fn moves_on_answers_only(p: ProvisionerView, event: EventView)
    ensures
        react(p, event) is Some <==> answers(pending(p), event),
{
}

/// The run is over exactly when the provisioner answers with a final
/// action: done or abort.
pub proof fn final_action_means_finished(p: ProvisionerView, event: EventView)
    requires
        react(p, event) is Some,
    ensures
        step(p, event)->0.action.is_final() <==> react(p, event)->0.finished(),
{
}

/// A move keeps the root and the catalog, leads to a well-formed state and
/// only ever adds to the report.
pub proof fn move_keeps_shape(p: ProvisionerView, event: EventView)
    requires
        p.wf(),
        react(p, event) is Some,
    ensures
        react(p, event)->0.wf(),
        react(p, event)->0.root == p.root,
        react(p, event)->0.catalog == p.catalog,
        p.report.is_prefix_of(react(p, event)->0.report),
{
}

proof fn lemma_move(p: ProvisionerView, event: EventView)
    requires
        p.wf(),
        react(p, event) is Some,
    ensures
        rank(react(p, event)->0) > rank(p),
        step(p, event)->0.action is Run <==> react(p, event)->0.phase is Cloning,
        react(p, event)->0.phase is Cloning ==> {
            &&& p.phase is Probing
            &&& event == EventView::Probed { exists: false }
            &&& react(p, event)->0.cursor() == p.cursor()
        },
{
}

proof fn lemma_moment(p: ProvisionerView, events: Seq<EventView>, k: int)
    requires
        p.wf(),
        0 <= k < run(p, events).len(),
    ensures
        run(p, events)[k].before.wf(),
        run(p, events)[k].before.root == p.root,
        run(p, events)[k].before.catalog == p.catalog,
        rank(run(p, events)[k].before) >= rank(p),
        react(run(p, events)[k].before, run(p, events)[k].event) == Some(run(p, events)[k].after),
        step(run(p, events)[k].before, run(p, events)[k].event) == Some(run(p, events)[k].step),
    decreases events.len(),
{
    let rest = events.drop_first();
    match react(p, events[0]) {
        Some(next) => {
            move_keeps_shape(p, events[0]);
            lemma_move(p, events[0]);
            if k > 0 {
                lemma_moment(next, rest, k - 1);
            }
        },
        None => {
            lemma_moment(p, rest, k);
        },
    }
}

proof fn lemma_order(p: ProvisionerView, events: Seq<EventView>, a: int, b: int)
    requires
        p.wf(),
        0 <= a < b < run(p, events).len(),
    ensures
        rank(run(p, events)[a].after) <= rank(run(p, events)[b].before),
    decreases events.len(),
{
    let rest = events.drop_first();
    match react(p, events[0]) {
        Some(next) => {
            move_keeps_shape(p, events[0]);
            if a == 0 {
                lemma_moment(next, rest, b - 1);
            } else {
                lemma_order(next, rest, a - 1, b - 1);
            }
        },
        None => {
            lemma_order(p, rest, a, b);
        },
    }
}

/// An entry found present is never cloned.
///
/// Take any run from a well-formed state and any move `j` of it in which a
/// probe is answered with "exists". Then no move `k` of the run, before or
/// after, invokes the clone for the entry that was probed, and that entry's
/// status is `AlreadyPresent`.
pub proof fn present_entry_is_never_cloned(
    p: ProvisionerView,
    events: Seq<EventView>,
    j: int,
    k: int,
)
    requires
        p.wf(),
        0 <= j < run(p, events).len(),
        0 <= k < run(p, events).len(),
        run(p, events)[j].before.phase is Probing,
        run(p, events)[j].event == (EventView::Probed { exists: true }),
    ensures
        !clones(run(p, events)[k], run(p, events)[j].before.cursor()),
        !run(p, events)[j].step.action.starts_program(),
        run(p, events)[j].after.report == run(p, events)[j].before.report.push(
            Status::AlreadyPresent,
        ),
{
    lemma_moment(p, events, j);
    lemma_moment(p, events, k);
    lemma_move(run(p, events)[j].before, run(p, events)[j].event);
    lemma_move(run(p, events)[k].before, run(p, events)[k].event);
    if k < j {
        lemma_order(p, events, k, j);
    } else if j < k {
        lemma_order(p, events, j, k);
    }
}

/// An entry found absent is cloned exactly once, from its own repository
/// into its own directory.
///
/// Take any run from a well-formed state and any move `j` of it in which a
/// probe is answered with "does not exist". Then move `j` asks for `git
/// clone` with the probed entry's URL and directory, and it is the only
/// move of the run that invokes the clone for that entry.
pub proof fn absent_entry_is_cloned_once(
    p: ProvisionerView,
    events: Seq<EventView>,
    j: int,
    k: int,
)
    requires
        p.wf(),
        0 <= j < run(p, events).len(),
        0 <= k < run(p, events).len(),
        run(p, events)[j].before.phase is Probing,
        run(p, events)[j].event == (EventView::Probed { exists: false }),
    ensures
        run(p, events)[j].step.action == ActionView::Run(
            clone_command(
                run(p, events)[j].before.entry().url,
                plugin_dir_spec(p.root, run(p, events)[j].before.entry().name),
            ),
        ),
        run(p, events)[j].before.entry() == p.catalog[run(p, events)[j].before.cursor()],
        clones(run(p, events)[k], run(p, events)[j].before.cursor()) <==> k == j,
{
    lemma_moment(p, events, j);
    lemma_moment(p, events, k);
    lemma_move(run(p, events)[j].before, run(p, events)[j].event);
    lemma_move(run(p, events)[k].before, run(p, events)[k].event);
    if k < j {
        lemma_order(p, events, k, j);
    } else if j < k {
        lemma_order(p, events, j, k);
    }
}

/// How a clone ends, and what it leaves behind.
pub enum CloneOutcome {
    /// The clone ran and succeeded; its target is in place.
    Cloned,
    /// The clone ran and failed; `leftover` tells whether it left something
    /// at its target all the same.
    Failed { leftover: bool },
    /// The clone program could not be started; nothing was written.
    NotStarted,
}

impl CloneOutcome {
    /// What the driver reports of a clone that ended like this.
    pub open spec fn event(self) -> EventView {
        match self {
            CloneOutcome::Cloned => EventView::Exited { success: true },
            CloneOutcome::Failed { .. } => EventView::Exited { success: false },
            CloneOutcome::NotStarted => EventView::LaunchFailed,
        }
    }

    /// Whether something exists at the clone's target afterwards.
    pub open spec fn leaves_target(self) -> bool {
        match self {
            CloneOutcome::Cloned => true,
            CloneOutcome::Failed { leftover } => leftover,
            CloneOutcome::NotStarted => false,
        }
    }
}

/// A model of the machine the provisioner runs on: `disk` holds the paths
/// at which something exists, and `clone(i)` tells how the clone of entry
/// `i` ends if it is invoked. Nothing but a clone changes the disk.
pub struct Host {
    pub disk: Set<Seq<char>>,
    pub clone: spec_fn(int) -> CloneOutcome,
}

/// What `host` reports when it performs the action that `p` is waiting for.
pub open spec fn reply(host: Host, p: ProvisionerView) -> EventView {
    match p.phase {
        Phase::Probing => EventView::Probed { exists: host.disk.contains(p.target()) },
        _ => (host.clone)(p.cursor()).event(),
    }
}

/// The host after it performed the action that `p` is waiting for.
pub open spec fn settle(host: Host, p: ProvisionerView) -> Host {
    if p.phase is Cloning && (host.clone)(p.cursor()).leaves_target() {
        Host { disk: host.disk.insert(p.target()), ..host }
    } else {
        host
    }
}

/// The number of moves that `p` can still make, at most.
pub open spec fn remaining(p: ProvisionerView) -> nat {
    match p.phase {
        Phase::Probing => (2 * (p.catalog.len() - p.report.len())) as nat,
        Phase::Cloning => (2 * (p.catalog.len() - p.report.len()) - 1) as nat,
        Phase::Done | Phase::Aborted => 0,
    }
}

/// How a run on a host ends: the provisioner's last state, the disk it
/// leaves, and the moves it made.
pub struct Outcome {
    pub state: ProvisionerView,
    pub disk: Set<Seq<char>>,
    pub moves: Seq<Moment>,
}

/// The run of the provisioner from state `p` on `host`, to its end: the
/// host performs each pending action and the provisioner reacts to what the
/// host reports.
pub open spec fn provision(p: ProvisionerView, host: Host) -> Outcome
    decreases remaining(p),
{
    if !p.wf() || p.finished() {
        Outcome { state: p, disk: host.disk, moves: Seq::empty() }
    } else {
        let event = reply(host, p);
        let next = react(p, event)->0;
        let rest = provision(next, settle(host, p));
        Outcome {
            moves: seq![Moment { before: p, event, step: step(p, event)->0, after: next }]
                + rest.moves,
            ..rest
        }
    }
}

/// What the host reports, in order, during the run from state `p` on `host`.
pub open spec fn replies(p: ProvisionerView, host: Host) -> Seq<EventView>
    decreases remaining(p),
{
    if !p.wf() || p.finished() {
        Seq::empty()
    } else {
        seq![reply(host, p)] + replies(react(p, reply(host, p))->0, settle(host, p))
    }
}

/// A run on a host is the run on what the host reports: everything that
/// holds of all runs holds of it.
pub proof fn run_on_host_is_a_run(p: ProvisionerView, host: Host)
    requires
        p.wf(),
    ensures
        provision(p, host).moves == run(p, replies(p, host)),
    decreases remaining(p),
{
    if !p.finished() {
        let event = reply(host, p);
        let next = react(p, event)->0;
        let later = settle(host, p);
        let events = replies(p, host);
        run_on_host_is_a_run(next, later);
        assert(events[0] == event);
        assert(events.drop_first() =~= replies(next, later));
        assert(provision(p, host).moves =~= run(p, events));
    }
}

/// The directory of entry `i` of `catalog` under `root`.
pub open spec fn entry_dir(root: Seq<char>, catalog: Seq<PluginView>, i: int) -> Seq<char> {
    plugin_dir_spec(root, catalog[i].name)
}

proof fn lemma_provision_leaves(p: ProvisionerView, host: Host, i: int)
    requires
        p.wf(),
        p.cursor() <= i < provision(p, host).state.report.len(),
        provision(p, host).state.report[i] != Status::Failed,
    ensures
        provision(p, host).disk.contains(entry_dir(p.root, p.catalog, i)),
    decreases remaining(p),
{
    run_on_host_ends(p, host);
    if !p.finished() {
        let event = reply(host, p);
        let next = react(p, event)->0;
        let later = settle(host, p);
        let end = provision(next, later);
        run_on_host_ends(next, later);
        assert(provision(p, host).state == end.state);
        assert(provision(p, host).disk == end.disk);
        if next.cursor() <= i {
            lemma_provision_leaves(next, later, i);
        } else {
            assert(end.state.report[i] == next.report[i]);
            assert(p.target() == entry_dir(p.root, p.catalog, i));
            assert(later.disk.contains(p.target()));
        }
    }
}

/// On any host the run comes to an end, and a well-formed one: the root
/// and the catalog are the ones it began with, statuses were only added to
/// the report, and nothing that was on the disk has gone.
pub proof fn run_on_host_ends(p: ProvisionerView, host: Host)
    requires
        p.wf(),
    ensures
        provision(p, host).state.finished(),
        provision(p, host).state.wf(),
        provision(p, host).state.root == p.root,
        provision(p, host).state.catalog == p.catalog,
        p.report.is_prefix_of(provision(p, host).state.report),
        host.disk.subset_of(provision(p, host).disk),
    decreases remaining(p),
{
    if !p.finished() {
        let event = reply(host, p);
        let next = react(p, event)->0;
        run_on_host_ends(next, settle(host, p));
    }
}

/// No entry's failure keeps another from its turn.
///
/// On a host where the clone program can be started, the run deals with
/// every entry of the catalog, whichever clones fail.
pub proof fn every_entry_gets_its_turn(p: ProvisionerView, host: Host)
    requires
        p.wf(),
        !(p.phase is Aborted),
        forall|i: int|
            p.cursor() <= i < p.catalog.len() ==> !(#[trigger] (host.clone)(i) is NotStarted),
    ensures
        provision(p, host).state.phase is Done,
        provision(p, host).state.report.len() == p.catalog.len(),
    decreases remaining(p),
{
    run_on_host_ends(p, host);
    if !p.finished() {
        let next = react(p, reply(host, p))->0;
        let later = settle(host, p);
        assert(!((host.clone)(p.cursor()) is NotStarted));
        assert(later.clone == host.clone);
        every_entry_gets_its_turn(next, later);
        assert(provision(p, host).state == provision(next, later).state);
    }
}

proof fn lemma_provision_skips(p: ProvisionerView, host: Host, i: int, k: int)
    requires
        p.wf(),
        0 <= i < p.catalog.len(),
        0 <= k < provision(p, host).moves.len(),
        i < p.cursor() || (host.disk.contains(entry_dir(p.root, p.catalog, i)) && (i > p.cursor()
            || p.phase is Probing)),
    ensures
        !clones(provision(p, host).moves[k], i),
    decreases remaining(p),
{
    if !p.finished() {
        let event = reply(host, p);
        let next = react(p, event)->0;
        if k > 0 {
            lemma_provision_skips(next, settle(host, p), i, k - 1);
        }
    }
}

/// Provisioning twice never clones what the first run put in place.
///
/// Run the provisioner over `catalog` under `root` on a host with any
/// `disk`, whatever its clones do (`first`), and then once more on the disk
/// that the first run left, again whatever its clones do (`second`). If
/// entry `i` was installed by the first run, or found present by it, then
/// no move `k` of the second run invokes the clone for entry `i`.
pub proof fn second_run_clones_nothing_installed(
    root: Seq<char>,
    catalog: Seq<PluginView>,
    disk: Set<Seq<char>>,
    first: spec_fn(int) -> CloneOutcome,
    second: spec_fn(int) -> CloneOutcome,
    i: int,
    k: int,
)
    requires
        0 <= i < provision(begin(root, catalog), Host { disk, clone: first }).state.report.len(),
        provision(begin(root, catalog), Host { disk, clone: first }).state.report[i]
            != Status::Failed,
        0 <= k < provision(
            begin(root, catalog),
            Host {
                disk: provision(begin(root, catalog), Host { disk, clone: first }).disk,
                clone: second,
            },
        ).moves.len(),
    ensures
        !clones(
            provision(
                begin(root, catalog),
                Host {
                    disk: provision(begin(root, catalog), Host { disk, clone: first }).disk,
                    clone: second,
                },
            ).moves[k],
            i,
        ),
{
    let start = begin(root, catalog);
    let once = provision(start, Host { disk, clone: first });
    run_on_host_ends(start, Host { disk, clone: first });
    lemma_provision_leaves(start, Host { disk, clone: first }, i);
    lemma_provision_skips(start, Host { disk: once.disk, clone: second }, i, k);
}

} // verus!
