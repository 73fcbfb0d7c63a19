//! Whole runs of the orchestrator, and what holds of every one.

use crate::host::{EventView, StepView};
use crate::installer::{react, step, InstallerView, StageView};
use crate::script_runs::fetch_failure_step;
use vstd::prelude::*;

verus! {

/// The steps the orchestrator answers with from state `m` when `events`
/// arrive in order. An event that is no answer to the pending action gets
/// no step.
pub open spec fn run(m: InstallerView, events: Seq<EventView>) -> Seq<StepView>
    decreases events.len(),
{
    if events.len() == 0 {
        Seq::empty()
    } else {
        match react(m, events[0]) {
            Some(next) => seq![step(m, events[0])->0] + run(next, events.drop_first()),
            None => run(m, events.drop_first()),
        }
    }
}

/// The run is over exactly when the orchestrator answers with a final
/// action: done, exit or abort.
pub proof fn final_action_means_finished(m: InstallerView, event: EventView)
    requires
        react(m, event) is Some,
    ensures
        step(m, event)->0.action.is_final() <==> react(m, event)->0.stage is Finished,
{
}

/// A run that is over answers nothing, whatever it is told.
pub proof fn finished_run_makes_no_step(m: InstallerView, events: Seq<EventView>)
    requires
        m.stage is Finished,
    ensures
        run(m, events) == Seq::<StepView>::empty(),
    decreases events.len(),
{
    if events.len() > 0 {
        finished_run_makes_no_step(m, events.drop_first());
    }
}

/// A final action is the last thing the orchestrator ever says: in any run,
/// from any state, no step follows one that is done, exits or aborts.
pub proof fn nothing_follows_a_final_action(m: InstallerView, events: Seq<EventView>, k: int)
    requires
        0 <= k < run(m, events).len(),
        run(m, events)[k].action.is_final(),
    ensures
        k == run(m, events).len() - 1,
    decreases events.len(),
{
    let rest = events.drop_first();
    match react(m, events[0]) {
        Some(next) => {
            if k == 0 {
                final_action_means_finished(m, events[0]);
                finished_run_makes_no_step(next, rest);
            } else {
                nothing_follows_a_final_action(next, rest, k - 1);
            }
        },
        None => {
            nothing_follows_a_final_action(m, rest, k);
        },
    }
}

/// A fetch that failed ends the whole run, on either platform: the failure
/// is reported, the process is to exit with code 1, and neither the script
/// nor any plugin is touched afterwards.
pub proof fn failed_fetch_ends_the_run(m: InstallerView, events: Seq<EventView>)
    requires
        m.stage matches StageView::Framework(s) && s.phase is Fetching,
        events.len() > 0,
        events[0] is Captured,
        !events[0]->Captured_success,
    ensures
        react(m, events[0])->0.stage is Finished,
        run(m, events) == seq![fetch_failure_step()],
{
    finished_run_makes_no_step(react(m, events[0])->0, events.drop_first());
    assert(run(m, events) =~= seq![fetch_failure_step()]);
}

} // verus!
