//! Whole runs of script fetch-and-run, and what holds of every one.

use crate::host::{err_line, separator_line, ActionView, EventView, StepView};
use crate::script::{react, step, ScriptView, FETCH_FAILURE};
use vstd::prelude::*;

verus! {

/// The steps the machine answers with from state `s` when `events` arrive
/// in order. An event that is no answer to the pending action gets no step.
pub open spec fn run(s: ScriptView, events: Seq<EventView>) -> Seq<StepView>
    decreases events.len(),
{
    if events.len() == 0 {
        Seq::empty()
    } else {
        match react(s, events[0]) {
            Some(next) => seq![step(s, events[0])->0] + run(next, events.drop_first()),
            None => run(s, events.drop_first()),
        }
    }
}

/// The only step after a fetch that failed: the failure is reported and the
/// process is to exit with code 1.
pub open spec fn fetch_failure_step() -> StepView {
    StepView {
        lines: seq![err_line(FETCH_FAILURE@), separator_line()],
        action: ActionView::Exit { code: 1 },
    }
}

/// The machine is through exactly when it answers with a final action:
/// done, exit or abort.
pub proof fn final_action_means_finished(s: ScriptView, event: EventView)
    requires
        react(s, event) is Some,
    ensures
        step(s, event)->0.action.is_final() <==> react(s, event)->0.phase.finished(),
{
}

/// A machine that is through answers nothing, whatever it is told.
pub proof fn finished_machine_makes_no_step(s: ScriptView, events: Seq<EventView>)
    requires
        s.phase.finished(),
    ensures
        run(s, events) == Seq::<StepView>::empty(),
    decreases events.len(),
{
    if events.len() > 0 {
        finished_machine_makes_no_step(s, events.drop_first());
    }
}

/// After a fetch that failed the script is neither stored nor run.
///
/// Take a machine that waits for the fetch, and events of which number `j`
/// is the first that answers the fetch, and reports that it ran and failed.
/// Then the whole run consists of one step, which reports the failure and
/// leaves the process; in particular no step of it starts a program or
/// stores a file.
pub proof fn failed_fetch_runs_nothing(s: ScriptView, events: Seq<EventView>, j: int)
    requires
        s.phase is Fetching,
        0 <= j < events.len(),
        forall|i: int| 0 <= i < j ==> react(s, #[trigger] events[i]) is None,
        events[j] is Captured,
        !events[j]->Captured_success,
    ensures
        run(s, events) == seq![fetch_failure_step()],
        forall|k: int|
            0 <= k < run(s, events).len() ==> !(#[trigger] run(s, events)[k]).action.starts_program()
                && !(run(s, events)[k].action is Store),
    decreases j,
{
    let rest = events.drop_first();
    if j == 0 {
        finished_machine_makes_no_step(react(s, events[0])->0, rest);
        assert(run(s, events) =~= seq![fetch_failure_step()]);
    } else {
        assert(react(s, events[0]) is None);
        assert forall|i: int| 0 <= i < j - 1 implies react(s, #[trigger] rest[i]) is None by {
            assert(rest[i] == events[i + 1]);
        }
        failed_fetch_runs_nothing(s, rest, j - 1);
    }
}

} // verus!
