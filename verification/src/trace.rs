//! Proved ordering properties of the run sequencer.
//!
//! A run is the fold of `spec_step` over a sequence of events; `run_state`
//! and `run_actions` give the machine it ends in and the actions it issued.
//! The proof functions here state the ordering guarantees of the whole run:
//! an unsupported revision blocks every test stage, a supported one lets the
//! run proceed, the hand-off buffer is sized exactly, and the terminal action never
//! precedes the hand-off.

use vstd::prelude::*;

use crate::revision::{revision_supported, Revision};
use crate::runner::{spec_step, AbortReason, Action, Event, Runner, State};

verus! {

/// The machine after the whole event sequence has been consumed.
pub open spec fn run_state(r: Runner, events: Seq<Event>) -> Runner
    decreases events.len(),
{
    if events.len() == 0 {
        r
    } else {
        run_state(spec_step(r, events[0]).0, events.drop_first())
    }
}

/// Every action the machine issues over the event sequence, in order.
pub open spec fn run_actions(r: Runner, events: Seq<Event>) -> Seq<Action>
    decreases events.len(),
{
    if events.len() == 0 {
        Seq::<Action>::empty()
    } else {
        seq![spec_step(r, events[0]).1] + run_actions(spec_step(r, events[0]).0, events.drop_first())
    }
}

/// An event that does not report a supported revision.
pub open spec fn no_supported_revision(e: Event) -> bool {
    e matches Event::RevisionRead { rev } ==> !revision_supported(rev)
}

/// An action that starts a service test stage.
pub open spec fn is_stage_action(a: Action) -> bool {
    a matches Action::RunStage { .. }
}

/// An action that ends the run after a successful hand-off.
pub open spec fn is_terminal_action(a: Action) -> bool {
    a is ExitTestEnvironment || a is PowerOff
}

/// The action that performs the one-way hand-off.
pub open spec fn is_handoff_action(a: Action) -> bool {
    a matches Action::ExitBootServices { .. }
}

/// A phase from which no test stage has started yet and none can start
/// unless a supported revision is read first.
pub open spec fn before_stages(s: State) -> bool {
    s is Probing || s is AwaitRevision || s matches State::Aborted { .. }
}

/// An unsupported revision aborts the run on the spot.
pub proof fn lemma_unsupported_revision_aborts(r: Runner, rev: Revision)
    requires
        r.state is AwaitRevision,
        !revision_supported(rev),
    ensures
        spec_step(r, Event::RevisionRead { rev }).0.state
            == (State::Aborted { reason: AbortReason::UnsupportedRevision }),
        spec_step(r, Event::RevisionRead { rev }).1
            == (Action::Abort { reason: AbortReason::UnsupportedRevision }),
{
}

/// A supported revision lets the run proceed, to the output reset rather
/// than to an abort.
pub proof fn lemma_supported_revision_proceeds(r: Runner, rev: Revision)
    requires
        r.state is AwaitRevision,
        revision_supported(rev),
    ensures
        spec_step(r, Event::RevisionRead { rev }).0.state is ResettingOutput,
        spec_step(r, Event::RevisionRead { rev }).1 == Action::ResetOutput,
{
}

/// As long as every revision read reports an unsupported revision, no test
/// stage ever starts: the run stays in its opening phases or aborts.
pub proof fn lemma_unsupported_revision_blocks_stages(r: Runner, events: Seq<Event>)
    requires
        before_stages(r.state),
        forall|i: int| 0 <= i < events.len() ==> no_supported_revision(#[trigger] events[i]),
    ensures
        forall|i: int| 0 <= i < run_actions(r, events).len()
            ==> !is_stage_action(#[trigger] run_actions(r, events)[i]),
        before_stages(run_state(r, events).state),
    decreases events.len(),
{
    if events.len() == 0 {
    } else {
        let e0 = events[0];
        let r1 = spec_step(r, e0).0;
        let a0 = spec_step(r, e0).1;
        let tail = events.drop_first();
        assert(no_supported_revision(e0));
        assert(before_stages(r1.state));
        assert(!is_stage_action(a0));
        assert(forall|i: int| 0 <= i < tail.len()
            ==> no_supported_revision(#[trigger] tail[i])) by {
            assert(forall|i: int| 0 <= i < tail.len() ==> #[trigger] tail[i] == events[i + 1]);
        }
        lemma_unsupported_revision_blocks_stages(r1, tail);
        let acts = run_actions(r, events);
        let tacts = run_actions(r1, tail);
        assert(acts == seq![a0] + tacts);
        assert forall|i: int| 0 <= i < acts.len() implies !is_stage_action(#[trigger] acts[i]) by {
            if i == 0 {
                assert(acts[i] == a0);
            } else {
                assert(acts[i] == tacts[i - 1]);
            }
        }
    }
}

/// The hand-off buffer is sized exactly as the most recent sizes report
/// demands: the queried map size plus twice the entry size, a margin of two
/// entries for map growth during the call itself.
pub proof fn lemma_handoff_buffer_size(r: Runner, map_size: usize, entry_size: usize)
    requires
        r.state is AwaitMapSizes,
        map_size + 2 * entry_size <= usize::MAX,
    ensures
        spec_step(r, Event::MapSizesRead { map_size, entry_size }).1
            == (Action::ExitBootServices {
                buffer_size: (map_size + 2 * entry_size) as usize,
            }),
{
}

/// A terminal action is issued only in the very step that completes the
/// hand-off: from the transitioning phase, on its success report.
pub proof fn lemma_terminal_needs_completed_handoff(r: Runner, event: Event)
    ensures
        is_terminal_action(spec_step(r, event).1)
            ==> (r.state matches State::Transitioning { .. }) && event is TransitionComplete,
{
}

/// A step only ever ends in the transitioning phase by issuing the hand-off
/// action in that same step.
pub proof fn lemma_transitioning_entered_by_handoff(r: Runner, event: Event)
    ensures
        spec_step(r, event).0.state matches State::Transitioning { .. }
            ==> is_handoff_action(spec_step(r, event).1),
{
}

/// Over any whole run that starts before the hand-off, the terminal
/// power-off or test-environment exit is issued strictly after the hand-off
/// action: the environment transition completes (or aborts) first.
pub proof fn lemma_transition_precedes_termination(r: Runner, events: Seq<Event>)
    requires
        !(r.state matches State::Transitioning { .. }),
    ensures
        forall|i: int|
            0 <= i < run_actions(r, events).len()
                && is_terminal_action(#[trigger] run_actions(r, events)[i])
                ==> exists|j: int|
                    0 <= j < i && is_handoff_action(#[trigger] run_actions(r, events)[j]),
    decreases events.len(),
{
    if events.len() == 0 {
    } else {
        let e0 = events[0];
        let r1 = spec_step(r, e0).0;
        let a0 = spec_step(r, e0).1;
        let tail = events.drop_first();
        let acts = run_actions(r, events);
        let tacts = run_actions(r1, tail);
        assert(acts == seq![a0] + tacts);
        assert(!is_terminal_action(a0));
        if r1.state matches State::Transitioning { .. } {
            assert(is_handoff_action(a0));
            assert forall|i: int|
                0 <= i < acts.len() && is_terminal_action(#[trigger] acts[i])
                    implies exists|j: int| 0 <= j < i && is_handoff_action(#[trigger] acts[j]) by {
                assert(acts[0] == a0);
                assert(i != 0);
                assert(0 <= 0 < i && is_handoff_action(acts[0]));
            }
        } else {
            lemma_transition_precedes_termination(r1, tail);
            assert forall|i: int|
                0 <= i < acts.len() && is_terminal_action(#[trigger] acts[i])
                    implies exists|j: int| 0 <= j < i && is_handoff_action(#[trigger] acts[j]) by {
                assert(acts[0] == a0);
                assert(i != 0);
                assert(acts[i] == tacts[i - 1]);
                let j0 = choose|j: int| 0 <= j < i - 1 && is_handoff_action(#[trigger] tacts[j]);
                assert(acts[j0 + 1] == tacts[j0]);
                assert(0 <= j0 + 1 < i && is_handoff_action(acts[j0 + 1]));
            }
        }
    }
}

} // verus!
