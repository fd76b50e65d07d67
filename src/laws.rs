//! Properties of the control loop, proved over the controller's transitions.
use vstd::prelude::*;
use crate::cycle::{asks, initial, is_arbiter_event, next, Action, Controller, Event, Stage};
use crate::feedback::{render_text, CyclePhase, MotionState};
use crate::notify::{notification_text, payload_text, LOCAL_PORT};

verus! {

/// The state after feeding `events`, in order, to a controller in state `c`.
pub open spec fn run(c: Controller, events: Seq<Event>) -> Controller
    decreases events.len(),
{
    if events.len() == 0 {
        c
    } else {
        run(next(c, events[0]), events.drop_first())
    }
}

/// Whether the connection to the network is still being set up.
pub open spec fn connecting(s: Stage) -> bool {
    s is Joining || s is CheckingAddress || s is AwaitingAddress
}

/// What holds of every state a controller reaches from power-on: the first
/// cycle never notifies nor shows a settled text, later cycles never go back
/// to connecting, and each stage of a later cycle has the phase it belongs to.
pub open spec fn well_formed(c: Controller) -> bool {
    &&& c.phase == CyclePhase::FirstRun ==> !(c.stage is Notifying) && !(c.stage is ShowingSettled)
    &&& c.phase == CyclePhase::Pending ==> !(c.stage is ShowingSettled)
    &&& c.phase == CyclePhase::Settled ==> !(c.stage is ShowingPending) && !(c.stage is Notifying)
        && !(c.stage is Holding)
    &&& c.phase != CyclePhase::FirstRun ==> !connecting(c.stage)
}

/// One transition keeps a state well formed, and once the first cycle is
/// over the phase never returns to `FirstRun`.
pub proof fn next_keeps_well_formed(c: Controller, e: Event)
    requires
        well_formed(c),
    ensures
        well_formed(next(c, e)),
        c.phase != CyclePhase::FirstRun ==> next(c, e).phase != CyclePhase::FirstRun,
{
}

/// Every state reached from power-on is well formed, and the phase, once it
/// has left `FirstRun`, never returns to it.
pub proof fn reachable_states_are_well_formed(c: Controller, events: Seq<Event>)
    requires
        well_formed(c),
    ensures
        well_formed(run(c, events)),
        c.phase != CyclePhase::FirstRun ==> run(c, events).phase != CyclePhase::FirstRun,
    decreases events.len(),
{
    if events.len() > 0 {
        next_keeps_well_formed(c, events[0]);
        reachable_states_are_well_formed(next(c, events[0]), events.drop_first());
    }
}

/// The power-on state is well formed.
pub proof fn initial_is_well_formed()
    ensures
        well_formed(initial()),
{
}

/// The displayed text depends on the phase and the motion state alone, and
/// in the first cycle not even on the motion state.
pub proof fn render_is_pure(phase: CyclePhase, m1: MotionState, m2: MotionState)
    ensures
        phase == CyclePhase::FirstRun ==> render_text(phase, m1) == render_text(phase, m2),
        render_text(phase, m1) == render_text(phase, m1),
        phase != CyclePhase::FirstRun && m1 != m2 ==> render_text(phase, m1) != render_text(
            phase,
            m2,
        ),
{
    reveal_strlit("Rolling up");
    reveal_strlit("Rolling down");
    reveal_strlit("Rolled up!");
    reveal_strlit("Rolled down!");
    assert("Rolling up"@.len() != "Rolling down"@.len());
    assert("Rolled up!"@.len() != "Rolled down!"@.len());
}

/// In every reachable state, a send is asked for only after the first cycle,
/// and it carries exactly the payload of the sampled motion state.
pub proof fn sends_only_after_first_cycle(events: Seq<Event>, a: Action)
    requires
        asks(run(initial(), events), a),
        a is Send,
    ensures
        run(initial(), events).phase != CyclePhase::FirstRun,
        a->payload@ == payload_text(run(initial(), events).motion),
        notification_text(run(initial(), events).phase, run(initial(), events).motion) == Some(
            a->payload@,
        ),
{
    reachable_states_are_well_formed(initial(), events);
}

/// An arbitration ends on exactly one event, which changes neither the phase
/// nor the motion state; until such an event comes it goes on waiting.
pub proof fn arbitration_resolves_once(c: Controller, e: Event)
    requires
        c.stage is Arbitrating,
    ensures
        is_arbiter_event(e) ==> next(c, e) == (Controller { stage: Stage::Binding, ..c }),
        !is_arbiter_event(e) ==> next(c, e) == c,
        asks(c, Action::AwaitEvent),
{
}

/// Every cycle binds a fresh socket to the same local port: after an
/// arbitration, and again after a failed bind.
pub proof fn rebinds_every_cycle(c: Controller, e: Event)
    requires
        (c.stage is Arbitrating && is_arbiter_event(e)) || (c.stage is Binding && e is BindFailed),
    ensures
        next(c, e).stage is Binding,
        asks(next(c, e), Action::Bind { port: LOCAL_PORT }),
{
}

} // verus!
