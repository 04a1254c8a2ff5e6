//! What holds of every run of the monitor.

use vstd::prelude::*;

use crate::monitor::{
    depth, falling_edges, handoff_ordered, lemma_arm_steps, lemma_handler_steps, lemma_line_steps,
    level_after, notifications, well_nested, MonitorView, Step,
};
use crate::pin::{is_transition, Level, PinHandle};

verus! {

/// Handoff ordering: in a trace that the monitor produced, each step that
/// enables the interrupt comes after a step that published the pin.
pub proof fn lemma_publish_precedes_enable(trace: Seq<Step>, i: int)
    requires
        handoff_ordered(trace),
        0 <= i < trace.len(),
        trace[i] is InterruptEnabled,
    ensures
        exists|j: int| 0 <= j < i && trace[j] == Step::Published,
    decreases trace.len(),
{
    let shorter = trace.drop_last();
    if i == trace.len() - 1 {
        let j = choose|j: int| 0 <= j < shorter.len() && shorter[j] == Step::Published;
        assert(trace[j] == Step::Published);
    } else {
        assert(shorter[i] == trace[i]);
        lemma_publish_precedes_enable(shorter, i);
        let j = choose|j: int| 0 <= j < i && shorter[j] == Step::Published;
        assert(trace[j] == Step::Published);
    }
}

/// Mutual exclusion: at every point of a trace that the monitor produced, at
/// most one exclusive section is open.
pub proof fn lemma_sections_disjoint(trace: Seq<Step>, i: int)
    requires
        well_nested(trace),
        0 <= i <= trace.len(),
    ensures
        0 <= depth(trace.take(i)) <= 1,
    decreases trace.len(),
{
    if i == trace.len() {
        assert(trace.take(i) =~= trace);
    } else {
        assert(trace.drop_last().take(i) =~= trace.take(i));
        lemma_sections_disjoint(trace.drop_last(), i);
    }
}

/// The handler leaves a well-formed state well-formed.
pub proof fn lemma_handled_wf(state: MonitorView)
    requires
        state.wf(),
        state.pin is Some,
    ensures
        state.handled().wf(),
{
    lemma_handler_steps(state.trace);
}

/// A change of the line, with the handler that it may cause, leaves a
/// well-formed state well-formed.
pub proof fn lemma_driven_wf(state: MonitorView, level: Level)
    requires
        state.wf(),
    ensures
        state.driven(level).wf(),
{
    if state.pin is Some {
        lemma_line_steps(state.trace, level);
    }
    let moved = state.line_driven(level);
    if moved.interrupt_due() {
        lemma_handled_wf(moved);
    }
}

/// Arming leaves a well-formed state well-formed, with the interrupt enabled
/// and the pin published.
pub proof fn lemma_armed_wf(state: MonitorView, pin: PinHandle)
    requires
        state.wf(),
    ensures
        state.armed_with(pin).wf(),
        state.armed_with(pin).idle(),
{
    lemma_arm_steps(state.trace);
    let ready = state.published_with(pin);
    if ready.interrupt_due() {
        lemma_handled_wf(ready);
    }
}

/// Mutual exclusion over any sequence of line changes: the state stays
/// well-formed, so no two exclusive sections of its trace overlap.
pub proof fn lemma_ran_wf(state: MonitorView, levels: Seq<Level>)
    requires
        state.wf(),
    ensures
        state.ran(levels).wf(),
    decreases levels.len(),
{
    if levels.len() > 0 {
        lemma_ran_wf(state, levels.drop_last());
        lemma_driven_wf(state.ran(levels.drop_last()), levels.last());
    }
}

/// Mutual exclusion, point by point: whatever the line does to a well-formed
/// state, at every point of the resulting trace at most one exclusive
/// section is open.
pub proof fn lemma_mutual_exclusion(state: MonitorView, levels: Seq<Level>, i: int)
    requires
        state.wf(),
        0 <= i <= state.ran(levels).trace.len(),
    ensures
        0 <= depth(state.ran(levels).trace.take(i)) <= 1,
{
    lemma_ran_wf(state, levels);
    lemma_sections_disjoint(state.ran(levels).trace, i);
}

/// Pending-clear: once the handler has run nothing is latched, and a later
/// change of the line invokes the handler again exactly when the interrupt
/// is enabled and the change is the transition that the pin listens for.
pub proof fn lemma_pending_cleared(state: MonitorView, level: Level)
    requires
        state.pin is Some,
    ensures
        !state.handled().pin.unwrap().pending,
        !state.handled().interrupt_due(),
        state.handled().line_driven(level).interrupt_due() <==> (state.enabled is Some
            && state.pin.unwrap().listening is Some && is_transition(
            state.pin.unwrap().listening.unwrap(),
            state.pin.unwrap().level,
            level,
        )),
{
}

/// A line that changes once has one falling edge if it goes from high to
/// low, and none otherwise.
pub proof fn lemma_single_change(start: Level, level: Level)
    ensures
        falling_edges(start, seq![level]) == (if start == Level::High && level == Level::Low {
            1nat
        } else {
            0nat
        }),
{
    let one = seq![level];
    assert(one.drop_last() =~= Seq::<Level>::empty());
    assert(falling_edges(start, one.drop_last()) == 0);
    assert(level_after(start, one.drop_last()) == start);
    assert(one.last() == level);
}

/// One change of the line in an armed, idle state: a falling edge adds one
/// notification, any other change adds none, and the state is idle again.
pub proof fn lemma_driven_idle(state: MonitorView, level: Level)
    requires
        state.idle(),
    ensures
        state.driven(level).idle(),
        state.driven(level).pin.unwrap().level == level,
        state.driven(level).sink == state.sink + notifications(
            falling_edges(state.pin.unwrap().level, seq![level]),
        ),
{
    let start = state.pin.unwrap().level;
    lemma_single_change(start, level);
    let count = falling_edges(start, seq![level]);
    assert(state.driven(level).sink =~= state.sink + notifications(count));
}

/// No lost notification: in an armed, idle state with the interrupt enabled,
/// a line that goes through `levels` causes exactly as many notifications as
/// it has falling edges, and the state is idle again afterwards.
pub proof fn lemma_no_lost_notification(state: MonitorView, levels: Seq<Level>)
    requires
        state.idle(),
    ensures
        state.ran(levels).idle(),
        state.ran(levels).pin.unwrap().level == level_after(state.pin.unwrap().level, levels),
        state.ran(levels).sink == state.sink + notifications(
            falling_edges(state.pin.unwrap().level, levels),
        ),
    decreases levels.len(),
{
    let start = state.pin.unwrap().level;
    if levels.len() == 0 {
        assert(state.sink + notifications(0) =~= state.sink);
    } else {
        let earlier = levels.drop_last();
        let mid = state.ran(earlier);
        lemma_no_lost_notification(state, earlier);
        lemma_driven_idle(mid, levels.last());
        let edge = falling_edges(mid.pin.unwrap().level, seq![levels.last()]);
        lemma_single_change(mid.pin.unwrap().level, levels.last());
        assert(falling_edges(start, levels) == falling_edges(start, earlier) + edge);
        assert(state.sink + notifications(falling_edges(start, earlier)) + notifications(edge)
            =~= state.sink + notifications(falling_edges(start, levels)));
    }
}

} // verus!
