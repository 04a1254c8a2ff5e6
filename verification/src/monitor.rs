//! The edge-triggered input monitor and its interrupt handler, together with
//! the record of what they did.

use vstd::prelude::*;

use crate::cell::ProtectedCell;
use crate::laws::lemma_no_lost_notification;
use crate::pin::{Event, Level, PinHandle, Pull};
use crate::platform::Watchdog;

verus! {

/// Priority of an interrupt source.
#[derive(Clone, Copy, Debug, PartialEq, Eq, Structural)]
pub enum Priority {
    Priority1,
    Priority2,
    Priority3,
}

/// A line written to the output sink.
#[derive(Clone, Copy, Debug, PartialEq, Eq, Structural)]
pub enum Message {
    HelloWorld,
    GpioInterrupt,
}

impl Message {
    /// The text of the line.
    pub fn text(&self) -> (t: &'static str)
        ensures
            t@ == (match *self {
                Message::HelloWorld => "Hello World"@,
                Message::GpioInterrupt => "GPIO interrupt"@,
            }),
    {
        match self {
            Message::HelloWorld => "Hello World",
            Message::GpioInterrupt => "GPIO interrupt",
        }
    }
}

/// One thing the firmware or the line did, in the order in which it was done.
#[derive(Clone, Copy, Debug, PartialEq, Eq, Structural)]
pub enum Step {
    PeripheralsTaken,
    ClocksFrozen,
    WatchdogDisabled(Watchdog),
    HeapInstalled,
    Emitted(Message),
    PinConfigured(Pull),
    Listening(Event),
    Published,
    InterruptEnabled(Priority),
    SectionEntered,
    LineDriven(Level),
    PendingCleared,
    SectionLeft,
}

/// How a step changes the number of open exclusive sections.
pub open spec fn step_delta(step: Step) -> int {
    match step {
        Step::SectionEntered => 1,
        Step::SectionLeft => -1,
        _ => 0,
    }
}

/// Number of exclusive sections that are open at the end of `trace`.
pub open spec fn depth(trace: Seq<Step>) -> int
    decreases trace.len(),
{
    if trace.len() == 0 {
        0
    } else {
        depth(trace.drop_last()) + step_delta(trace.last())
    }
}

/// At no point of `trace` is more than one exclusive section open, and none
/// is left that was not entered.
pub open spec fn well_nested(trace: Seq<Step>) -> bool
    decreases trace.len(),
{
    if trace.len() == 0 {
        true
    } else {
        well_nested(trace.drop_last()) && 0 <= depth(trace) <= 1
    }
}

/// The resource has been published somewhere in `trace`.
pub open spec fn published(trace: Seq<Step>) -> bool {
    exists|j: int| 0 <= j < trace.len() && trace[j] == Step::Published
}

/// Whenever `trace` enables the interrupt, the resource was published before.
pub open spec fn handoff_ordered(trace: Seq<Step>) -> bool
    decreases trace.len(),
{
    if trace.len() == 0 {
        true
    } else {
        handoff_ordered(trace.drop_last()) && (trace.last() is InterruptEnabled ==> published(
            trace.drop_last(),
        ))
    }
}

/// What the handler records on one invocation.
pub open spec fn handler_steps() -> Seq<Step> {
    seq![
        Step::SectionEntered,
        Step::Emitted(Message::GpioInterrupt),
        Step::PendingCleared,
        Step::SectionLeft,
    ]
}

/// What arming the monitor records.
pub open spec fn arm_steps() -> Seq<Step> {
    seq![
        Step::PinConfigured(Pull::Up),
        Step::Listening(Event::FallingEdge),
        Step::Published,
        Step::InterruptEnabled(Priority::Priority3),
    ]
}

/// What a change of the line records.
pub open spec fn line_steps(level: Level) -> Seq<Step> {
    seq![Step::SectionEntered, Step::LineDriven(level), Step::SectionLeft]
}

/// The pin as the monitor publishes it: pulled up and listening for a
/// falling edge.
pub open spec fn arm_pin(pin: PinHandle) -> PinHandle {
    PinHandle {
        pull: Pull::Up,
        level: Level::High,
        listening: Some(Event::FallingEdge),
        pending: pin.pending,
    }
}

/// `count` notifications of an edge.
pub open spec fn notifications(count: nat) -> Seq<Message> {
    Seq::new(count, |i: int| Message::GpioInterrupt)
}

/// The level of the line after it went through `levels`, starting at `start`.
pub open spec fn level_after(start: Level, levels: Seq<Level>) -> Level {
    if levels.len() == 0 {
        start
    } else {
        levels.last()
    }
}

/// Number of falling edges of a line that starts at `start` and goes through
/// `levels`.
pub open spec fn falling_edges(start: Level, levels: Seq<Level>) -> nat
    decreases levels.len(),
{
    if levels.len() == 0 {
        0
    } else {
        let before = level_after(start, levels.drop_last());
        let edge: nat = if before == Level::High && levels.last() == Level::Low {
            1
        } else {
            0
        };
        falling_edges(start, levels.drop_last()) + edge
    }
}

/// The state of a monitor: the published pin, the priority at which the
/// interrupt is enabled, what the sink received and what was done so far.
pub struct MonitorView {
    pub pin: Option<PinHandle>,
    pub enabled: Option<Priority>,
    pub sink: Seq<Message>,
    pub trace: Seq<Step>,
}

impl MonitorView {
    /// The interrupt is enabled only with the pin published, no exclusive
    /// section is open, none ever overlapped another, and the interrupt was
    /// never enabled before the pin was published.
    pub open spec fn wf(self) -> bool {
        &&& self.enabled is Some ==> self.pin is Some
        &&& well_nested(self.trace)
        &&& depth(self.trace) == 0
        &&& handoff_ordered(self.trace)
    }

    /// The hardware would invoke the handler now.
    pub open spec fn interrupt_due(self) -> bool {
        self.enabled is Some && self.pin is Some && self.pin.unwrap().pending
    }

    /// The state after one invocation of the handler.
    pub open spec fn handled(self) -> MonitorView {
        MonitorView {
            pin: Some(self.pin.unwrap().cleared()),
            enabled: self.enabled,
            sink: self.sink.push(Message::GpioInterrupt),
            trace: self.trace + handler_steps(),
        }
    }

    /// The state after the hardware had its chance to invoke the handler.
    pub open spec fn dispatched(self) -> MonitorView {
        if self.interrupt_due() {
            self.handled()
        } else {
            self
        }
    }

    /// The state after the line went to `level`, before any handler ran.
    pub open spec fn line_driven(self, level: Level) -> MonitorView {
        if self.pin is Some {
            MonitorView {
                pin: Some(self.pin.unwrap().driven(level)),
                enabled: self.enabled,
                sink: self.sink,
                trace: self.trace + line_steps(level),
            }
        } else {
            self
        }
    }

    /// The state after the line went to `level` and the handler ran if due.
    pub open spec fn driven(self, level: Level) -> MonitorView {
        self.line_driven(level).dispatched()
    }

    /// The state after the line went through `levels`, one after the other.
    pub open spec fn ran(self, levels: Seq<Level>) -> MonitorView
        decreases levels.len(),
    {
        if levels.len() == 0 {
            self
        } else {
            self.ran(levels.drop_last()).driven(levels.last())
        }
    }

    /// The state after `pin` was configured and published and the interrupt
    /// enabled, before any handler ran.
    pub open spec fn published_with(self, pin: PinHandle) -> MonitorView {
        MonitorView {
            pin: Some(arm_pin(pin)),
            enabled: Some(Priority::Priority3),
            sink: self.sink,
            trace: self.trace + arm_steps(),
        }
    }

    /// The state after the monitor was armed with `pin`.
    pub open spec fn armed_with(self, pin: PinHandle) -> MonitorView {
        self.published_with(pin).dispatched()
    }

    /// Armed and idle: the interrupt is enabled and the published pin listens
    /// for a falling edge with nothing latched.
    pub open spec fn idle(self) -> bool {
        self.enabled is Some && self.pin is Some && self.pin.unwrap().armed()
    }
}

/// What `trace` with one more step is, in terms of `trace`.
pub proof fn lemma_push_step(trace: Seq<Step>, step: Step)
    ensures
        depth(trace.push(step)) == depth(trace) + step_delta(step),
        well_nested(trace.push(step)) == (well_nested(trace) && 0 <= depth(trace) + step_delta(
            step,
        ) <= 1),
        published(trace) || step == Step::Published ==> published(trace.push(step)),
        handoff_ordered(trace.push(step)) == (handoff_ordered(trace) && (step is InterruptEnabled
            ==> published(trace))),
{
    let longer = trace.push(step);
    assert(longer.drop_last() =~= trace);
    assert(longer.last() == step);
    if published(trace) {
        let j = choose|j: int| 0 <= j < trace.len() && trace[j] == Step::Published;
        assert(longer[j] == Step::Published);
    }
    if step == Step::Published {
        assert(longer[trace.len() as int] == Step::Published);
    }
}

/// One invocation of the handler keeps a well-formed trace well-formed.
pub proof fn lemma_handler_steps(trace: Seq<Step>)
    requires
        well_nested(trace),
        depth(trace) == 0,
        handoff_ordered(trace),
    ensures
        well_nested(trace + handler_steps()),
        depth(trace + handler_steps()) == 0,
        handoff_ordered(trace + handler_steps()),
        published(trace) ==> published(trace + handler_steps()),
{
    let t1 = trace.push(Step::SectionEntered);
    let t2 = t1.push(Step::Emitted(Message::GpioInterrupt));
    let t3 = t2.push(Step::PendingCleared);
    let t4 = t3.push(Step::SectionLeft);
    lemma_push_step(trace, Step::SectionEntered);
    lemma_push_step(t1, Step::Emitted(Message::GpioInterrupt));
    lemma_push_step(t2, Step::PendingCleared);
    lemma_push_step(t3, Step::SectionLeft);
    assert(t4 =~= trace + handler_steps());
}

/// A change of the line keeps a well-formed trace well-formed.
pub proof fn lemma_line_steps(trace: Seq<Step>, level: Level)
    requires
        well_nested(trace),
        depth(trace) == 0,
        handoff_ordered(trace),
    ensures
        well_nested(trace + line_steps(level)),
        depth(trace + line_steps(level)) == 0,
        handoff_ordered(trace + line_steps(level)),
{
    let t1 = trace.push(Step::SectionEntered);
    let t2 = t1.push(Step::LineDriven(level));
    let t3 = t2.push(Step::SectionLeft);
    lemma_push_step(trace, Step::SectionEntered);
    lemma_push_step(t1, Step::LineDriven(level));
    lemma_push_step(t2, Step::SectionLeft);
    assert(t3 =~= trace + line_steps(level));
}

/// Arming keeps a well-formed trace well-formed: the pin is published before
/// the interrupt is enabled.
pub proof fn lemma_arm_steps(trace: Seq<Step>)
    requires
        well_nested(trace),
        depth(trace) == 0,
        handoff_ordered(trace),
    ensures
        well_nested(trace + arm_steps()),
        depth(trace + arm_steps()) == 0,
        handoff_ordered(trace + arm_steps()),
{
    let t1 = trace.push(Step::PinConfigured(Pull::Up));
    let t2 = t1.push(Step::Listening(Event::FallingEdge));
    let t3 = t2.push(Step::Published);
    let t4 = t3.push(Step::InterruptEnabled(Priority::Priority3));
    lemma_push_step(trace, Step::PinConfigured(Pull::Up));
    lemma_push_step(t1, Step::Listening(Event::FallingEdge));
    lemma_push_step(t2, Step::Published);
    lemma_push_step(t3, Step::InterruptEnabled(Priority::Priority3));
    assert(t4 =~= trace + arm_steps());
}

/// What the handler does inside its exclusive section: it emits one
/// notification to `sink`, resets the pin's latch, and records each step in
/// `log`, the section's two ends included.
pub fn service_edge(pin: PinHandle, sink: Vec<Message>, log: Vec<Step>) -> (served: (
    PinHandle,
    (Vec<Message>, Vec<Step>),
))
    ensures
        served.0 == pin.cleared(),
        served.1.0@ == sink@.push(Message::GpioInterrupt),
        served.1.1@ == log@ + handler_steps(),
{
    let mut held = pin;
    let mut emitted = sink;
    let mut steps = log;
    steps.push(Step::SectionEntered);
    emitted.push(Message::GpioInterrupt);
    steps.push(Step::Emitted(Message::GpioInterrupt));
    held.clear_interrupt();
    steps.push(Step::PendingCleared);
    steps.push(Step::SectionLeft);
    assert(steps@ =~= log@ + handler_steps());
    (held, (emitted, steps))
}

/// What a change of the line does to the pin, inside an exclusive section:
/// the pin latches a transition it listens for, and `log` records the change
/// between the section's two ends.
pub fn line_change(pin: PinHandle, level: Level, log: Vec<Step>) -> (changed: (
    PinHandle,
    Vec<Step>,
))
    ensures
        changed.0 == pin.driven(level),
        changed.1@ == log@ + line_steps(level),
{
    let mut held = pin;
    let mut steps = log;
    steps.push(Step::SectionEntered);
    held.drive(level);
    steps.push(Step::LineDriven(level));
    steps.push(Step::SectionLeft);
    assert(steps@ =~= log@ + line_steps(level));
    (held, steps)
}

/// The input monitor: the protected cell, the interrupt's enablement, the
/// output sink and the record of steps.
pub struct Monitor {
    cell: ProtectedCell,
    enabled: Option<Priority>,
    sink: Vec<Message>,
    trace: Vec<Step>,
}

impl Monitor {
    /// The monitor's state.
    pub closed spec fn view(&self) -> MonitorView {
        MonitorView {
            pin: self.cell@,
            enabled: self.enabled,
            sink: self.sink@,
            trace: self.trace@,
        }
    }

    /// A monitor with an empty cell, the interrupt disabled, and nothing
    /// emitted or recorded.
    pub fn new() -> (monitor: Monitor)
        ensures
            monitor@.wf(),
            monitor@ == (MonitorView {
                pin: None,
                enabled: None,
                sink: Seq::empty(),
                trace: Seq::empty(),
            }),
    {
        Monitor { cell: ProtectedCell::new(), enabled: None, sink: Vec::new(), trace: Vec::new() }
    }

    /// A copy of the published pin, if any.
    pub fn pin(&self) -> (pin: Option<PinHandle>)
        ensures
            pin == self@.pin,
    {
        self.cell.snapshot()
    }

    /// The priority at which the interrupt is enabled, if it is.
    pub fn enabled(&self) -> (enabled: Option<Priority>)
        ensures
            enabled == self@.enabled,
    {
        self.enabled
    }

    /// What the output sink received, oldest first.
    pub fn sink(&self) -> (sink: &Vec<Message>)
        ensures
            sink@ == self@.sink,
    {
        &self.sink
    }

    /// What was done so far, oldest first.
    pub fn trace(&self) -> (trace: &Vec<Step>)
        ensures
            trace@ == self@.trace,
    {
        &self.trace
    }

    /// Appends one step that neither opens nor closes a section nor enables
    /// the interrupt.
    pub(crate) fn record(&mut self, step: Step)
        requires
            old(self)@.wf(),
            step_delta(step) == 0,
            !(step is InterruptEnabled),
        ensures
            final(self)@.wf(),
            final(self)@ == (MonitorView { trace: old(self)@.trace.push(step), ..old(self)@ }),
    {
        proof {
            lemma_push_step(self.trace@, step);
        }
        self.trace.push(step);
    }

    /// Writes `message` to the output sink.
    pub fn emit(&mut self, message: Message)
        requires
            old(self)@.wf(),
        ensures
            final(self)@.wf(),
            final(self)@ == (MonitorView {
                sink: old(self)@.sink.push(message),
                trace: old(self)@.trace.push(Step::Emitted(message)),
                ..old(self)@
            }),
    {
        self.sink.push(message);
        self.record(Step::Emitted(message));
    }

    /// The interrupt handler: inside one exclusive section it emits a
    /// notification and resets the pin's latch.
    pub fn handle_interrupt(&mut self)
        requires
            old(self)@.wf(),
            old(self)@.pin is Some,
        ensures
            final(self)@.wf(),
            final(self)@ == old(self)@.handled(),
            !final(self)@.interrupt_due(),
    {
        proof {
            lemma_handler_steps(self.trace@);
        }
        let mut sink: Vec<Message> = Vec::new();
        let mut log: Vec<Step> = Vec::new();
        core::mem::swap(&mut sink, &mut self.sink);
        core::mem::swap(&mut log, &mut self.trace);
        let body = move |pin: PinHandle| -> (served: (PinHandle, (Vec<Message>, Vec<Step>)))
            ensures
                served.0 == pin.cleared(),
                served.1.0@ == sink@.push(Message::GpioInterrupt),
                served.1.1@ == log@ + handler_steps(),
            { service_edge(pin, sink, log) };
        let (sink, log) = self.cell.with_exclusive(body);
        self.sink = sink;
        self.trace = log;
    }

    /// What the hardware does when it is free to interrupt: it invokes the
    /// handler if the interrupt is enabled and the pin's latch is set.
    pub fn dispatch(&mut self) -> (fired: bool)
        requires
            old(self)@.wf(),
        ensures
            final(self)@.wf(),
            fired == old(self)@.interrupt_due(),
            final(self)@ == old(self)@.dispatched(),
            !final(self)@.interrupt_due(),
    {
        let due = match (self.enabled, self.cell.snapshot()) {
            (Some(_), Some(pin)) => pin.is_interrupt_set(),
            _ => false,
        };
        if due {
            self.handle_interrupt();
        }
        due
    }

    /// Configures `pin` as a pulled-up input that listens for a falling edge,
    /// publishes it, and only then enables the interrupt. A latch that is
    /// already set is served at once.
    pub fn arm(&mut self, pin: PinHandle)
        requires
            old(self)@.wf(),
        ensures
            final(self)@.wf(),
            final(self)@ == old(self)@.armed_with(pin),
            final(self)@.idle(),
    {
        proof {
            lemma_arm_steps(self.trace@);
        }
        let ghost before = self.trace@;
        let mut pin = pin.into_pull_up_input();
        self.trace.push(Step::PinConfigured(Pull::Up));
        pin.listen(Event::FallingEdge);
        self.trace.push(Step::Listening(Event::FallingEdge));
        self.cell.publish(pin);
        self.trace.push(Step::Published);
        self.enabled = Some(Priority::Priority3);
        self.trace.push(Step::InterruptEnabled(Priority::Priority3));
        assert(self.trace@ =~= before + arm_steps());
        self.dispatch();
    }

    /// The line goes to `level`. The pin, if published, latches a transition
    /// it listens for, and the handler runs if the interrupt is due. Returns
    /// whether the handler ran.
    pub fn drive(&mut self, level: Level) -> (fired: bool)
        requires
            old(self)@.wf(),
        ensures
            final(self)@.wf(),
            final(self)@ == old(self)@.driven(level),
            fired == old(self)@.line_driven(level).interrupt_due(),
    {
        if self.cell.is_occupied() {
            proof {
                lemma_line_steps(self.trace@, level);
            }
            let mut log: Vec<Step> = Vec::new();
            core::mem::swap(&mut log, &mut self.trace);
            let body = move |pin: PinHandle| -> (changed: (PinHandle, Vec<Step>))
                ensures
                    changed.0 == pin.driven(level),
                    changed.1@ == log@ + line_steps(level),
                { line_change(pin, level, log) };
            self.trace = self.cell.with_exclusive(body);
        }
        self.dispatch()
    }

    /// The line goes through `levels`, one after the other. Returns how often
    /// the handler ran. On an armed, idle monitor that is once for each
    /// falling edge of the line, and each run adds one notification.
    pub fn run(&mut self, levels: &Vec<Level>) -> (fired: usize)
        requires
            old(self)@.wf(),
        ensures
            final(self)@.wf(),
            final(self)@ == old(self)@.ran(levels@),
            final(self)@.sink.len() == old(self)@.sink.len() + fired,
            old(self)@.idle() ==> {
                &&& fired == falling_edges(old(self)@.pin.unwrap().level, levels@)
                &&& final(self)@.sink == old(self)@.sink + notifications(fired as nat)
                &&& final(self)@.idle()
            },
    {
        let mut fired: usize = 0;
        let mut i: usize = 0;
        proof {
            assert(levels@.take(0) =~= Seq::<Level>::empty());
        }
        while i < levels.len()
            invariant
                i <= levels.len(),
                fired <= i,
                self@.wf(),
                self@ == old(self)@.ran(levels@.take(i as int)),
                self@.sink.len() == old(self)@.sink.len() + fired,
            decreases levels.len() - i,
        {
            proof {
                assert(levels@.take(i + 1).drop_last() =~= levels@.take(i as int));
                assert(levels@.take(i + 1).last() == levels@[i as int]);
            }
            if self.drive(levels[i]) {
                fired = fired + 1;
            }
            i = i + 1;
        }
        proof {
            assert(levels@.take(levels@.len() as int) =~= levels@);
            if old(self)@.idle() {
                lemma_no_lost_notification(old(self)@, levels@);
            }
        }
        fired
    }
}

} // verus!
