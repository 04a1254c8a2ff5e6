//! The monitored input pin: its configuration, the level of its line and the
//! latch that records a qualifying transition.

use vstd::prelude::*;

verus! {

/// Logical level of the input line.
#[derive(Clone, Copy, Debug, PartialEq, Eq, Structural)]
pub enum Level {
    Low,
    High,
}

/// Passive biasing of the input line.
#[derive(Clone, Copy, Debug, PartialEq, Eq, Structural)]
pub enum Pull {
    Floating,
    Up,
}

/// The transition that sets the latch.
#[derive(Clone, Copy, Debug, PartialEq, Eq, Structural)]
pub enum Event {
    RisingEdge,
    FallingEdge,
}

/// Whether going from `before` to `after` is the transition `event`.
pub open spec fn is_transition(event: Event, before: Level, after: Level) -> bool {
    match event {
        Event::FallingEdge => before == Level::High && after == Level::Low,
        Event::RisingEdge => before == Level::Low && after == Level::High,
    }
}

/// Exclusive control of the input line.
#[derive(Clone, Copy, Debug, PartialEq, Eq, Structural)]
pub struct PinHandle {
    pub pull: Pull,
    pub level: Level,
    pub listening: Option<Event>,
    pub pending: bool,
}

impl PinHandle {
    /// The handle after the line went to `level`: the latch is set when the
    /// transition is the one the pin listens for, and is never reset here.
    pub open spec fn driven(self, level: Level) -> PinHandle {
        PinHandle {
            pull: self.pull,
            level: level,
            listening: self.listening,
            pending: self.pending || (self.listening matches Some(event) && is_transition(
                event,
                self.level,
                level,
            )),
        }
    }

    /// The handle with its latch reset.
    pub open spec fn cleared(self) -> PinHandle {
        PinHandle {
            pull: self.pull,
            level: self.level,
            listening: self.listening,
            pending: false,
        }
    }

    /// Pulled up, listening for a falling edge, nothing latched.
    pub open spec fn armed(self) -> bool {
        self.pull == Pull::Up && self.listening == Some(Event::FallingEdge) && !self.pending
    }

    /// An unconfigured input: floating, low, listening for nothing.
    pub fn new() -> (pin: PinHandle)
        ensures
            pin == (PinHandle {
                pull: Pull::Floating,
                level: Level::Low,
                listening: None,
                pending: false,
            }),
    {
        PinHandle { pull: Pull::Floating, level: Level::Low, listening: None, pending: false }
    }

    /// Biases the line high. With nothing driving it the line then reads
    /// high; pulling up is no transition, so the latch stays as it is.
    pub fn into_pull_up_input(self) -> (pin: PinHandle)
        ensures
            pin == (PinHandle {
                pull: Pull::Up,
                level: Level::High,
                listening: self.listening,
                pending: self.pending,
            }),
    {
        PinHandle {
            pull: Pull::Up,
            level: Level::High,
            listening: self.listening,
            pending: self.pending,
        }
    }

    /// Arms the latch for `event`.
    pub fn listen(&mut self, event: Event)
        ensures
            *final(self) == (PinHandle {
                pull: old(self).pull,
                level: old(self).level,
                listening: Some(event),
                pending: old(self).pending,
            }),
    {
        self.listening = Some(event);
    }

    /// The line goes to `level`.
    pub fn drive(&mut self, level: Level)
        ensures
            *final(self) == old(self).driven(level),
    {
        let latched: bool = match self.listening {
            Some(Event::FallingEdge) => self.level == Level::High && level == Level::Low,
            Some(Event::RisingEdge) => self.level == Level::Low && level == Level::High,
            None => false,
        };
        self.level = level;
        if latched {
            self.pending = true;
        }
    }

    /// Resets the latch.
    pub fn clear_interrupt(&mut self)
        ensures
            *final(self) == old(self).cleared(),
    {
        self.pending = false;
    }

    /// Whether a transition is latched.
    pub fn is_interrupt_set(&self) -> (set: bool)
        ensures
            set == self.pending,
    {
        self.pending
    }

    /// Whether the line reads high.
    pub fn is_high(&self) -> (high: bool)
        ensures
            high == (self.level == Level::High),
    {
        self.level == Level::High
    }
}

/// Once the latch is reset it stays so until the line makes the transition
/// that the pin listens for.
pub proof fn lemma_no_retrigger(pin: PinHandle, level: Level)
    ensures
        pin.cleared().driven(level).pending <==> (pin.listening matches Some(event)
            && is_transition(event, pin.level, level)),
        !pin.cleared().pending,
{
}

} // verus!
