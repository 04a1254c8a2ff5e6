//! Platform bring-up: the peripheral set that can be taken once, and the
//! watchdog timers that have to be silenced before anything else runs.

use vstd::prelude::*;

use crate::pin::PinHandle;

verus! {

/// One of the four watchdog timers.
#[derive(Clone, Copy, Debug, PartialEq, Eq, Structural)]
pub enum Watchdog {
    RtcSuper,
    RtcMain,
    TimerGroup0,
    TimerGroup1,
}

/// Which watchdog timers are running.
#[derive(Clone, Copy, Debug, PartialEq, Eq, Structural)]
pub struct Watchdogs {
    pub rtc_super: bool,
    pub rtc_main: bool,
    pub timer_group0: bool,
    pub timer_group1: bool,
}

impl Watchdogs {
    /// Whether `which` is running.
    pub open spec fn running(self, which: Watchdog) -> bool {
        match which {
            Watchdog::RtcSuper => self.rtc_super,
            Watchdog::RtcMain => self.rtc_main,
            Watchdog::TimerGroup0 => self.timer_group0,
            Watchdog::TimerGroup1 => self.timer_group1,
        }
    }

    /// No watchdog is running.
    pub open spec fn all_disabled(self) -> bool {
        !self.rtc_super && !self.rtc_main && !self.timer_group0 && !self.timer_group1
    }

    /// The state with `which` stopped and the other three as they are.
    pub open spec fn disabled(self, which: Watchdog) -> Watchdogs {
        Watchdogs {
            rtc_super: self.rtc_super && which != Watchdog::RtcSuper,
            rtc_main: self.rtc_main && which != Watchdog::RtcMain,
            timer_group0: self.timer_group0 && which != Watchdog::TimerGroup0,
            timer_group1: self.timer_group1 && which != Watchdog::TimerGroup1,
        }
    }

    /// The state after reset: every watchdog runs.
    pub fn after_reset() -> (w: Watchdogs)
        ensures
            w == reset_peripherals().watchdogs,
    {
        Watchdogs { rtc_super: true, rtc_main: true, timer_group0: true, timer_group1: true }
    }

    /// Stops `which` and leaves the other three as they are.
    pub fn disable(&mut self, which: Watchdog)
        ensures
            *final(self) == old(self).disabled(which),
    {
        match which {
            Watchdog::RtcSuper => {
                self.rtc_super = false;
            },
            Watchdog::RtcMain => {
                self.rtc_main = false;
            },
            Watchdog::TimerGroup0 => {
                self.timer_group0 = false;
            },
            Watchdog::TimerGroup1 => {
                self.timer_group1 = false;
            },
        }
    }

    /// Whether `which` is running.
    pub fn is_running(&self, which: Watchdog) -> (running: bool)
        ensures
            running == self.running(which),
    {
        match which {
            Watchdog::RtcSuper => self.rtc_super,
            Watchdog::RtcMain => self.rtc_main,
            Watchdog::TimerGroup0 => self.timer_group0,
            Watchdog::TimerGroup1 => self.timer_group1,
        }
    }
}

/// The order in which two watchdogs are stopped does not matter, and once
/// each of the four has been stopped none is running, whatever ran before.
pub proof fn lemma_disable_order(w: Watchdogs, first: Watchdog, second: Watchdog)
    ensures
        w.disabled(first).disabled(second) == w.disabled(second).disabled(first),
        !w.disabled(first).running(first),
        w.disabled(Watchdog::RtcSuper).disabled(Watchdog::RtcMain).disabled(
            Watchdog::TimerGroup0,
        ).disabled(Watchdog::TimerGroup1).all_disabled(),
{
}

/// What the firmware controls once it holds the peripheral set.
#[derive(Clone, Copy, Debug, PartialEq, Eq, Structural)]
pub struct Peripherals {
    pub watchdogs: Watchdogs,
    pub pin: PinHandle,
}

/// The chip's peripheral set, which can be taken once.
#[derive(Debug)]
pub struct Chip {
    taken: bool,
}

impl Chip {
    /// Whether the peripheral set has been taken.
    pub closed spec fn view(&self) -> bool {
        self.taken
    }

    /// A chip after reset: nothing is taken.
    pub fn new() -> (chip: Chip)
        ensures
            !chip@,
    {
        Chip { taken: false }
    }

    /// Whether the peripheral set has been taken.
    pub fn is_taken(&self) -> (taken: bool)
        ensures
            taken == self@,
    {
        self.taken
    }

    /// Hands out the peripheral set the first time it is asked for, with
    /// every watchdog running and the pin unconfigured, and nothing afterwards.
    pub fn take(&mut self) -> (peripherals: Option<Peripherals>)
        ensures
            final(self)@,
            peripherals is Some <==> !old(self)@,
            peripherals matches Some(p) ==> p == reset_peripherals(),
    {
        if self.taken {
            None
        } else {
            self.taken = true;
            Some(Peripherals { watchdogs: Watchdogs::after_reset(), pin: PinHandle::new() })
        }
    }
}

/// The peripheral set as reset leaves it.
pub open spec fn reset_peripherals() -> Peripherals {
    Peripherals {
        watchdogs: Watchdogs {
            rtc_super: true,
            rtc_main: true,
            timer_group0: true,
            timer_group1: true,
        },
        pin: PinHandle {
            pull: crate::pin::Pull::Floating,
            level: crate::pin::Level::Low,
            listening: None,
            pending: false,
        },
    }
}

} // verus!
