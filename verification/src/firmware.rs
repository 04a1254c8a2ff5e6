//! Start-up: bring-up of the platform, sizing of the heap, the greeting, and
//! arming of the monitor, in that order.

use vstd::prelude::*;

use crate::heap::{heap_plan, plan_heap, region_fits, HeapArena, HeapError, HEAP_SIZE};
use crate::monitor::{arm_pin, arm_steps, Message, Monitor, MonitorView, Priority, Step};
use crate::platform::{reset_peripherals, Chip, Watchdog, Watchdogs};

verus! {

/// Why start-up stopped. Neither can be recovered from.
#[derive(Clone, Copy, Debug, PartialEq, Eq)]
pub enum BootError {
    /// The peripheral set had been taken before.
    PeripheralsTaken,
    /// The reserved region cannot hold the heap arena.
    Heap(HeapError),
}

/// What start-up leaves behind.
pub struct Firmware {
    pub monitor: Monitor,
    pub arena: HeapArena,
    pub watchdogs: Watchdogs,
}

/// What start-up records up to the greeting.
pub open spec fn bring_up_steps() -> Seq<Step> {
    seq![
        Step::PeripheralsTaken,
        Step::ClocksFrozen,
        Step::WatchdogDisabled(Watchdog::RtcSuper),
        Step::WatchdogDisabled(Watchdog::RtcMain),
        Step::WatchdogDisabled(Watchdog::TimerGroup0),
        Step::WatchdogDisabled(Watchdog::TimerGroup1),
        Step::HeapInstalled,
        Step::Emitted(Message::HelloWorld),
    ]
}

/// The monitor's state at the end of a start-up that succeeded.
pub open spec fn booted_state() -> MonitorView {
    MonitorView {
        pin: Some(arm_pin(reset_peripherals().pin)),
        enabled: Some(Priority::Priority3),
        sink: seq![Message::HelloWorld],
        trace: bring_up_steps() + arm_steps(),
    }
}

/// Why start-up fails, if it does, on a chip whose peripheral set is taken
/// or not and with the given reserved region.
pub open spec fn boot_failure(taken: bool, heap_start: usize, heap_end: usize) -> Option<
    BootError,
> {
    if taken {
        Some(BootError::PeripheralsTaken)
    } else {
        match heap_plan(heap_start, heap_end) {
            Ok(_) => None,
            Err(e) => Some(BootError::Heap(e)),
        }
    }
}

/// Starts the firmware: takes the peripheral set, stops the four watchdogs,
/// places the heap arena, greets, and arms the monitor on the input pin.
pub fn boot(chip: &mut Chip, heap_start: usize, heap_end: usize) -> (booted: Result<
    Firmware,
    BootError,
>)
    ensures
        final(chip)@,
        booted is Ok <==> boot_failure(old(chip)@, heap_start, heap_end) is None,
        booted matches Err(e) ==> boot_failure(old(chip)@, heap_start, heap_end) == Some(e),
        booted matches Ok(firmware) ==> {
            &&& firmware.monitor@ == booted_state()
            &&& firmware.monitor@.wf()
            &&& firmware.monitor@.idle()
            &&& firmware.arena == (HeapArena { start: heap_start, size: HEAP_SIZE })
            &&& firmware.watchdogs.all_disabled()
        },
{
    let peripherals = match chip.take() {
        Some(peripherals) => peripherals,
        None => {
            return Err(BootError::PeripheralsTaken);
        },
    };
    let mut monitor = Monitor::new();
    monitor.record(Step::PeripheralsTaken);
    monitor.record(Step::ClocksFrozen);
    let mut watchdogs = peripherals.watchdogs;
    watchdogs.disable(Watchdog::RtcSuper);
    monitor.record(Step::WatchdogDisabled(Watchdog::RtcSuper));
    watchdogs.disable(Watchdog::RtcMain);
    monitor.record(Step::WatchdogDisabled(Watchdog::RtcMain));
    watchdogs.disable(Watchdog::TimerGroup0);
    monitor.record(Step::WatchdogDisabled(Watchdog::TimerGroup0));
    watchdogs.disable(Watchdog::TimerGroup1);
    monitor.record(Step::WatchdogDisabled(Watchdog::TimerGroup1));
    let arena = match plan_heap(heap_start, heap_end) {
        Ok(arena) => arena,
        Err(e) => {
            return Err(BootError::Heap(e));
        },
    };
    monitor.record(Step::HeapInstalled);
    monitor.emit(Message::HelloWorld);
    assert(monitor@.trace =~= bring_up_steps());
    assert(monitor@.sink =~= seq![Message::HelloWorld]);
    monitor.arm(peripherals.pin);
    Ok(Firmware { monitor, arena, watchdogs })
}

/// Start-up succeeds exactly on a chip whose peripheral set is still to be
/// had and with a reserved region of at least `HEAP_SIZE` bytes.
pub proof fn lemma_boot_succeeds(taken: bool, heap_start: usize, heap_end: usize)
    ensures
        boot_failure(taken, heap_start, heap_end) is None <==> !taken && region_fits(
            heap_start as int,
            heap_end as int,
        ),
{
}

} // verus!
