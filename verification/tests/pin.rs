use edge_monitor::pin::{Event, Level, PinHandle, Pull};

#[test]
fn new_pin_is_unconfigured() {
    let pin = PinHandle::new();
    assert_eq!(
        pin,
        PinHandle { pull: Pull::Floating, level: Level::Low, listening: None, pending: false }
    );
    assert!(!pin.is_high());
    assert!(!pin.is_interrupt_set());
}

#[test]
fn pulled_up_pin_reads_high() {
    let pin = PinHandle::new().into_pull_up_input();
    assert_eq!(pin.pull, Pull::Up);
    assert!(pin.is_high());
    assert!(!pin.is_interrupt_set());
}

#[test]
fn falling_edge_sets_the_latch() {
    let mut pin = PinHandle::new().into_pull_up_input();
    pin.listen(Event::FallingEdge);
    pin.drive(Level::Low);
    assert!(pin.is_interrupt_set());
    assert!(!pin.is_high());
}

#[test]
fn rising_edge_does_not_set_a_falling_edge_latch() {
    let mut pin = PinHandle::new().into_pull_up_input();
    pin.listen(Event::FallingEdge);
    pin.drive(Level::Low);
    pin.clear_interrupt();
    pin.drive(Level::High);
    assert!(!pin.is_interrupt_set());
    assert!(pin.is_high());
}

#[test]
fn rising_edge_listener_latches_on_rising_edge_only() {
    let mut pin = PinHandle::new().into_pull_up_input();
    pin.listen(Event::RisingEdge);
    pin.drive(Level::Low);
    assert!(!pin.is_interrupt_set());
    pin.drive(Level::High);
    assert!(pin.is_interrupt_set());
}

#[test]
fn pin_that_does_not_listen_never_latches() {
    let mut pin = PinHandle::new().into_pull_up_input();
    pin.drive(Level::Low);
    pin.drive(Level::High);
    pin.drive(Level::Low);
    assert!(!pin.is_interrupt_set());
}

#[test]
fn same_level_is_no_edge() {
    let mut pin = PinHandle::new().into_pull_up_input();
    pin.listen(Event::FallingEdge);
    pin.drive(Level::High);
    assert!(!pin.is_interrupt_set());
    pin.drive(Level::Low);
    pin.clear_interrupt();
    pin.drive(Level::Low);
    assert!(!pin.is_interrupt_set());
}

#[test]
fn latch_stays_set_until_cleared() {
    let mut pin = PinHandle::new().into_pull_up_input();
    pin.listen(Event::FallingEdge);
    pin.drive(Level::Low);
    pin.drive(Level::High);
    assert!(pin.is_interrupt_set());
    pin.clear_interrupt();
    assert!(!pin.is_interrupt_set());
    assert_eq!(
        pin,
        PinHandle {
            pull: Pull::Up,
            level: Level::High,
            listening: Some(Event::FallingEdge),
            pending: false
        }
    );
}
