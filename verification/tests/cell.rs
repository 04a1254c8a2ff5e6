use edge_monitor::cell::ProtectedCell;
use edge_monitor::pin::{Event, Level, PinHandle, Pull};

fn armed_pin() -> PinHandle {
    let mut pin = PinHandle::new().into_pull_up_input();
    pin.listen(Event::FallingEdge);
    pin
}

#[test]
fn new_cell_is_empty() {
    let cell = ProtectedCell::new();
    assert!(!cell.is_occupied());
    assert_eq!(cell.snapshot(), None);
}

#[test]
fn publish_makes_the_cell_occupied() {
    let mut cell = ProtectedCell::new();
    let previous = cell.publish(armed_pin());
    assert_eq!(previous, None);
    assert!(cell.is_occupied());
    assert_eq!(cell.snapshot(), Some(armed_pin()));
}

#[test]
fn publish_again_hands_back_the_earlier_resource() {
    let mut cell = ProtectedCell::new();
    cell.publish(PinHandle::new());
    let previous = cell.publish(armed_pin());
    assert_eq!(previous, Some(PinHandle::new()));
    assert_eq!(cell.snapshot(), Some(armed_pin()));
}

#[test]
fn with_exclusive_stores_what_the_operation_hands_back() {
    let mut cell = ProtectedCell::new();
    cell.publish(armed_pin());
    let was_high = cell.with_exclusive(|mut pin: PinHandle| {
        let high = pin.is_high();
        pin.drive(Level::Low);
        (pin, high)
    });
    assert!(was_high);
    assert_eq!(
        cell.snapshot(),
        Some(PinHandle {
            pull: Pull::Up,
            level: Level::Low,
            listening: Some(Event::FallingEdge),
            pending: true
        })
    );
}

#[test]
fn with_exclusive_returns_the_operations_answer() {
    let mut cell = ProtectedCell::new();
    cell.publish(armed_pin());
    let answer = cell.with_exclusive(|pin: PinHandle| (pin, 41u32 + 1));
    assert_eq!(answer, 42);
    assert_eq!(cell.snapshot(), Some(armed_pin()));
}

#[test]
fn with_exclusive_may_be_nested_in_another_critical_section() {
    let mut cell = ProtectedCell::new();
    cell.publish(armed_pin());
    let set = critical_section::with(|_| {
        cell.with_exclusive(|mut pin: PinHandle| {
            pin.drive(Level::Low);
            (pin, pin.is_interrupt_set())
        })
    });
    assert!(set);
}

#[test]
fn try_with_exclusive_leaves_an_empty_cell_alone() {
    let mut cell = ProtectedCell::new();
    let answer = cell.try_with_exclusive(|pin: PinHandle| (pin, 7u8));
    assert_eq!(answer, None);
    assert!(!cell.is_occupied());
}

#[test]
fn try_with_exclusive_runs_on_an_occupied_cell() {
    let mut cell = ProtectedCell::new();
    cell.publish(armed_pin());
    let answer = cell.try_with_exclusive(|mut pin: PinHandle| {
        pin.drive(Level::Low);
        pin.clear_interrupt();
        (pin, 7u8)
    });
    assert_eq!(answer, Some(7));
    let held = cell.snapshot().unwrap();
    assert_eq!(held.level, Level::Low);
    assert!(!held.pending);
}
