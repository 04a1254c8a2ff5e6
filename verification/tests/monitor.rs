use edge_monitor::monitor::{line_change, service_edge, Message, Monitor, Priority, Step};
use edge_monitor::pin::{Event, Level, PinHandle, Pull};

fn armed_monitor() -> Monitor {
    let mut monitor = Monitor::new();
    monitor.arm(PinHandle::new());
    monitor
}

fn position(trace: &[Step], step: Step) -> Option<usize> {
    trace.iter().position(|s| *s == step)
}

fn max_open_sections(trace: &[Step]) -> (i64, i64, i64) {
    let mut open = 0i64;
    let mut highest = 0i64;
    let mut lowest = 0i64;
    for step in trace {
        match step {
            Step::SectionEntered => open += 1,
            Step::SectionLeft => open -= 1,
            _ => {}
        }
        highest = highest.max(open);
        lowest = lowest.min(open);
    }
    (lowest, highest, open)
}

#[test]
fn message_texts() {
    assert_eq!(Message::HelloWorld.text(), "Hello World");
    assert_eq!(Message::GpioInterrupt.text(), "GPIO interrupt");
}

#[test]
fn new_monitor_is_blank() {
    let monitor = Monitor::new();
    assert_eq!(monitor.pin(), None);
    assert_eq!(monitor.enabled(), None);
    assert!(monitor.sink().is_empty());
    assert!(monitor.trace().is_empty());
}

#[test]
fn service_edge_emits_then_clears_inside_one_section() {
    let mut pin = PinHandle::new().into_pull_up_input();
    pin.listen(Event::FallingEdge);
    pin.drive(Level::Low);
    let (served, (sink, log)) =
        service_edge(pin, vec![Message::HelloWorld], vec![Step::Published]);
    assert!(!served.is_interrupt_set());
    assert_eq!(served.level, Level::Low);
    assert_eq!(sink, vec![Message::HelloWorld, Message::GpioInterrupt]);
    assert_eq!(
        log,
        vec![
            Step::Published,
            Step::SectionEntered,
            Step::Emitted(Message::GpioInterrupt),
            Step::PendingCleared,
            Step::SectionLeft,
        ]
    );
}

#[test]
fn line_change_latches_and_records() {
    let mut pin = PinHandle::new().into_pull_up_input();
    pin.listen(Event::FallingEdge);
    let (changed, log) = line_change(pin, Level::Low, Vec::new());
    assert!(changed.is_interrupt_set());
    assert_eq!(changed.level, Level::Low);
    assert_eq!(
        log,
        vec![Step::SectionEntered, Step::LineDriven(Level::Low), Step::SectionLeft]
    );
}

#[test]
fn arm_configures_publishes_and_enables() {
    let monitor = armed_monitor();
    assert_eq!(
        monitor.pin(),
        Some(PinHandle {
            pull: Pull::Up,
            level: Level::High,
            listening: Some(Event::FallingEdge),
            pending: false
        })
    );
    assert_eq!(monitor.enabled(), Some(Priority::Priority3));
    assert!(monitor.sink().is_empty());
    assert_eq!(
        monitor.trace().as_slice(),
        &[
            Step::PinConfigured(Pull::Up),
            Step::Listening(Event::FallingEdge),
            Step::Published,
            Step::InterruptEnabled(Priority::Priority3),
        ]
    );
}

#[test]
fn publish_precedes_enable_in_the_trace() {
    let monitor = armed_monitor();
    let published = position(monitor.trace(), Step::Published).unwrap();
    let enabled = position(monitor.trace(), Step::InterruptEnabled(Priority::Priority3)).unwrap();
    assert!(published < enabled);
}

#[test]
fn arm_serves_a_latch_that_is_already_set() {
    let mut pin = PinHandle::new().into_pull_up_input();
    pin.listen(Event::FallingEdge);
    pin.drive(Level::Low);
    assert!(pin.is_interrupt_set());
    let mut monitor = Monitor::new();
    monitor.arm(pin);
    assert_eq!(monitor.sink().as_slice(), &[Message::GpioInterrupt]);
    assert!(!monitor.pin().unwrap().is_interrupt_set());
    assert_eq!(monitor.trace().len(), 8);
}

#[test]
fn handler_emits_one_notification_and_clears_the_latch() {
    let mut monitor = armed_monitor();
    monitor.handle_interrupt();
    assert_eq!(monitor.sink().as_slice(), &[Message::GpioInterrupt]);
    assert!(!monitor.pin().unwrap().is_interrupt_set());
    assert_eq!(
        &monitor.trace()[4..],
        &[
            Step::SectionEntered,
            Step::Emitted(Message::GpioInterrupt),
            Step::PendingCleared,
            Step::SectionLeft,
        ]
    );
}

#[test]
fn falling_edge_fires_the_handler_once() {
    let mut monitor = armed_monitor();
    assert!(monitor.drive(Level::Low));
    assert_eq!(monitor.sink().len(), 1);
    assert!(!monitor.pin().unwrap().is_interrupt_set());
    assert!(!monitor.dispatch());
    assert_eq!(monitor.sink().len(), 1);
}

#[test]
fn no_retrigger_without_a_new_edge() {
    let mut monitor = armed_monitor();
    assert!(monitor.drive(Level::Low));
    assert!(!monitor.drive(Level::Low));
    assert!(!monitor.drive(Level::High));
    assert!(!monitor.drive(Level::High));
    assert_eq!(monitor.sink().len(), 1);
}

#[test]
fn drive_before_arming_does_nothing() {
    let mut monitor = Monitor::new();
    assert!(!monitor.drive(Level::Low));
    assert!(monitor.trace().is_empty());
    assert!(monitor.sink().is_empty());
    assert_eq!(monitor.pin(), None);
}

#[test]
fn dispatch_on_a_blank_monitor_does_nothing() {
    let mut monitor = Monitor::new();
    assert!(!monitor.dispatch());
    assert!(monitor.trace().is_empty());
}

#[test]
fn emit_reaches_sink_and_trace() {
    let mut monitor = Monitor::new();
    monitor.emit(Message::HelloWorld);
    assert_eq!(monitor.sink().as_slice(), &[Message::HelloWorld]);
    assert_eq!(monitor.trace().as_slice(), &[Step::Emitted(Message::HelloWorld)]);
}

#[test]
fn n_falling_edges_give_n_notifications() {
    for n in [0usize, 1, 2, 5, 17] {
        let mut monitor = armed_monitor();
        let mut levels = Vec::new();
        for _ in 0..n {
            levels.push(Level::Low);
            levels.push(Level::High);
        }
        let fired = monitor.run(&levels);
        assert_eq!(fired, n);
        assert_eq!(monitor.sink().len(), n);
        assert!(monitor.sink().iter().all(|m| *m == Message::GpioInterrupt));
        assert!(!monitor.pin().unwrap().is_interrupt_set());
    }
}

#[test]
fn run_counts_only_falling_edges() {
    let mut monitor = armed_monitor();
    let levels = vec![
        Level::High,
        Level::Low,
        Level::Low,
        Level::High,
        Level::High,
        Level::Low,
        Level::High,
        Level::Low,
    ];
    assert_eq!(monitor.run(&levels), 3);
    assert_eq!(monitor.sink().len(), 3);
    assert_eq!(monitor.pin().unwrap().level, Level::Low);
}

#[test]
fn exclusive_sections_never_overlap() {
    let mut monitor = armed_monitor();
    let mut levels = Vec::new();
    for i in 0..40 {
        levels.push(if i % 3 == 0 { Level::Low } else { Level::High });
    }
    monitor.run(&levels);
    monitor.handle_interrupt();
    let (lowest, highest, open) = max_open_sections(monitor.trace());
    assert_eq!(lowest, 0);
    assert_eq!(highest, 1);
    assert_eq!(open, 0);
}

#[test]
fn every_notification_lies_inside_a_section() {
    let mut monitor = armed_monitor();
    monitor.run(&vec![Level::Low, Level::High, Level::Low]);
    let trace = monitor.trace();
    for (i, step) in trace.iter().enumerate() {
        if *step == Step::Emitted(Message::GpioInterrupt) {
            assert_eq!(trace[i - 1], Step::SectionEntered);
            assert_eq!(trace[i + 1], Step::PendingCleared);
            assert_eq!(trace[i + 2], Step::SectionLeft);
        }
    }
}
