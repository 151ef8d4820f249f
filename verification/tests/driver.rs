use nbody::driver::{Action, Driver, Event, FRAME_DELAY_MS, LAUNCH_BODIES};

#[test]
fn driver_starts_idle() {
    let mut driver = Driver::new();
    assert!(!driver.is_running());
    assert_eq!(driver.handle(Event::Tick), Action::Halt);
    assert!(!driver.is_running());
    assert_eq!(driver.handle(Event::Stop), Action::Idle);
    assert!(!driver.is_running());
}

#[test]
fn driver_launches_once() {
    let mut driver = Driver::new();
    assert_eq!(driver.handle(Event::Start), Action::Launch { bodies: 200 });
    assert!(driver.is_running());
    assert_eq!(driver.handle(Event::Start), Action::Idle);
    assert!(driver.is_running());
    assert_eq!(LAUNCH_BODIES, 200);
}

#[test]
fn driver_frames_while_running() {
    let mut driver = Driver::new();
    driver.handle(Event::Start);
    for _ in 0..3 {
        assert_eq!(driver.handle(Event::Tick), Action::Frame { delay_ms: 16 });
        assert!(driver.is_running());
    }
    assert_eq!(FRAME_DELAY_MS, 16);
}

#[test]
fn driver_halts_at_the_tick_after_a_stop() {
    let mut driver = Driver::new();
    driver.handle(Event::Start);
    driver.handle(Event::Tick);
    assert_eq!(driver.handle(Event::Stop), Action::Idle);
    assert!(!driver.is_running());
    assert_eq!(driver.handle(Event::Tick), Action::Halt);
    assert_eq!(driver.handle(Event::Start), Action::Launch { bodies: 200 });
}
