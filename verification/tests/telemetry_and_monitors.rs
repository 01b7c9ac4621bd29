use drive_by_wire::can_bus::write_can;
use drive_by_wire::can_bus::CANMessage;
use drive_by_wire::ups::ups_monitor;
use drive_by_wire::ups::ButtonState;
use drive_by_wire::ups::UpsState;
use drive_by_wire::watchdog::feed_watchdog;
use drive_by_wire::watchdog::StopWatchdog;
use drive_by_wire::watchdog::WatchdogState;
use drive_by_wire::watchdog::WATCHDOG_FEED_INTERVAL_MS;
use drive_by_wire::watchdog::WATCHDOG_TIMEOUT_MS;

#[test]
fn telemetry_lines_match_the_lifecycle_events() {
    assert_eq!(
        write_can(&CANMessage::Starting),
        "Starting Drive-By-Wire system"
    );
    assert_eq!(
        write_can(&CANMessage::InitFP),
        "Initializing Fingerprint Scanner"
    );
    assert_eq!(
        write_can(&CANMessage::FPInitialized),
        "Fingerprint scanner initialized"
    );
    assert_eq!(write_can(&CANMessage::InitActuator), "Initializing actuator");
    assert_eq!(
        write_can(&CANMessage::ActuatorInitialized),
        "Actuator initialized"
    );
    assert_eq!(
        write_can(&CANMessage::ActuatorTestFailed),
        "Actuator test failed"
    );
    assert_eq!(
        write_can(&CANMessage::RelaysInitialized),
        "Relays initialized"
    );
    assert_eq!(
        write_can(&CANMessage::ButtonsInitialized),
        "Drive buttons initialized"
    );
    assert_eq!(
        write_can(&CANMessage::ValetMode),
        "Valet mode, won't authorize use"
    );
    assert_eq!(write_can(&CANMessage::EnableValetMode), "Valet mode enabled");
    assert_eq!(
        write_can(&CANMessage::DisableValetMode),
        "Valet mode disabled"
    );
    assert_eq!(write_can(&CANMessage::StartCar), "Sending start signal to car");
    assert_eq!(write_can(&CANMessage::Authorizing), "Authorizing use");
    assert_eq!(write_can(&CANMessage::Authorized), "Use authorized");
}

#[test]
fn watchdog_feeds_until_the_stop_signal() {
    let mut state = WatchdogState::Feeding;
    assert!(feed_watchdog(&mut state, None));
    assert_eq!(state, WatchdogState::Feeding);
    assert!(feed_watchdog(&mut state, None));
    assert_eq!(state, WatchdogState::Feeding);

    // The stop signal is honored on the tick it arrives: the dog is fed one
    // last time, then the monitor stops.
    assert!(feed_watchdog(&mut state, Some(StopWatchdog::Yes)));
    assert_eq!(state, WatchdogState::Stopped);

    // Stopped is terminal: no later tick feeds, whatever it carries.
    assert!(!feed_watchdog(&mut state, None));
    assert!(!feed_watchdog(&mut state, Some(StopWatchdog::Yes)));
    assert_eq!(state, WatchdogState::Stopped);
}

#[test]
fn feed_interval_is_shorter_than_the_hardware_timeout() {
    assert!(WATCHDOG_FEED_INTERVAL_MS < WATCHDOG_TIMEOUT_MS);
}

#[test]
fn power_monitor_publishes_exactly_on_transitions() {
    let mut state = UpsState::new();
    assert!(!state.state_battery);
    assert!(state.state_power);

    // Mains-side readings publish nothing.
    assert_eq!(ups_monitor(&mut state, 0), None);
    assert_eq!(ups_monitor(&mut state, -49), None);

    // Falling below the battery threshold publishes Stop, once.
    assert_eq!(ups_monitor(&mut state, -400), Some(ButtonState::Stop));
    assert!(state.state_battery);
    assert_eq!(ups_monitor(&mut state, -500), None);

    // Readings between the thresholds change nothing.
    assert_eq!(ups_monitor(&mut state, -200), None);
    assert!(state.state_battery);

    // Rising above the power threshold publishes Start, once.
    assert_eq!(ups_monitor(&mut state, -10), Some(ButtonState::Start));
    assert!(state.state_power);
    assert_eq!(ups_monitor(&mut state, 0), None);
}

#[test]
fn power_monitor_threshold_edges_are_exclusive() {
    // A reading exactly at a threshold does not flip the state.
    let mut state = UpsState::new();
    assert_eq!(ups_monitor(&mut state, -350), None);
    assert!(state.state_power);

    let mut state = UpsState {
        state_battery: true,
        state_power: false,
    };
    assert_eq!(ups_monitor(&mut state, -50), None);
    assert!(state.state_battery);
}
