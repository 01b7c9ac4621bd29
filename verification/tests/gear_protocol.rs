use drive_by_wire::buttons::Button;
use drive_by_wire::buttons::LedStatus;
use drive_by_wire::can_bus::CANMessage;
use drive_by_wire::config::DbwConfig;
use drive_by_wire::config::FlashBlock;
use drive_by_wire::gear_core::actuator_control;
use drive_by_wire::gear_core::boot_authentication_required;
use drive_by_wire::gear_core::gear_travel;
use drive_by_wire::gear_core::read_button;
use drive_by_wire::gear_core::select_led_commands;
use drive_by_wire::gear_core::self_test;
use drive_by_wire::gear_core::Action;
use drive_by_wire::gear_core::ButtonEvent;
use drive_by_wire::gear_core::System;
use drive_by_wire::gear_core::DEFAULT_UNBLOCK_LIMIT;

fn booted_from_erased() -> System {
    System::new(
        FlashBlock::erased(),
        Button::N,
        Button::D,
        DEFAULT_UNBLOCK_LIMIT,
    )
}

#[test]
fn boot_from_erased_store_press_drive_reaches_drive() {
    // Boot with storage erased: the store reads as {Park, valet off}.
    let mut sys = booted_from_erased();
    assert_eq!(sys.enabled, Button::P);
    assert!(!DbwConfig::read(&sys.flash).valet_mode);

    // Self-test passes.
    let acts = self_test(&mut sys, true);
    assert_eq!(
        acts,
        vec![Action::Can {
            message: CANMessage::ActuatorInitialized
        }]
    );

    // Press "Drive", then release within the deadline.
    let acts = read_button(&mut sys, Button::D, ButtonEvent::Pressed);
    assert!(acts.is_empty());
    assert!(sys.blocked);
    let acts = read_button(&mut sys, Button::D, ButtonEvent::Released);
    assert_eq!(acts, select_led_commands(Button::D));

    // The gear request is observed.
    assert_eq!(sys.queue, vec![Button::D]);
    assert!(sys.blocked);

    // The controller drives the move and persists the result.
    let moved = actuator_control(&mut sys).expect("a request was pending");
    assert_eq!(moved.gear, Button::D);
    assert_eq!(moved.travel, 3);
    assert_eq!(sys.enabled, Button::D);
    assert!(!sys.blocked);
    let stored = sys.stored_config();
    assert_eq!(stored.active_button, Button::D);
    assert!(!stored.valet_mode);
}

#[test]
fn pressing_the_enabled_gear_blinks_and_requests_nothing() {
    // EnabledGear == Park; press "Park".
    let mut sys = booted_from_erased();
    assert_eq!(sys.enabled, Button::P);
    let before = sys.stored_config();

    let acts = read_button(&mut sys, Button::P, ButtonEvent::Pressed);
    assert!(acts.is_empty());
    let acts = read_button(&mut sys, Button::P, ButtonEvent::Released);

    // The Park LED blinks off/on three times.
    let mut expected = Vec::new();
    for _ in 0..3 {
        expected.push(Action::Led {
            button: Button::P,
            status: LedStatus::Off,
        });
        expected.push(Action::Led {
            button: Button::P,
            status: LedStatus::On,
        });
    }
    assert_eq!(acts, expected);

    // No gear request was emitted, the record is untouched, and the lock is
    // clear once the press is handled.
    assert!(sys.queue.is_empty());
    assert_eq!(DbwConfig::read(&sys.flash), before);
    assert!(!sys.blocked);
}

#[test]
fn second_press_waits_and_only_one_request_is_in_flight() {
    let mut sys = booted_from_erased();

    // Reverse's task wins the race and emits a request.
    read_button(&mut sys, Button::R, ButtonEvent::Pressed);
    read_button(&mut sys, Button::R, ButtonEvent::Released);
    assert_eq!(sys.queue, vec![Button::R]);

    // Drive's press finds the lock held (and the chord does not match, since
    // Park is enabled): it must poll, not emit.
    read_button(&mut sys, Button::D, ButtonEvent::Pressed);
    read_button(&mut sys, Button::D, ButtonEvent::Tick);
    assert_eq!(sys.queue, vec![Button::R]);
    assert!(sys.blocked);

    // The controller completes the move; the waiting task then resumes.
    let moved = actuator_control(&mut sys).expect("a request was pending");
    assert_eq!(moved.gear, Button::R);
    assert!(!sys.blocked);
    read_button(&mut sys, Button::D, ButtonEvent::Tick);

    // Now Drive's press can be retried from the top.
    read_button(&mut sys, Button::D, ButtonEvent::Pressed);
    read_button(&mut sys, Button::D, ButtonEvent::Released);
    assert_eq!(sys.queue, vec![Button::D]);
}

#[test]
fn deadlock_breaker_force_clears_an_orphaned_lock() {
    let mut sys = booted_from_erased();

    // A press that never concludes leaves the lock set: deadline, cooldown,
    // late release.
    read_button(&mut sys, Button::R, ButtonEvent::Pressed);
    read_button(&mut sys, Button::R, ButtonEvent::DeadlineElapsed);
    read_button(&mut sys, Button::R, ButtonEvent::Tick);
    read_button(&mut sys, Button::R, ButtonEvent::Released);
    assert!(sys.blocked);

    // Another task polls the held lock; after the bounded wait it
    // force-clears it and resumes.
    read_button(&mut sys, Button::D, ButtonEvent::Pressed);
    for _ in 0..DEFAULT_UNBLOCK_LIMIT {
        assert!(sys.blocked);
        read_button(&mut sys, Button::D, ButtonEvent::Tick);
    }
    assert!(!sys.blocked);

    // Normal presses work again.
    read_button(&mut sys, Button::D, ButtonEvent::Pressed);
    read_button(&mut sys, Button::D, ButtonEvent::Released);
    assert_eq!(sys.queue, vec![Button::D]);
}

#[test]
fn failed_self_test_sends_stop_and_freezes_the_core() {
    let mut sys = booted_from_erased();
    let acts = self_test(&mut sys, false);
    assert_eq!(
        acts,
        vec![
            Action::Can {
                message: CANMessage::ActuatorTestFailed
            },
            Action::SendStopWatchdog,
        ]
    );
    assert!(sys.halted);
    assert!(sys.stop_sent);

    // No press is handled and no request is ever accepted afterward.
    let acts = read_button(&mut sys, Button::D, ButtonEvent::Pressed);
    assert!(acts.is_empty());
    let acts = read_button(&mut sys, Button::D, ButtonEvent::Released);
    assert!(acts.is_empty());
    assert!(sys.queue.is_empty());
    assert_eq!(actuator_control(&mut sys), None);
    assert_eq!(sys.enabled, Button::P);
}

#[test]
fn chord_with_failing_verification_leaves_valet_unchanged() {
    // Make Neutral the enabled gear first.
    let mut sys = booted_from_erased();
    read_button(&mut sys, Button::N, ButtonEvent::Pressed);
    read_button(&mut sys, Button::N, ButtonEvent::Released);
    actuator_control(&mut sys);
    assert_eq!(sys.enabled, Button::N);
    assert!(!DbwConfig::read(&sys.flash).valet_mode);

    // Hold Neutral (the enabled gear) and press Drive: the chord is
    // recognized and both chord LEDs acknowledge it.
    read_button(&mut sys, Button::N, ButtonEvent::Pressed);
    let acts = read_button(&mut sys, Button::D, ButtonEvent::Pressed);
    assert_eq!(
        acts,
        vec![
            Action::Led {
                button: Button::N,
                status: LedStatus::On
            },
            Action::Led {
                button: Button::D,
                status: LedStatus::On
            },
        ]
    );

    // The biometric verification fails: valet mode is unchanged and the
    // acknowledgment LEDs are cleared.
    let acts = read_button(&mut sys, Button::D, ButtonEvent::Verified { ok: false });
    assert_eq!(
        acts,
        vec![
            Action::Led {
                button: Button::N,
                status: LedStatus::Off
            },
            Action::Led {
                button: Button::D,
                status: LedStatus::Off
            },
            Action::ClearIndicator,
        ]
    );
    assert!(!DbwConfig::read(&sys.flash).valet_mode);
    assert!(sys.queue.is_empty());

    // The orphaned lock is broken after the backoff and normal presses
    // resume.
    read_button(&mut sys, Button::N, ButtonEvent::DeadlineElapsed);
    read_button(&mut sys, Button::N, ButtonEvent::Tick);
    read_button(&mut sys, Button::N, ButtonEvent::Released);
    read_button(&mut sys, Button::P, ButtonEvent::Pressed);
    for _ in 0..DEFAULT_UNBLOCK_LIMIT {
        read_button(&mut sys, Button::P, ButtonEvent::Tick);
    }
    assert!(!sys.blocked);
    read_button(&mut sys, Button::P, ButtonEvent::Pressed);
    read_button(&mut sys, Button::P, ButtonEvent::Released);
    assert_eq!(sys.queue, vec![Button::P]);
}

#[test]
fn chord_with_successful_verification_toggles_valet() {
    // Make Neutral the enabled gear, then run the chord to completion.
    let mut sys = booted_from_erased();
    read_button(&mut sys, Button::N, ButtonEvent::Pressed);
    read_button(&mut sys, Button::N, ButtonEvent::Released);
    actuator_control(&mut sys);

    read_button(&mut sys, Button::N, ButtonEvent::Pressed);
    read_button(&mut sys, Button::D, ButtonEvent::Pressed);
    let acts = read_button(&mut sys, Button::D, ButtonEvent::Verified { ok: true });
    assert_eq!(
        acts,
        vec![
            Action::Can {
                message: CANMessage::EnableValetMode
            },
            Action::Led {
                button: Button::N,
                status: LedStatus::Off
            },
            Action::Led {
                button: Button::D,
                status: LedStatus::Off
            },
        ]
    );
    let stored = sys.stored_config();
    assert!(stored.valet_mode);
    assert_eq!(stored.active_button, Button::N);
    assert!(!sys.blocked);

    // Toggling again, once the holder's press has drained, turns it back off.
    read_button(&mut sys, Button::N, ButtonEvent::DeadlineElapsed);
    read_button(&mut sys, Button::N, ButtonEvent::Tick);
    read_button(&mut sys, Button::N, ButtonEvent::Released);
    read_button(&mut sys, Button::N, ButtonEvent::Pressed);
    read_button(&mut sys, Button::D, ButtonEvent::Pressed);
    let acts = read_button(&mut sys, Button::D, ButtonEvent::Verified { ok: true });
    assert_eq!(
        acts[0],
        Action::Can {
            message: CANMessage::DisableValetMode
        }
    );
    assert!(!DbwConfig::read(&sys.flash).valet_mode);
}

#[test]
fn valet_mode_suppresses_boot_authentication() {
    let mut flash = FlashBlock::erased();
    drive_by_wire::config::write_flash(
        &mut flash,
        DbwConfig {
            active_button: Button::D,
            valet_mode: true,
        },
    );
    let sys = System::new(flash, Button::N, Button::D, DEFAULT_UNBLOCK_LIMIT);
    assert_eq!(sys.enabled, Button::D);
    assert!(!boot_authentication_required(&sys));

    let sys = booted_from_erased();
    assert!(boot_authentication_required(&sys));
}

#[test]
fn gear_travel_is_the_signed_index_distance() {
    assert_eq!(gear_travel(Button::P, Button::D), 3);
    assert_eq!(gear_travel(Button::D, Button::P), -3);
    assert_eq!(gear_travel(Button::R, Button::N), 1);
    assert_eq!(gear_travel(Button::N, Button::N), 0);
}

#[test]
fn selection_leds_light_exactly_the_chosen_gear() {
    let acts = select_led_commands(Button::R);
    assert_eq!(
        acts,
        vec![
            Action::Led {
                button: Button::P,
                status: LedStatus::Off
            },
            Action::Led {
                button: Button::R,
                status: LedStatus::On
            },
            Action::Led {
                button: Button::N,
                status: LedStatus::Off
            },
            Action::Led {
                button: Button::D,
                status: LedStatus::Off
            },
        ]
    );
}
