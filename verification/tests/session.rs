use steamdeck_input::gamepad::GamepadState;
use steamdeck_input::protocol::{
    decode_deck_state, encode_deck_state_report, SteamDeckStatePacket,
    VALVE_IN_REPORT_MESSAGE_ID_CONTROLLER_STATUS,
};
use steamdeck_input::session::SessionState;
use steamdeck_input::supervisor::{
    device_present, supervisor_action, supervisor_step, SupervisorAction, SupervisorEvent,
    SupervisorState, BACKOFF_INCREMENTS,
};
use steamdeck_input::is_target_device;

fn packet() -> SteamDeckStatePacket {
    SteamDeckStatePacket {
        packet_num: 1,
        buttons: 0,
        left_pad_x: 0,
        left_pad_y: 0,
        right_pad_x: 0,
        right_pad_y: 0,
        accel_x: 0,
        accel_y: 0,
        accel_z: 0,
        gyro_x: 0,
        gyro_y: 0,
        gyro_z: 0,
        gyro_quat_w: 0,
        gyro_quat_x: 0,
        gyro_quat_y: 0,
        gyro_quat_z: 0,
        trigger_raw_l: 0,
        trigger_raw_r: 0,
        left_stick_x: 0,
        left_stick_y: 0,
        right_stick_x: 0,
        right_stick_y: 0,
        pressure_pad_left: 0,
        pressure_pad_right: 0,
    }
}

#[test]
fn locator_matches_only_the_fixed_identity() {
    assert!(is_target_device(0x28de, 0x1205, 2));
    assert!(!is_target_device(0x28de, 0x1205, 0));
    assert!(!is_target_device(0x28de, 0x1205, 1));
    assert!(!is_target_device(0x28de, 0x1206, 2));
    assert!(!is_target_device(0x28df, 0x1205, 2));
}

#[test]
fn discovery_transitions() {
    let d = SupervisorState::Disconnected;
    assert_eq!(supervisor_action(&d), SupervisorAction::Scan);
    assert_eq!(supervisor_step(d, SupervisorEvent::Opened), SupervisorState::Configuring);
    assert_eq!(
        supervisor_step(d, SupervisorEvent::Absent),
        SupervisorState::BackingOff { increments_left: BACKOFF_INCREMENTS }
    );
    assert_eq!(
        supervisor_step(d, SupervisorEvent::Failed),
        SupervisorState::BackingOff { increments_left: BACKOFF_INCREMENTS }
    );
}

#[test]
fn configuring_transitions() {
    let c = SupervisorState::Configuring;
    assert!(device_present(&c));
    assert_eq!(supervisor_action(&c), SupervisorAction::SendClearMappings);
    assert_eq!(
        supervisor_step(c, SupervisorEvent::Sent),
        SupervisorState::Polling { polls_since_clear: 0 }
    );
    assert_eq!(
        supervisor_step(c, SupervisorEvent::Failed),
        SupervisorState::BackingOff { increments_left: BACKOFF_INCREMENTS }
    );
}

#[test]
fn polling_tolerates_decode_errors_but_not_transport_failures() {
    let p = SupervisorState::Polling { polls_since_clear: 5 };
    assert!(device_present(&p));
    assert_eq!(supervisor_action(&p), SupervisorAction::ReadReport);
    assert_eq!(
        supervisor_step(p, SupervisorEvent::ReadValid),
        SupervisorState::Polling { polls_since_clear: 6 }
    );
    // A decode failure is treated exactly like a valid read: still polling.
    assert_eq!(
        supervisor_step(p, SupervisorEvent::ReadInvalid),
        SupervisorState::Polling { polls_since_clear: 6 }
    );
    // A zero-length read and a transport failure force a reconnect.
    assert_eq!(
        supervisor_step(p, SupervisorEvent::ReadEmpty),
        SupervisorState::BackingOff { increments_left: BACKOFF_INCREMENTS }
    );
    assert_eq!(
        supervisor_step(p, SupervisorEvent::Failed),
        SupervisorState::BackingOff { increments_left: BACKOFF_INCREMENTS }
    );
}

#[test]
fn backoff_counts_down_to_a_fresh_scan() {
    let mut s = SupervisorState::BackingOff { increments_left: 3 };
    assert_eq!(supervisor_action(&s), SupervisorAction::SleepIncrement);
    s = supervisor_step(s, SupervisorEvent::Slept);
    assert_eq!(s, SupervisorState::BackingOff { increments_left: 2 });
    s = supervisor_step(s, SupervisorEvent::Slept);
    assert_eq!(s, SupervisorState::BackingOff { increments_left: 1 });
    s = supervisor_step(s, SupervisorEvent::Slept);
    assert_eq!(s, SupervisorState::Disconnected);
}

/// Device never found: every fetch yields no data, for as long as the
/// discovery/backoff cycle keeps spinning.
#[test]
fn absent_device_never_yields_data() {
    let mut session = SessionState::new(0);
    let mut state = SupervisorState::Disconnected;
    let mut now: u64 = 0;
    for _ in 0..5 {
        // One full discovery round: a scan that finds nothing, then a
        // whole backoff period.
        assert_eq!(supervisor_action(&state), SupervisorAction::Scan);
        state = supervisor_step(state, SupervisorEvent::Absent);
        session.found = device_present(&state);
        while state != SupervisorState::Disconnected {
            assert_eq!(supervisor_action(&state), SupervisorAction::SleepIncrement);
            state = supervisor_step(state, SupervisorEvent::Slept);
            now += 16;
            assert_eq!(session.fetch(now), None::<GamepadState>);
        }
        assert!(!session.found);
    }
}

/// Device found and one valid report delivered; afterwards the device
/// stays connected but only sends reports of another kind, so no update
/// reaches the snapshot: the presence flag stays set while the fetch
/// result decays from a snapshot to no data.
#[test]
fn silent_device_decays_to_no_data_while_still_present() {
    let mut session = SessionState::new(0);
    let mut state = SupervisorState::Disconnected;

    state = supervisor_step(state, SupervisorEvent::Opened);
    session.found = device_present(&state);
    state = supervisor_step(state, SupervisorEvent::Sent);
    assert_eq!(state, SupervisorState::Polling { polls_since_clear: 0 });

    // One valid deck-state report arrives at t = 1000.
    let buf = encode_deck_state_report(&packet());
    let decoded = decode_deck_state(&buf).expect("valid report");
    session.apply_update(&decoded, 1000);
    state = supervisor_step(state, SupervisorEvent::ReadValid);
    assert!(session.fetch(1010).is_some());

    // From then on only status reports arrive: full-size reads whose
    // decode fails, which the supervisor tolerates without leaving the
    // polling state.  16 ms per read; after the staleness window the
    // fetch yields no data although the device is still present.
    let mut now: u64 = 1010;
    let mut status_report = encode_deck_state_report(&packet());
    status_report[2] = VALVE_IN_REPORT_MESSAGE_ID_CONTROLLER_STATUS;
    for _ in 0..10 {
        now += 16;
        assert!(decode_deck_state(&status_report).is_err());
        state = supervisor_step(state, SupervisorEvent::ReadInvalid);
        session.found = device_present(&state);
    }
    assert!(session.found);
    assert!(now >= 1000 + 100);
    assert_eq!(session.fetch(now), None::<GamepadState>);
}

/// A zero-length read instead forces a reconnect: the presence flag
/// clears with the backoff, and fetches yield no data at once.
#[test]
fn zero_length_read_forces_a_reconnect() {
    let mut session = SessionState::new(0);
    let mut state = SupervisorState::Disconnected;
    state = supervisor_step(state, SupervisorEvent::Opened);
    state = supervisor_step(state, SupervisorEvent::Sent);
    session.found = device_present(&state);

    let buf = encode_deck_state_report(&packet());
    let decoded = decode_deck_state(&buf).expect("valid report");
    session.apply_update(&decoded, 1000);
    assert!(session.fetch(1010).is_some());

    state = supervisor_step(state, SupervisorEvent::ReadEmpty);
    assert_eq!(state, SupervisorState::BackingOff { increments_left: BACKOFF_INCREMENTS });
    session.found = device_present(&state);
    assert!(!session.found);
    assert_eq!(session.fetch(1020), None::<GamepadState>);
}

/// 205 consecutive successful polls: the mapping-clear command goes out
/// exactly twice, once at configuration and once at the periodic
/// reassertion after the poll counter passes its interval.
#[test]
fn two_hundred_five_polls_send_the_clear_command_twice() {
    let mut state = SupervisorState::Disconnected;
    state = supervisor_step(state, SupervisorEvent::Opened);

    let mut clear_sends = 0u32;
    let mut reads = 0u32;
    while reads < 205 {
        match supervisor_action(&state) {
            SupervisorAction::SendClearMappings => {
                clear_sends += 1;
                state = supervisor_step(state, SupervisorEvent::Sent);
            }
            SupervisorAction::ReadReport => {
                reads += 1;
                state = supervisor_step(state, SupervisorEvent::ReadValid);
            }
            other => panic!("unexpected action {other:?}"),
        }
    }
    assert_eq!(clear_sends, 2);
    assert!(device_present(&state));
}
