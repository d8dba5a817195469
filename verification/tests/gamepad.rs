use steamdeck_input::gamepad::{GamepadState, GamepadUpdateState, AXIS_SCALE};
use steamdeck_input::protocol::{SteamDeckStatePacket, BUTTON_A, BUTTON_RIGHT_PAD};

fn packet() -> SteamDeckStatePacket {
    SteamDeckStatePacket {
        packet_num: 0,
        buttons: 0,
        left_pad_x: 0,
        left_pad_y: 0,
        right_pad_x: 0,
        right_pad_y: 0,
        accel_x: 0,
        accel_y: 0,
        accel_z: 0,
        gyro_x: 0,
        gyro_y: 0,
        gyro_z: 0,
        gyro_quat_w: 0,
        gyro_quat_x: 0,
        gyro_quat_y: 0,
        gyro_quat_z: 0,
        trigger_raw_l: 0,
        trigger_raw_r: 0,
        left_stick_x: 0,
        left_stick_y: 0,
        right_stick_x: 0,
        right_stick_y: 0,
        pressure_pad_left: 0,
        pressure_pad_right: 0,
    }
}

fn as_float(v: i32) -> f32 {
    v as f32 / AXIS_SCALE as f32
}

#[test]
fn new_state_is_all_clear() {
    let s = GamepadState::new();
    assert_eq!(s.buttons, [0u8; 22]);
    assert_eq!(s.axes, [0i32; 6]);
}

#[test]
fn stick_max_maps_to_one() {
    let mut agg = GamepadUpdateState::new(0);
    let mut p = packet();
    p.left_stick_x = i16::MAX;
    p.right_stick_x = i16::MAX;
    agg.update(&p, 1);
    assert_eq!(agg.gamepad.axes[0], AXIS_SCALE);
    assert_eq!(as_float(agg.gamepad.axes[0]), 1.0);
    assert_eq!(as_float(agg.gamepad.axes[2]), 1.0);
}

#[test]
fn stick_min_clamps_to_minus_one() {
    let mut agg = GamepadUpdateState::new(0);
    let mut p = packet();
    p.left_stick_x = i16::MIN;
    agg.update(&p, 1);
    assert_eq!(agg.gamepad.axes[0], -AXIS_SCALE);
    assert_eq!(as_float(agg.gamepad.axes[0]), -1.0);
}

#[test]
fn vertical_axes_are_sign_inverted() {
    let mut agg = GamepadUpdateState::new(0);
    let mut p = packet();
    p.left_stick_y = 1000;
    p.right_stick_y = i16::MIN;
    agg.update(&p, 1);
    assert_eq!(agg.gamepad.axes[1], -1000);
    assert_eq!(agg.gamepad.axes[3], AXIS_SCALE);
    assert_eq!(as_float(agg.gamepad.axes[3]), 1.0);
}

#[test]
fn trigger_zero_maps_to_minus_one_and_full_pull_to_one() {
    let mut agg = GamepadUpdateState::new(0);
    let mut p = packet();
    p.trigger_raw_l = 0;
    p.trigger_raw_r = i16::MAX as u16;
    agg.update(&p, 1);
    assert_eq!(agg.gamepad.axes[4], -AXIS_SCALE);
    assert_eq!(as_float(agg.gamepad.axes[4]), -1.0);
    assert_eq!(agg.gamepad.axes[5], AXIS_SCALE);
    assert_eq!(as_float(agg.gamepad.axes[5]), 1.0);
}

#[test]
fn trigger_above_scale_clamps_to_one() {
    let mut agg = GamepadUpdateState::new(0);
    let mut p = packet();
    p.trigger_raw_l = u16::MAX;
    agg.update(&p, 1);
    assert_eq!(agg.gamepad.axes[4], AXIS_SCALE);
}

#[test]
fn trigger_midpoint_rescales_to_zero() {
    let mut agg = GamepadUpdateState::new(0);
    let mut p = packet();
    // Half of the clamped [0, 1] range, rescaled via x*2-1: 2*16383-32767 = -1.
    p.trigger_raw_l = 16384;
    agg.update(&p, 1);
    assert_eq!(agg.gamepad.axes[4], 1);
}

#[test]
fn button_press_is_latched_until_fetched() {
    let mut agg = GamepadUpdateState::new(0);
    let mut pressed = packet();
    pressed.buttons = BUTTON_A;
    let released = packet();

    // Press observed; no consumer fetch before the next update.
    agg.update(&pressed, 10);
    assert_eq!(agg.gamepad.buttons[0], 1);
    agg.update(&released, 20);
    // Still reported pressed: the press must not be lost.
    let snap = agg.fetch(30).expect("snapshot is fresh");
    assert_eq!(snap.buttons[0], 1);
    // The consumer has seen it; the next update without the bit releases.
    agg.update(&released, 40);
    let snap = agg.fetch(50).expect("snapshot is fresh");
    assert_eq!(snap.buttons[0], 0);
}

#[test]
fn button_release_is_immediate_once_fetched() {
    let mut agg = GamepadUpdateState::new(0);
    let mut pressed = packet();
    pressed.buttons = BUTTON_A | BUTTON_RIGHT_PAD;
    let released = packet();

    agg.update(&pressed, 10);
    let snap = agg.fetch(15).expect("snapshot is fresh");
    assert_eq!(snap.buttons[0], 1);
    assert_eq!(snap.buttons[21], 1);
    agg.update(&released, 20);
    let snap = agg.fetch(25).expect("snapshot is fresh");
    assert_eq!(snap.buttons[0], 0);
    assert_eq!(snap.buttons[21], 0);
}

#[test]
fn fetch_goes_stale_after_the_window() {
    let mut agg = GamepadUpdateState::new(0);
    let p = packet();
    agg.update(&p, 1000);
    assert!(agg.fetch(1099).is_some());
    assert!(agg.fetch(1100).is_none());
    assert!(agg.fetch(5000).is_none());
}

#[test]
fn an_update_refreshes_a_stale_snapshot() {
    let mut agg = GamepadUpdateState::new(0);
    let p = packet();
    agg.update(&p, 1000);
    assert!(agg.fetch(2000).is_none());
    agg.update(&p, 2050);
    assert!(agg.fetch(2060).is_some());
}
