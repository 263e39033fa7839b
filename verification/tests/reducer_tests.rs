use starboard::reducer::{
    apply_event, apply_ldeadzones, apply_rdeadzones, build_packet, button_press, button_release,
    dpad_axis, CaptureEvent, ClientCaptureState, PadButton, StickAxis,
};

#[test]
fn dpad_truth_table() {
    assert_eq!(dpad_axis(false, false), 0);
    assert_eq!(dpad_axis(true, false), 1);
    assert_eq!(dpad_axis(false, true), -1);
    assert_eq!(dpad_axis(true, true), 0);
}

#[test]
fn deadzone_zeroes_both_components_inside_radius() {
    // sqrt(100^2 + 100^2) is about 141.4, inside a radius of 200.
    let mut axes: [i32; 8] = [100, 100, 0, 0, 0, 0, 0, 0];
    apply_ldeadzones(200, &mut axes);
    assert_eq!(axes, [0, 0, 0, 0, 0, 0, 0, 0]);
}

#[test]
fn deadzone_keeps_both_components_outside_radius() {
    // magnitude 300 exceeds a radius of 200.
    let mut axes: [i32; 8] = [300, 0, 0, 0, 0, 0, 0, 0];
    apply_ldeadzones(200, &mut axes);
    assert_eq!(axes, [300, 0, 0, 0, 0, 0, 0, 0]);
}

#[test]
fn deadzone_boundary_is_inside() {
    let mut axes: [i32; 8] = [0, 200, 0, 0, 0, 0, 0, 0];
    apply_ldeadzones(200, &mut axes);
    assert_eq!(axes[0], 0);
    assert_eq!(axes[1], 0);
}

#[test]
fn deadzone_right_pair_is_independent() {
    let mut axes: [i32; 8] = [100, 100, 0, 100, 100, 0, 0, 0];
    apply_rdeadzones(200, &mut axes);
    assert_eq!(axes, [100, 100, 0, 0, 0, 0, 0, 0]);
}

#[test]
fn deadzone_is_idempotent() {
    let mut once: [i32; 8] = [100, 100, 7, 250, 10, 3, 1, -1];
    apply_ldeadzones(200, &mut once);
    apply_rdeadzones(400, &mut once);
    let mut twice = once;
    apply_ldeadzones(200, &mut twice);
    apply_rdeadzones(400, &mut twice);
    assert_eq!(once, twice);
}

#[test]
fn negative_radius_admits_nothing() {
    let mut axes: [i32; 8] = [0, 0, 0, 0, 0, 0, 0, 0];
    apply_ldeadzones(-1, &mut axes);
    assert_eq!(axes, [0, 0, 0, 0, 0, 0, 0, 0]);
}

#[test]
fn button_press_sets_table_bit() {
    let mut bitmask: u16 = 0;
    assert_eq!(button_press(PadButton::Logical(0), &mut bitmask), 0);
    assert_eq!(bitmask, 0b01);
    assert_eq!(button_press(PadButton::Logical(3), &mut bitmask), 0);
    assert_eq!(bitmask, 0b1001);
    // pressing a held button is idempotent on the bitmask
    assert_eq!(button_press(PadButton::Logical(0), &mut bitmask), 0);
    assert_eq!(bitmask, 0b1001);
    // out-of-table indices are ignored
    assert_eq!(button_press(PadButton::Logical(14), &mut bitmask), 0);
    assert_eq!(bitmask, 0b1001);
}

#[test]
fn button_press_reports_dpad_codes() {
    let mut bitmask: u16 = 0;
    assert_eq!(button_press(PadButton::DpadUp, &mut bitmask), 1);
    assert_eq!(button_press(PadButton::DpadDown, &mut bitmask), -1);
    assert_eq!(button_press(PadButton::DpadRight, &mut bitmask), 2);
    assert_eq!(button_press(PadButton::DpadLeft, &mut bitmask), -2);
    assert_eq!(bitmask, 0);
}

#[test]
fn button_release_clears_table_bit() {
    let mut bitmask: u16 = 0b1001;
    assert_eq!(button_release(PadButton::Logical(0), &mut bitmask), 0);
    assert_eq!(bitmask, 0b1000);
    assert_eq!(button_release(PadButton::Logical(0), &mut bitmask), 0);
    assert_eq!(bitmask, 0b1000);
    assert_eq!(button_release(PadButton::DpadUp, &mut bitmask), 0);
    assert_eq!(bitmask, 0b1000);
}

#[test]
fn capture_state_accumulates_events() {
    let mut state = ClientCaptureState::new();
    apply_event(&mut state, CaptureEvent::ButtonDown(PadButton::Logical(1)));
    apply_event(&mut state, CaptureEvent::AxisMotion(StickAxis::LeftX, 1200));
    apply_event(&mut state, CaptureEvent::AxisMotion(StickAxis::TriggerRight, -7));
    apply_event(&mut state, CaptureEvent::ButtonDown(PadButton::DpadUp));
    apply_event(&mut state, CaptureEvent::Quit);
    assert_eq!(state.bitmask, 0b10);
    assert_eq!(state.axis_values, [1200, 0, 0, 0, 0, -7, 0, 0]);
    assert!(state.dpad_up);
    apply_event(&mut state, CaptureEvent::ButtonUp(PadButton::Logical(1)));
    apply_event(&mut state, CaptureEvent::ButtonUp(PadButton::DpadUp));
    assert_eq!(state.bitmask, 0);
    assert!(!state.dpad_up);
}

#[test]
fn build_packet_reduces_one_tick() {
    let mut state = ClientCaptureState::new();
    apply_event(&mut state, CaptureEvent::ButtonDown(PadButton::Logical(0)));
    apply_event(&mut state, CaptureEvent::AxisMotion(StickAxis::LeftX, 100));
    apply_event(&mut state, CaptureEvent::AxisMotion(StickAxis::LeftY, 100));
    apply_event(&mut state, CaptureEvent::AxisMotion(StickAxis::RightX, 300));
    apply_event(&mut state, CaptureEvent::ButtonDown(PadButton::DpadUp));
    apply_event(&mut state, CaptureEvent::ButtonDown(PadButton::DpadLeft));
    let packet = build_packet(&state, 200, 200, "t".to_string());
    assert_eq!(packet.key_states, 0b01);
    // the left stick pair (100, 100) rests inside radius 200 and is zeroed;
    // the right stick pair (300, 0) is outside and kept; up alone gives +1
    // on its slot, left alone gives -1 on its slot.
    assert_eq!(packet.abs_states, [0, 0, 0, 300, 0, 0, 1, -1]);
    assert_eq!(packet.timestamp, "t");
}

#[test]
fn build_packet_dpad_pairs_cancel() {
    let mut state = ClientCaptureState::new();
    apply_event(&mut state, CaptureEvent::ButtonDown(PadButton::DpadUp));
    apply_event(&mut state, CaptureEvent::ButtonDown(PadButton::DpadDown));
    apply_event(&mut state, CaptureEvent::ButtonDown(PadButton::DpadRight));
    let packet = build_packet(&state, 0, 0, String::new());
    assert_eq!(packet.abs_states[6], 0);
    assert_eq!(packet.abs_states[7], 1);
}
