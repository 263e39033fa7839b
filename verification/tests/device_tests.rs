use starboard::device::{DeviceState, EmitEvent};
use starboard::dispatch::{dispatch, get_input_packet, DispatchAction, DispatchEvent};
use starboard::packets::{serialize, InputPacket, Packet};
use starboard::relay::{get_haptic_packet, haptic_playback};
use starboard::tables::{
    out_axis, out_key, EV_ABSOLUTE, EV_FORCEFEEDBACK, EV_KEY, EV_SYNCHRONIZATION, SYN_REPORT,
};
use evdev::{AbsoluteAxisCode, EventType, KeyCode, SynchronizationCode};

fn key(code: u16, value: i32) -> EmitEvent {
    EmitEvent { event_type: EV_KEY, code, value }
}

fn axis(code: u16, value: i32) -> EmitEvent {
    EmitEvent { event_type: EV_ABSOLUTE, code, value }
}

fn sync() -> EmitEvent {
    EmitEvent { event_type: EV_SYNCHRONIZATION, code: SYN_REPORT, value: 0 }
}

#[test]
fn process_packet_emits_press_axes_and_sync() {
    let mut state = DeviceState::new();
    let packet = InputPacket::new(0b01, [0; 8], String::new());
    let events = state.process_packet(&packet);
    let expected = vec![
        key(0x133, 1),
        axis(0x00, 0),
        axis(0x01, 0),
        axis(0x02, 0),
        axis(0x03, 0),
        axis(0x04, 0),
        axis(0x05, 0),
        axis(0x10, 0),
        axis(0x11, 0),
        sync(),
    ];
    assert_eq!(events, expected);
    assert_eq!(state.key_states, 0b01);
}

#[test]
fn unchanged_buttons_emit_no_key_events() {
    let mut state = DeviceState::new();
    let packet = InputPacket::new(0b11, [4; 8], String::new());
    let first = state.process_packet(&packet);
    assert_eq!(first.iter().filter(|e| e.event_type == EV_KEY).count(), 2);

    let packet_again = InputPacket::new(0b11, [9; 8], String::new());
    let second = state.process_packet(&packet_again);
    assert_eq!(second.iter().filter(|e| e.event_type == EV_KEY).count(), 0);
    assert_eq!(second.len(), 9);
}

#[test]
fn releases_are_edge_triggered_too() {
    let mut state = DeviceState::new();
    state.process_packet(&InputPacket::new(0b110, [0; 8], String::new()));
    let events = state.process_packet(&InputPacket::new(0b010, [0; 8], String::new()));
    let keys: Vec<&EmitEvent> = events.iter().filter(|e| e.event_type == EV_KEY).collect();
    assert_eq!(keys.len(), 1);
    assert_eq!(keys[0].code, out_key(2));
    assert_eq!(keys[0].value, 0);
}

#[test]
fn every_packet_emits_exactly_eight_axis_events() {
    let mut state = DeviceState::new();
    for key_states in [0u16, 0, 5, 5] {
        let packet = InputPacket::new(key_states, [1, 2, 3, 4, 5, 6, -1, 0], String::new());
        let events = state.process_packet(&packet);
        let axes: Vec<&EmitEvent> = events.iter().filter(|e| e.event_type == EV_ABSOLUTE).collect();
        assert_eq!(axes.len(), 8);
        for (i, e) in axes.iter().enumerate() {
            assert_eq!(e.code, out_axis(i));
        }
        assert_eq!(events.last().unwrap(), &sync());
        assert_eq!(
            events.iter().filter(|e| e.event_type == EV_SYNCHRONIZATION).count(),
            1
        );
    }
}

#[test]
fn dispatch_decode_failure_keeps_state_and_rewaits() {
    let mut state = DeviceState::new();
    state.process_packet(&InputPacket::new(0b01, [3; 8], String::new()));
    let garbage = DispatchEvent::Datagram(vec![254, 9, 9]);
    let action = dispatch(&mut state, garbage, "t".to_string());
    assert!(matches!(action, DispatchAction::Wait));
    assert_eq!(state.key_states, 0b01);
    assert_eq!(state.abs_states, [3; 8]);
}

#[test]
fn dispatch_valid_datagram_emits() {
    let mut state = DeviceState::new();
    let packet = InputPacket::new(0b01, [0; 8], String::new());
    let bytes = serialize::<InputPacket>(packet).unwrap();
    let action = dispatch(&mut state, DispatchEvent::Datagram(bytes), "t".to_string());
    match action {
        DispatchAction::Emit(events) => {
            assert_eq!(events.len(), 10);
            assert_eq!(events[0], key(0x133, 1));
        }
        other => panic!("expected an emission batch, got {:?}", other),
    }
    assert_eq!(state.key_states, 0b01);
}

#[test]
fn dispatch_force_feedback_sends_haptic_packet() {
    let mut state = DeviceState::new();
    let strength: f32 = 0.5;
    let event = DispatchEvent::Haptic {
        event_type: EV_FORCEFEEDBACK,
        strength_bits: strength.to_bits(),
    };
    let action = dispatch(&mut state, event, "now".to_string());
    match action {
        DispatchAction::Send(bytes) => {
            let (bits, duration) = haptic_playback(&bytes).unwrap();
            assert_eq!(f32::from_bits(bits), 0.5);
            assert_eq!(duration, 1000);
            let packet = get_haptic_packet(&bytes).unwrap();
            assert_eq!(packet.timestamp, "now");
        }
        other => panic!("expected a send action, got {:?}", other),
    }
}

#[test]
fn dispatch_other_device_events_are_ignored() {
    let mut state = DeviceState::new();
    let event = DispatchEvent::Haptic { event_type: EV_KEY, strength_bits: 1 };
    let action = dispatch(&mut state, event, String::new());
    assert!(matches!(action, DispatchAction::Wait));
}

#[test]
fn get_input_packet_decodes_oversized_buffer() {
    let packet = InputPacket::new(7, [1; 8], "t".to_string());
    let mut buf = serialize::<InputPacket>(packet).unwrap();
    buf.resize(512, 0);
    let decoded = get_input_packet(&buf).unwrap();
    assert_eq!(decoded.key_states, 7);
    assert!(get_input_packet(&buf[..3]).is_none());
}

#[test]
fn haptic_playback_rejects_garbage() {
    assert!(haptic_playback(&[1, 2]).is_none());
}

#[test]
fn tables_match_device_event_codes() {
    assert_eq!(EV_KEY, EventType::KEY.0);
    assert_eq!(EV_ABSOLUTE, EventType::ABSOLUTE.0);
    assert_eq!(EV_SYNCHRONIZATION, EventType::SYNCHRONIZATION.0);
    assert_eq!(EV_FORCEFEEDBACK, EventType::FORCEFEEDBACK.0);
    assert_eq!(SYN_REPORT, SynchronizationCode::SYN_REPORT.0);

    let expected_keys = [
        KeyCode::BTN_NORTH,
        KeyCode::BTN_SOUTH,
        KeyCode::BTN_EAST,
        KeyCode::BTN_WEST,
        KeyCode::BTN_THUMBL,
        KeyCode::BTN_THUMBR,
        KeyCode::BTN_TL,
        KeyCode::BTN_TR,
        KeyCode::BTN_START,
        KeyCode::BTN_SELECT,
        KeyCode::BTN_TRIGGER_HAPPY1,
        KeyCode::BTN_TRIGGER_HAPPY2,
        KeyCode::BTN_TRIGGER_HAPPY3,
        KeyCode::BTN_TRIGGER_HAPPY4,
    ];
    for (i, k) in expected_keys.iter().enumerate() {
        assert_eq!(out_key(i), k.0);
    }

    let expected_axes = [
        AbsoluteAxisCode::ABS_X,
        AbsoluteAxisCode::ABS_Y,
        AbsoluteAxisCode::ABS_Z,
        AbsoluteAxisCode::ABS_RX,
        AbsoluteAxisCode::ABS_RY,
        AbsoluteAxisCode::ABS_RZ,
        AbsoluteAxisCode::ABS_HAT0X,
        AbsoluteAxisCode::ABS_HAT0Y,
    ];
    for (i, a) in expected_axes.iter().enumerate() {
        assert_eq!(out_axis(i), a.0);
    }
}
