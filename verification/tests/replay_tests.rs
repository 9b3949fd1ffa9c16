use re_fast::recording::{EventType, MouseButton, RecordedEvent};
use re_fast::replay::{
    confirm_injection, scheduled_time_ms, wheel_payload, ReplayError, ReplayState, SyntheticInput,
};
use windows_sys::Win32::UI::Input::KeyboardAndMouse as native;

fn mouse_move(x: i32, y: i32, t: u64) -> RecordedEvent {
    RecordedEvent { event_type: EventType::MouseMove, x: Some(x), y: Some(y), time_offset_ms: t }
}

fn plain(event_type: EventType, t: u64) -> RecordedEvent {
    RecordedEvent { event_type, x: None, y: None, time_offset_ms: t }
}

const SCENARIO: &str = r#"{
  "events": [
    {"event_type": "MouseMove", "x": 100, "y": 200, "time_offset_ms": 0},
    {"event_type": {"MouseDown": {"button": "Left"}}, "x": null, "y": null, "time_offset_ms": 50},
    {"event_type": {"MouseUp": {"button": "Left"}}, "time_offset_ms": 120},
    {"event_type": {"KeyDown": {"vk_code": 65}}, "x": null, "y": null, "time_offset_ms": 200}
  ],
  "duration_ms": 200,
  "created_at": "2024-01-01T00:00:00Z"
}"#;

fn scenario_events() -> Vec<RecordedEvent> {
    vec![
        mouse_move(100, 200, 0),
        plain(EventType::MouseDown { button: MouseButton::Left }, 50),
        plain(EventType::MouseUp { button: MouseButton::Left }, 120),
        plain(EventType::KeyDown { vk_code: 65 }, 200),
    ]
}

#[test]
fn input_flags_are_the_native_ones() {
    assert_eq!(re_fast::replay::MOUSEEVENTF_LEFTDOWN, native::MOUSEEVENTF_LEFTDOWN);
    assert_eq!(re_fast::replay::MOUSEEVENTF_LEFTUP, native::MOUSEEVENTF_LEFTUP);
    assert_eq!(re_fast::replay::MOUSEEVENTF_RIGHTDOWN, native::MOUSEEVENTF_RIGHTDOWN);
    assert_eq!(re_fast::replay::MOUSEEVENTF_RIGHTUP, native::MOUSEEVENTF_RIGHTUP);
    assert_eq!(re_fast::replay::MOUSEEVENTF_MIDDLEDOWN, native::MOUSEEVENTF_MIDDLEDOWN);
    assert_eq!(re_fast::replay::MOUSEEVENTF_MIDDLEUP, native::MOUSEEVENTF_MIDDLEUP);
    assert_eq!(re_fast::replay::MOUSEEVENTF_WHEEL, native::MOUSEEVENTF_WHEEL);
    assert_eq!(re_fast::replay::KEYEVENTF_KEYUP, native::KEYEVENTF_KEYUP);
}

#[test]
fn new_replay_is_empty_at_normal_speed() {
    let state = ReplayState::new();
    assert!(!state.is_playing);
    assert!(state.current_events.is_empty());
    assert_eq!(state.current_index, 0);
    assert_eq!(state.speed_multiplier, 1000);
    assert_eq!(state.get_progress(), 0);
}

#[test]
fn load_recording_reads_the_events_in_order() {
    let mut state = ReplayState::new();
    state.current_index = 0;
    assert_eq!(state.load_recording(SCENARIO), Ok(()));
    assert_eq!(state.current_events, scenario_events());
    assert_eq!(state.current_index, 0);
}

#[test]
fn load_recording_replaces_what_was_loaded() {
    let mut state = ReplayState::new();
    state.load_recording(SCENARIO).unwrap();
    state.get_next_event();
    assert_eq!(state.load_recording(r#"{"events": []}"#), Ok(()));
    assert!(state.current_events.is_empty());
    assert_eq!(state.current_index, 0);
}

#[test]
fn document_without_events_is_malformed_and_changes_nothing() {
    let mut state = ReplayState::new();
    state.load_recording(SCENARIO).unwrap();
    state.get_next_event();
    let outcome = state.load_recording(r#"{"duration_ms": 5, "created_at": 1}"#);
    assert_eq!(outcome, Err(ReplayError::MalformedDocument));
    assert_eq!(state.current_events, scenario_events());
    assert_eq!(state.current_index, 1);
}

#[test]
fn malformed_documents_are_turned_away() {
    let documents = [
        "",
        "not json",
        "[]",
        r#"{"events": 5}"#,
        r#"{"events": {"0": 1}}"#,
        r#"{"events": [5]}"#,
        r#"{"events": [{"x": 1, "y": 2, "time_offset_ms": 0}]}"#,
        r#"{"events": [{"event_type": "MouseMove", "x": 1, "y": 2}]}"#,
        r#"{"events": [{"event_type": "MouseMove", "x": 1, "y": 2, "time_offset_ms": -1}]}"#,
        r#"{"events": [{"event_type": "MouseMove", "x": 1, "y": 2, "time_offset_ms": 1.5}]}"#,
        r#"{"events": [{"event_type": "MouseMove", "x": "1", "y": 2, "time_offset_ms": 0}]}"#,
        r#"{"events": [{"event_type": "MouseMove", "x": 2147483648, "y": 2, "time_offset_ms": 0}]}"#,
        r#"{"events": [{"event_type": "Teleport", "time_offset_ms": 0}]}"#,
        r#"{"events": [{"event_type": {"MouseDown": {"button": "Fourth"}}, "time_offset_ms": 0}]}"#,
        r#"{"events": [{"event_type": {"MouseDown": {}}, "time_offset_ms": 0}]}"#,
        r#"{"events": [{"event_type": {"MouseWheel": {"delta": 40000}}, "time_offset_ms": 0}]}"#,
        r#"{"events": [{"event_type": {"KeyDown": {"vk_code": -1}}, "time_offset_ms": 0}]}"#,
        r#"{"events": [{"event_type": {"KeyDown": {"vk_code": 65}, "KeyUp": {"vk_code": 65}}, "time_offset_ms": 0}]}"#,
    ];
    for document in documents {
        let mut state = ReplayState::new();
        assert_eq!(state.load_recording(document), Err(ReplayError::MalformedDocument), "{}", document);
        assert!(state.current_events.is_empty());
    }
}

#[test]
fn every_kind_of_event_is_decoded() {
    let mut state = ReplayState::new();
    let document = r#"{"events": [
        {"event_type": {"MouseDown": {"button": "Right"}}, "x": -5, "y": 7, "time_offset_ms": 1},
        {"event_type": {"MouseUp": {"button": "Middle"}}, "x": 0, "y": 0, "time_offset_ms": 2},
        {"event_type": {"MouseWheel": {"delta": -120}}, "x": 1, "y": 1, "time_offset_ms": 3},
        {"event_type": {"KeyUp": {"vk_code": 300}}, "time_offset_ms": 18446744073709551615}
    ]}"#;
    assert_eq!(state.load_recording(document), Ok(()));
    assert_eq!(
        state.current_events,
        vec![
            RecordedEvent { event_type: EventType::MouseDown { button: MouseButton::Right }, x: Some(-5), y: Some(7), time_offset_ms: 1 },
            RecordedEvent { event_type: EventType::MouseUp { button: MouseButton::Middle }, x: Some(0), y: Some(0), time_offset_ms: 2 },
            RecordedEvent { event_type: EventType::MouseWheel { delta: -120 }, x: Some(1), y: Some(1), time_offset_ms: 3 },
            RecordedEvent { event_type: EventType::KeyUp { vk_code: 300 }, x: None, y: None, time_offset_ms: u64::MAX },
        ]
    );
}

#[test]
fn next_event_hands_out_all_events_then_none() {
    let mut state = ReplayState::new();
    state.load_recording(SCENARIO).unwrap();
    assert!(state.start(1000));
    assert_eq!(state.get_progress(), 0);
    let expected = scenario_events();
    let percents = [25, 50, 75, 100];
    for k in 0..4 {
        assert_eq!(state.get_next_event(), Some(expected[k]));
        assert_eq!(state.get_progress(), percents[k]);
    }
    assert_eq!(state.get_next_event(), None);
    assert_eq!(state.get_next_event(), None);
    assert_eq!(state.get_progress(), 100);
    assert_eq!(state.current_index, 4);
}

#[test]
fn progress_is_a_whole_percentage() {
    let mut state = ReplayState::new();
    state.current_events = vec![plain(EventType::MouseMove, 0); 3];
    state.get_next_event();
    assert_eq!(state.get_progress(), 33);
    state.get_next_event();
    assert_eq!(state.get_progress(), 66);
}

#[test]
fn start_and_stop_reset_the_cursor() {
    let mut state = ReplayState::new();
    state.load_recording(SCENARIO).unwrap();
    state.get_next_event();
    assert!(state.start(2000));
    assert!(state.is_playing);
    assert_eq!(state.current_index, 0);
    assert_eq!(state.speed_multiplier, 2000);
    state.get_next_event();
    state.stop();
    assert!(!state.is_playing);
    assert_eq!(state.current_index, 0);
    assert_eq!(state.current_events.len(), 4);
}

#[test]
fn start_turns_a_speed_of_zero_away() {
    let mut state = ReplayState::new();
    state.load_recording(SCENARIO).unwrap();
    state.get_next_event();
    assert!(!state.start(0));
    assert!(!state.is_playing);
    assert_eq!(state.current_index, 1);
    assert_eq!(state.speed_multiplier, 1000);
}

#[test]
fn key_code_300_is_invalid() {
    let down = plain(EventType::KeyDown { vk_code: 300 }, 0);
    let up = plain(EventType::KeyUp { vk_code: 256 }, 0);
    assert_eq!(ReplayState::execute_event(&down), Err(ReplayError::InvalidKeyCode));
    assert_eq!(ReplayState::execute_event(&up), Err(ReplayError::InvalidKeyCode));
}

#[test]
fn coordinate_40000_is_invalid() {
    assert_eq!(ReplayState::execute_event(&mouse_move(40000, 0, 0)), Err(ReplayError::InvalidCoordinates));
    assert_eq!(ReplayState::execute_event(&mouse_move(0, -32769, 0)), Err(ReplayError::InvalidCoordinates));
    assert_eq!(ReplayState::execute_event(&mouse_move(32768, 0, 0)), Err(ReplayError::InvalidCoordinates));
}

#[test]
fn mouse_move_needs_both_coordinates() {
    let mut event = mouse_move(1, 2, 0);
    event.y = None;
    assert_eq!(ReplayState::execute_event(&event), Err(ReplayError::InvalidCoordinates));
    event.y = Some(2);
    event.x = None;
    assert_eq!(ReplayState::execute_event(&event), Err(ReplayError::InvalidCoordinates));
}

#[test]
fn valid_events_become_input_units() {
    assert_eq!(
        ReplayState::execute_event(&mouse_move(-32768, 32767, 0)),
        Ok(SyntheticInput::CursorPosition { x: -32768, y: 32767 })
    );
    assert_eq!(
        ReplayState::execute_event(&plain(EventType::MouseDown { button: MouseButton::Left }, 0)),
        Ok(SyntheticInput::Mouse { flags: 0x0002, mouse_data: 0 })
    );
    assert_eq!(
        ReplayState::execute_event(&plain(EventType::MouseUp { button: MouseButton::Left }, 0)),
        Ok(SyntheticInput::Mouse { flags: 0x0004, mouse_data: 0 })
    );
    assert_eq!(
        ReplayState::execute_event(&plain(EventType::MouseDown { button: MouseButton::Right }, 0)),
        Ok(SyntheticInput::Mouse { flags: 0x0008, mouse_data: 0 })
    );
    assert_eq!(
        ReplayState::execute_event(&plain(EventType::MouseUp { button: MouseButton::Right }, 0)),
        Ok(SyntheticInput::Mouse { flags: 0x0010, mouse_data: 0 })
    );
    assert_eq!(
        ReplayState::execute_event(&plain(EventType::MouseDown { button: MouseButton::Middle }, 0)),
        Ok(SyntheticInput::Mouse { flags: 0x0020, mouse_data: 0 })
    );
    assert_eq!(
        ReplayState::execute_event(&plain(EventType::MouseUp { button: MouseButton::Middle }, 0)),
        Ok(SyntheticInput::Mouse { flags: 0x0040, mouse_data: 0 })
    );
    assert_eq!(
        ReplayState::execute_event(&plain(EventType::MouseWheel { delta: 120 }, 0)),
        Ok(SyntheticInput::Mouse { flags: 0x0800, mouse_data: 0x0078_0000 })
    );
    assert_eq!(
        ReplayState::execute_event(&plain(EventType::KeyDown { vk_code: 65 }, 0)),
        Ok(SyntheticInput::Keyboard { vk: 65, flags: 0 })
    );
    assert_eq!(
        ReplayState::execute_event(&plain(EventType::KeyUp { vk_code: 255 }, 0)),
        Ok(SyntheticInput::Keyboard { vk: 255, flags: 0x0002 })
    );
}

#[test]
fn wheel_payload_carries_the_delta_in_the_high_word() {
    assert_eq!(wheel_payload(120), 0x0078_0000);
    assert_eq!(wheel_payload(-120), 0xFF88_0000);
    assert_eq!(wheel_payload(0), 0);
    for delta in [i16::MIN, -1, 0, 1, 120, i16::MAX] {
        assert_eq!(re_fast::hooks::wheel_delta(wheel_payload(delta)), delta);
    }
}

#[test]
fn refused_injection_is_a_synthesis_failure() {
    assert_eq!(confirm_injection(0), Err(ReplayError::SynthesisFailed));
    assert_eq!(confirm_injection(1), Ok(()));
}

#[test]
fn replay_at_double_speed_halves_the_times() {
    let mut state = ReplayState::new();
    state.load_recording(SCENARIO).unwrap();
    let speed: f32 = 2.0;
    assert!(state.start((speed * 1000.0) as u32));
    let mut due = Vec::new();
    while let Some(event) = state.get_next_event() {
        due.push(scheduled_time_ms(event.time_offset_ms, state.speed_multiplier));
    }
    assert_eq!(due, vec![0, 25, 60, 100]);
}

#[test]
fn scheduled_time_scales_with_the_speed() {
    assert_eq!(scheduled_time_ms(100, 500), 200);
    assert_eq!(scheduled_time_ms(100, 1000), 100);
    assert_eq!(scheduled_time_ms(100, 3000), 33);
    assert_eq!(scheduled_time_ms(u64::MAX, 1), u64::MAX);
    assert_eq!(scheduled_time_ms(u64::MAX, 1000), u64::MAX);
}
