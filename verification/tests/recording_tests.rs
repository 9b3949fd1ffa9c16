use re_fast::recording::{EventType, MouseButton, RecordedEvent, RecordingState};

fn event(event_type: EventType, time_offset_ms: u64) -> RecordedEvent {
    RecordedEvent { event_type, x: None, y: None, time_offset_ms }
}

#[test]
fn start_then_stop_yields_no_events() {
    let mut state = RecordingState::new();
    state.start(10);
    let captured = state.stop();
    assert!(captured.is_empty());
    assert!(!state.is_recording);
}

#[test]
fn new_state_is_idle() {
    let state = RecordingState::new();
    assert!(!state.is_recording);
    assert_eq!(state.start_instant, None);
    assert!(state.events.is_empty());
}

#[test]
fn add_event_appends_only_while_recording() {
    let mut state = RecordingState::new();
    let first = RecordedEvent { event_type: EventType::MouseMove, x: Some(1), y: Some(2), time_offset_ms: 0 };
    state.add_event(first);
    assert!(state.events.is_empty());
    state.start(0);
    state.add_event(first);
    assert_eq!(state.stop(), vec![first]);
    state.add_event(first);
    assert_eq!(state.events, vec![first]);
}

#[test]
fn second_start_keeps_the_running_session() {
    let mut state = RecordingState::new();
    state.start(100);
    state.add_event(event(EventType::KeyDown { vk_code: 65 }, 5));
    state.start(900);
    assert_eq!(state.start_instant, Some(100));
    assert_eq!(state.events.len(), 1);
}

#[test]
fn start_after_stop_clears_the_old_events() {
    let mut state = RecordingState::new();
    state.start(0);
    state.add_event(event(EventType::KeyDown { vk_code: 65 }, 5));
    state.stop();
    state.start(50);
    assert!(state.events.is_empty());
    assert_eq!(state.start_instant, Some(50));
}

#[test]
fn stop_returns_events_in_order_of_time() {
    let mut state = RecordingState::new();
    state.start(0);
    state.add_event(event(EventType::MouseDown { button: MouseButton::Left }, 50));
    state.add_event(event(EventType::MouseUp { button: MouseButton::Left }, 50));
    state.add_event(event(EventType::KeyUp { vk_code: 13 }, 200));
    let captured = state.stop();
    assert_eq!(captured.len(), 3);
    for pair in captured.windows(2) {
        assert!(pair[0].time_offset_ms <= pair[1].time_offset_ms);
    }
}

#[test]
fn offset_is_time_since_start() {
    let mut state = RecordingState::new();
    state.start(1_000);
    assert_eq!(state.offset_at(1_250), 250);
    assert_eq!(state.last_offset(), 0);
}

#[test]
fn offset_never_falls_behind_the_last_event() {
    let mut state = RecordingState::new();
    state.start(1_000);
    state.add_event(event(EventType::MouseMove, 300));
    assert_eq!(state.last_offset(), 300);
    assert_eq!(state.offset_at(1_100), 300);
    assert_eq!(state.offset_at(900), 300);
    assert_eq!(state.offset_at(1_301), 301);
}

#[test]
fn add_event_appends_whatever_arrives() {
    let mut state = RecordingState::new();
    state.start(0);
    state.add_event(event(EventType::MouseMove, 90));
    state.add_event(event(EventType::MouseMove, 10));
    assert_eq!(state.events.len(), 2);
    assert_eq!(state.events[1].time_offset_ms, 10);
}
