use input_logger::event::{
    dispatch, FatalError, InputEvent, Notification, TimedEvent, MAX_UTC_SECONDS,
};
use input_logger::keys::{key_to_char, Key};
use input_logger::logger::{InputLogger, DEFAULT_THRESHOLD};
use input_logger::modifiers::ModifierState;

fn event(ts: u64) -> TimedEvent {
    TimedEvent::new(ts, InputEvent::KeyPress("KeyA".to_string()))
}

#[test]
fn letter_case_follows_shift_xor_caps() {
    assert_eq!(key_to_char(&Key::KeyA, false, false), Some("a".to_string()));
    assert_eq!(key_to_char(&Key::KeyA, true, false), Some("A".to_string()));
    assert_eq!(key_to_char(&Key::KeyA, false, true), Some("A".to_string()));
    assert_eq!(key_to_char(&Key::KeyA, true, true), Some("a".to_string()));
    assert_eq!(key_to_char(&Key::KeyZ, false, true), Some("Z".to_string()));
    assert_eq!(key_to_char(&Key::KeyM, false, false), Some("m".to_string()));
}

#[test]
fn digits_follow_the_shift_table() {
    let keys = [
        Key::Num1, Key::Num2, Key::Num3, Key::Num4, Key::Num5,
        Key::Num6, Key::Num7, Key::Num8, Key::Num9, Key::Num0,
    ];
    let plain = ["1", "2", "3", "4", "5", "6", "7", "8", "9", "0"];
    let shifted = ["!", "@", "#", "$", "%", "^", "&", "*", "(", ")"];
    for i in 0..10 {
        assert_eq!(key_to_char(&keys[i], false, false), Some(plain[i].to_string()));
        assert_eq!(key_to_char(&keys[i], false, true), Some(plain[i].to_string()));
        assert_eq!(key_to_char(&keys[i], true, false), Some(shifted[i].to_string()));
        assert_eq!(key_to_char(&keys[i], true, true), Some(shifted[i].to_string()));
    }
}

#[test]
fn whitespace_keys_resolve() {
    assert_eq!(key_to_char(&Key::Space, true, false), Some(" ".to_string()));
    assert_eq!(key_to_char(&Key::Return, false, false), Some("\n".to_string()));
    assert_eq!(key_to_char(&Key::Tab, false, true), Some("\t".to_string()));
}

#[test]
fn unmapped_keys_resolve_to_nothing() {
    assert_eq!(key_to_char(&Key::ShiftLeft, false, false), None);
    assert_eq!(key_to_char(&Key::CapsLock, true, true), None);
    assert_eq!(key_to_char(&Key::Other("F1".to_string()), true, false), None);
}

#[test]
fn key_names() {
    assert_eq!(Key::KeyA.name(), "KeyA");
    assert_eq!(Key::Num0.name(), "Num0");
    assert_eq!(Key::ShiftRight.name(), "ShiftRight");
    assert_eq!(Key::Other("Unknown(42)".to_string()).name(), "Unknown(42)");
}

#[test]
fn modifier_transitions() {
    let mut m = ModifierState::new();
    m.on_key_transition(&Key::ShiftLeft, true);
    assert!(m.shift_held);
    m.on_key_transition(&Key::KeyA, true);
    assert!(m.shift_held);
    m.on_key_transition(&Key::ShiftRight, false);
    assert!(!m.shift_held);
    m.on_key_transition(&Key::CapsLock, true);
    m.on_key_transition(&Key::CapsLock, false);
    assert!(m.snapshot().caps_toggled);
    m.on_key_transition(&Key::CapsLock, true);
    m.on_key_transition(&Key::CapsLock, true);
    m.on_key_transition(&Key::CapsLock, true);
    assert_eq!(m.snapshot(), ModifierState { shift_held: false, caps_toggled: false });
}

#[test]
fn char_input_for_a_with_and_without_shift() {
    let mut m = ModifierState::new();
    let events = dispatch(&mut m, &Notification::KeyPress(Key::KeyA));
    assert_eq!(events[0], InputEvent::CharInput("a".to_string()));
    let mut m = ModifierState { shift_held: true, caps_toggled: false };
    let events = dispatch(&mut m, &Notification::KeyPress(Key::KeyA));
    assert_eq!(events[0], InputEvent::CharInput("A".to_string()));
}

#[test]
fn shift_a_scenario_buffers_four_events() {
    let mut m = ModifierState::new();
    let mut logger = InputLogger::with_threshold(100);
    let mut after_key_a = Vec::new();
    let notifications = [
        Notification::KeyPress(Key::ShiftLeft),
        Notification::KeyPress(Key::KeyA),
        Notification::KeyRelease(Key::ShiftLeft),
    ];
    for (i, n) in notifications.iter().enumerate() {
        let events = dispatch(&mut m, n);
        if i == 1 {
            after_key_a = events.clone();
        }
        for e in events {
            assert!(!logger.log_event(TimedEvent::new(i as u64, e)));
        }
    }
    assert_eq!(
        after_key_a,
        vec![InputEvent::CharInput("A".to_string()), InputEvent::KeyPress("KeyA".to_string())]
    );
    assert_eq!(logger.len(), 4);
    let logged: Vec<InputEvent> = logger.events().iter().map(|e| e.event.clone()).collect();
    assert_eq!(
        logged,
        vec![
            InputEvent::KeyPress("ShiftLeft".to_string()),
            InputEvent::CharInput("A".to_string()),
            InputEvent::KeyPress("KeyA".to_string()),
            InputEvent::KeyRelease("ShiftLeft".to_string()),
        ]
    );
    assert!(!m.shift_held);
}

#[test]
fn pointer_notifications_give_one_event() {
    let mut m = ModifierState::new();
    let x = 10.5f64.to_bits();
    let y = 20.0f64.to_bits();
    assert_eq!(
        dispatch(&mut m, &Notification::MouseMove { x, y }),
        vec![InputEvent::MouseMove { x, y }]
    );
    assert_eq!(
        dispatch(&mut m, &Notification::Wheel { delta_x: 0, delta_y: -1 }),
        vec![InputEvent::Wheel { delta_x: 0, delta_y: -1 }]
    );
    assert_eq!(
        dispatch(&mut m, &Notification::ButtonPress("Left".to_string())),
        vec![InputEvent::ButtonPress("Left".to_string())]
    );
    assert_eq!(
        dispatch(&mut m, &Notification::ButtonRelease("Right".to_string())),
        vec![InputEvent::ButtonRelease("Right".to_string())]
    );
    assert_eq!(m, ModifierState::new());
}

#[test]
fn key_release_gives_no_char_input() {
    let mut m = ModifierState::new();
    assert_eq!(
        dispatch(&mut m, &Notification::KeyRelease(Key::KeyB)),
        vec![InputEvent::KeyRelease("KeyB".to_string())]
    );
}

#[test]
fn threshold_append_flushes_once() {
    let mut logger = InputLogger::with_threshold(3);
    let due: Vec<bool> = (0..3).map(|i| logger.log_event(event(i))).collect();
    assert_eq!(due, vec![false, false, true]);
    assert_eq!(logger.render_pending().unwrap().len(), 3);
    logger.finish_flush(true);
    assert_eq!(logger.len(), 0);
}

#[test]
fn buffer_length_is_appended_count_mod_threshold() {
    let mut logger = InputLogger::with_threshold(3);
    let mut flushes = 0;
    for i in 0..7 {
        if logger.log_event(event(i)) {
            flushes += 1;
            logger.finish_flush(true);
        }
    }
    assert_eq!(flushes, 2);
    assert_eq!(logger.len(), 1);
}

#[test]
fn failed_flush_keeps_events() {
    let mut logger = InputLogger::with_threshold(2);
    assert!(!logger.log_event(event(1)));
    assert!(logger.log_event(event(2)));
    logger.finish_flush(false);
    assert_eq!(logger.len(), 2);
    assert!(logger.log_event(event(3)));
    assert_eq!(logger.events()[0], event(1));
    logger.finish_flush(true);
    assert_eq!(logger.len(), 0);
}

#[test]
fn flushing_an_empty_buffer_writes_nothing() {
    let mut logger = InputLogger::new();
    assert_eq!(logger.threshold_of(), DEFAULT_THRESHOLD);
    assert_eq!(logger.render_pending(), Ok(Vec::new()));
    logger.finish_flush(false);
    assert_eq!(logger.len(), 0);
    logger.finish_flush(true);
    assert_eq!(logger.len(), 0);
}

#[test]
fn split_timestamp_exact() {
    assert_eq!(event(1_733_616_000_123).split_timestamp(), (1_733_616_000, 123_000_000));
    assert_eq!(event(999).split_timestamp(), (0, 999_000_000));
}

#[test]
fn timestamp_renders_milliseconds_and_offset() {
    let text = event(1_500).format_timestamp().unwrap();
    assert_eq!(text.len(), "1970-01-01 00:00:01.500 +00:00".len());
    assert_eq!(&text[19..24], ".500 ");
    assert!(text.as_bytes()[24] == b'+' || text.as_bytes()[24] == b'-');
    assert_eq!(&text[27..28], ":");
}

#[test]
fn timestamp_past_range_is_fatal() {
    let last = MAX_UTC_SECONDS as u64 * 1000 + 999;
    assert!(event(last - 86_400_000).format_timestamp().is_ok());
    assert!(event(last).format_timestamp().is_ok());
    assert_eq!(event(last + 1).format_timestamp(), Err(FatalError::TimestampOutOfRange));
    assert_eq!(event(u64::MAX).format_timestamp(), Err(FatalError::TimestampOutOfRange));
    let mut logger = InputLogger::new();
    logger.log_event(event(0));
    logger.log_event(event(u64::MAX));
    assert_eq!(logger.render_pending(), Err(FatalError::TimestampOutOfRange));
}

#[test]
fn buffer_keeps_the_latest_events() {
    let mut logger = InputLogger::with_threshold(3);
    for i in 0..8 {
        if logger.log_event(event(i)) {
            assert_eq!(logger.len(), 3);
            logger.finish_flush(true);
        }
    }
    assert_eq!(logger.events().clone(), vec![event(6), event(7)]);
}

#[test]
fn rendered_lines_follow_their_events() {
    let mut logger = InputLogger::new();
    logger.log_event(event(1_733_616_000_007));
    logger.log_event(event(250));
    let lines = logger.render_pending().unwrap();
    assert_eq!(lines.len(), 2);
    assert_eq!(&lines[0][19..24], ".007 ");
    assert_eq!(&lines[1][19..24], ".250 ");
    for line in &lines {
        let b = line.as_bytes();
        assert_eq!(b.len(), 30);
        assert_eq!((b[4], b[7], b[10], b[13], b[16]), (b'-', b'-', b' ', b':', b':'));
    }
}

#[test]
fn shift_and_caps_cancel_in_dispatch() {
    let mut m = ModifierState::new();
    dispatch(&mut m, &Notification::KeyPress(Key::CapsLock));
    dispatch(&mut m, &Notification::KeyRelease(Key::CapsLock));
    dispatch(&mut m, &Notification::KeyPress(Key::ShiftRight));
    let events = dispatch(&mut m, &Notification::KeyPress(Key::KeyA));
    assert_eq!(events[0], InputEvent::CharInput("a".to_string()));
    dispatch(&mut m, &Notification::KeyRelease(Key::ShiftRight));
    let events = dispatch(&mut m, &Notification::KeyPress(Key::KeyA));
    assert_eq!(events[0], InputEvent::CharInput("A".to_string()));
}
