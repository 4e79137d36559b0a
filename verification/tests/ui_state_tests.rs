use bili_live_chat::message::{Message, MessageKind};
use bili_live_chat::ui_state::{InputMode, Key, UiAction, UiState};

fn chat(i: u64) -> Message {
    Message::new(MessageKind::DANMU_MSG, format!("m{}", i), "a".to_owned(), i)
}

#[test]
fn tabs_cycle_through_three() {
    let mut s = UiState::new();
    assert_eq!(s.tab_selected, 0);
    s.tab_next();
    assert_eq!(s.tab_selected, 1);
    s.tab_next();
    assert_eq!(s.tab_selected, 2);
    s.tab_next();
    assert_eq!(s.tab_selected, 0);
}

#[test]
fn keys_drive_the_input_modes() {
    let mut s = UiState::new();
    assert!(matches!(s.on_key(Key::Char('x')), UiAction::Idle));
    assert_eq!(s.input_mode, InputMode::Normal);
    assert!(matches!(s.on_key(Key::Char('e')), UiAction::Idle));
    assert_eq!(s.input_mode, InputMode::Editing);
    s.on_key(Key::Char('h'));
    s.on_key(Key::Char('i'));
    s.on_key(Key::Char('!'));
    s.on_key(Key::Backspace);
    assert_eq!(s.input_buf, vec!['h', 'i']);
    let action = s.on_key(Key::Enter);
    match action {
        UiAction::Send(text) => assert_eq!(text, vec!['h', 'i']),
        _ => panic!("expected a send action"),
    }
    assert!(s.input_buf.is_empty());
    // enter with an empty line sends nothing
    assert!(matches!(s.on_key(Key::Enter), UiAction::Idle));
    assert!(matches!(s.on_key(Key::Esc), UiAction::Idle));
    assert_eq!(s.input_mode, InputMode::Normal);
    assert!(matches!(s.on_key(Key::Char('q')), UiAction::Quit));
}

#[test]
fn messages_route_by_kind() {
    let mut s = UiState::new();
    s.push_message(chat(1));
    s.push_message(Message::new(MessageKind::SEND_GIFT, "g".to_owned(), "b".to_owned(), 2));
    s.push_message(Message::new(MessageKind::NOTICE_MSG, "n".to_owned(), "c".to_owned(), 3));
    assert_eq!(s.chat_history.len(), 1);
    assert_eq!(s.gift_history.len(), 1);
    assert_eq!(s.chat_history[0].content, "m1");
    assert_eq!(s.gift_history[0].content, "g");
}

#[test]
fn histories_are_trimmed_at_the_limit() {
    let mut s = UiState::new();
    for i in 0..99 {
        s.push_message(chat(i));
    }
    s.trim_histories();
    assert_eq!(s.chat_history.len(), 99);
    s.push_message(chat(99));
    s.trim_histories();
    assert_eq!(s.chat_history.len(), 50);
    assert_eq!(s.chat_history[0].content, "m50");
    assert_eq!(s.chat_history[49].content, "m99");
}
