use remote_feedback::engine::{apply, handle_batch, handle_update, Effect, Pause, TelegramEvent};
use remote_feedback::keyboard::{Button, KeyboardLayout};
use remote_feedback::router::Routed;
use remote_feedback::session::Session;
use remote_feedback::update::{IncomingCallback, IncomingMessage, IncomingUpdate, UpdateKind};

fn labels(items: &[&str]) -> Vec<String> {
    items.iter().map(|s| s.to_string()).collect()
}

fn press(id: u32, message_id: Option<i32>, data: &str) -> IncomingUpdate {
    IncomingUpdate {
        id,
        kind: UpdateKind::CallbackQuery(IncomingCallback { message_id, data: Some(data.to_string()) }),
    }
}

fn text(id: u32, message_id: i32, body: &str) -> IncomingUpdate {
    IncomingUpdate {
        id,
        kind: UpdateKind::Message(IncomingMessage {
            id: message_id,
            chat_id: 100,
            chat_title: None,
            username: None,
            text: Some(body.to_string()),
            keyboard: None,
        }),
    }
}

fn button(text: &str, callback_data: &str) -> Button {
    Button { text: text.to_string(), callback_data: callback_data.to_string() }
}

#[test]
fn toggle_without_known_owner_only_reports() {
    let mut session = Session::new(labels(&["Yes", "No"]));
    let effects = apply(&mut session, Routed::OptionToggled("Yes".to_string()));
    assert_eq!(
        effects,
        vec![Effect::Emit(TelegramEvent::OptionToggled { option: "Yes".to_string(), selected: true })]
    );
    assert!(session.is_selected("Yes"));
}

#[test]
fn toggle_with_known_owner_refreshes_the_keyboard() {
    let mut session = Session::new(labels(&["Yes", "No"]));
    session.set_keyboard_owner(7);
    let effects = apply(&mut session, Routed::OptionToggled("No".to_string()));
    assert_eq!(
        effects,
        vec![
            Effect::Emit(TelegramEvent::OptionToggled { option: "No".to_string(), selected: true }),
            Effect::EditKeyboard {
                message_id: 7,
                layout: KeyboardLayout {
                    rows: vec![vec![button("Yes", "toggle:Yes"), button("✅ No", "toggle:No")]],
                },
            },
        ]
    );
    let effects = apply(&mut session, Routed::OptionToggled("No".to_string()));
    assert_eq!(
        effects,
        vec![
            Effect::Emit(TelegramEvent::OptionToggled { option: "No".to_string(), selected: false }),
            Effect::EditKeyboard {
                message_id: 7,
                layout: KeyboardLayout {
                    rows: vec![vec![button("Yes", "toggle:Yes"), button("No", "toggle:No")]],
                },
            },
        ]
    );
}

#[test]
fn toggle_of_unknown_label_is_silent() {
    let mut session = Session::new(labels(&["Yes"]));
    session.set_keyboard_owner(7);
    let effects = apply(&mut session, Routed::OptionToggled("Maybe".to_string()));
    assert!(effects.is_empty());
    assert!(session.selected_options().is_empty());
}

#[test]
fn toggle_without_options_is_silent() {
    let mut session = Session::new(Vec::new());
    let effects = apply(&mut session, Routed::OptionToggled("Yes".to_string()));
    assert!(effects.is_empty());
    assert!(session.selected_options().is_empty());
}

#[test]
fn enhance_acknowledges_and_hands_over_the_prompt() {
    let mut session = Session::new(Vec::new());
    session.record_user_input("make it better");
    let effects = apply(&mut session, Routed::EnhancePressed);
    assert_eq!(effects.len(), 2);
    assert_eq!(
        effects[0],
        Effect::SendMessage("✨ 增强请求已发送\n\n📝 原文：make it better".to_string())
    );
    match &effects[1] {
        Effect::Emit(TelegramEvent::EnhancePressed { text }) => {
            assert!(text.ends_with("Here is my original instruction:\n\n《make it better》"));
        }
        other => panic!("unexpected effect {:?}", other),
    }
    assert_eq!(session.user_input(), "make it better");
}

#[test]
fn continue_sends_the_fixed_feedback() {
    let mut session = Session::new(labels(&["A"]));
    session.toggle_option("A");
    session.record_user_input("typed");
    let effects = apply(&mut session, Routed::ContinuePressed);
    assert_eq!(
        effects,
        vec![
            Effect::SendMessage("✅ 继续操作已确认".to_string()),
            Effect::Emit(TelegramEvent::ContinuePressed),
        ]
    );
    assert!(session.is_selected("A"));
    assert_eq!(session.user_input(), "typed");
}

#[test]
fn send_reports_selection_and_text() {
    let mut session = Session::new(labels(&["A", "B"]));
    session.toggle_option("B");
    session.record_user_input("typed");
    let effects = apply(&mut session, Routed::SendPressed);
    assert_eq!(
        effects,
        vec![
            Effect::SendMessage("✅ 发送成功\n\n☑️ 选中的选项：\n• B\n\n📝 补充文本：\ntyped".to_string()),
            Effect::Emit(TelegramEvent::SendPressed),
        ]
    );
}

#[test]
fn send_does_not_end_the_session() {
    let mut session = Session::new(labels(&["A"]));
    let _ = apply(&mut session, Routed::SendPressed);
    let effects = apply(&mut session, Routed::TextUpdated("more".to_string()));
    assert_eq!(effects, vec![Effect::Emit(TelegramEvent::TextUpdated { text: "more".to_string() })]);
    assert_eq!(session.user_input(), "more");
}

#[test]
fn text_is_recorded_and_reported() {
    let mut session = Session::new(Vec::new());
    let effects = apply(&mut session, Routed::TextUpdated("hello".to_string()));
    assert_eq!(effects, vec![Effect::Emit(TelegramEvent::TextUpdated { text: "hello".to_string() })]);
    assert_eq!(session.user_input(), "hello");
}

#[test]
fn keyboard_owner_message_sets_the_owner_once() {
    let mut session = Session::new(labels(&["A"]));
    assert!(apply(&mut session, Routed::KeyboardOwnerMessage(11)).is_empty());
    assert_eq!(session.options_message_id(), Some(11));
    assert!(apply(&mut session, Routed::KeyboardOwnerMessage(12)).is_empty());
    assert_eq!(session.options_message_id(), Some(11));
}

#[test]
fn ignorable_changes_nothing() {
    let mut session = Session::new(labels(&["A"]));
    assert!(apply(&mut session, Routed::Ignorable).is_empty());
    assert_eq!(session.offset(), 0);
}

#[test]
fn update_moves_the_offset_even_if_ignorable() {
    let mut session = Session::new(Vec::new());
    let effects = handle_update(&mut session, &IncomingUpdate { id: 8, kind: UpdateKind::Other });
    assert!(effects.is_empty());
    assert_eq!(session.offset(), 9);
}

#[test]
fn button_press_records_its_message_as_owner() {
    let mut session = Session::new(labels(&["A", "B"]));
    let effects = handle_update(&mut session, &press(3, Some(21), "toggle:A"));
    assert_eq!(session.options_message_id(), Some(21));
    assert_eq!(
        effects,
        vec![
            Effect::Emit(TelegramEvent::OptionToggled { option: "A".to_string(), selected: true }),
            Effect::EditKeyboard {
                message_id: 21,
                layout: KeyboardLayout {
                    rows: vec![vec![button("✅ A", "toggle:A"), button("B", "toggle:B")]],
                },
            },
        ]
    );
    let _ = handle_update(&mut session, &press(4, Some(22), "action:send"));
    assert_eq!(session.options_message_id(), Some(21));
}

#[test]
fn button_press_without_options_records_no_owner() {
    let mut session = Session::new(Vec::new());
    let effects = handle_update(&mut session, &press(3, Some(21), "action:continue"));
    assert_eq!(session.options_message_id(), None);
    assert_eq!(effects.len(), 2);
}

#[test]
fn batch_is_handled_in_order() {
    let mut session = Session::new(labels(&["A"]));
    let effects = handle_batch(
        &mut session,
        &[text(5, 1, "one"), press(6, None, "toggle:A"), text(7, 2, "two"), press(8, None, "action:send")],
    );
    assert_eq!(
        effects,
        vec![
            Effect::Emit(TelegramEvent::TextUpdated { text: "one".to_string() }),
            Effect::Emit(TelegramEvent::OptionToggled { option: "A".to_string(), selected: true }),
            Effect::Emit(TelegramEvent::TextUpdated { text: "two".to_string() }),
            Effect::SendMessage("✅ 发送成功\n\n☑️ 选中的选项：\n• A\n\n📝 补充文本：\ntwo".to_string()),
            Effect::Emit(TelegramEvent::SendPressed),
        ]
    );
    assert_eq!(session.offset(), 9);
}

#[test]
fn empty_batch_changes_nothing() {
    let mut session = Session::new(labels(&["A"]));
    session.advance_past(4);
    assert!(handle_batch(&mut session, &[]).is_empty());
    assert_eq!(session.offset(), 5);
}

#[test]
fn duplicate_toggle_flips_twice() {
    let mut session = Session::new(labels(&["A"]));
    let _ = handle_batch(&mut session, &[press(5, None, "toggle:A"), press(5, None, "toggle:A")]);
    assert!(!session.is_selected("A"));
    assert_eq!(session.offset(), 6);
}

#[test]
fn pause_lengths() {
    assert_eq!(Pause::Courtesy.millis(), 1000);
    assert_eq!(Pause::Backoff.millis(), 5000);
}
