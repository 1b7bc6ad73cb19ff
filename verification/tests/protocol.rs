use remote_feedback::protocol::{
    command_buttons, make_toggle_data, parse_toggle_data, CONTINUE_ACTION, CONTINUE_COMMAND, ENHANCE_ACTION,
    SEND_ACTION, SEND_COMMAND, TOGGLE_PREFIX,
};
use remote_feedback::text::{has_prefix, same_text, text_after};

#[test]
fn toggle_data_is_prefix_and_label() {
    assert_eq!(make_toggle_data("Yes"), "toggle:Yes");
    assert_eq!(make_toggle_data(""), "toggle:");
    assert_eq!(make_toggle_data("选项 一"), "toggle:选项 一");
}

#[test]
fn toggle_data_round_trip() {
    for label in ["Yes", "", "a:b", "toggle:", "选项 一", "✅ done"] {
        assert_eq!(parse_toggle_data(&make_toggle_data(label)), Some(label.to_string()));
    }
}

#[test]
fn other_data_is_no_toggle() {
    assert_eq!(parse_toggle_data("toggle"), None);
    assert_eq!(parse_toggle_data("xtoggle:A"), None);
    assert_eq!(parse_toggle_data(""), None);
    assert_eq!(parse_toggle_data(SEND_ACTION), None);
    assert_eq!(parse_toggle_data(CONTINUE_ACTION), None);
    assert_eq!(parse_toggle_data(ENHANCE_ACTION), None);
}

#[test]
fn markers_are_distinct() {
    let markers = [SEND_ACTION, CONTINUE_ACTION, ENHANCE_ACTION];
    for i in 0..markers.len() {
        assert!(!markers[i].starts_with(TOGGLE_PREFIX));
        for j in 0..markers.len() {
            assert_eq!(markers[i] == markers[j], i == j);
        }
    }
    assert_ne!(SEND_COMMAND, CONTINUE_COMMAND);
}

#[test]
fn same_text_compares_characters() {
    assert!(same_text("", ""));
    assert!(same_text("发送", "发送"));
    assert!(!same_text("a", "A"));
    assert!(!same_text("a", "ab"));
}

#[test]
fn has_prefix_counts_characters() {
    assert!(has_prefix("toggle:x", "toggle:"));
    assert!(has_prefix("x", ""));
    assert!(has_prefix("", ""));
    assert!(has_prefix("发送吧", "发送"));
    assert!(!has_prefix("to", "toggle:"));
    assert!(!has_prefix("", "a"));
    assert!(!has_prefix("é", "e"));
}

#[test]
fn text_after_skips_characters() {
    assert_eq!(text_after("toggle:选项", 7), "选项");
    assert_eq!(text_after("选项:a", 2), ":a");
    assert_eq!(text_after("abc", 0), "abc");
    assert_eq!(text_after("abc", 3), "");
    assert_eq!(text_after("abc", 4), "");
    assert_eq!(text_after("", 0), "");
}

#[test]
fn reply_keyboard_offers_continue_only_when_enabled() {
    assert_eq!(command_buttons(true), vec!["▶️继续".to_string(), "↗️发送".to_string()]);
    assert_eq!(command_buttons(false), vec!["↗️发送".to_string()]);
}
