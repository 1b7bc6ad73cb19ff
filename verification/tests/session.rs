use remote_feedback::session::Session;

fn labels(items: &[&str]) -> Vec<String> {
    items.iter().map(|s| s.to_string()).collect()
}

#[test]
fn new_session_is_blank() {
    let session = Session::new(labels(&["Yes", "No"]));
    assert_eq!(session.offset(), 0);
    assert!(session.has_options());
    assert_eq!(session.options_message_id(), None);
    assert_eq!(session.user_input(), "");
    assert_eq!(session.predefined_options().to_vec(), labels(&["Yes", "No"]));
    assert!(session.selected_options().is_empty());
}

#[test]
fn session_without_options_has_none() {
    let session = Session::new(Vec::new());
    assert!(!session.has_options());
    assert!(!session.knows("A"));
}

#[test]
fn toggle_on_then_off() {
    let mut session = Session::new(labels(&["A", "B"]));
    assert!(session.toggle_option("A"));
    assert_eq!(session.selected_options().to_vec(), labels(&["A"]));
    assert!(session.is_selected("A"));
    assert!(!session.toggle_option("A"));
    assert!(session.selected_options().is_empty());
    assert!(!session.is_selected("A"));
}

#[test]
fn toggle_keeps_other_options() {
    let mut session = Session::new(labels(&["A", "B", "C"]));
    assert!(session.toggle_option("B"));
    assert!(session.toggle_option("A"));
    assert!(session.toggle_option("C"));
    assert_eq!(session.selected_options().to_vec(), labels(&["B", "A", "C"]));
    assert!(!session.toggle_option("A"));
    assert_eq!(session.selected_options().to_vec(), labels(&["B", "C"]));
    assert!(session.is_selected("B"));
    assert!(session.is_selected("C"));
    assert!(!session.is_selected("A"));
}

#[test]
fn toggle_of_unknown_label_changes_nothing() {
    let mut session = Session::new(labels(&["A"]));
    assert!(!session.toggle_option("Z"));
    assert!(session.selected_options().is_empty());
    assert!(session.toggle_option("A"));
    assert!(!session.toggle_option("Z"));
    assert_eq!(session.selected_options().to_vec(), labels(&["A"]));
}

#[test]
fn toggle_without_options_changes_nothing() {
    let mut session = Session::new(Vec::new());
    assert!(!session.toggle_option("A"));
    assert!(session.selected_options().is_empty());
}

#[test]
fn toggle_twice_restores_selection() {
    let mut session = Session::new(labels(&["A", "B"]));
    session.toggle_option("B");
    let before: Vec<String> = session.selected_options().to_vec();
    session.toggle_option("A");
    session.toggle_option("A");
    assert_eq!(session.selected_options().to_vec(), before);
    session.toggle_option("B");
    session.toggle_option("B");
    assert_eq!(session.selected_options().to_vec(), before);
}

#[test]
fn user_input_is_overwritten() {
    let mut session = Session::new(Vec::new());
    session.record_user_input("first");
    assert_eq!(session.user_input(), "first");
    session.record_user_input("second");
    assert_eq!(session.user_input(), "second");
    session.record_user_input("");
    assert_eq!(session.user_input(), "");
}

#[test]
fn keyboard_owner_first_write_wins() {
    let mut session = Session::new(labels(&["A"]));
    session.set_keyboard_owner(41);
    assert_eq!(session.options_message_id(), Some(41));
    session.set_keyboard_owner(42);
    assert_eq!(session.options_message_id(), Some(41));
}

#[test]
fn keyboard_owner_needs_options() {
    let mut session = Session::new(Vec::new());
    session.set_keyboard_owner(41);
    assert_eq!(session.options_message_id(), None);
}

#[test]
fn offset_moves_past_updates() {
    let mut session = Session::new(Vec::new());
    session.advance_past(0);
    assert_eq!(session.offset(), 1);
    session.advance_past(17);
    assert_eq!(session.offset(), 18);
}

#[test]
fn offset_does_not_move_back() {
    let mut session = Session::new(Vec::new());
    session.advance_past(17);
    session.advance_past(3);
    assert_eq!(session.offset(), 18);
    session.advance_past(17);
    assert_eq!(session.offset(), 18);
}

#[test]
fn offset_takes_the_largest_identifier() {
    let mut session = Session::new(Vec::new());
    session.advance_past(u32::MAX);
    assert_eq!(session.offset(), 4294967296);
}
