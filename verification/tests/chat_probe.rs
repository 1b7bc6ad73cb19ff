use remote_feedback::chat_probe::{describe_chat, find_first_message, ChatIdProbe, ChatInfo, ProbeStep};
use remote_feedback::polling::PollOutcome;
use remote_feedback::update::{IncomingCallback, IncomingMessage, IncomingUpdate, UpdateKind};

fn chat_message(id: i32, chat_id: i64, title: Option<&str>, user: Option<&str>, text: Option<&str>) -> IncomingMessage {
    IncomingMessage {
        id,
        chat_id,
        chat_title: title.map(|t| t.to_string()),
        username: user.map(|t| t.to_string()),
        text: text.map(|t| t.to_string()),
        keyboard: None,
    }
}

fn press(id: u32) -> IncomingUpdate {
    IncomingUpdate {
        id,
        kind: UpdateKind::CallbackQuery(IncomingCallback { message_id: None, data: None }),
    }
}

#[test]
fn chat_report_of_a_group_message() {
    let info = describe_chat(&chat_message(1, -1001234, Some("Team"), Some("alice"), Some("hi")));
    assert_eq!(
        info,
        ChatInfo {
            chat_id: -1001234,
            chat_title: "Team".to_string(),
            username: "alice".to_string(),
            message_text: "hi".to_string(),
        }
    );
}

#[test]
fn chat_report_fills_in_what_is_missing() {
    let info = describe_chat(&chat_message(1, 42, None, None, None));
    assert_eq!(
        info,
        ChatInfo {
            chat_id: 42,
            chat_title: "私聊".to_string(),
            username: "未知用户".to_string(),
            message_text: String::new(),
        }
    );
}

#[test]
fn first_message_is_found_behind_other_updates() {
    let updates = vec![
        press(1),
        IncomingUpdate { id: 2, kind: UpdateKind::Other },
        IncomingUpdate { id: 3, kind: UpdateKind::Message(chat_message(7, 1, None, None, Some("a"))) },
        IncomingUpdate { id: 4, kind: UpdateKind::Message(chat_message(8, 2, None, None, Some("b"))) },
    ];
    let found = find_first_message(&updates);
    assert_eq!(found.map(|m| m.id), Some(7));
    assert_eq!(find_first_message(&updates[..2]), None);
    assert_eq!(find_first_message(&[]), None);
}

#[test]
fn probe_detects_the_first_message() {
    let mut probe = ChatIdProbe::new();
    let step = probe.on_outcome(&PollOutcome::Updates(vec![
        press(1),
        IncomingUpdate { id: 2, kind: UpdateKind::Message(chat_message(7, 99, None, Some("bob"), Some("hello"))) },
    ]));
    assert_eq!(
        step,
        ProbeStep::Detected(ChatInfo {
            chat_id: 99,
            chat_title: "私聊".to_string(),
            username: "bob".to_string(),
            message_text: "hello".to_string(),
        })
    );
    assert_eq!(probe.attempts(), 0);
}

#[test]
fn probe_retries_twenty_nine_times_then_times_out() {
    let mut probe = ChatIdProbe::new();
    for attempt in 1..30 {
        let outcome = if attempt % 2 == 0 { PollOutcome::Failed } else { PollOutcome::Updates(vec![press(1)]) };
        assert_eq!(probe.on_outcome(&outcome), ProbeStep::Retry);
        assert_eq!(probe.attempts(), attempt);
    }
    assert_eq!(probe.on_outcome(&PollOutcome::Updates(Vec::new())), ProbeStep::TimedOut);
    assert_eq!(probe.attempts(), 30);
}

#[test]
fn probe_stays_timed_out() {
    let mut probe = ChatIdProbe::new();
    for _ in 0..30 {
        let _ = probe.on_outcome(&PollOutcome::Failed);
    }
    assert_eq!(probe.on_outcome(&PollOutcome::Failed), ProbeStep::TimedOut);
    assert_eq!(probe.attempts(), 30);
}

#[test]
fn probe_detects_on_the_last_attempt() {
    let mut probe = ChatIdProbe::new();
    for _ in 0..29 {
        assert_eq!(probe.on_outcome(&PollOutcome::Failed), ProbeStep::Retry);
    }
    let step = probe.on_outcome(&PollOutcome::Updates(vec![IncomingUpdate {
        id: 2,
        kind: UpdateKind::Message(chat_message(7, 5, Some("G"), None, None)),
    }]));
    assert_eq!(
        step,
        ProbeStep::Detected(ChatInfo {
            chat_id: 5,
            chat_title: "G".to_string(),
            username: "未知用户".to_string(),
            message_text: String::new(),
        })
    );
}
