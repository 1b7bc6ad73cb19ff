use remote_feedback::startup::{blank, is_whitespace, plan_sync_start, SyncPlan};

#[test]
fn disabled_comes_first() {
    assert_eq!(plan_sync_start(false, "", "", "https://api.telegram.org/bot"), SyncPlan::Disabled);
    assert_eq!(plan_sync_start(false, "token", "chat", "https://x.example/"), SyncPlan::Disabled);
}

#[test]
fn missing_token_or_chat_is_incomplete() {
    assert_eq!(plan_sync_start(true, "", "chat", "https://api.telegram.org/bot"), SyncPlan::Incomplete);
    assert_eq!(plan_sync_start(true, "token", "", "https://api.telegram.org/bot"), SyncPlan::Incomplete);
    assert_eq!(plan_sync_start(true, "  \t", "chat", "https://api.telegram.org/bot"), SyncPlan::Incomplete);
    assert_eq!(plan_sync_start(true, "token", "\u{3000}\n", "https://api.telegram.org/bot"), SyncPlan::Incomplete);
}

#[test]
fn complete_configuration_starts_with_standard_endpoint() {
    assert_eq!(
        plan_sync_start(true, "123:abc", "-100", "https://api.telegram.org/bot"),
        SyncPlan::Start { api_url: None }
    );
}

#[test]
fn complete_configuration_starts_with_custom_endpoint() {
    assert_eq!(
        plan_sync_start(true, " 123:abc ", "-100", "https://proxy.example/bot"),
        SyncPlan::Start { api_url: Some("https://proxy.example/bot".to_string()) }
    );
}

#[test]
fn blank_agrees_with_trim() {
    let samples = ["", " ", "\t\r\n", "\u{85}\u{a0}\u{1680}", "\u{2000}\u{200a}\u{2028}\u{2029}\u{202f}\u{205f}\u{3000}",
        "a", " a ", "\u{200b}", "\u{180e}", "\u{feff}", "\u{1c}", "\u{e}", "\u{8}", "\u{200b} "];
    for s in samples {
        assert_eq!(blank(s), s.trim().is_empty(), "{:?}", s);
    }
}

#[test]
fn whitespace_agrees_with_std_on_the_basic_plane() {
    let mut code: u32 = 0;
    while code <= 0xFFFF {
        if let Some(c) = char::from_u32(code) {
            assert_eq!(is_whitespace(c), c.is_whitespace(), "{:x}", code);
        }
        code += 1;
    }
}
