use remote_feedback::feedback::{
    build_enhance_ack, build_enhance_prompt, build_feedback_message, CONTINUE_FEEDBACK,
};

fn labels(items: &[&str]) -> Vec<String> {
    items.iter().map(|s| s.to_string()).collect()
}

#[test]
fn feedback_with_options_and_text() {
    let message = build_feedback_message(&labels(&["A", "B"]), "hello", false);
    assert_eq!(message, "✅ 发送成功\n\n☑️ 选中的选项：\n• A\n• B\n\n📝 补充文本：\nhello");
    assert!(message.contains("A"));
    assert!(message.contains("B"));
    assert!(message.contains("hello"));
}

#[test]
fn feedback_with_options_only() {
    let message = build_feedback_message(&labels(&["Yes"]), "", false);
    assert_eq!(message, "✅ 发送成功\n\n☑️ 选中的选项：\n• Yes");
}

#[test]
fn feedback_with_text_only() {
    let message = build_feedback_message(&[], "just text", false);
    assert_eq!(message, "✅ 发送成功\n\n📝 补充文本：\njust text");
}

#[test]
fn feedback_with_nothing() {
    let message = build_feedback_message(&[], "", false);
    assert_eq!(message, "✅ 发送成功\n\n📭 无反馈内容");
}

#[test]
fn feedback_for_continue_is_fixed() {
    let message = build_feedback_message(&[], "", true);
    assert_eq!(message, "✅ 继续操作已确认");
    assert_eq!(message, CONTINUE_FEEDBACK);
    assert_eq!(build_feedback_message(&labels(&["A"]), "ignored", true), message);
}

#[test]
fn empty_feedback_differs_from_continue() {
    assert_ne!(build_feedback_message(&[], "", false), build_feedback_message(&[], "", true));
}

#[test]
fn the_five_kinds_of_feedback_differ() {
    let kinds = vec![
        build_feedback_message(&[], "", true),
        build_feedback_message(&labels(&["A"]), "", false),
        build_feedback_message(&[], "t", false),
        build_feedback_message(&labels(&["A"]), "t", false),
        build_feedback_message(&[], "", false),
    ];
    for i in 0..kinds.len() {
        for j in 0..kinds.len() {
            if i != j {
                assert_ne!(kinds[i], kinds[j]);
            }
        }
    }
}

#[test]
fn enhance_prompt_wraps_the_text() {
    let prompt = build_enhance_prompt("fix the bug");
    assert!(prompt.starts_with("Use the following prompt to optimize and enhance the context of the content in 《》, and return the enhanced result by calling the tool '寸止' after completion.Here is an instruction"));
    assert!(prompt.ends_with("Here is my original instruction:\n\n《fix the bug》"));
    assert!(prompt.contains("### BEGIN RESPONSE ###\nHere is an enhanced version of the original instruction that is more specific and clear:\n<augment-enhanced-prompt>enhanced prompt goes here</augment-enhanced-prompt>\n\n### END RESPONSE ###"));
}

#[test]
fn enhance_prompt_of_empty_text() {
    let prompt = build_enhance_prompt("");
    assert!(prompt.ends_with("Here is my original instruction:\n\n《》"));
}

#[test]
fn enhance_ack_quotes_the_text() {
    assert_eq!(build_enhance_ack("fix the bug"), "✨ 增强请求已发送\n\n📝 原文：fix the bug");
    assert_eq!(build_enhance_ack(""), "✨ 增强请求已发送\n\n📝 原文：");
}
