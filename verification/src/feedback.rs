//! The texts that the engine sends to the remote chat or hands to the
//! local application.
//!
//! The remote operator reads these as plain text, so their wording is
//! part of the interface and is fixed here, as constants and as
//! functions of the session's values.

use vstd::prelude::*;
use vstd::string::*;

verus! {

/// The whole feedback text of a request to continue.
pub const CONTINUE_FEEDBACK: &'static str = "✅ 继续操作已确认";

/// First line of every feedback text that reports a submission.
pub const SEND_HEADER: &'static str = "✅ 发送成功";

/// Title of the list of selected options.
pub const OPTIONS_TITLE: &'static str = "\n\n☑️ 选中的选项：";

/// What precedes each selected option in the list.
pub const OPTION_BULLET: &'static str = "\n• ";

/// Title of the free text.
pub const TEXT_TITLE: &'static str = "\n\n📝 补充文本：\n";

/// What a submission without options and without text says.
pub const EMPTY_NOTE: &'static str = "\n\n📭 无反馈内容";

/// What precedes the user's text in the acknowledgement of an enhance
/// request.
pub const ENHANCE_ACK_HEAD: &'static str = "✨ 增强请求已发送\n\n📝 原文：";

/// The instruction that precedes the user's text in an enhance request.
pub const ENHANCE_PROMPT_HEAD: &'static str =
    "Use the following prompt to optimize and enhance the context of the content in 《》, and return the enhanced result by calling the tool '寸止' after completion.Here is an instruction that I'd like to give you, but it needs to be improved. Rewrite and enhance this instruction to make it clearer, more specific, less ambiguous, and correct any mistakes. Reply immediately with your answer, even if you're not sure. Consider the context of our conversation history when enhancing the prompt. Reply with the following format:\n\n### BEGIN RESPONSE ###\nHere is an enhanced version of the original instruction that is more specific and clear:\n<augment-enhanced-prompt>enhanced prompt goes here</augment-enhanced-prompt>\n\n### END RESPONSE ###\n\nHere is my original instruction:\n\n《";

/// What closes an enhance request after the user's text.
pub const ENHANCE_PROMPT_TAIL: &'static str = "》";

/// The lines that list `selected`, one bullet per option, in order.
pub open spec fn option_lines(selected: Seq<Seq<char>>) -> Seq<char>
    decreases selected.len(),
{
    if selected.len() == 0 {
        Seq::empty()
    } else {
        option_lines(selected.drop_last()) + OPTION_BULLET@ + selected.last()
    }
}

/// The part of a feedback text that reports the selected options; empty
/// where none is selected.
pub open spec fn options_block(selected: Seq<Seq<char>>) -> Seq<char> {
    if selected.len() == 0 {
        Seq::empty()
    } else {
        OPTIONS_TITLE@ + option_lines(selected)
    }
}

/// The part of a feedback text that reports the free text; empty where
/// there is none.
pub open spec fn text_block(free_text: Seq<char>) -> Seq<char> {
    if free_text.len() == 0 {
        Seq::empty()
    } else {
        TEXT_TITLE@ + free_text
    }
}

/// What follows the header in the feedback text of a submission.
pub open spec fn feedback_body(selected: Seq<Seq<char>>, free_text: Seq<char>) -> Seq<char> {
    if selected.len() == 0 && free_text.len() == 0 {
        EMPTY_NOTE@
    } else {
        options_block(selected) + text_block(free_text)
    }
}

/// The feedback text. A request to continue has one fixed text, whatever
/// `selected` and `free_text` hold. A submission has the header followed
/// by the selected options, if any, and the free text, if any, or by a
/// note that it holds neither.
pub open spec fn feedback_text(
    selected: Seq<Seq<char>>,
    free_text: Seq<char>,
    is_continue: bool,
) -> Seq<char> {
    if is_continue {
        CONTINUE_FEEDBACK@
    } else {
        SEND_HEADER@ + feedback_body(selected, free_text)
    }
}

/// The instruction handed to the local application when the remote user
/// asks to have `user_input` enhanced.
pub open spec fn enhance_prompt_text(user_input: Seq<char>) -> Seq<char> {
    ENHANCE_PROMPT_HEAD@ + user_input + ENHANCE_PROMPT_TAIL@
}

/// The acknowledgement posted to the chat for an enhance request.
pub open spec fn enhance_ack_text(user_input: Seq<char>) -> Seq<char> {
    ENHANCE_ACK_HEAD@ + user_input
}

/// Whether `needle` occurs in `text` as a run of consecutive characters.
pub open spec fn occurs_in(needle: Seq<char>, text: Seq<char>) -> bool {
    exists|at: int|
        0 <= at && at + needle.len() <= text.len() && #[trigger] text.subrange(
            at,
            at + needle.len(),
        ) == needle
}

/// A text that occurs in the middle part of a concatenation occurs in the
/// whole.
proof fn lemma_occurs_in_middle(
    needle: Seq<char>,
    before: Seq<char>,
    middle: Seq<char>,
    after: Seq<char>,
)
    requires
        occurs_in(needle, middle),
    ensures
        occurs_in(needle, before + middle + after),
{
    let at = choose|at: int|
        0 <= at && at + needle.len() <= middle.len() && #[trigger] middle.subrange(
            at,
            at + needle.len(),
        ) == needle;
    let whole = before + middle + after;
    let shifted: int = (before.len() + at) as int;
    assert(whole.subrange(shifted, shifted + needle.len()) =~= needle);
}

/// Every listed option occurs in the lines that list the options.
proof fn lemma_option_lines_hold_each(selected: Seq<Seq<char>>, index: int)
    requires
        0 <= index < selected.len(),
    ensures
        occurs_in(selected[index], option_lines(selected)),
    decreases selected.len(),
{
    let lines = option_lines(selected);
    let head = option_lines(selected.drop_last());
    if index == selected.len() - 1 {
        let at: int = (head.len() + OPTION_BULLET@.len()) as int;
        assert(lines.subrange(at, at + selected[index].len()) =~= selected[index]);
    } else {
        lemma_option_lines_hold_each(selected.drop_last(), index);
        lemma_occurs_in_middle(
            selected[index],
            Seq::empty(),
            head,
            OPTION_BULLET@ + selected.last(),
        );
        assert(Seq::<char>::empty() + head + (OPTION_BULLET@ + selected.last()) =~= lines);
    }
}

/// The feedback text of a submission shows what was submitted: every
/// selected option occurs in it, and it ends with the free text.
pub proof fn law_feedback_reports_inputs(
    selected: Seq<Seq<char>>,
    free_text: Seq<char>,
    index: int,
)
    requires
        0 <= index < selected.len(),
    ensures
        occurs_in(selected[index], feedback_text(selected, free_text, false)),
        free_text.is_suffix_of(feedback_text(selected, free_text, false)),
{
    let whole = feedback_text(selected, free_text, false);
    lemma_option_lines_hold_each(selected, index);
    lemma_occurs_in_middle(
        selected[index],
        SEND_HEADER@ + OPTIONS_TITLE@,
        option_lines(selected),
        text_block(free_text),
    );
    assert(SEND_HEADER@ + OPTIONS_TITLE@ + option_lines(selected) + text_block(free_text)
        =~= whole);
    assert(whole.subrange(whole.len() - free_text.len(), whole.len() as int) =~= free_text);
}

/// The feedback text of a submission without options ends with the free
/// text as well.
pub proof fn law_feedback_ends_with_text(selected: Seq<Seq<char>>, free_text: Seq<char>)
    ensures
        free_text.is_suffix_of(feedback_text(selected, free_text, false)),
{
    let whole = feedback_text(selected, free_text, false);
    assert(whole.subrange(whole.len() - free_text.len(), whole.len() as int) =~= free_text);
}

/// The kinds of feedback can be told apart by reading the text. The text
/// of a request to continue differs from that of every submission. Among
/// submissions, one without options and without text differs from every
/// one that holds either, and one that lists options differs from every
/// one that does not.
pub proof fn law_feedback_kinds_distinct(
    selected: Seq<Seq<char>>,
    free_text: Seq<char>,
    other_selected: Seq<Seq<char>>,
    other_text: Seq<char>,
)
    ensures
        feedback_text(selected, free_text, true) != feedback_text(
            other_selected,
            other_text,
            false,
        ),
        (selected.len() == 0 && free_text.len() == 0) != (other_selected.len() == 0
            && other_text.len() == 0) ==> feedback_text(selected, free_text, false)
            != feedback_text(other_selected, other_text, false),
        (selected.len() == 0) != (other_selected.len() == 0) ==> feedback_text(
            selected,
            free_text,
            false,
        ) != feedback_text(other_selected, other_text, false),
{
    reveal_strlit("✅ 继续操作已确认");
    reveal_strlit("✅ 发送成功");
    reveal_strlit("\n\n☑️ 选中的选项：");
    reveal_strlit("\n\n📝 补充文本：\n");
    reveal_strlit("\n\n📭 无反馈内容");
    lemma_submission_shape(selected, free_text);
    lemma_submission_shape(other_selected, other_text);
    assert(CONTINUE_FEEDBACK@[2] == '继');
}

/// The characters by which a submission shows its shape: the header comes
/// first, and the third character after it tells what follows.
proof fn lemma_submission_shape(selected: Seq<Seq<char>>, free_text: Seq<char>)
    ensures
        feedback_text(selected, free_text, false).len() >= 9,
        feedback_text(selected, free_text, false)[2] == '发',
        feedback_text(selected, free_text, false)[8] == (if selected.len() > 0 {
            '☑'
        } else if free_text.len() > 0 {
            '📝'
        } else {
            '📭'
        }),
{
    reveal_strlit("✅ 发送成功");
    reveal_strlit("\n\n☑️ 选中的选项：");
    reveal_strlit("\n\n📝 补充文本：\n");
    reveal_strlit("\n\n📭 无反馈内容");
    let body = feedback_body(selected, free_text);
    assert(SEND_HEADER@.len() == 6);
    if selected.len() > 0 {
        assert(body[2] == OPTIONS_TITLE@[2]);
    } else if free_text.len() > 0 {
        assert(body =~= TEXT_TITLE@ + free_text);
        assert(body[2] == TEXT_TITLE@[2]);
    } else {
        assert(body[2] == EMPTY_NOTE@[2]);
    }
    assert(feedback_text(selected, free_text, false)[8] == body[2]);
}

/// Builds the feedback text that is posted to the chat when the remote
/// user submits or asks to continue.
pub fn build_feedback_message(selected: &[String], user_input: &str, is_continue: bool) -> (message:
    String)
    ensures
        message@ == feedback_text(selected.deep_view(), user_input@, is_continue),
{
    if is_continue {
        return CONTINUE_FEEDBACK.to_owned();
    }
    let ghost labels = selected.deep_view();
    let mut message: String = SEND_HEADER.to_owned();
    if selected.len() == 0 && user_input.is_empty() {
        message.append(EMPTY_NOTE);
        return message;
    }
    if selected.len() > 0 {
        message.append(OPTIONS_TITLE);
        let mut i: usize = 0;
        while i < selected.len()
            invariant
                i <= selected.len(),
                labels == selected.deep_view(),
                message@ == SEND_HEADER@ + OPTIONS_TITLE@ + option_lines(labels.take(i as int)),
            decreases selected.len() - i,
        {
            message.append(OPTION_BULLET);
            message.append(selected[i].as_str());
            proof {
                let upto = labels.take(i + 1);
                assert(upto.drop_last() =~= labels.take(i as int));
                assert(upto.last() == selected[i as int]@);
                assert(message@ =~= SEND_HEADER@ + OPTIONS_TITLE@ + option_lines(upto));
            }
            i += 1;
        }
        proof {
            assert(labels.take(i as int) =~= labels);
            assert(message@ =~= SEND_HEADER@ + options_block(labels));
        }
    } else {
        proof {
            assert(message@ =~= SEND_HEADER@ + options_block(labels));
        }
    }
    if !user_input.is_empty() {
        message.append(TEXT_TITLE);
        message.append(user_input);
    }
    proof {
        assert(message@ =~= SEND_HEADER@ + (options_block(labels) + text_block(user_input@)));
    }
    message
}

/// Builds the instruction handed to the local application for an enhance
/// request.
pub fn build_enhance_prompt(user_input: &str) -> (prompt: String)
    ensures
        prompt@ == enhance_prompt_text(user_input@),
{
    let mut prompt: String = ENHANCE_PROMPT_HEAD.to_owned();
    prompt.append(user_input);
    prompt.append(ENHANCE_PROMPT_TAIL);
    prompt
}

/// Builds the acknowledgement posted to the chat for an enhance request.
pub fn build_enhance_ack(user_input: &str) -> (ack: String)
    ensures
        ack@ == enhance_ack_text(user_input@),
{
    ENHANCE_ACK_HEAD.to_owned().concat(user_input)
}

} // verus!
