//! The identifiers and command texts shared with the remote chat.
//!
//! Every inline button carries a callback identifier. A toggle button
//! carries the toggle prefix followed by the label of its option; the three
//! action buttons carry fixed markers. The reply keyboard offers the send
//! and continue commands as plain text.

use crate::text::{has_prefix, text_after};
use vstd::prelude::*;
use vstd::string::*;

verus! {

/// Prefix of the callback identifier of every toggle button.
pub const TOGGLE_PREFIX: &'static str = "toggle:";

/// Callback identifier of the send button.
pub const SEND_ACTION: &'static str = "action:send";

/// Callback identifier of the continue button.
pub const CONTINUE_ACTION: &'static str = "action:continue";

/// Callback identifier of the enhance button.
pub const ENHANCE_ACTION: &'static str = "action:enhance";

/// Text of the reply-keyboard button that sends the feedback.
pub const SEND_COMMAND: &'static str = "↗️发送";

/// Text of the reply-keyboard button that asks to continue.
pub const CONTINUE_COMMAND: &'static str = "▶️继续";

/// The callback identifier of the toggle button of `label`.
pub open spec fn toggle_data(label: Seq<char>) -> Seq<char> {
    TOGGLE_PREFIX@ + label
}

/// Whether `data` is the callback identifier of a toggle button.
pub open spec fn is_toggle_data(data: Seq<char>) -> bool {
    TOGGLE_PREFIX@.is_prefix_of(data)
}

/// The label that a toggle identifier names.
pub open spec fn toggled_label(data: Seq<char>) -> Seq<char> {
    data.skip(TOGGLE_PREFIX@.len() as int)
}

/// Builds the callback identifier of the toggle button of `label`.
pub fn make_toggle_data(label: &str) -> (data: String)
    ensures
        data@ == toggle_data(label@),
{
    TOGGLE_PREFIX.to_owned().concat(label)
}

/// Reads a callback identifier: the label it toggles, or `None` where it
/// is no toggle identifier.
pub fn parse_toggle_data(data: &str) -> (label: Option<String>)
    ensures
        is_toggle_data(data@) ==> label is Some && label->0@ == toggled_label(data@),
        !is_toggle_data(data@) ==> label is None,
{
    if has_prefix(data, TOGGLE_PREFIX) {
        let prefix_len: usize = TOGGLE_PREFIX.unicode_len();
        Some(text_after(data, prefix_len))
    } else {
        None
    }
}

/// The commands that the reply keyboard offers, left to right: continue,
/// where replies to continue are switched on, and send.
pub open spec fn command_row(continue_enabled: bool) -> Seq<Seq<char>> {
    if continue_enabled {
        seq![CONTINUE_COMMAND@, SEND_COMMAND@]
    } else {
        seq![SEND_COMMAND@]
    }
}

/// Lists the commands that the reply keyboard offers.
pub fn command_buttons(continue_enabled: bool) -> (buttons: Vec<String>)
    ensures
        buttons.deep_view() == command_row(continue_enabled),
{
    let mut buttons: Vec<String> = Vec::new();
    if continue_enabled {
        buttons.push(CONTINUE_COMMAND.to_owned());
    }
    buttons.push(SEND_COMMAND.to_owned());
    proof {
        assert(buttons.deep_view() =~= command_row(continue_enabled));
    }
    buttons
}

/// A toggle identifier names the label it was built from.
pub proof fn law_toggle_data_round_trip(label: Seq<char>)
    ensures
        is_toggle_data(toggle_data(label)),
        toggled_label(toggle_data(label)) == label,
{
    let data = toggle_data(label);
    assert(data.subrange(0, TOGGLE_PREFIX@.len() as int) =~= TOGGLE_PREFIX@);
    assert(data.skip(TOGGLE_PREFIX@.len() as int) =~= label);
}

/// The three action markers differ from one another, and none of them is a
/// toggle identifier; the two text commands differ as well.
pub proof fn law_markers_distinct()
    ensures
        SEND_ACTION@ != CONTINUE_ACTION@,
        SEND_ACTION@ != ENHANCE_ACTION@,
        CONTINUE_ACTION@ != ENHANCE_ACTION@,
        !is_toggle_data(SEND_ACTION@),
        !is_toggle_data(CONTINUE_ACTION@),
        !is_toggle_data(ENHANCE_ACTION@),
        SEND_COMMAND@ != CONTINUE_COMMAND@,
{
    reveal_strlit("toggle:");
    reveal_strlit("action:send");
    reveal_strlit("action:continue");
    reveal_strlit("action:enhance");
    reveal_strlit("↗️发送");
    reveal_strlit("▶️继续");
    assert(SEND_ACTION@[0] == 'a');
    assert(CONTINUE_ACTION@[0] == 'a');
    assert(ENHANCE_ACTION@[0] == 'a');
    assert(TOGGLE_PREFIX@[0] == 't');
    assert(SEND_ACTION@[7] == 's');
    assert(CONTINUE_ACTION@[7] == 'c');
    assert(ENHANCE_ACTION@[7] == 'e');
    assert forall|data: Seq<char>| data.len() > 0 && data[0] == 'a' implies !is_toggle_data(
        data,
    ) by {
        if is_toggle_data(data) {
            assert(data.subrange(0, TOGGLE_PREFIX@.len() as int)[0] == data[0]);
        }
    }
    assert(SEND_COMMAND@[0] != CONTINUE_COMMAND@[0]);
}

} // verus!
