//! Whether a feedback session can start with the configuration at hand.

use crate::endpoint::{custom_api_url, custom_endpoint};
use vstd::prelude::*;
use vstd::string::*;

verus! {

/// What the caller is told when the bot token or the chat is missing.
pub const INCOMPLETE_CONFIG_MESSAGE: &'static str = "Telegram配置不完整";

/// How long to wait between the message that shows the options and the
/// message that shows the actions, so that they arrive in order, in
/// milliseconds.
pub const MESSAGE_GAP_MILLIS: u64 = 500;

/// Whether `c` is white space: a character with the Unicode property
/// `White_Space`.
pub open spec fn is_space(c: char) -> bool {
    let code = c as u32;
    ||| 0x09 <= code <= 0x0D
    ||| code == 0x20
    ||| code == 0x85
    ||| code == 0xA0
    ||| code == 0x1680
    ||| 0x2000 <= code <= 0x200A
    ||| code == 0x2028
    ||| code == 0x2029
    ||| code == 0x202F
    ||| code == 0x205F
    ||| code == 0x3000
}

/// Whether `text` holds nothing but white space.
pub open spec fn is_blank(text: Seq<char>) -> bool {
    forall|i: int| 0 <= i < text.len() ==> is_space(#[trigger] text[i])
}

/// What to do with a request to start a session.
#[derive(Debug, Clone, PartialEq, Eq)]
pub enum SyncPlan {
    /// Remote feedback is switched off: do nothing, and report success.
    Disabled,
    /// The bot token or the chat is missing: fail, and start nothing.
    Incomplete,
    /// Start the session, with a client for this custom endpoint or, for
    /// `None`, for the standard one.
    Start { api_url: Option<String> },
}

/// The mathematical value of a [`SyncPlan`].
pub ghost enum SyncPlanView {
    Disabled,
    Incomplete,
    Start { api_url: Option<Seq<char>> },
}

impl View for SyncPlan {
    type V = SyncPlanView;

    open spec fn view(&self) -> SyncPlanView {
        match self {
            SyncPlan::Disabled => SyncPlanView::Disabled,
            SyncPlan::Incomplete => SyncPlanView::Incomplete,
            SyncPlan::Start { api_url } => SyncPlanView::Start { api_url: api_url.deep_view() },
        }
    }
}

/// The plan for a request to start a session. Being switched off comes
/// first: an incomplete configuration is no error then.
pub open spec fn sync_plan(
    enabled: bool,
    bot_token: Seq<char>,
    chat_id: Seq<char>,
    api_base_url: Seq<char>,
) -> SyncPlanView {
    if !enabled {
        SyncPlanView::Disabled
    } else if is_blank(bot_token) || is_blank(chat_id) {
        SyncPlanView::Incomplete
    } else {
        SyncPlanView::Start { api_url: custom_endpoint(api_base_url) }
    }
}

/// Whether `c` is white space.
pub fn is_whitespace(c: char) -> (space: bool)
    ensures
        space == is_space(c),
{
    let code: u32 = c as u32;
    (0x09 <= code && code <= 0x0D) || code == 0x20 || code == 0x85 || code == 0xA0 || code
        == 0x1680 || (0x2000 <= code && code <= 0x200A) || code == 0x2028 || code == 0x2029
        || code == 0x202F || code == 0x205F || code == 0x3000
}

/// Whether `text` holds nothing but white space, as an empty text does.
pub fn blank(text: &str) -> (blank: bool)
    ensures
        blank == is_blank(text@),
{
    let count: usize = text.unicode_len();
    let mut i: usize = 0;
    while i < count
        invariant
            i <= count,
            count == text@.len(),
            forall|k: int| 0 <= k < i ==> is_space(#[trigger] text@[k]),
        decreases count - i,
    {
        if !is_whitespace(text.get_char(i)) {
            return false;
        }
        i += 1;
    }
    true
}

/// Decides what to do with a request to start a session, from the
/// configuration as it stands.
pub fn plan_sync_start(enabled: bool, bot_token: &str, chat_id: &str, api_base_url: &str) -> (plan:
    SyncPlan)
    ensures
        plan@ == sync_plan(enabled, bot_token@, chat_id@, api_base_url@),
{
    if !enabled {
        SyncPlan::Disabled
    } else if blank(bot_token) || blank(chat_id) {
        SyncPlan::Incomplete
    } else {
        SyncPlan::Start { api_url: custom_api_url(api_base_url) }
    }
}

} // verus!
