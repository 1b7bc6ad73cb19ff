//! Finding out the identifier of a chat: the first message that reaches
//! the bot names the chat it was posted in.
//!
//! The driver polls without offset, reports each outcome to
//! [`ChatIdProbe::on_outcome`] and does what the step says, until a chat
//! is found or the attempts are used up.

use crate::polling::{delivered, OutcomeView, PollOutcome};
use crate::update::{
    IncomingMessage, IncomingUpdate, MessageView, UpdateKind, UpdateKindView, UpdateView,
};
use vstd::prelude::*;
use vstd::string::*;

verus! {

/// Number of requests after which the probe gives up.
pub const MAX_ATTEMPTS: u32 = 30;

/// How long to wait between two requests, in milliseconds.
pub const RETRY_MILLIS: u64 = 1000;

/// Title reported for a chat that has none, as a private chat has.
pub const PRIVATE_CHAT_TITLE: &'static str = "私聊";

/// User name reported for a sender that has none.
pub const UNKNOWN_USER: &'static str = "未知用户";

/// Event that tells the local application that the probe has begun.
pub const DETECTION_STARTED_EVENT: &'static str = "chat-id-detection-started";

/// Event that carries the chat found.
pub const DETECTED_EVENT: &'static str = "chat-id-detected";

/// Event that tells the local application that the probe gave up.
pub const DETECTION_TIMEOUT_EVENT: &'static str = "chat-id-detection-timeout";

/// What the probe reports of the chat it found.
#[derive(Debug, Clone, PartialEq, Eq)]
pub struct ChatInfo {
    pub chat_id: i64,
    pub chat_title: String,
    pub username: String,
    pub message_text: String,
}

/// The mathematical value of a [`ChatInfo`].
pub ghost struct ChatInfoView {
    pub chat_id: i64,
    pub chat_title: Seq<char>,
    pub username: Seq<char>,
    pub message_text: Seq<char>,
}

impl View for ChatInfo {
    type V = ChatInfoView;

    open spec fn view(&self) -> ChatInfoView {
        ChatInfoView {
            chat_id: self.chat_id,
            chat_title: self.chat_title@,
            username: self.username@,
            message_text: self.message_text@,
        }
    }
}

/// What the driver is to do after an outcome.
#[derive(Debug, Clone, PartialEq, Eq)]
pub enum ProbeStep {
    /// A chat was found: report it and stop.
    Detected(ChatInfo),
    /// The attempts are used up: report the timeout and stop.
    TimedOut,
    /// Wait [`RETRY_MILLIS`] and ask again.
    Retry,
}

/// The mathematical value of a [`ProbeStep`].
pub ghost enum ProbeStepView {
    Detected(ChatInfoView),
    TimedOut,
    Retry,
}

impl View for ProbeStep {
    type V = ProbeStepView;

    open spec fn view(&self) -> ProbeStepView {
        match self {
            ProbeStep::Detected(info) => ProbeStepView::Detected(info@),
            ProbeStep::TimedOut => ProbeStepView::TimedOut,
            ProbeStep::Retry => ProbeStepView::Retry,
        }
    }
}

/// The text of `value`, or `fallback` where there is none.
pub open spec fn text_or(value: Option<Seq<char>>, fallback: Seq<char>) -> Seq<char> {
    match value {
        Some(text) => text,
        None => fallback,
    }
}

/// What is reported of the chat of `message`.
pub open spec fn chat_info_of(message: MessageView) -> ChatInfoView {
    ChatInfoView {
        chat_id: message.chat_id,
        chat_title: text_or(message.chat_title, PRIVATE_CHAT_TITLE@),
        username: text_or(message.username, UNKNOWN_USER@),
        message_text: text_or(message.text, Seq::empty()),
    }
}

/// The first message among `updates`, if any of them is a message.
pub open spec fn first_message(updates: Seq<UpdateView>) -> Option<MessageView>
    decreases updates.len(),
{
    if updates.len() == 0 {
        None
    } else {
        match updates.first().kind {
            UpdateKindView::Message(message) => Some(message),
            _ => first_message(updates.drop_first()),
        }
    }
}

/// The number of attempts made and the step to take after an outcome,
/// given the number of attempts made before it. A message ends the probe
/// at once. Without one the attempt counts, whether the request failed or
/// brought nothing of use, and the probe gives up at the last attempt.
pub open spec fn probe_step(attempts: nat, outcome: OutcomeView) -> (nat, ProbeStepView) {
    match first_message(delivered(outcome)) {
        Some(message) => (attempts, ProbeStepView::Detected(chat_info_of(message))),
        None => if attempts + 1 >= MAX_ATTEMPTS {
            (MAX_ATTEMPTS as nat, ProbeStepView::TimedOut)
        } else {
            (attempts + 1, ProbeStepView::Retry)
        },
    }
}

/// The text of `value`, or `fallback` where there is none.
fn owned_or(value: &Option<String>, fallback: &str) -> (text: String)
    ensures
        text@ == text_or(value.deep_view(), fallback@),
{
    match value {
        Some(text) => text.clone(),
        None => fallback.to_owned(),
    }
}

/// Builds the report of the chat of `message`.
pub fn describe_chat(message: &IncomingMessage) -> (info: ChatInfo)
    ensures
        info@ == chat_info_of(message@),
{
    proof {
        reveal_strlit("");
        assert(""@ =~= Seq::<char>::empty());
    }
    ChatInfo {
        chat_id: message.chat_id,
        chat_title: owned_or(&message.chat_title, PRIVATE_CHAT_TITLE),
        username: owned_or(&message.username, UNKNOWN_USER),
        message_text: owned_or(&message.text, ""),
    }
}

/// Finds the first message among `updates`.
pub fn find_first_message(updates: &[IncomingUpdate]) -> (found: Option<&IncomingMessage>)
    ensures
        found.deep_view() == first_message(updates.deep_view()),
{
    let ghost all = updates.deep_view();
    let mut i: usize = 0;
    proof {
        assert(all.skip(0) =~= all);
    }
    while i < updates.len()
        invariant
            i <= updates.len(),
            all == updates.deep_view(),
            first_message(all) == first_message(all.skip(i as int)),
        decreases updates.len() - i,
    {
        proof {
            let rest = all.skip(i as int);
            assert(rest.first() == updates[i as int]@);
            assert(rest.drop_first() =~= all.skip(i + 1));
        }
        match &updates[i].kind {
            UpdateKind::Message(message) => {
                return Some(message);
            },
            _ => {},
        }
        i += 1;
    }
    None
}

/// The probe for the identifier of a chat.
#[derive(Debug)]
pub struct ChatIdProbe {
    attempts: u32,
}

impl View for ChatIdProbe {
    type V = nat;

    closed spec fn view(&self) -> nat {
        self.attempts as nat
    }
}

impl ChatIdProbe {
    #[verifier::type_invariant]
    spec fn inv(self) -> bool {
        self.attempts <= MAX_ATTEMPTS
    }

    /// Starts a probe that has made no attempt yet.
    pub fn new() -> (probe: ChatIdProbe)
        ensures
            probe@ == 0,
    {
        ChatIdProbe { attempts: 0 }
    }

    /// Number of attempts that went by without a message.
    pub fn attempts(&self) -> (attempts: u32)
        ensures
            attempts == self@,
            attempts <= MAX_ATTEMPTS,
    {
        proof {
            use_type_invariant(self);
        }
        self.attempts
    }

    /// Takes the outcome of a request and says what to do next.
    pub fn on_outcome(&mut self, outcome: &PollOutcome) -> (step: ProbeStep)
        ensures
            (final(self)@, step@) == probe_step(old(self)@, outcome@),
    {
        proof {
            use_type_invariant(&*self);
        }
        let found: Option<&IncomingMessage> = match outcome {
            PollOutcome::Updates(updates) => {
                let batch: &[IncomingUpdate] = updates.as_slice();
                proof {
                    assert(batch.deep_view() =~= updates.deep_view());
                }
                find_first_message(batch)
            },
            PollOutcome::Failed => None,
        };
        match found {
            Some(message) => ProbeStep::Detected(describe_chat(message)),
            None => {
                if self.attempts + 1 >= MAX_ATTEMPTS {
                    self.attempts = MAX_ATTEMPTS;
                    ProbeStep::TimedOut
                } else {
                    self.attempts = self.attempts + 1;
                    ProbeStep::Retry
                }
            },
        }
    }
}

/// A probe that sees no message gives up at the thirtieth attempt and not
/// before: each of the first twenty-nine asks to try again.
pub proof fn law_probe_gives_up_at_limit(attempts: nat, outcome: OutcomeView)
    requires
        first_message(delivered(outcome)) is None,
    ensures
        attempts + 1 < MAX_ATTEMPTS ==> probe_step(attempts, outcome) == (
            attempts + 1,
            ProbeStepView::Retry,
        ),
        attempts + 1 >= MAX_ATTEMPTS ==> probe_step(attempts, outcome) == (
            MAX_ATTEMPTS as nat,
            ProbeStepView::TimedOut,
        ),
{
}

} // verus!
