//! Updates as the bot API delivers them, reduced to the plain values that
//! the session engine reads.

use vstd::prelude::*;

verus! {

/// The rows of an inline keyboard: for each button, the callback
/// identifier it carries, or `None` for a button of another kind.
pub type KeyboardData = Vec<Vec<Option<String>>>;

/// The mathematical value of a [`KeyboardData`].
pub type KeyboardDataView = Seq<Seq<Option<Seq<char>>>>;

/// A chat message.
#[derive(Debug, Clone, PartialEq, Eq)]
pub struct IncomingMessage {
    /// Identifier of the message within its chat.
    pub id: i32,
    /// Identifier of the chat the message was posted in.
    pub chat_id: i64,
    /// Title of the chat, absent for a private chat.
    pub chat_title: Option<String>,
    /// User name of the sender, where the sender has one.
    pub username: Option<String>,
    /// Body text, absent for messages that carry none.
    pub text: Option<String>,
    /// The inline keyboard attached to the message, if any.
    pub keyboard: Option<KeyboardData>,
}

/// A press of an inline button.
#[derive(Debug, Clone, PartialEq, Eq)]
pub struct IncomingCallback {
    /// The message the pressed button is attached to, where known.
    pub message_id: Option<i32>,
    /// The callback identifier of the pressed button.
    pub data: Option<String>,
}

/// What an update carries.
#[derive(Debug, Clone, PartialEq, Eq)]
pub enum UpdateKind {
    Message(IncomingMessage),
    CallbackQuery(IncomingCallback),
    /// Any other kind of update; the engine ignores these.
    Other,
}

/// One update, with the identifier by which the API orders it.
#[derive(Debug, Clone, PartialEq, Eq)]
pub struct IncomingUpdate {
    pub id: u32,
    pub kind: UpdateKind,
}

/// The mathematical value of an [`IncomingMessage`].
pub ghost struct MessageView {
    pub id: i32,
    pub chat_id: i64,
    pub chat_title: Option<Seq<char>>,
    pub username: Option<Seq<char>>,
    pub text: Option<Seq<char>>,
    pub keyboard: Option<KeyboardDataView>,
}

/// The mathematical value of an [`IncomingCallback`].
pub ghost struct CallbackView {
    pub message_id: Option<i32>,
    pub data: Option<Seq<char>>,
}

/// The mathematical value of an [`UpdateKind`].
pub ghost enum UpdateKindView {
    Message(MessageView),
    CallbackQuery(CallbackView),
    Other,
}

/// The mathematical value of an [`IncomingUpdate`].
pub ghost struct UpdateView {
    pub id: u32,
    pub kind: UpdateKindView,
}

impl View for IncomingMessage {
    type V = MessageView;

    open spec fn view(&self) -> MessageView {
        MessageView {
            id: self.id,
            chat_id: self.chat_id,
            chat_title: self.chat_title.deep_view(),
            username: self.username.deep_view(),
            text: self.text.deep_view(),
            keyboard: self.keyboard.deep_view(),
        }
    }
}

impl DeepView for IncomingMessage {
    type V = MessageView;

    open spec fn deep_view(&self) -> MessageView {
        self@
    }
}

impl View for IncomingCallback {
    type V = CallbackView;

    open spec fn view(&self) -> CallbackView {
        CallbackView { message_id: self.message_id, data: self.data.deep_view() }
    }
}

impl View for UpdateKind {
    type V = UpdateKindView;

    open spec fn view(&self) -> UpdateKindView {
        match self {
            UpdateKind::Message(m) => UpdateKindView::Message(m@),
            UpdateKind::CallbackQuery(c) => UpdateKindView::CallbackQuery(c@),
            UpdateKind::Other => UpdateKindView::Other,
        }
    }
}

impl View for IncomingUpdate {
    type V = UpdateView;

    open spec fn view(&self) -> UpdateView {
        UpdateView { id: self.id, kind: self.kind@ }
    }
}

impl DeepView for IncomingUpdate {
    type V = UpdateView;

    open spec fn deep_view(&self) -> UpdateView {
        self@
    }
}

} // verus!
