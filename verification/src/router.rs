//! Sorting of incoming updates.
//!
//! A press of an inline button and the equivalent command typed as plain
//! text lead to the same result, so that what follows is the same
//! whichever way the remote user chose.

use crate::protocol::{
    is_toggle_data, law_markers_distinct, law_toggle_data_round_trip, parse_toggle_data,
    toggle_data, toggled_label, CONTINUE_ACTION, CONTINUE_COMMAND, ENHANCE_ACTION, SEND_ACTION,
    SEND_COMMAND, TOGGLE_PREFIX,
};
use crate::text::{has_prefix, same_text};
use crate::update::{
    CallbackView, IncomingCallback, IncomingMessage, IncomingUpdate, KeyboardDataView,
    MessageView, UpdateKind, UpdateKindView, UpdateView,
};
use vstd::prelude::*;
use vstd::string::*;

verus! {

/// What an update asks of the session.
#[derive(Debug, Clone, PartialEq, Eq)]
pub enum Routed {
    /// The option of this label was toggled.
    OptionToggled(String),
    /// The user asked to have the text enhanced.
    EnhancePressed,
    /// The user asked to continue.
    ContinuePressed,
    /// The user submitted the feedback.
    SendPressed,
    /// The user typed this free text.
    TextUpdated(String),
    /// The message of this identifier carries the inline keyboard.
    KeyboardOwnerMessage(i32),
    /// Nothing to do.
    Ignorable,
}

/// The mathematical value of a [`Routed`].
pub ghost enum RoutedView {
    OptionToggled(Seq<char>),
    EnhancePressed,
    ContinuePressed,
    SendPressed,
    TextUpdated(Seq<char>),
    KeyboardOwnerMessage(i32),
    Ignorable,
}

impl View for Routed {
    type V = RoutedView;

    open spec fn view(&self) -> RoutedView {
        match self {
            Routed::OptionToggled(label) => RoutedView::OptionToggled(label@),
            Routed::EnhancePressed => RoutedView::EnhancePressed,
            Routed::ContinuePressed => RoutedView::ContinuePressed,
            Routed::SendPressed => RoutedView::SendPressed,
            Routed::TextUpdated(text) => RoutedView::TextUpdated(text@),
            Routed::KeyboardOwnerMessage(id) => RoutedView::KeyboardOwnerMessage(*id),
            Routed::Ignorable => RoutedView::Ignorable,
        }
    }
}

/// What a press of the button with callback identifier `data` asks for. A
/// toggle identifier names the option to toggle; the three action markers
/// name their action; any other identifier, or none, asks for nothing.
pub open spec fn route_callback(callback: CallbackView) -> RoutedView {
    match callback.data {
        None => RoutedView::Ignorable,
        Some(data) => if is_toggle_data(data) {
            RoutedView::OptionToggled(toggled_label(data))
        } else if data == ENHANCE_ACTION@ {
            RoutedView::EnhancePressed
        } else if data == CONTINUE_ACTION@ {
            RoutedView::ContinuePressed
        } else if data == SEND_ACTION@ {
            RoutedView::SendPressed
        } else {
            RoutedView::Ignorable
        },
    }
}

/// Whether some button of `keyboard` carries a toggle identifier.
pub open spec fn carries_toggle_button(keyboard: KeyboardDataView) -> bool {
    exists|row: int, column: int|
        0 <= row < keyboard.len() && 0 <= column < keyboard[row].len() && (
        #[trigger] keyboard[row][column]) is Some && is_toggle_data(keyboard[row][column]->0)
}

/// Whether `message` shows the options of the session: it has an inline
/// keyboard with at least one toggle button.
pub open spec fn shows_options(message: MessageView) -> bool {
    message.keyboard is Some && carries_toggle_button(message.keyboard->0)
}

/// What the body text `text` of a message asks for: the send and continue
/// commands ask for their action, an absent or empty body for nothing,
/// and anything else is free text.
pub open spec fn route_text(text: Option<Seq<char>>) -> RoutedView {
    match text {
        None => RoutedView::Ignorable,
        Some(body) => if body.len() == 0 {
            RoutedView::Ignorable
        } else if body == SEND_COMMAND@ {
            RoutedView::SendPressed
        } else if body == CONTINUE_COMMAND@ {
            RoutedView::ContinuePressed
        } else {
            RoutedView::TextUpdated(body)
        },
    }
}

/// What a message asks for. In a session with options, a message that
/// shows the options is the owner of the keyboard, and its body is not
/// read; every other message is sorted by its body.
pub open spec fn route_message(message: MessageView, has_options: bool) -> RoutedView {
    if has_options && shows_options(message) {
        RoutedView::KeyboardOwnerMessage(message.id)
    } else {
        route_text(message.text)
    }
}

/// What an update asks for.
pub open spec fn route_model(update: UpdateView, has_options: bool) -> RoutedView {
    match update.kind {
        UpdateKindView::CallbackQuery(callback) => route_callback(callback),
        UpdateKindView::Message(message) => route_message(message, has_options),
        UpdateKindView::Other => RoutedView::Ignorable,
    }
}

/// Sorts the press of an inline button.
pub fn route_callback_query(callback: &IncomingCallback) -> (routed: Routed)
    ensures
        routed@ == route_callback(callback@),
{
    match &callback.data {
        None => Routed::Ignorable,
        Some(data) => {
            match parse_toggle_data(data.as_str()) {
                Some(label) => Routed::OptionToggled(label),
                None => {
                    if same_text(data.as_str(), ENHANCE_ACTION) {
                        Routed::EnhancePressed
                    } else if same_text(data.as_str(), CONTINUE_ACTION) {
                        Routed::ContinuePressed
                    } else if same_text(data.as_str(), SEND_ACTION) {
                        Routed::SendPressed
                    } else {
                        Routed::Ignorable
                    }
                },
            }
        },
    }
}

/// Whether some button of `keyboard` carries a toggle identifier.
pub fn has_toggle_button(keyboard: &Vec<Vec<Option<String>>>) -> (found: bool)
    ensures
        found == carries_toggle_button(keyboard.deep_view()),
{
    let ghost model = keyboard.deep_view();
    let mut row: usize = 0;
    while row < keyboard.len()
        invariant
            row <= keyboard.len(),
            model == keyboard.deep_view(),
            forall|r: int, c: int|
                0 <= r < row && 0 <= c < model[r].len() ==> !((#[trigger] model[r][c]) is Some
                    && is_toggle_data(model[r][c]->0)),
        decreases keyboard.len() - row,
    {
        let buttons: &Vec<Option<String>> = &keyboard[row];
        let mut column: usize = 0;
        while column < buttons.len()
            invariant
                row < keyboard.len(),
                column <= buttons.len(),
                model == keyboard.deep_view(),
                *buttons == keyboard[row as int],
                forall|r: int, c: int|
                    0 <= r < row && 0 <= c < model[r].len() ==> !((#[trigger] model[r][c]) is Some
                        && is_toggle_data(model[r][c]->0)),
                forall|c: int|
                    0 <= c < column ==> !((#[trigger] model[row as int][c]) is Some
                        && is_toggle_data(model[row as int][c]->0)),
            decreases buttons.len() - column,
        {
            assert(model[row as int][column as int] == buttons[column as int].deep_view());
            match &buttons[column] {
                Some(data) => {
                    if has_prefix(data.as_str(), TOGGLE_PREFIX) {
                        assert(model[row as int][column as int] is Some);
                        return true;
                    }
                },
                None => {},
            }
            column += 1;
        }
        assert(model[row as int].len() == buttons.len());
        row += 1;
    }
    false
}

/// Sorts a message by its body text.
pub fn route_body(text: &Option<String>) -> (routed: Routed)
    ensures
        routed@ == route_text(text.deep_view()),
{
    match text {
        None => Routed::Ignorable,
        Some(body) => {
            if body.as_str().is_empty() {
                Routed::Ignorable
            } else if same_text(body.as_str(), SEND_COMMAND) {
                Routed::SendPressed
            } else if same_text(body.as_str(), CONTINUE_COMMAND) {
                Routed::ContinuePressed
            } else {
                Routed::TextUpdated(body.clone())
            }
        },
    }
}

/// Sorts a message.
pub fn route_chat_message(message: &IncomingMessage, has_options: bool) -> (routed: Routed)
    ensures
        routed@ == route_message(message@, has_options),
{
    let shows: bool = match &message.keyboard {
        Some(keyboard) => has_options && has_toggle_button(keyboard),
        None => false,
    };
    if shows {
        Routed::KeyboardOwnerMessage(message.id)
    } else {
        route_body(&message.text)
    }
}

/// Sorts one update of a session that does or does not offer options.
pub fn route(update: &IncomingUpdate, has_options: bool) -> (routed: Routed)
    ensures
        routed@ == route_model(update@, has_options),
{
    match &update.kind {
        UpdateKind::CallbackQuery(callback) => route_callback_query(callback),
        UpdateKind::Message(message) => route_chat_message(message, has_options),
        UpdateKind::Other => Routed::Ignorable,
    }
}

/// A command typed as text and the press of the matching button ask for
/// the same thing, and each marker asks for its own action: none is taken
/// for another, for a toggle or for free text.
pub proof fn law_commands_and_buttons_agree(message_id: Option<i32>)
    ensures
        route_text(Some(SEND_COMMAND@)) == RoutedView::SendPressed,
        route_text(Some(CONTINUE_COMMAND@)) == RoutedView::ContinuePressed,
        route_callback(CallbackView { message_id, data: Some(SEND_ACTION@) })
            == RoutedView::SendPressed,
        route_callback(CallbackView { message_id, data: Some(CONTINUE_ACTION@) })
            == RoutedView::ContinuePressed,
        route_callback(CallbackView { message_id, data: Some(ENHANCE_ACTION@) })
            == RoutedView::EnhancePressed,
{
    law_markers_distinct();
    reveal_strlit("↗️发送");
    reveal_strlit("▶️继续");
}

/// The press of the toggle button of an option asks to toggle that option.
pub proof fn law_toggle_button_names_its_option(message_id: Option<i32>, label: Seq<char>)
    ensures
        route_callback(CallbackView { message_id, data: Some(toggle_data(label)) })
            == RoutedView::OptionToggled(label),
{
    law_toggle_data_round_trip(label);
}

} // verus!
