//! What the session does with each update: the change of its state and
//! the effects that the driver is to carry out.
//!
//! The engine performs no effect itself. It returns them, in the order in
//! which they are to happen, and the driver sends the messages, edits the
//! keyboard and notifies the local application. A failed send changes
//! nothing here: the state has moved on already.

use crate::feedback::{
    build_enhance_ack, build_enhance_prompt, build_feedback_message, enhance_ack_text,
    enhance_prompt_text, feedback_text, law_feedback_reports_inputs, occurs_in,
};
use crate::keyboard::{keyboard_model, render_keyboard, KeyboardLayout, KeyboardView};
use crate::router::{route, route_model, shows_options, Routed, RoutedView};
use crate::session::{law_toggle_keeps_invariant, Session, SessionView};
use crate::update::{IncomingUpdate, UpdateKind, UpdateKindView, UpdateView};
use vstd::prelude::*;
use vstd::string::*;

verus! {

/// Name under which every event is handed to the local application.
pub const EVENT_CHANNEL: &'static str = "telegram-event";

/// An event for the local application.
#[derive(Debug, Clone, PartialEq, Eq)]
pub enum TelegramEvent {
    OptionToggled { option: String, selected: bool },
    EnhancePressed { text: String },
    ContinuePressed,
    SendPressed,
    TextUpdated { text: String },
}

/// The mathematical value of a [`TelegramEvent`].
pub ghost enum EventView {
    OptionToggled { option: Seq<char>, selected: bool },
    EnhancePressed { text: Seq<char> },
    ContinuePressed,
    SendPressed,
    TextUpdated { text: Seq<char> },
}

impl View for TelegramEvent {
    type V = EventView;

    open spec fn view(&self) -> EventView {
        match self {
            TelegramEvent::OptionToggled { option, selected } => EventView::OptionToggled {
                option: option@,
                selected: *selected,
            },
            TelegramEvent::EnhancePressed { text } => EventView::EnhancePressed { text: text@ },
            TelegramEvent::ContinuePressed => EventView::ContinuePressed,
            TelegramEvent::SendPressed => EventView::SendPressed,
            TelegramEvent::TextUpdated { text } => EventView::TextUpdated { text: text@ },
        }
    }
}

/// Why the driver is asked to wait.
#[derive(Debug, Clone, Copy, PartialEq, Eq, Structural)]
pub enum Pause {
    /// The short wait after a poll that succeeded.
    Courtesy,
    /// The longer wait after a poll that failed.
    Backoff,
}

/// Length of the wait after a poll that succeeded, in milliseconds.
pub const COURTESY_MILLIS: u64 = 1000;

/// Length of the wait after a poll that failed, in milliseconds.
pub const BACKOFF_MILLIS: u64 = 5000;

impl Pause {
    /// How long the wait lasts, in milliseconds.
    pub open spec fn spec_millis(self) -> u64 {
        match self {
            Pause::Courtesy => COURTESY_MILLIS,
            Pause::Backoff => BACKOFF_MILLIS,
        }
    }

    /// How long the wait lasts, in milliseconds.
    #[verifier::when_used_as_spec(spec_millis)]
    pub fn millis(self) -> (millis: u64)
        ensures
            millis == self.spec_millis(),
    {
        match self {
            Pause::Courtesy => COURTESY_MILLIS,
            Pause::Backoff => BACKOFF_MILLIS,
        }
    }
}

/// One thing the driver is to do.
#[derive(Debug, Clone, PartialEq, Eq)]
pub enum Effect {
    /// Hand the event to the local application.
    Emit(TelegramEvent),
    /// Post the text to the chat.
    SendMessage(String),
    /// Replace the inline keyboard of the message.
    EditKeyboard { message_id: i32, layout: KeyboardLayout },
    /// Wait before the next poll.
    Wait(Pause),
}

/// The mathematical value of an [`Effect`].
pub ghost enum EffectView {
    Emit(EventView),
    SendMessage(Seq<char>),
    EditKeyboard { message_id: i32, layout: KeyboardView },
    Wait(Pause),
}

impl View for Effect {
    type V = EffectView;

    open spec fn view(&self) -> EffectView {
        match self {
            Effect::Emit(event) => EffectView::Emit(event@),
            Effect::SendMessage(text) => EffectView::SendMessage(text@),
            Effect::EditKeyboard { message_id, layout } => EffectView::EditKeyboard {
                message_id: *message_id,
                layout: layout@,
            },
            Effect::Wait(pause) => EffectView::Wait(*pause),
        }
    }
}

impl DeepView for Effect {
    type V = EffectView;

    open spec fn deep_view(&self) -> EffectView {
        self@
    }
}

/// The edit that brings the inline keyboard up to date, where its owner
/// is known.
pub open spec fn keyboard_refresh(session: SessionView) -> Seq<EffectView> {
    match session.options_message_id {
        Some(message_id) => seq![
            EffectView::EditKeyboard {
                message_id,
                layout: keyboard_model(session.predefined, session.selected_set()),
            },
        ],
        None => Seq::empty(),
    }
}

/// The session and the effects after a sorted update was acted upon.
///
/// A toggle of an offered option changes the selection, reports the new
/// state of the option and refreshes the keyboard; a toggle of any other
/// label does nothing. Enhance acknowledges in the chat and hands the
/// instruction built from the text typed last to the local application.
/// Continue and send post the feedback text and report the press; neither
/// ends the session. Free text is recorded and reported. A message that
/// shows the options becomes the owner of the keyboard unless one is
/// known.
pub open spec fn apply_routed(session: SessionView, routed: RoutedView) -> (
    SessionView,
    Seq<EffectView>,
) {
    match routed {
        RoutedView::OptionToggled(label) => if session.knows(label) {
            let after = session.toggled(label);
            (
                after,
                seq![
                    EffectView::Emit(
                        EventView::OptionToggled {
                            option: label,
                            selected: after.is_selected(label),
                        },
                    ),
                ] + keyboard_refresh(after),
            )
        } else {
            (session, Seq::empty())
        },
        RoutedView::EnhancePressed => (
            session,
            seq![
                EffectView::SendMessage(enhance_ack_text(session.user_input)),
                EffectView::Emit(
                    EventView::EnhancePressed { text: enhance_prompt_text(session.user_input) },
                ),
            ],
        ),
        RoutedView::ContinuePressed => (
            session,
            seq![
                EffectView::SendMessage(feedback_text(Seq::empty(), Seq::empty(), true)),
                EffectView::Emit(EventView::ContinuePressed),
            ],
        ),
        RoutedView::SendPressed => (
            session,
            seq![
                EffectView::SendMessage(
                    feedback_text(session.selected, session.user_input, false),
                ),
                EffectView::Emit(EventView::SendPressed),
            ],
        ),
        RoutedView::TextUpdated(text) => (
            session.with_input(text),
            seq![EffectView::Emit(EventView::TextUpdated { text })],
        ),
        RoutedView::KeyboardOwnerMessage(message_id) => (
            session.with_owner(message_id),
            Seq::empty(),
        ),
        RoutedView::Ignorable => (session, Seq::empty()),
    }
}

/// The session after it has taken note of an update, before acting on
/// it: the offset has moved past the update, and the message of a pressed
/// button has been recorded as owner of the keyboard, unless one is known.
pub open spec fn noted(session: SessionView, update: UpdateView) -> SessionView {
    let advanced = session.advanced_past(update.id);
    match update.kind {
        UpdateKindView::CallbackQuery(callback) => match callback.message_id {
            Some(message_id) => advanced.with_owner(message_id),
            None => advanced,
        },
        _ => advanced,
    }
}

/// The session and the effects after one update.
pub open spec fn step_update(session: SessionView, update: UpdateView) -> (
    SessionView,
    Seq<EffectView>,
) {
    apply_routed(noted(session, update), route_model(update, session.has_options()))
}

/// The session and the effects after a batch of updates, taken in the
/// order in which they were delivered.
pub open spec fn step_batch(session: SessionView, updates: Seq<UpdateView>) -> (
    SessionView,
    Seq<EffectView>,
)
    decreases updates.len(),
{
    if updates.len() == 0 {
        (session, Seq::empty())
    } else {
        let (before, earlier) = step_batch(session, updates.drop_last());
        let (after, later) = step_update(before, updates.last());
        (after, earlier + later)
    }
}

/// Appends to `effects` the edit that brings the keyboard up to date.
fn push_keyboard_refresh(session: &Session, effects: &mut Vec<Effect>)
    ensures
        final(effects).deep_view() == old(effects).deep_view() + keyboard_refresh(session@),
{
    let ghost before = effects.deep_view();
    match session.options_message_id() {
        Some(message_id) => {
            let layout: KeyboardLayout = render_keyboard(
                session.predefined_options(),
                session.selected_options(),
            );
            effects.push(Effect::EditKeyboard { message_id, layout });
            proof {
                assert(effects.deep_view() =~= before + keyboard_refresh(session@));
            }
        },
        None => {
            proof {
                assert(effects.deep_view() =~= before + keyboard_refresh(session@));
            }
        },
    }
}

/// Acts on a sorted update: changes the session and returns what the
/// driver is to do, in order.
pub fn apply(session: &mut Session, routed: Routed) -> (effects: Vec<Effect>)
    ensures
        (final(session)@, effects.deep_view()) == apply_routed(old(session)@, routed@),
        final(session)@.wf(),
{
    let mut effects: Vec<Effect> = Vec::new();
    proof {
        use_type_invariant(&*session);
    }
    match routed {
        Routed::OptionToggled(label) => {
            if session.knows(label.as_str()) {
                let selected: bool = session.toggle_option(label.as_str());
                effects.push(Effect::Emit(TelegramEvent::OptionToggled { option: label, selected }));
                push_keyboard_refresh(session, &mut effects);
            }
        },
        Routed::EnhancePressed => {
            let ack: String = build_enhance_ack(session.user_input());
            let prompt: String = build_enhance_prompt(session.user_input());
            effects.push(Effect::SendMessage(ack));
            effects.push(Effect::Emit(TelegramEvent::EnhancePressed { text: prompt }));
        },
        Routed::ContinuePressed => {
            let nothing: Vec<String> = Vec::new();
            let message: String = build_feedback_message(nothing.as_slice(), "", true);
            effects.push(Effect::SendMessage(message));
            effects.push(Effect::Emit(TelegramEvent::ContinuePressed));
        },
        Routed::SendPressed => {
            let message: String = build_feedback_message(
                session.selected_options(),
                session.user_input(),
                false,
            );
            effects.push(Effect::SendMessage(message));
            effects.push(Effect::Emit(TelegramEvent::SendPressed));
        },
        Routed::TextUpdated(text) => {
            session.record_user_input(text.as_str());
            effects.push(Effect::Emit(TelegramEvent::TextUpdated { text }));
        },
        Routed::KeyboardOwnerMessage(message_id) => {
            session.set_keyboard_owner(message_id);
        },
        Routed::Ignorable => {},
    }
    proof {
        assert(effects.deep_view() =~= apply_routed(old(session)@, routed@).1);
    }
    effects
}

/// Takes one update: moves the offset past it, sorts it and acts on it.
pub fn handle_update(session: &mut Session, update: &IncomingUpdate) -> (effects: Vec<Effect>)
    ensures
        (final(session)@, effects.deep_view()) == step_update(old(session)@, update@),
        final(session)@.wf(),
{
    let routed: Routed = route(update, session.has_options());
    session.advance_past(update.id);
    match &update.kind {
        UpdateKind::CallbackQuery(callback) => {
            match callback.message_id {
                Some(message_id) => {
                    session.set_keyboard_owner(message_id);
                },
                None => {},
            }
        },
        _ => {},
    }
    apply(session, routed)
}

/// Takes a batch of updates, in the order in which they were delivered.
pub fn handle_batch(session: &mut Session, updates: &[IncomingUpdate]) -> (effects: Vec<Effect>)
    ensures
        (final(session)@, effects.deep_view()) == step_batch(
            old(session)@,
            updates.deep_view(),
        ),
        final(session)@.wf(),
{
    let ghost all = updates.deep_view();
    let mut effects: Vec<Effect> = Vec::new();
    proof {
        use_type_invariant(&*session);
    }
    let mut i: usize = 0;
    while i < updates.len()
        invariant
            i <= updates.len(),
            all == updates.deep_view(),
            session@.wf(),
            (session@, effects.deep_view()) == step_batch(old(session)@, all.take(i as int)),
        decreases updates.len() - i,
    {
        let ghost earlier = effects.deep_view();
        let mut later: Vec<Effect> = handle_update(session, &updates[i]);
        let ghost later_view = later.deep_view();
        effects.append(&mut later);
        proof {
            let upto = all.take(i + 1);
            assert(upto.drop_last() =~= all.take(i as int));
            assert(upto.last() == updates[i as int]@);
            assert(effects.deep_view() =~= earlier + later_view);
        }
        i += 1;
    }
    proof {
        assert(all.take(i as int) =~= all);
    }
    effects
}

/// The highest identifier among `updates`, or -1 where there is none.
pub open spec fn highest_id(updates: Seq<UpdateView>) -> int
    decreases updates.len(),
{
    if updates.len() == 0 {
        -1
    } else {
        let earlier = highest_id(updates.drop_last());
        if earlier > updates.last().id {
            earlier
        } else {
            updates.last().id as int
        }
    }
}

/// The larger of two integers.
pub open spec fn larger(a: int, b: int) -> int {
    if a > b {
        a
    } else {
        b
    }
}

/// What one update leaves alone, whatever it holds: the session stays
/// well formed, so that only offered options are switched on; the options
/// offered stay the same; the offset lies past the update and not before
/// where it was; and an owner of the keyboard that is known stays the
/// owner.
pub proof fn law_update_preserves(session: SessionView, update: UpdateView)
    requires
        session.wf(),
    ensures
        step_update(session, update).0.wf(),
        step_update(session, update).0.predefined == session.predefined,
        step_update(session, update).0.offset == larger(session.offset, update.id + 1),
        session.options_message_id is Some ==> step_update(session, update).0.options_message_id
            == session.options_message_id,
{
    let seen = noted(session, update);
    assert(seen.wf());
    let routed = route_model(update, session.has_options());
    match routed {
        RoutedView::OptionToggled(label) => {
            law_toggle_keeps_invariant(seen, label);
        },
        _ => {},
    }
}

/// What a batch of updates leaves alone: as for one update, with the
/// offset past the highest identifier of the batch.
pub proof fn law_batch_preserves(session: SessionView, updates: Seq<UpdateView>)
    requires
        session.wf(),
    ensures
        step_batch(session, updates).0.wf(),
        step_batch(session, updates).0.predefined == session.predefined,
        step_batch(session, updates).0.offset == larger(session.offset, highest_id(updates) + 1),
        session.options_message_id is Some ==> step_batch(session, updates).0.options_message_id
            == session.options_message_id,
    decreases updates.len(),
{
    if updates.len() > 0 {
        law_batch_preserves(session, updates.drop_last());
        law_update_preserves(step_batch(session, updates.drop_last()).0, updates.last());
    }
}

/// An update that the session has no use for changes nothing but the
/// offset, and asks nothing of the driver.
pub proof fn law_ignorable_update_is_silent(session: SessionView, update: UpdateView)
    requires
        update.kind is Other,
    ensures
        step_update(session, update) == (session.advanced_past(update.id), Seq::<EffectView>::empty()),
{
}

/// Only a toggle changes the selection, and only free text changes the
/// text typed last.
pub proof fn law_state_changes_by_its_own_update(session: SessionView, update: UpdateView)
    ensures
        !(route_model(update, session.has_options()) is OptionToggled) ==> step_update(
            session,
            update,
        ).0.selected == session.selected,
        !(route_model(update, session.has_options()) is TextUpdated) ==> step_update(
            session,
            update,
        ).0.user_input == session.user_input,
        route_model(update, session.has_options()) matches RoutedView::TextUpdated(text)
            ==> step_update(session, update).0.user_input == text,
{
}

/// An owner of the keyboard becomes known only by observation, and only
/// in a session with options: through a pressed button, whose message
/// becomes the owner, or through a message that shows the options.
pub proof fn law_owner_arises_from_observation(session: SessionView, update: UpdateView)
    requires
        session.options_message_id is None,
        step_update(session, update).0.options_message_id is Some,
    ensures
        session.has_options(),
        match update.kind {
            UpdateKindView::CallbackQuery(callback) => callback.message_id
                == step_update(session, update).0.options_message_id,
            UpdateKindView::Message(message) => shows_options(message) && step_update(
                session,
                update,
            ).0.options_message_id == Some(message.id),
            UpdateKindView::Other => false,
        },
{
}

/// What a submission posts to the chat shows the state of the session:
/// every option that is switched on occurs in the text, and the text ends
/// with what the user typed last.
pub proof fn law_send_reports_session(session: SessionView, index: int)
    requires
        0 <= index < session.selected.len(),
    ensures
        apply_routed(session, RoutedView::SendPressed).0 == session,
        apply_routed(session, RoutedView::SendPressed).1[0] matches EffectView::SendMessage(text)
            && occurs_in(session.selected[index], text) && session.user_input.is_suffix_of(text),
        apply_routed(session, RoutedView::SendPressed).1[1] == EffectView::Emit(
            EventView::SendPressed,
        ),
{
    law_feedback_reports_inputs(session.selected, session.user_input, index);
}

} // verus!
