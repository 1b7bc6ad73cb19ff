//! The state of one feedback session.
//!
//! A session belongs to the polling task that created it: nothing else
//! writes it. It records which updates have been consumed, which options
//! are switched on, which message carries the inline keyboard, and the
//! free text that the remote user typed last.

use crate::keyboard::contains_label;
use crate::text::same_text;
use vstd::prelude::*;
use vstd::string::*;

verus! {

/// The mathematical value of a [`Session`].
pub ghost struct SessionView {
    /// Lowest update identifier not yet consumed.
    pub offset: int,
    /// The labels switched on, in the order in which they were switched
    /// on. As a set, see [`SessionView::selected_set`].
    pub selected: Seq<Seq<char>>,
    /// The message that carries the inline keyboard, once observed.
    pub options_message_id: Option<i32>,
    /// The free text typed last; empty until the user types.
    pub user_input: Seq<char>,
    /// The options offered, in the order in which they are shown.
    pub predefined: Seq<Seq<char>>,
}

impl SessionView {
    /// The session as it starts: nothing consumed, nothing selected, no
    /// keyboard owner, no text.
    pub open spec fn fresh(predefined: Seq<Seq<char>>) -> SessionView {
        SessionView {
            offset: 0,
            selected: Seq::empty(),
            options_message_id: None,
            user_input: Seq::empty(),
            predefined,
        }
    }

    /// Whether the session offers options at all.
    pub open spec fn has_options(self) -> bool {
        self.predefined.len() > 0
    }

    /// The set of labels switched on.
    pub open spec fn selected_set(self) -> Set<Seq<char>> {
        self.selected.to_set()
    }

    /// Whether `label` is switched on.
    pub open spec fn is_selected(self, label: Seq<char>) -> bool {
        self.selected.contains(label)
    }

    /// Whether `label` is one of the options offered.
    pub open spec fn knows(self, label: Seq<char>) -> bool {
        self.predefined.contains(label)
    }

    /// What holds of every session: the offset is not negative, no label
    /// is recorded twice, only offered options are switched on, and a
    /// keyboard owner is known only where options are offered.
    pub open spec fn wf(self) -> bool {
        &&& self.offset >= 0
        &&& self.selected.no_duplicates()
        &&& forall|i: int| 0 <= i < self.selected.len() ==> self.knows(#[trigger] self.selected[i])
        &&& (self.options_message_id is Some ==> self.has_options())
    }

    /// The session after `label` was toggled. An offered label changes
    /// sides: switched off where it was on, and switched on, behind the
    /// labels already on, where it was off. Any other label changes
    /// nothing.
    pub open spec fn toggled(self, label: Seq<char>) -> SessionView {
        if !self.knows(label) {
            self
        } else if self.is_selected(label) {
            SessionView { selected: self.selected.remove(self.selected.index_of(label)), ..self }
        } else {
            SessionView { selected: self.selected.push(label), ..self }
        }
    }

    /// The session after the user typed `text`.
    pub open spec fn with_input(self, text: Seq<char>) -> SessionView {
        SessionView { user_input: text, ..self }
    }

    /// The session after message `message_id` was seen to carry the
    /// keyboard. The first such message stays the owner.
    pub open spec fn with_owner(self, message_id: i32) -> SessionView {
        if self.has_options() && self.options_message_id is None {
            SessionView { options_message_id: Some(message_id), ..self }
        } else {
            self
        }
    }

    /// The session after the update `update_id` was consumed.
    pub open spec fn advanced_past(self, update_id: u32) -> SessionView {
        SessionView {
            offset: if self.offset > update_id { self.offset } else { update_id + 1 },
            ..self
        }
    }
}

/// The state of one feedback session.
#[derive(Debug)]
pub struct Session {
    offset: i64,
    selected: Vec<String>,
    options_message_id: Option<i32>,
    user_input: String,
    predefined: Vec<String>,
}

impl View for Session {
    type V = SessionView;

    closed spec fn view(&self) -> SessionView {
        SessionView {
            offset: self.offset as int,
            selected: self.selected.deep_view(),
            options_message_id: self.options_message_id,
            user_input: self.user_input@,
            predefined: self.predefined.deep_view(),
        }
    }
}

impl Session {
    /// What every session satisfies, as a value in a program and not
    /// only as a mathematical one: see [`SessionView::wf`].
    #[verifier::type_invariant]
    pub open spec fn well_formed(self) -> bool {
        self@.wf()
    }

    /// Starts a session that offers `predefined_options`.
    pub fn new(predefined_options: Vec<String>) -> (session: Session)
        ensures
            session@ == SessionView::fresh(predefined_options.deep_view()),
            session@.wf(),
    {
        let selected: Vec<String> = Vec::new();
        proof {
            assert(selected.deep_view() =~= Seq::<Seq<char>>::empty());
        }
        Session {
            offset: 0,
            selected,
            options_message_id: None,
            user_input: String::new(),
            predefined: predefined_options,
        }
    }

    /// The lowest update identifier not yet consumed.
    pub fn offset(&self) -> (offset: i64)
        ensures
            offset == self@.offset,
    {
        self.offset
    }

    /// Whether the session offers options.
    pub fn has_options(&self) -> (has: bool)
        ensures
            has == self@.has_options(),
    {
        self.predefined.len() > 0
    }

    /// The message that carries the inline keyboard, once observed.
    pub fn options_message_id(&self) -> (owner: Option<i32>)
        ensures
            owner == self@.options_message_id,
    {
        self.options_message_id
    }

    /// The free text typed last.
    pub fn user_input(&self) -> (text: &str)
        ensures
            text@ == self@.user_input,
    {
        self.user_input.as_str()
    }

    /// The options offered, in the order in which they are shown.
    pub fn predefined_options(&self) -> (options: &[String])
        ensures
            options.deep_view() == self@.predefined,
    {
        let options: &[String] = self.predefined.as_slice();
        proof {
            assert(options.deep_view() =~= self.predefined.deep_view());
        }
        options
    }

    /// The labels switched on, in the order in which they were switched on.
    pub fn selected_options(&self) -> (labels: &[String])
        ensures
            labels.deep_view() == self@.selected,
    {
        let labels: &[String] = self.selected.as_slice();
        proof {
            assert(labels.deep_view() =~= self.selected.deep_view());
        }
        labels
    }

    /// Whether `label` is one of the options offered.
    pub fn knows(&self, label: &str) -> (known: bool)
        ensures
            known == self@.knows(label@),
    {
        contains_label(self.predefined.as_slice(), label)
    }

    /// Whether `label` is switched on.
    pub fn is_selected(&self, label: &str) -> (on: bool)
        ensures
            on == self@.is_selected(label@),
    {
        contains_label(self.selected.as_slice(), label)
    }

    /// Toggles the option `label` and returns whether it is switched on
    /// afterwards. A label that is not among the options offered is left
    /// alone, so that only offered options are ever switched on.
    pub fn toggle_option(&mut self, label: &str) -> (selected: bool)
        ensures
            final(self)@ == old(self)@.toggled(label@),
            selected == final(self)@.is_selected(label@),
            selected == (old(self)@.knows(label@) && !old(self)@.is_selected(label@)),
            final(self)@.wf(),
    {
        proof {
            use_type_invariant(&*self);
        }
        if !contains_label(self.predefined.as_slice(), label) {
            return false;
        }
        let mut labels: Vec<String> = Vec::new();
        core::mem::swap(&mut self.selected, &mut labels);
        let ghost before = labels.deep_view();
        let found: Option<usize> = position_of(labels.as_slice(), label);
        let selected: bool = match found {
            Some(at) => {
                let _ = labels.remove(at);
                proof {
                    assert(labels.deep_view() =~= before.remove(at as int));
                    let first = before.index_of(label@);
                    assert(before[first] == label@);
                    lemma_remove_keeps_distinct(before, at as int);
                }
                false
            },
            None => {
                labels.push(label.to_owned());
                proof {
                    assert(labels.deep_view() =~= before.push(label@));
                    assert(labels.deep_view()[before.len() as int] == label@);
                }
                true
            },
        };
        core::mem::swap(&mut self.selected, &mut labels);
        selected
    }

    /// Records the free text that the user typed, in place of what was
    /// recorded before.
    pub fn record_user_input(&mut self, text: &str)
        ensures
            final(self)@ == old(self)@.with_input(text@),
            final(self)@.wf(),
    {
        proof {
            use_type_invariant(&*self);
        }
        self.user_input = text.to_owned();
    }

    /// Records that message `message_id` carries the inline keyboard. Only
    /// the first message recorded counts, and none is recorded for a
    /// session without options.
    pub fn set_keyboard_owner(&mut self, message_id: i32)
        ensures
            final(self)@ == old(self)@.with_owner(message_id),
            final(self)@.wf(),
    {
        proof {
            use_type_invariant(&*self);
        }
        if self.predefined.len() > 0 && self.options_message_id.is_none() {
            self.options_message_id = Some(message_id);
        }
    }

    /// Marks the update `update_id` as consumed: the offset moves just past
    /// it, unless it is already further on.
    pub fn advance_past(&mut self, update_id: u32)
        ensures
            final(self)@ == old(self)@.advanced_past(update_id),
            final(self)@.wf(),
    {
        proof {
            use_type_invariant(&*self);
        }
        let next: i64 = update_id as i64 + 1;
        if self.offset < next {
            self.offset = next;
        }
    }
}

/// A toggle keeps a session well formed and changes nothing but the
/// selection.
pub proof fn law_toggle_keeps_invariant(session: SessionView, label: Seq<char>)
    requires
        session.wf(),
    ensures
        session.toggled(label).wf(),
        session.toggled(label) == (SessionView {
            selected: session.toggled(label).selected,
            ..session
        }),
{
    if session.knows(label) {
        if session.is_selected(label) {
            let at = session.selected.index_of(label);
            assert(session.selected[at] == label);
            lemma_remove_keeps_distinct(session.selected, at);
            let rest = session.selected.remove(at);
            assert forall|i: int| 0 <= i < rest.len() implies session.knows(
                #[trigger] rest[i],
            ) by {
                let origin = if i < at { i } else { i + 1 };
                assert(rest[i] == session.selected[origin]);
            }
        } else {
            let more = session.selected.push(label);
            assert forall|i: int, j: int|
                0 <= i < more.len() && 0 <= j < more.len() && i != j implies more[i]
                != more[j] by {
                if i < session.selected.len() {
                    assert(session.selected.contains(more[i]));
                }
                if j < session.selected.len() {
                    assert(session.selected.contains(more[j]));
                }
            }
        }
    }
}

/// A toggle of an offered option flips it: the option is switched on
/// afterwards exactly if it was off before.
pub proof fn law_toggle_flips(session: SessionView, label: Seq<char>)
    requires
        session.wf(),
        session.knows(label),
    ensures
        session.toggled(label).is_selected(label) == !session.is_selected(label),
{
    if session.is_selected(label) {
        let at = session.selected.index_of(label);
        assert(session.selected[at] == label);
        lemma_remove_keeps_distinct(session.selected, at);
    } else {
        assert(session.selected.push(label)[session.selected.len() as int] == label);
    }
}

/// A toggle leaves every label but the toggled one as it was.
pub proof fn law_toggle_spares_others(session: SessionView, label: Seq<char>, other: Seq<char>)
    requires
        session.wf(),
        other != label,
    ensures
        session.toggled(label).is_selected(other) == session.is_selected(other),
{
    if session.knows(label) {
        if session.is_selected(label) {
            let at = session.selected.index_of(label);
            assert(session.selected[at] == label);
            lemma_remove_keeps_distinct(session.selected, at);
        } else {
            let more = session.selected.push(label);
            if session.is_selected(other) {
                let i = choose|i: int|
                    0 <= i < session.selected.len() && session.selected[i] == other;
                assert(more[i] == other);
            }
            if more.contains(other) {
                let i = choose|i: int| 0 <= i < more.len() && more[i] == other;
                assert(session.selected[i] == other);
            }
        }
    }
}

/// Toggling the same label twice gives back the set of selected options,
/// and leaves everything else as it was.
pub proof fn law_toggle_twice_restores(session: SessionView, label: Seq<char>)
    requires
        session.wf(),
    ensures
        session.toggled(label).toggled(label).selected_set() == session.selected_set(),
        session.toggled(label).toggled(label) == (SessionView {
            selected: session.toggled(label).toggled(label).selected,
            ..session
        }),
{
    let once = session.toggled(label);
    let twice = once.toggled(label);
    law_toggle_keeps_invariant(session, label);
    law_toggle_keeps_invariant(once, label);
    if session.knows(label) {
        law_toggle_flips(session, label);
        law_toggle_flips(once, label);
        assert forall|other: Seq<char>|
            twice.selected_set().contains(other) == session.selected_set().contains(
                other,
            ) by {
            if other != label {
                law_toggle_spares_others(session, label, other);
                law_toggle_spares_others(once, label, other);
            }
        }
        assert(twice.selected_set() =~= session.selected_set());
    }
}

/// From a session in which nothing is selected, one toggle of an offered
/// option selects exactly that option, and a second toggle leaves nothing
/// selected.
pub proof fn law_toggle_from_nothing(predefined: Seq<Seq<char>>, label: Seq<char>)
    requires
        predefined.contains(label),
    ensures
        SessionView::fresh(predefined).toggled(label).selected == seq![label],
        SessionView::fresh(predefined).toggled(label).is_selected(label),
        SessionView::fresh(predefined).toggled(label).toggled(label).selected == Seq::<
            Seq<char>,
        >::empty(),
        !SessionView::fresh(predefined).toggled(label).toggled(label).is_selected(label),
{
    let start = SessionView::fresh(predefined);
    let once = start.toggled(label);
    assert(once.selected =~= seq![label]);
    assert(once.selected[0] == label);
    let at = once.selected.index_of(label);
    assert(once.selected[at] == label);
    assert(once.toggled(label).selected =~= Seq::<Seq<char>>::empty());
}

/// The first message recorded as owner of the keyboard stays the owner:
/// once an owner is known, recording another message changes nothing.
pub proof fn law_first_owner_wins(session: SessionView, first: i32, other: i32)
    ensures
        session.options_message_id is Some ==> session.with_owner(other) == session,
        session.with_owner(first).with_owner(other) == session.with_owner(first),
        session.has_options() && session.options_message_id is None ==> session.with_owner(
            first,
        ).with_owner(other).options_message_id == Some(first),
{
}

/// The offset never moves back, and after an update was consumed it lies
/// past that update.
pub proof fn law_offset_moves_forward(session: SessionView, update_id: u32)
    ensures
        session.advanced_past(update_id).offset >= session.offset,
        session.advanced_past(update_id).offset > update_id,
        session.advanced_past(update_id).offset == if session.offset > update_id {
            session.offset
        } else {
            update_id + 1
        },
{
}

/// The place of `label` in `labels`, where it occurs.
fn position_of(labels: &[String], label: &str) -> (found: Option<usize>)
    ensures
        match found {
            Some(at) => at < labels.len() && labels.deep_view()[at as int] == label@,
            None => !labels.deep_view().contains(label@),
        },
{
    let mut i: usize = 0;
    while i < labels.len()
        invariant
            i <= labels.len(),
            forall|k: int| 0 <= k < i ==> labels.deep_view()[k] != label@,
        decreases labels.len() - i,
    {
        if same_text(labels[i].as_str(), label) {
            return Some(i);
        }
        i += 1;
    }
    None
}

/// Taking one label out of a list without repeats leaves a list without
/// repeats, which no longer holds that label.
proof fn lemma_remove_keeps_distinct(labels: Seq<Seq<char>>, at: int)
    requires
        labels.no_duplicates(),
        0 <= at < labels.len(),
    ensures
        labels.remove(at).no_duplicates(),
        !labels.remove(at).contains(labels[at]),
        forall|label: Seq<char>|
            label != labels[at] ==> (#[trigger] labels.remove(at).contains(label)
                <==> labels.contains(label)),
{
    let rest = labels.remove(at);
    assert forall|i: int, j: int| 0 <= i < rest.len() && 0 <= j < rest.len() && i != j implies rest[i]
        != rest[j] by {
        let oi = if i < at { i } else { i + 1 };
        let oj = if j < at { j } else { j + 1 };
        assert(rest[i] == labels[oi]);
        assert(rest[j] == labels[oj]);
    }
    assert forall|label: Seq<char>| label != labels[at] implies (#[trigger] rest.contains(label)
        <==> labels.contains(label)) by {
        if rest.contains(label) {
            let i = choose|i: int| 0 <= i < rest.len() && rest[i] == label;
            let oi = if i < at { i } else { i + 1 };
            assert(labels[oi] == label);
        }
        if labels.contains(label) {
            let i = choose|i: int| 0 <= i < labels.len() && labels[i] == label;
            let ri = if i < at { i } else { i - 1 };
            assert(rest[ri] == label);
        }
    }
    if rest.contains(labels[at]) {
        let i = choose|i: int| 0 <= i < rest.len() && rest[i] == labels[at];
        let oi = if i < at { i } else { i + 1 };
        assert(labels[oi] == labels[at]);
    }
}

} // verus!
