//! The inline keyboard that shows the options of a session and which of
//! them are switched on.

use crate::protocol::{make_toggle_data, toggle_data};
use crate::text::same_text;
use vstd::prelude::*;
use vstd::string::*;

verus! {

/// Mark placed in front of the label of an option that is switched on.
pub const SELECTED_MARK: &'static str = "✅ ";

/// Number of buttons in a full row of the keyboard.
pub const BUTTONS_PER_ROW: usize = 2;

/// One inline button.
#[derive(Debug, Clone, PartialEq, Eq)]
pub struct Button {
    /// The text shown on the button.
    pub text: String,
    /// The identifier sent back when the button is pressed.
    pub callback_data: String,
}

/// The mathematical value of a [`Button`].
pub ghost struct ButtonView {
    pub text: Seq<char>,
    pub callback_data: Seq<char>,
}

impl View for Button {
    type V = ButtonView;

    open spec fn view(&self) -> ButtonView {
        ButtonView { text: self.text@, callback_data: self.callback_data@ }
    }
}

impl DeepView for Button {
    type V = ButtonView;

    open spec fn deep_view(&self) -> ButtonView {
        self@
    }
}

/// An inline keyboard: rows of buttons, top to bottom.
#[derive(Debug, Clone, PartialEq, Eq)]
pub struct KeyboardLayout {
    pub rows: Vec<Vec<Button>>,
}

/// The mathematical value of a [`KeyboardLayout`].
pub type KeyboardView = Seq<Seq<ButtonView>>;

impl View for KeyboardLayout {
    type V = KeyboardView;

    open spec fn view(&self) -> KeyboardView {
        self.rows.deep_view()
    }
}

impl DeepView for KeyboardLayout {
    type V = KeyboardView;

    open spec fn deep_view(&self) -> KeyboardView {
        self@
    }
}

/// The text on the button of `label`: the label itself, behind the mark
/// where the option is switched on.
pub open spec fn button_text(label: Seq<char>, selected: Set<Seq<char>>) -> Seq<char> {
    if selected.contains(label) {
        SELECTED_MARK@ + label
    } else {
        label
    }
}

/// The button of `label`. Its callback identifier depends on the label
/// alone, so it stays the same however the selection changes.
pub open spec fn button_for(label: Seq<char>, selected: Set<Seq<char>>) -> ButtonView {
    ButtonView { text: button_text(label, selected), callback_data: toggle_data(label) }
}

/// Number of rows that `count` options take.
pub open spec fn row_count(count: nat) -> nat {
    (count + 1) / 2
}

/// Number of buttons in row `row` of a keyboard of `count` options.
pub open spec fn row_width(count: nat, row: int) -> nat {
    if 2 * row + 2 <= count {
        2
    } else {
        1
    }
}

/// The keyboard of `options` with the options in `selected` switched on:
/// one button per option, in the order of `options`, two to a row, with a
/// last row of one where their number is odd.
pub open spec fn keyboard_model(options: Seq<Seq<char>>, selected: Set<Seq<char>>) -> KeyboardView {
    Seq::new(
        row_count(options.len()),
        |row: int|
            Seq::new(
                row_width(options.len(), row),
                |column: int| button_for(options[2 * row + column], selected),
            ),
    )
}

/// Whether `label` occurs in `labels`.
pub fn contains_label(labels: &[String], label: &str) -> (found: bool)
    ensures
        found == labels.deep_view().contains(label@),
{
    let mut i: usize = 0;
    while i < labels.len()
        invariant
            i <= labels.len(),
            forall|k: int| 0 <= k < i ==> labels.deep_view()[k] != label@,
        decreases labels.len() - i,
    {
        if same_text(labels[i].as_str(), label) {
            assert(labels.deep_view()[i as int] == label@);
            return true;
        }
        i += 1;
    }
    false
}

/// Builds the button of one option.
pub fn render_button(label: &str, selected: &[String]) -> (button: Button)
    ensures
        button@ == button_for(label@, selected.deep_view().to_set()),
{
    let on: bool = contains_label(selected, label);
    let text: String = if on {
        SELECTED_MARK.to_owned().concat(label)
    } else {
        label.to_owned()
    };
    Button { text, callback_data: make_toggle_data(label) }
}

/// Renders the keyboard of a session. The layout is a function of the
/// options and of the set of labels in `selected`: neither the order of
/// `selected` nor a label repeated in it changes the result.
pub fn render_keyboard(options: &[String], selected: &[String]) -> (layout: KeyboardLayout)
    ensures
        layout@ == keyboard_model(options.deep_view(), selected.deep_view().to_set()),
{
    let ghost labels = options.deep_view();
    let ghost chosen = selected.deep_view().to_set();
    let count: usize = options.len();
    let mut rows: Vec<Vec<Button>> = Vec::new();
    let mut start: usize = 0;
    while start < count
        invariant
            count == options.len(),
            labels == options.deep_view(),
            chosen == selected.deep_view().to_set(),
            start <= count,
            start % 2 == 0 || start == count,
            rows.len() == row_count(start as nat),
            forall|row: int|
                0 <= row < rows.len() ==> #[trigger] rows.deep_view()[row] == keyboard_model(
                    labels,
                    chosen,
                )[row],
        decreases count - start,
    {
        let ghost row_index = rows.len() as int;
        let ghost before = rows.deep_view();
        let mut row: Vec<Button> = Vec::new();
        row.push(render_button(options[start].as_str(), selected));
        let next: usize = if count - start >= BUTTONS_PER_ROW {
            row.push(render_button(options[start + 1].as_str(), selected));
            start + BUTTONS_PER_ROW
        } else {
            count
        };
        proof {
            assert(row.deep_view() =~= keyboard_model(labels, chosen)[row_index]);
        }
        rows.push(row);
        proof {
            assert forall|r: int| 0 <= r < rows.len() implies #[trigger] rows.deep_view()[r]
                == keyboard_model(labels, chosen)[r] by {
                if r < row_index {
                    assert(rows.deep_view()[r] == before[r]);
                }
            }
        }
        start = next;
    }
    let layout = KeyboardLayout { rows };
    proof {
        assert(layout@ =~= keyboard_model(labels, chosen));
    }
    layout
}

/// The keyboard that opens a session: every option switched off, and no
/// keyboard at all where the session offers no options.
pub open spec fn opening_keyboard_model(options: Seq<Seq<char>>) -> Option<KeyboardView> {
    if options.len() == 0 {
        None
    } else {
        Some(keyboard_model(options, Set::empty()))
    }
}

/// Renders the keyboard that opens a session.
pub fn opening_keyboard(options: &[String]) -> (layout: Option<KeyboardLayout>)
    ensures
        layout.deep_view() == opening_keyboard_model(options.deep_view()),
{
    if options.len() == 0 {
        None
    } else {
        let nothing: Vec<String> = Vec::new();
        let none: &[String] = nothing.as_slice();
        proof {
            assert(none.deep_view().to_set() =~= Set::<Seq<char>>::empty());
        }
        Some(render_keyboard(options, none))
    }
}

/// Rendering depends on the set of selected labels only: two selections
/// that hold the same labels give the same keyboard, so rendering again
/// after nothing changed gives the identical layout.
pub proof fn law_render_repeatable(
    options: Seq<Seq<char>>,
    first: Seq<Seq<char>>,
    second: Seq<Seq<char>>,
)
    requires
        first.to_set() == second.to_set(),
    ensures
        keyboard_model(options, first.to_set()) == keyboard_model(options, second.to_set()),
{
}

/// Every option has exactly one button, and that button carries the
/// toggle identifier of the option whatever the selection is.
pub proof fn law_one_button_per_option(
    options: Seq<Seq<char>>,
    selected: Set<Seq<char>>,
    index: int,
)
    requires
        0 <= index < options.len(),
    ensures
        index / 2 < keyboard_model(options, selected).len(),
        index % 2 < keyboard_model(options, selected)[index / 2].len(),
        keyboard_model(options, selected)[index / 2][index % 2] == button_for(
            options[index],
            selected,
        ),
        keyboard_model(options, selected)[index / 2][index % 2].callback_data == toggle_data(
            options[index],
        ),
{
}

} // verus!
