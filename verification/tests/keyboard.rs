use remote_feedback::keyboard::{
    contains_label, opening_keyboard, render_button, render_keyboard, Button, KeyboardLayout,
};

fn labels(items: &[&str]) -> Vec<String> {
    items.iter().map(|s| s.to_string()).collect()
}

fn button(text: &str, callback_data: &str) -> Button {
    Button { text: text.to_string(), callback_data: callback_data.to_string() }
}

#[test]
fn keyboard_of_no_options_is_empty() {
    let layout = render_keyboard(&[], &[]);
    assert_eq!(layout, KeyboardLayout { rows: Vec::new() });
}

#[test]
fn keyboard_of_two_options_is_one_row() {
    let layout = render_keyboard(&labels(&["Yes", "No"]), &[]);
    assert_eq!(
        layout,
        KeyboardLayout { rows: vec![vec![button("Yes", "toggle:Yes"), button("No", "toggle:No")]] }
    );
}

#[test]
fn keyboard_of_three_options_ends_with_a_short_row() {
    let layout = render_keyboard(&labels(&["A", "B", "C"]), &labels(&["C", "A"]));
    assert_eq!(
        layout,
        KeyboardLayout {
            rows: vec![
                vec![button("✅ A", "toggle:A"), button("B", "toggle:B")],
                vec![button("✅ C", "toggle:C")],
            ],
        }
    );
}

#[test]
fn keyboard_of_one_option() {
    let layout = render_keyboard(&labels(&["Only"]), &labels(&["Only"]));
    assert_eq!(layout, KeyboardLayout { rows: vec![vec![button("✅ Only", "toggle:Only")]] });
}

#[test]
fn rendering_twice_gives_the_same_layout() {
    let options = labels(&["A", "B", "C", "D", "E"]);
    let selected = labels(&["D", "B"]);
    let first = render_keyboard(&options, &selected);
    let second = render_keyboard(&options, &selected);
    assert_eq!(first, second);
}

#[test]
fn rendering_ignores_the_order_of_the_selection() {
    let options = labels(&["A", "B", "C"]);
    let first = render_keyboard(&options, &labels(&["A", "C"]));
    let second = render_keyboard(&options, &labels(&["C", "A", "C"]));
    assert_eq!(first, second);
}

#[test]
fn callback_data_does_not_depend_on_selection() {
    let options = labels(&["A", "B"]);
    let off = render_keyboard(&options, &[]);
    let on = render_keyboard(&options, &options);
    for (row_off, row_on) in off.rows.iter().zip(on.rows.iter()) {
        for (b_off, b_on) in row_off.iter().zip(row_on.iter()) {
            assert_eq!(b_off.callback_data, b_on.callback_data);
            assert_ne!(b_off.text, b_on.text);
        }
    }
}

#[test]
fn button_of_selected_option_is_marked() {
    assert_eq!(render_button("Yes", &labels(&["Yes"])), button("✅ Yes", "toggle:Yes"));
    assert_eq!(render_button("Yes", &labels(&["No"])), button("Yes", "toggle:Yes"));
}

#[test]
fn contains_label_finds_exact_labels_only() {
    let list = labels(&["alpha", "beta"]);
    assert!(contains_label(&list, "alpha"));
    assert!(contains_label(&list, "beta"));
    assert!(!contains_label(&list, "alph"));
    assert!(!contains_label(&list, "Alpha"));
    assert!(!contains_label(&[], "alpha"));
}

#[test]
fn opening_keyboard_has_nothing_selected() {
    assert_eq!(
        opening_keyboard(&labels(&["Yes", "No", "Later"])),
        Some(KeyboardLayout {
            rows: vec![
                vec![button("Yes", "toggle:Yes"), button("No", "toggle:No")],
                vec![button("Later", "toggle:Later")],
            ],
        })
    );
}

#[test]
fn no_options_no_opening_keyboard() {
    assert_eq!(opening_keyboard(&[]), None);
}
