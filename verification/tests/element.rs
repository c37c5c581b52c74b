use numeric_stepper::{Button, ButtonShape, Control, Element, IconName, IconSize, Row};

fn button(control: Control, on_click: u32) -> Element<u32> {
    Element::Button(Button { control, shape: ButtonShape::Square, size: IconSize::Small, on_click })
}

fn row(children: Vec<Element<u32>>) -> Row<u32> {
    Row { id: None, padded: false, bordered: false, children }
}

#[test]
fn controls_have_their_identifiers() {
    assert_eq!(Control::Reset.id(), "reset");
    assert_eq!(Control::Decrement.id(), "decrement");
    assert_eq!(Control::Increment.id(), "increment");
}

#[test]
fn controls_have_their_icons() {
    assert_eq!(Control::Reset.icon(), IconName::RotateCcw);
    assert_eq!(Control::Decrement.icon(), IconName::Dash);
    assert_eq!(Control::Increment.icon(), IconName::Plus);
}

#[test]
fn empty_row_answers_to_no_control() {
    let empty = row(vec![]);

    assert_eq!(empty.handler(Control::Reset), None);
    assert_eq!(empty.handler(Control::Decrement), None);
    assert_eq!(empty.handler(Control::Increment), None);
}

#[test]
fn row_without_buttons_answers_to_no_control() {
    let quiet = row(vec![
        Element::Label("10".to_string()),
        Element::Divider,
        Element::Spacer(IconSize::Medium),
        Element::Row(row(vec![Element::Divider, Element::Row(row(vec![]))])),
    ]);

    assert_eq!(quiet.handler(Control::Reset), None);
    assert_eq!(quiet.handler(Control::Decrement), None);
    assert_eq!(quiet.handler(Control::Increment), None);
}

#[test]
fn handler_is_that_of_the_matching_button() {
    let tree = row(vec![
        button(Control::Decrement, 1),
        Element::Label("10".to_string()),
        button(Control::Increment, 2),
    ]);

    assert_eq!(tree.handler(Control::Decrement), Some(&1));
    assert_eq!(tree.handler(Control::Increment), Some(&2));
    assert_eq!(tree.handler(Control::Reset), None);
}

#[test]
fn first_button_from_the_left_answers() {
    let tree = row(vec![
        Element::Divider,
        button(Control::Increment, 1),
        button(Control::Increment, 2),
        button(Control::Decrement, 3),
        button(Control::Increment, 4),
    ]);

    assert_eq!(tree.handler(Control::Increment), Some(&1));
    assert_eq!(tree.handler(Control::Decrement), Some(&3));
}

#[test]
fn handler_is_found_in_nested_rows() {
    let tree = row(vec![
        Element::Row(row(vec![
            Element::Label("a".to_string()),
            Element::Row(row(vec![Element::Divider, button(Control::Reset, 7)])),
        ])),
        button(Control::Reset, 8),
        Element::Row(row(vec![button(Control::Decrement, 9)])),
    ]);

    assert_eq!(tree.handler(Control::Reset), Some(&7));
    assert_eq!(tree.handler(Control::Decrement), Some(&9));
    assert_eq!(tree.handler(Control::Increment), None);
}

#[test]
fn button_before_a_nested_row_answers_first() {
    let tree = row(vec![
        Element::Row(row(vec![])),
        button(Control::Increment, 1),
        Element::Row(row(vec![button(Control::Increment, 2)])),
    ]);

    assert_eq!(tree.handler(Control::Increment), Some(&1));
}
