use numeric_stepper::{
    Button, ButtonShape, ComponentScope, Control, Element, IconSize, NoOp, NumericStepper, Row,
};

fn button(control: Control) -> Element<NoOp> {
    Element::Button(Button {
        control,
        shape: ButtonShape::Square,
        size: IconSize::Small,
        on_click: NoOp,
    })
}

#[test]
fn component_is_named() {
    assert_eq!(NumericStepper::name(), "NumericStepper");
}

#[test]
fn component_sorts_by_its_name() {
    assert_eq!(NumericStepper::sort_name(), "NumericStepper");
    assert_eq!(NumericStepper::sort_name(), NumericStepper::name());
}

#[test]
fn component_is_filed_under_input() {
    assert_eq!(NumericStepper::scope(), ComponentScope::Input);
}

#[test]
fn component_is_described() {
    assert_eq!(
        NumericStepper::description(),
        Some("A button used to increment or decrement a numeric value. ")
    );
}

#[test]
fn preview_shows_a_plain_and_a_framed_stepper() {
    let examples = NumericStepper::preview().expect("a preview");

    assert_eq!(examples.len(), 2);
    let titles: Vec<&str> = examples.iter().map(|example| example.title).collect();
    assert_eq!(titles, vec!["Borderless", "Border"]);

    let mut rendered: Vec<Row<NoOp>> =
        examples.into_iter().map(|example| example.stepper.render()).collect();
    let framed = rendered.pop().expect("the framed example");
    let plain = rendered.pop().expect("the plain example");

    assert_eq!(
        plain,
        Row {
            id: Some("numeric-stepper-component-preview".to_string()),
            padded: false,
            bordered: false,
            children: vec![Element::Row(Row {
                id: None,
                padded: true,
                bordered: false,
                children: vec![
                    button(Control::Decrement),
                    Element::Label("10".to_string()),
                    button(Control::Increment),
                ],
            })],
        }
    );
    assert_eq!(
        framed,
        Row {
            id: Some("numeric-stepper-with-border-component-preview".to_string()),
            padded: false,
            bordered: false,
            children: vec![Element::Row(Row {
                id: None,
                padded: true,
                bordered: true,
                children: vec![
                    button(Control::Decrement),
                    Element::Divider,
                    Element::Label("10".to_string()),
                    Element::Divider,
                    button(Control::Increment),
                ],
            })],
        }
    );
}

#[test]
fn preview_is_the_same_each_time() {
    let first: Vec<Row<NoOp>> = NumericStepper::preview()
        .expect("a preview")
        .into_iter()
        .map(|example| example.stepper.render())
        .collect();
    let second: Vec<Row<NoOp>> = NumericStepper::preview()
        .expect("a preview")
        .into_iter()
        .map(|example| example.stepper.render())
        .collect();

    assert_eq!(first, second);
}
