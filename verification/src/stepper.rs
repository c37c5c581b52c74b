//! The stepper itself: what it is configured with, and the tree it renders to.

use crate::element::{
    lemma_views_of, Button, ButtonShape, Control, Element, ElementView, IconSize, Row, RowView,
};
use vstd::prelude::*;

verus! {

/// A value flanked by a decrement and an increment button, with an optional
/// reset button in front.
///
/// The stepper keeps no state of its own. It is made just before it is drawn,
/// from the text to show and the handlers to run, and is used up by
/// [`NumericStepper::render`]. What the value means, and what a step does to
/// it, is the caller's business: the text is shown as it is given.
///
/// `H` is the host toolkit's type of click handler.
pub struct NumericStepper<H> {
    id: String,
    value: String,
    on_decrement: H,
    on_increment: H,
    /// Whether to reserve space for the reset button.
    reserve_space_for_reset: bool,
    on_reset: Option<H>,
    border: bool,
}

/// What a [`NumericStepper`] stands for.
pub struct StepperView<H> {
    /// The identifier of the rendered container.
    pub id: Seq<char>,
    /// The text between the two buttons.
    pub value: Seq<char>,
    pub on_decrement: H,
    pub on_increment: H,
    /// Whether the room of a reset button is kept free while there is none.
    pub reserve_space_for_reset: bool,
    pub on_reset: Option<H>,
    /// Whether the value and its two buttons are framed.
    pub border: bool,
}

impl<H> View for NumericStepper<H> {
    type V = StepperView<H>;

    closed spec fn view(&self) -> StepperView<H> {
        StepperView {
            id: self.id@,
            value: self.value@,
            on_decrement: self.on_decrement,
            on_increment: self.on_increment,
            reserve_space_for_reset: self.reserve_space_for_reset,
            on_reset: self.on_reset,
            border: self.border,
        }
    }
}

/// The button that a stepper draws for `control`: square, with a small icon.
pub open spec fn stepper_button<H>(control: Control, on_click: H) -> Button<H> {
    Button { control, shape: ButtonShape::Square, size: IconSize::Small, on_click }
}

impl<H> StepperView<H> {
    /// A stepper as it is first made: unframed, without a reset button and
    /// without room kept for one.
    pub open spec fn new(
        id: Seq<char>,
        value: Seq<char>,
        on_decrement: H,
        on_increment: H,
    ) -> Self {
        StepperView {
            id,
            value,
            on_decrement,
            on_increment,
            reserve_space_for_reset: false,
            on_reset: None,
            border: false,
        }
    }

    pub open spec fn reserve_space_for_reset(self, reserve_space_for_reset: bool) -> Self {
        StepperView { reserve_space_for_reset, ..self }
    }

    pub open spec fn on_reset(self, on_reset: H) -> Self {
        StepperView { on_reset: Some(on_reset), ..self }
    }

    pub open spec fn border(self) -> Self {
        StepperView { border: true, ..self }
    }

    /// Whether this stepper has from `new` what `other` has from it.
    pub open spec fn same_construction(self, other: Self) -> bool {
        &&& self.id == other.id
        &&& self.value == other.value
        &&& self.on_decrement == other.on_decrement
        &&& self.on_increment == other.on_increment
    }

    /// What stands in front of the value group: the reset button where there
    /// is a reset handler, else a spacer of a button's size where room is kept
    /// for one, else nothing.
    pub open spec fn leading_slot(self) -> Option<ElementView<H>> {
        match self.on_reset {
            Some(on_reset) => Some(ElementView::Button(stepper_button(Control::Reset, on_reset))),
            None => if self.reserve_space_for_reset {
                Some(ElementView::Spacer(IconSize::Small))
            } else {
                None
            },
        }
    }

    /// The value between its two buttons, with a divider on either side of it
    /// where the group is framed.
    pub open spec fn value_group(self) -> RowView<H> {
        let decrement = ElementView::Button(stepper_button(Control::Decrement, self.on_decrement));
        let label = ElementView::Label(self.value);
        let increment = ElementView::Button(stepper_button(Control::Increment, self.on_increment));
        RowView {
            id: None,
            padded: true,
            bordered: self.border,
            children: if self.border {
                seq![decrement, ElementView::Divider, label, ElementView::Divider, increment]
            } else {
                seq![decrement, label, increment]
            },
        }
    }

    /// The whole tree: a container under the stepper's identifier that holds
    /// the leading slot, if anything is in it, and then the value group.
    pub open spec fn layout(self) -> RowView<H> {
        let group = ElementView::Row(self.value_group());
        RowView {
            id: Some(self.id),
            padded: false,
            bordered: false,
            children: match self.leading_slot() {
                Some(leading) => seq![leading, group],
                None => seq![group],
            },
        }
    }
}

impl<H> NumericStepper<H> {
    /// A stepper that shows `value` under the identifier `id`, without a
    /// border, a reset button or room kept for one. Any text will do for
    /// either, the empty one too.
    pub fn new(id: &str, value: &str, on_decrement: H, on_increment: H) -> (stepper: Self)
        ensures
            stepper@ == StepperView::new(id@, value@, on_decrement, on_increment),
    {
        NumericStepper {
            id: id.to_owned(),
            value: value.to_owned(),
            on_decrement,
            on_increment,
            border: false,
            reserve_space_for_reset: false,
            on_reset: None,
        }
    }

    /// Says whether the room of a reset button is kept free while the stepper
    /// has none, so that steppers with and without one line up.
    pub fn reserve_space_for_reset(self, reserve_space_for_reset: bool) -> (stepper: Self)
        ensures
            stepper@ == self@.reserve_space_for_reset(reserve_space_for_reset),
    {
        let mut stepper = self;
        stepper.reserve_space_for_reset = reserve_space_for_reset;
        stepper
    }

    /// Gives the stepper a reset button that runs `on_reset`.
    pub fn on_reset(self, on_reset: H) -> (stepper: Self)
        ensures
            stepper@ == self@.on_reset(on_reset),
    {
        let mut stepper = self;
        stepper.on_reset = Some(on_reset);
        stepper
    }

    /// Frames the value and its two buttons, with a divider on either side of
    /// the value.
    pub fn border(self) -> (stepper: Self)
        ensures
            stepper@ == self@.border(),
    {
        let mut stepper = self;
        stepper.border = true;
        stepper
    }

    /// Lays the stepper out. Nothing is run: the handlers are only handed on
    /// to the buttons that will trigger them.
    pub fn render(self) -> (row: Row<H>)
        ensures
            row@ == self@.layout(),
    {
        let ghost view = self@;
        let NumericStepper {
            id,
            value,
            on_decrement,
            on_increment,
            reserve_space_for_reset,
            on_reset,
            border,
        } = self;

        let mut children: Vec<Element<H>> = Vec::new();
        match on_reset {
            Some(on_reset) => {
                children.push(Element::Button(icon_button(Control::Reset, on_reset)));
            },
            None => {
                if reserve_space_for_reset {
                    children.push(Element::Spacer(IconSize::Small));
                }
            },
        }

        let mut group: Vec<Element<H>> = Vec::new();
        group.push(Element::Button(icon_button(Control::Decrement, on_decrement)));
        if border {
            group.push(Element::Divider);
        }
        group.push(Element::Label(value));
        if border {
            group.push(Element::Divider);
        }
        group.push(Element::Button(icon_button(Control::Increment, on_increment)));
        let group = Row { id: None, padded: true, bordered: border, children: group };
        proof {
            lemma_views_of(group.children@);
            assert(group@.children =~= view.value_group().children);
        }

        children.push(Element::Row(group));
        let row = Row { id: Some(id), padded: false, bordered: false, children };
        proof {
            lemma_views_of(row.children@);
            assert(row@.children =~= view.layout().children);
        }
        row
    }
}

fn icon_button<H>(control: Control, on_click: H) -> (button: Button<H>)
    ensures
        button == stepper_button(control, on_click),
{
    Button { control, shape: ButtonShape::Square, size: IconSize::Small, on_click }
}

} // verus!
