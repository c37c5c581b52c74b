//! The elements a stepper is drawn from, as plain data that a host toolkit
//! turns into widgets of its own.

use vstd::prelude::*;

verus! {

/// One of the three things a stepper lets its user do.
#[derive(Clone, Copy, PartialEq, Eq, Structural, Debug, Hash)]
pub enum Control {
    Reset,
    Decrement,
    Increment,
}

/// The glyph drawn on a button.
#[derive(Clone, Copy, PartialEq, Eq, Structural, Debug, Hash)]
pub enum IconName {
    /// An arrow turning anticlockwise.
    RotateCcw,
    /// A horizontal stroke.
    Dash,
    /// A cross of two strokes.
    Plus,
}

/// How large an icon, and with it the button around it, is drawn.
#[derive(Clone, Copy, PartialEq, Eq, Structural, Debug, Hash)]
pub enum IconSize {
    XSmall,
    Small,
    Medium,
}

/// The outline of a button.
#[derive(Clone, Copy, PartialEq, Eq, Structural, Debug, Hash)]
pub enum ButtonShape {
    /// As wide as it is high.
    Square,
    /// Wider than it is high.
    Wide,
}

impl Control {
    pub open spec fn spec_id(self) -> Seq<char> {
        match self {
            Control::Reset => "reset"@,
            Control::Decrement => "decrement"@,
            Control::Increment => "increment"@,
        }
    }

    pub open spec fn spec_icon(self) -> IconName {
        match self {
            Control::Reset => IconName::RotateCcw,
            Control::Decrement => IconName::Dash,
            Control::Increment => IconName::Plus,
        }
    }

    /// The name under which the host toolkit tracks this control's button.
    pub fn id(self) -> (id: &'static str)
        ensures
            id@ == self.spec_id(),
    {
        match self {
            Control::Reset => "reset",
            Control::Decrement => "decrement",
            Control::Increment => "increment",
        }
    }

    /// The icon on this control's button.
    #[verifier::when_used_as_spec(spec_icon)]
    pub fn icon(self) -> (icon: IconName)
        ensures
            icon == self.spec_icon(),
    {
        match self {
            Control::Reset => IconName::RotateCcw,
            Control::Decrement => IconName::Dash,
            Control::Increment => IconName::Plus,
        }
    }
}

/// A button that shows the icon of its control and runs `on_click` when it is
/// activated.
///
/// `H` is whatever the host toolkit calls a click handler. It is carried
/// through untouched and never called from here.
#[derive(PartialEq, Eq, Debug)]
pub struct Button<H> {
    pub control: Control,
    pub shape: ButtonShape,
    pub size: IconSize,
    pub on_click: H,
}

/// A node of a rendered tree.
#[derive(PartialEq, Eq, Debug)]
pub enum Element<H> {
    Button(Button<H>),
    /// A run of text, shown as it is.
    Label(String),
    /// A thin vertical rule in the theme's border colour.
    Divider,
    /// An empty box that takes up the room of a square button with an icon
    /// of the given size, and neither grows nor shrinks.
    Spacer(IconSize),
    Row(Row<H>),
}

/// A container that lays its children out from left to right, a small gap
/// apart.
#[derive(PartialEq, Eq, Debug)]
pub struct Row<H> {
    /// The identifier by which the host toolkit recognises this container
    /// from one render to the next.
    pub id: Option<String>,
    /// Whether the children are set in from the left and right edges, within
    /// rounded corners.
    pub padded: bool,
    /// Whether the container is outlined in the theme's border colour and
    /// filled with its editor background.
    pub bordered: bool,
    pub children: Vec<Element<H>>,
}

/// What an [`Element`] stands for: the same tree over sequences.
pub enum ElementView<H> {
    Button(Button<H>),
    Label(Seq<char>),
    Divider,
    Spacer(IconSize),
    Row(RowView<H>),
}

/// What a [`Row`] stands for.
pub struct RowView<H> {
    pub id: Option<Seq<char>>,
    pub padded: bool,
    pub bordered: bool,
    pub children: Seq<ElementView<H>>,
}

/// What `element` stands for.
pub open spec fn element_view<H>(element: Element<H>) -> ElementView<H>
    decreases element,
{
    match element {
        Element::Button(button) => ElementView::Button(button),
        Element::Label(text) => ElementView::Label(text@),
        Element::Divider => ElementView::Divider,
        Element::Spacer(size) => ElementView::Spacer(size),
        Element::Row(row) => ElementView::Row(row_view(row)),
    }
}

/// What `row` stands for.
pub open spec fn row_view<H>(row: Row<H>) -> RowView<H>
    decreases row,
{
    RowView {
        id: match row.id {
            Some(id) => Some(id@),
            None => None,
        },
        padded: row.padded,
        bordered: row.bordered,
        children: views_of(row.children@),
    }
}

/// The views of `elements`, one for one.
pub open spec fn views_of<H>(elements: Seq<Element<H>>) -> Seq<ElementView<H>>
    decreases elements,
{
    if elements.len() == 0 {
        Seq::empty()
    } else {
        views_of(elements.drop_last()).push(element_view(elements.last()))
    }
}

impl<H> View for Element<H> {
    type V = ElementView<H>;

    open spec fn view(&self) -> ElementView<H> {
        element_view(*self)
    }
}

impl<H> View for Row<H> {
    type V = RowView<H>;

    open spec fn view(&self) -> RowView<H> {
        row_view(*self)
    }
}

/// `views_of` keeps the length and views each element in its place.
pub proof fn lemma_views_of<H>(elements: Seq<Element<H>>)
    ensures
        views_of(elements).len() == elements.len(),
        forall|i: int| 0 <= i < elements.len() ==> views_of(elements)[i] == elements[i]@,
    decreases elements.len(),
{
    if elements.len() > 0 {
        lemma_views_of(elements.drop_last());
    }
}

impl<H> ElementView<H> {
    /// Whether this is the button for `control`.
    pub open spec fn is_button_for(self, control: Control) -> bool {
        self matches ElementView::Button(button) && button.control == control
    }

    /// The elements of this subtree that are no containers, from left to
    /// right.
    pub open spec fn leaves(self) -> Seq<ElementView<H>>
        decreases self,
    {
        match self {
            ElementView::Row(row) => leaves_of(row.children),
            _ => seq![self],
        }
    }

    /// Whether a container in this subtree is outlined and filled.
    pub open spec fn framed(self) -> bool
        decreases self,
    {
        match self {
            ElementView::Row(row) => row.bordered || any_framed(row.children),
            _ => false,
        }
    }
}

/// The leaves of each of `elements` in turn.
pub open spec fn leaves_of<H>(elements: Seq<ElementView<H>>) -> Seq<ElementView<H>>
    decreases elements,
{
    if elements.len() == 0 {
        Seq::empty()
    } else {
        elements.first().leaves() + leaves_of(elements.drop_first())
    }
}

/// Whether one of `elements` is framed.
pub open spec fn any_framed<H>(elements: Seq<ElementView<H>>) -> bool
    decreases elements,
{
    if elements.len() == 0 {
        false
    } else {
        elements.first().framed() || any_framed(elements.drop_first())
    }
}

/// The test that picks out the buttons for `control`.
pub open spec fn button_for<H>(control: Control) -> spec_fn(ElementView<H>) -> bool {
    |element: ElementView<H>| element.is_button_for(control)
}

/// The handler of the first of `buttons`, if there is any.
pub open spec fn first_on_click<H>(buttons: Seq<ElementView<H>>) -> Option<H> {
    if buttons.len() > 0 && buttons.first() is Button {
        Some(buttons.first()->Button_0.on_click)
    } else {
        None
    }
}

impl<H> RowView<H> {
    /// The elements below this container that are no containers themselves,
    /// from left to right.
    pub open spec fn leaves(self) -> Seq<ElementView<H>> {
        leaves_of(self.children)
    }

    /// Whether this container, or one below it, is outlined and filled.
    pub open spec fn framed(self) -> bool {
        self.bordered || any_framed(self.children)
    }

    /// The handler that a click on `control` runs: that of the first button
    /// for `control` below this container, if there is one.
    pub open spec fn handler(self, control: Control) -> Option<H> {
        first_on_click(self.leaves().filter(button_for(control)))
    }
}

/// Elements none of which is a container are their own leaves, and none of
/// them is framed.
pub proof fn lemma_flat<H>(elements: Seq<ElementView<H>>)
    requires
        forall|i: int| 0 <= i < elements.len() ==> !((#[trigger] elements[i]) is Row),
    ensures
        leaves_of(elements) == elements,
        !any_framed(elements),
    decreases elements.len(),
{
    if elements.len() > 0 {
        let first = elements[0];
        let rest = elements.drop_first();
        assert forall|i: int| 0 <= i < rest.len() implies !((#[trigger] rest[i]) is Row) by {
            assert(rest[i] == elements[i + 1]);
        }
        lemma_flat(rest);
        assert(first.leaves() == seq![first]);
        assert(!first.framed());
        assert(seq![first] + rest =~= elements);
    }
}

/// The buttons for `control` from the `i`-th element on are those below the
/// `i`-th element, followed by those below the elements after it.
proof fn lemma_buttons_from<H>(elements: Seq<ElementView<H>>, i: int, control: Control)
    requires
        0 <= i < elements.len(),
    ensures
        leaves_of(elements.skip(i)).filter(button_for(control)) == elements[i].leaves().filter(
            button_for(control),
        ) + leaves_of(elements.skip(i + 1)).filter(button_for(control)),
        !(elements[i] is Row) ==> elements[i].leaves().filter(button_for(control)) == (
        if elements[i].is_button_for(control) {
            seq![elements[i]]
        } else {
            Seq::empty()
        }),
{
    let rest = elements.skip(i);
    assert(rest.first() == elements[i]);
    assert(rest.drop_first() =~= elements.skip(i + 1));
    Seq::filter_distributes_over_add(
        elements[i].leaves(),
        leaves_of(elements.skip(i + 1)),
        button_for(control),
    );
    if !(elements[i] is Row) {
        reveal_with_fuel(Seq::filter, 2);
        assert(elements[i].leaves().drop_last() =~= Seq::empty());
    }
}

impl<H> Row<H> {
    /// The handler that a click on `control` runs, if anything below this
    /// container answers to `control`.
    pub fn handler(&self, control: Control) -> (found: Option<&H>)
        ensures
            found matches Some(handler) ==> self@.handler(control) == Some(*handler),
            found is None ==> self@.handler(control) is None,
        decreases self,
    {
        let ghost children = self@.children;
        proof {
            lemma_views_of(self.children@);
            assert(children.skip(0) =~= children);
        }
        let mut i: usize = 0;
        while i < self.children.len()
            invariant
                i <= self.children.len(),
                children == self@.children,
                children.len() == self.children.len(),
                forall|j: int| 0 <= j < children.len() ==> children[j] == self.children@[j]@,
                self@.handler(control) == first_on_click(
                    leaves_of(children.skip(i as int)).filter(button_for(control)),
                ),
            decreases self.children.len() - i,
        {
            proof {
                lemma_buttons_from(children, i as int, control);
            }
            match &self.children[i] {
                Element::Row(row) => {
                    match row.handler(control) {
                        Some(handler) => {
                            return Some(handler);
                        },
                        None => {},
                    }
                },
                Element::Button(button) => {
                    if button.control == control {
                        return Some(&button.on_click);
                    }
                },
                _ => {},
            }
            i += 1;
        }
        proof {
            assert(children.skip(i as int) =~= Seq::empty());
            reveal_with_fuel(Seq::filter, 1);
        }
        None
    }
}

} // verus!
