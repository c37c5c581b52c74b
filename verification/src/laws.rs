//! What holds of every stepper, however it was configured.

use crate::element::{
    any_framed, button_for, leaves_of, lemma_flat, Control, ElementView, IconSize,
};
use crate::stepper::{stepper_button, StepperView};
use vstd::prelude::*;

verus! {

/// `element` alone where it passes `pred`, else nothing.
spec fn only_if<H>(element: ElementView<H>, pred: spec_fn(ElementView<H>) -> bool) -> Seq<
    ElementView<H>,
> {
    if pred(element) {
        seq![element]
    } else {
        Seq::empty()
    }
}

/// Those of `items` that pass `pred`, in order, for up to five items.
spec fn few_kept<H>(items: Seq<ElementView<H>>, pred: spec_fn(ElementView<H>) -> bool) -> Seq<
    ElementView<H>,
> {
    let kept = |i: int|
        if i < items.len() {
            only_if(items[i], pred)
        } else {
            Seq::empty()
        };
    kept(0) + kept(1) + kept(2) + kept(3) + kept(4)
}

proof fn lemma_filter_few<H>(items: Seq<ElementView<H>>, pred: spec_fn(ElementView<H>) -> bool)
    requires
        items.len() <= 5,
    ensures
        items.filter(pred) == few_kept(items, pred),
    decreases items.len(),
{
    reveal(Seq::filter);
    if items.len() > 0 {
        lemma_filter_few(items.drop_last(), pred);
    }
    assert(items.filter(pred) =~= few_kept(items, pred));
}

/// What stands in the leading slot, as a sequence of one element or none.
pub open spec fn leading_leaves<H>(stepper: StepperView<H>) -> Seq<ElementView<H>> {
    match stepper.leading_slot() {
        Some(leading) => seq![leading],
        None => Seq::empty(),
    }
}

/// The leaves of a rendered stepper are what stands in the leading slot,
/// followed by the children of the value group; and the tree is framed just
/// where the stepper has a border.
pub proof fn lemma_layout_leaves<H>(stepper: StepperView<H>)
    ensures
        stepper.layout().leaves() == leading_leaves(stepper) + stepper.value_group().children,
        stepper.layout().framed() == stepper.border,
{
    let group = stepper.value_group();
    let children = stepper.layout().children;
    lemma_flat(group.children);
    reveal_with_fuel(leaves_of, 3);
    reveal_with_fuel(any_framed, 3);
    match stepper.leading_slot() {
        Some(leading) => {
            assert(children.drop_first() =~= seq![ElementView::Row(group)]);
            assert(children.drop_first().drop_first() =~= Seq::empty());
            assert(leaves_of(children) =~= seq![leading] + group.children);
        },
        None => {
            assert(children.drop_first() =~= Seq::empty());
            assert(leaves_of(children) =~= Seq::empty() + group.children);
        },
    }
}

/// Filtering the leaves of a rendered stepper filters the leading slot and
/// the value group each by itself.
proof fn lemma_filter_leaves<H>(stepper: StepperView<H>, pred: spec_fn(ElementView<H>) -> bool)
    ensures
        stepper.layout().leaves().filter(pred) == few_kept(leading_leaves(stepper), pred)
            + few_kept(stepper.value_group().children, pred),
{
    lemma_layout_leaves(stepper);
    lemma_filter_few(leading_leaves(stepper), pred);
    lemma_filter_few(stepper.value_group().children, pred);
    Seq::filter_distributes_over_add(
        leading_leaves(stepper),
        stepper.value_group().children,
        pred,
    );
}

/// Of a reset button and a spacer, a rendered stepper holds the one that its
/// configuration calls for and no other: the reset button where a reset
/// handler was given; else a spacer where room was to be kept; else neither.
/// What it holds stands before everything else.
pub proof fn lemma_leading_slot_exclusive<H>(stepper: StepperView<H>)
    ensures
        ({
            let leaves = stepper.layout().leaves();
            let leading = leaves.filter(
                |e: ElementView<H>| e.is_button_for(Control::Reset) || e is Spacer,
            );
            &&& leading == match stepper.on_reset {
                Some(on_reset) => seq![
                    ElementView::Button(stepper_button(Control::Reset, on_reset)),
                ],
                None => if stepper.reserve_space_for_reset {
                    seq![ElementView::Spacer(IconSize::Small)]
                } else {
                    Seq::empty()
                },
            }
            &&& leading.len() == 1 ==> leaves[0] == leading[0] && stepper.layout().children[0]
                == leading[0]
        }),
{
    lemma_layout_leaves(stepper);
    lemma_filter_leaves(
        stepper,
        |e: ElementView<H>| e.is_button_for(Control::Reset) || e is Spacer,
    );
}

/// The value group is the last child of the rendered container. Leaving its
/// dividers aside, it always holds the decrement button, the label and the
/// increment button, in that order. It holds dividers just where the stepper
/// has a border, and then one on either side of the label.
pub proof fn lemma_group_order<H>(stepper: StepperView<H>)
    ensures
        stepper.layout().children.last() matches ElementView::Row(group) && {
            let decrement = ElementView::Button(
                stepper_button(Control::Decrement, stepper.on_decrement),
            );
            let label = ElementView::Label(stepper.value);
            let increment = ElementView::Button(
                stepper_button(Control::Increment, stepper.on_increment),
            );
            &&& group.children.filter(|e: ElementView<H>| !(e is Divider)) == seq![
                decrement,
                label,
                increment,
            ]
            &&& group.children.contains(ElementView::Divider) <==> stepper.border
            &&& stepper.border ==> group.children == seq![
                decrement,
                ElementView::Divider,
                label,
                ElementView::Divider,
                increment,
            ]
        },
{
    let items = stepper.value_group().children;
    lemma_filter_few(items, |e: ElementView<H>| !(e is Divider));
    if stepper.border {
        assert(items[1] == ElementView::<H>::Divider);
    }
}

/// A rendered stepper holds one label, and it reads what the stepper was
/// given to show, letter for letter.
pub proof fn lemma_label_shows_value<H>(stepper: StepperView<H>)
    ensures
        stepper.layout().leaves().filter(|e: ElementView<H>| e is Label) == seq![
            ElementView::<H>::Label(stepper.value),
        ],
{
    lemma_filter_leaves(stepper, |e: ElementView<H>| e is Label);
}

/// What a stepper is made with is what it keeps: the identifier, the text and
/// the two handlers given to `new`, through every later call.
pub proof fn lemma_construction_kept<H>(
    id: Seq<char>,
    value: Seq<char>,
    on_decrement: H,
    on_increment: H,
    stepper: StepperView<H>,
    reserve: bool,
    on_reset: H,
)
    ensures
        ({
            let made = StepperView::new(id, value, on_decrement, on_increment);
            &&& made.id == id
            &&& made.value == value
            &&& made.on_decrement == on_decrement
            &&& made.on_increment == on_increment
        }),
        stepper.reserve_space_for_reset(reserve).same_construction(stepper),
        stepper.on_reset(on_reset).same_construction(stepper),
        stepper.border().same_construction(stepper),
{
}

/// A click on a control runs the handler that was supplied for that control:
/// on the decrement button the decrement handler, on the increment button the
/// increment handler, on the reset button the reset handler, and where none
/// was given a click on reset runs nothing. A rendered stepper holds no
/// buttons but these, each once.
pub proof fn lemma_callback_wiring<H>(stepper: StepperView<H>)
    ensures
        stepper.layout().handler(Control::Decrement) == Some(stepper.on_decrement),
        stepper.layout().handler(Control::Increment) == Some(stepper.on_increment),
        stepper.layout().handler(Control::Reset) == stepper.on_reset,
        ({
            let buttons = stepper.layout().leaves().filter(|e: ElementView<H>| e is Button);
            let reset = match stepper.on_reset {
                Some(on_reset) => seq![
                    ElementView::Button(stepper_button(Control::Reset, on_reset)),
                ],
                None => Seq::empty(),
            };
            buttons == reset + seq![
                ElementView::Button(stepper_button(Control::Decrement, stepper.on_decrement)),
                ElementView::Button(stepper_button(Control::Increment, stepper.on_increment)),
            ]
        }),
{
    lemma_filter_leaves(stepper, button_for(Control::Decrement));
    lemma_filter_leaves(stepper, button_for(Control::Increment));
    lemma_filter_leaves(stepper, button_for(Control::Reset));
    lemma_filter_leaves(stepper, |e: ElementView<H>| e is Button);
}

/// Calling `border` again changes nothing: neither the stepper nor, with it,
/// what it renders to.
pub proof fn lemma_border_idempotent<H>(stepper: StepperView<H>)
    ensures
        stepper.border().border() == stepper.border(),
        stepper.border().border().layout() == stepper.border().layout(),
{
}

/// Only `border` gives a stepper a border: a new stepper has none, and no
/// other call adds one. Without a border no container of the rendered tree
/// is outlined or filled and the tree holds no divider; with one, the tree is
/// framed and holds dividers.
pub proof fn lemma_border_only_from_border<H>(
    id: Seq<char>,
    value: Seq<char>,
    on_decrement: H,
    on_increment: H,
    stepper: StepperView<H>,
    reserve: bool,
    on_reset: H,
)
    ensures
        !StepperView::new(id, value, on_decrement, on_increment).border,
        stepper.reserve_space_for_reset(reserve).border == stepper.border,
        stepper.on_reset(on_reset).border == stepper.border,
        stepper.border().border,
        stepper.layout().framed() == stepper.border,
        stepper.layout().leaves().contains(ElementView::Divider) == stepper.border,
{
    lemma_layout_leaves(stepper);
    let leaves = stepper.layout().leaves();
    let items = stepper.value_group().children;
    if stepper.border {
        assert(items[1] == ElementView::<H>::Divider);
        assert(leaves[leaves.len() - 4] == items[1]);
    }
}

} // verus!
