//! How the stepper presents itself in a design catalog: a name, a category,
//! a description and two examples to look at.

use crate::stepper::{NumericStepper, StepperView};
use vstd::prelude::*;

verus! {

/// The section of a design catalog that a component is filed under.
#[derive(Clone, Copy, PartialEq, Eq, Structural, Debug, Hash)]
pub enum ComponentScope {
    DataDisplay,
    Input,
    Layout,
    Navigation,
    Notification,
    Status,
    Typography,
}

/// A click handler that does nothing.
#[derive(Clone, Copy, PartialEq, Eq, Structural, Debug, Hash)]
pub struct NoOp;

/// A stepper to show in the catalog, under a title.
pub struct Example {
    pub title: &'static str,
    pub stepper: NumericStepper<NoOp>,
}

impl NumericStepper<NoOp> {
    pub fn scope() -> (scope: ComponentScope)
        ensures
            scope == ComponentScope::Input,
    {
        ComponentScope::Input
    }

    pub fn name() -> (name: &'static str)
        ensures
            name@ == "NumericStepper"@,
    {
        "NumericStepper"
    }

    /// The name that the catalog sorts by, which is the name itself.
    pub fn sort_name() -> (name: &'static str)
        ensures
            name@ == "NumericStepper"@,
    {
        Self::name()
    }

    pub fn description() -> (description: Option<&'static str>)
        ensures
            description matches Some(text)
                && text@ == "A button used to increment or decrement a numeric value. "@,
    {
        Some("A button used to increment or decrement a numeric value. ")
    }

    /// Two steppers that differ only in the frame and in their identifiers:
    /// first the plain one, then the framed one. Both show "10" and do nothing
    /// when clicked.
    pub fn preview() -> (preview: Option<Vec<Example>>)
        ensures
            preview matches Some(examples) && {
                &&& examples@.len() == 2
                &&& examples@[0].title@ == "Borderless"@
                &&& examples@[0].stepper@ == StepperView::new(
                    "numeric-stepper-component-preview"@,
                    "10"@,
                    NoOp,
                    NoOp,
                )
                &&& examples@[1].title@ == "Border"@
                &&& examples@[1].stepper@ == StepperView::new(
                    "numeric-stepper-with-border-component-preview"@,
                    "10"@,
                    NoOp,
                    NoOp,
                ).border()
            },
    {
        let mut examples: Vec<Example> = Vec::new();
        examples.push(
            Example {
                title: "Borderless",
                stepper: NumericStepper::new("numeric-stepper-component-preview", "10", NoOp, NoOp),
            },
        );
        examples.push(
            Example {
                title: "Border",
                stepper: NumericStepper::new(
                    "numeric-stepper-with-border-component-preview",
                    "10",
                    NoOp,
                    NoOp,
                ).border(),
            },
        );
        Some(examples)
    }
}

} // verus!
