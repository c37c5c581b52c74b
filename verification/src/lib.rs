//! A headless numeric stepper: a value flanked by a decrement and an
//! increment button, with an optional reset button in front.
//!
//! The stepper owns no number. It is handed the text to show and the handlers
//! to run, and lays them out as a small tree of plain elements that a host
//! toolkit draws. Every rule of that layout is stated over the tree and
//! proved.

pub mod catalog;
pub mod element;
pub mod laws;
pub mod stepper;

pub use catalog::{ComponentScope, Example, NoOp};
pub use element::{Button, ButtonShape, Control, Element, IconName, IconSize, Row};
pub use stepper::NumericStepper;
