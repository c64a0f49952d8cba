//! The widget kinds: a label and a button.

pub mod button_widget;
pub mod label_widget;
