//! The configuration that a widget is built from.

use vstd::prelude::*;
use crate::scheduler::{content_mode, spec_content_mode, ContentMode};

verus! {

/// What a widget is configured with. It is read once, when the widget is
/// built, and not changed after.
///
/// An absent string and an empty one mean the same: there is none. With
/// `listen_mode` set, `content_command` is the long-running command whose
/// lines the widget follows, not one that is run at each firing.
#[derive(Clone, Debug, PartialEq, Eq)]
pub struct WidgetSpec {
    pub static_text: Option<String>,
    pub content_command: Option<String>,
    pub tooltip_prefix: Option<String>,
    pub tooltip_command: Option<String>,
    pub activation_command: Option<String>,
    pub update_rate_ms: u64,
    pub listen_mode: bool,
}

/// The mathematical content of a [`WidgetSpec`]; an absent string is empty.
pub struct WidgetSpecView {
    pub static_text: Seq<char>,
    pub content_command: Seq<char>,
    pub tooltip_prefix: Seq<char>,
    pub tooltip_command: Seq<char>,
    pub activation_command: Seq<char>,
    pub update_rate_ms: u64,
    pub listen_mode: bool,
}

/// The characters of a string that may be absent.
pub open spec fn text_or_empty(value: Option<String>) -> Seq<char> {
    match value {
        Some(text) => text@,
        None => Seq::<char>::empty(),
    }
}

impl View for WidgetSpec {
    type V = WidgetSpecView;

    open spec fn view(&self) -> WidgetSpecView {
        WidgetSpecView {
            static_text: text_or_empty(self.static_text),
            content_command: text_or_empty(self.content_command),
            tooltip_prefix: text_or_empty(self.tooltip_prefix),
            tooltip_command: text_or_empty(self.tooltip_command),
            activation_command: text_or_empty(self.activation_command),
            update_rate_ms: self.update_rate_ms,
            listen_mode: self.listen_mode,
        }
    }
}

impl WidgetSpecView {
    /// The mode of a widget built from this configuration.
    pub open spec fn mode(self) -> ContentMode {
        spec_content_mode(self.content_command, self.update_rate_ms, self.listen_mode)
    }
}

/// The string itself, or an empty one where there is none.
pub fn take_or_empty(value: Option<String>) -> (text: String)
    ensures
        text@ == text_or_empty(value),
{
    match value {
        Some(text) => text,
        None => String::new(),
    }
}

impl WidgetSpec {
    /// The mode of a widget built from this configuration.
    pub fn mode(&self) -> (mode: ContentMode)
        ensures
            mode == self@.mode(),
    {
        match &self.content_command {
            Some(command) => content_mode(command.as_str(), self.update_rate_ms, self.listen_mode),
            None => ContentMode::Static,
        }
    }
}

} // verus!
