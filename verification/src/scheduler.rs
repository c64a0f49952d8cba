//! The content and tooltip schedulers: when a loop runs, and what one firing
//! does to the display.
//!
//! A loop that is scheduled fires once at registration and then once per
//! interval. Each firing gets the fresh value from the host (the output of a
//! command, or the line in the shared buffer), compares it with what is shown
//! and writes only where the two differ.

use vstd::prelude::*;
use crate::display::{change_outcome, DisplayView, DisplayedState, TickOutcome};
use crate::error::WidgetError;

verus! {

/// The interval of every tooltip loop, in milliseconds. A tooltip is only
/// seen on hover, so it is refreshed at this pace whatever the widget's own
/// update rate is.
pub const TOOLTIP_INTERVAL_MS: u64 = 1000;

/// How a widget gets its text. The mode follows from the configuration and
/// never changes while the widget lives.
#[derive(Clone, Copy, Debug, PartialEq, Eq, Structural)]
pub enum ContentMode {
    /// No command or no update rate: the text is set once and no loop runs.
    Static,
    /// The command is run anew at each firing.
    Polling,
    /// Each firing takes the latest line of the shared buffer.
    Listening,
}

/// The two loops that a widget can run.
pub enum LoopKind {
    /// The loop that refreshes the text.
    Content,
    /// The loop that refreshes the tooltip.
    Tooltip,
}

/// Where a firing takes its fresh value from.
#[derive(Clone, Debug, PartialEq, Eq)]
pub enum TickSource {
    /// Run this command and take its output.
    Command(String),
    /// Read the shared line buffer.
    Buffer,
}

/// The mathematical content of a [`TickSource`].
pub enum TickSourceView {
    Command(Seq<char>),
    Buffer,
}

impl View for TickSource {
    type V = TickSourceView;

    open spec fn view(&self) -> TickSourceView {
        match *self {
            TickSource::Command(command) => TickSourceView::Command(command@),
            TickSource::Buffer => TickSourceView::Buffer,
        }
    }
}

/// A recurring firing: the first one at registration, then one every
/// `interval_ms` milliseconds.
#[derive(Clone, Debug, PartialEq, Eq)]
pub struct Schedule {
    pub interval_ms: u64,
    pub source: TickSource,
}

/// The mathematical content of a [`Schedule`].
pub struct ScheduleView {
    pub interval_ms: u64,
    pub source: TickSourceView,
}

impl View for Schedule {
    type V = ScheduleView;

    open spec fn view(&self) -> ScheduleView {
        ScheduleView { interval_ms: self.interval_ms, source: self.source@ }
    }
}

impl ScheduleView {
    /// The wait before firing number `firing`, counted from 0, in
    /// milliseconds: none before the first, one interval before each later
    /// one.
    pub open spec fn wait_before(self, firing: u64) -> u64 {
        if firing == 0 {
            0
        } else {
            self.interval_ms
        }
    }
}

impl Schedule {
    /// How long the host waits before firing number `firing`, counted from 0,
    /// in milliseconds. The first firing happens at registration, before any
    /// interval has passed; each later one follows the one before it by
    /// `interval_ms`.
    pub fn wait_before(&self, firing: u64) -> (wait: u64)
        ensures
            wait == self@.wait_before(firing),
            firing == 0 ==> wait == 0,
            firing > 0 ==> wait == self.interval_ms,
    {
        if firing == 0 {
            0
        } else {
            self.interval_ms
        }
    }
}

/// The content of a schedule that may be absent.
pub open spec fn schedule_view(schedule: Option<Schedule>) -> Option<ScheduleView> {
    match schedule {
        Some(schedule) => Some(schedule@),
        None => None,
    }
}

/// The loops that a widget registers. `None` means that the loop is never
/// registered.
#[derive(Clone, Debug, PartialEq, Eq)]
pub struct LoopPlan {
    pub tooltip: Option<Schedule>,
    pub content: Option<Schedule>,
}

/// The mathematical content of a [`LoopPlan`].
pub struct LoopPlanView {
    pub tooltip: Option<ScheduleView>,
    pub content: Option<ScheduleView>,
}

impl View for LoopPlan {
    type V = LoopPlanView;

    open spec fn view(&self) -> LoopPlanView {
        LoopPlanView {
            tooltip: schedule_view(self.tooltip),
            content: schedule_view(self.content),
        }
    }
}

/// The mode of a widget with this content command, update rate and listen
/// flag.
pub open spec fn spec_content_mode(command: Seq<char>, update_rate: u64, listen: bool)
    -> ContentMode {
    if command.len() == 0 || update_rate == 0 {
        ContentMode::Static
    } else if listen {
        ContentMode::Listening
    } else {
        ContentMode::Polling
    }
}

/// The content loop of a widget: none when it is static, else one firing
/// every `update_rate` milliseconds that runs the command or reads the buffer.
pub open spec fn content_schedule(command: Seq<char>, update_rate: u64, listen: bool) -> Option<
    ScheduleView,
> {
    match spec_content_mode(command, update_rate, listen) {
        ContentMode::Static => None,
        ContentMode::Polling => Some(
            ScheduleView { interval_ms: update_rate, source: TickSourceView::Command(command) },
        ),
        ContentMode::Listening => Some(
            ScheduleView { interval_ms: update_rate, source: TickSourceView::Buffer },
        ),
    }
}

/// The tooltip loop of a widget: none without a tooltip command, else one
/// firing every [`TOOLTIP_INTERVAL_MS`] milliseconds that runs the command.
pub open spec fn tooltip_schedule(tooltip_command: Seq<char>) -> Option<ScheduleView> {
    if tooltip_command.len() == 0 {
        None
    } else {
        Some(
            ScheduleView {
                interval_ms: TOOLTIP_INTERVAL_MS,
                source: TickSourceView::Command(tooltip_command),
            },
        )
    }
}

/// Tells the mode of a widget from its content command, update rate and
/// listen flag.
pub fn content_mode(command: &str, update_rate: u64, listen: bool) -> (mode: ContentMode)
    ensures
        mode == spec_content_mode(command@, update_rate, listen),
{
    if command.is_empty() || update_rate == 0 {
        ContentMode::Static
    } else if listen {
        ContentMode::Listening
    } else {
        ContentMode::Polling
    }
}

/// What the host hands to a firing, as mathematics.
pub open spec fn reading_view(reading: Result<String, WidgetError>) -> Result<
    Seq<char>,
    WidgetError,
> {
    match reading {
        Ok(text) => Ok(text@),
        Err(error) => Err(error),
    }
}

/// The output that a firing works with: a command that failed counts as one
/// that printed nothing.
pub open spec fn output_or_empty(output: Result<Seq<char>, WidgetError>) -> Seq<char> {
    match output {
        Ok(text) => text,
        Err(_) => Seq::<char>::empty(),
    }
}

/// The display after a firing of a polling content loop.
pub open spec fn polled_display(shown: DisplayView, output: Result<Seq<char>, WidgetError>)
    -> DisplayView {
    shown.with_text(output_or_empty(output))
}

/// What a firing of a polling content loop reports.
pub open spec fn polled_outcome(shown: DisplayView, output: Result<Seq<char>, WidgetError>)
    -> TickOutcome {
    change_outcome(shown.text, output_or_empty(output))
}

/// The display after a firing of a tooltip loop: the tooltip is the prefix
/// followed by the command's output.
pub open spec fn tooltip_display(
    shown: DisplayView,
    prefix: Seq<char>,
    output: Result<Seq<char>, WidgetError>,
) -> DisplayView {
    shown.with_tooltip(prefix + output_or_empty(output))
}

/// What a firing of a tooltip loop reports.
pub open spec fn tooltip_outcome(
    shown: DisplayView,
    prefix: Seq<char>,
    output: Result<Seq<char>, WidgetError>,
) -> TickOutcome {
    change_outcome(shown.tooltip, prefix + output_or_empty(output))
}

/// The output of a command as the schedulers use it: empty where the command
/// could not be run.
pub fn recover_output(output: Result<String, WidgetError>) -> (text: String)
    ensures
        text@ == output_or_empty(reading_view(output)),
{
    match output {
        Ok(text) => text,
        Err(_) => String::new(),
    }
}

/// One firing of a polling content loop: shows the command's output as the
/// text, and reports `Redrawn` exactly when it differs from the text shown
/// before. A failed command is treated as empty output; the loop goes on.
pub fn poll_tick(surface: &mut DisplayedState, output: Result<String, WidgetError>) -> (outcome:
    TickOutcome)
    ensures
        final(surface)@ == polled_display(old(surface)@, reading_view(output)),
        outcome == polled_outcome(old(surface)@, reading_view(output)),
{
    let new_text = recover_output(output);
    surface.refresh_text(new_text)
}

/// One firing of a tooltip loop: shows `prefix` followed by the command's
/// output as the tooltip, and reports `Redrawn` exactly when that differs from
/// the tooltip shown before. The output is taken as it is, markup included.
pub fn tooltip_tick(
    surface: &mut DisplayedState,
    prefix: &str,
    output: Result<String, WidgetError>,
) -> (outcome: TickOutcome)
    ensures
        final(surface)@ == tooltip_display(old(surface)@, prefix@, reading_view(output)),
        outcome == tooltip_outcome(old(surface)@, prefix@, reading_view(output)),
{
    let tail = recover_output(output);
    let mut new_tooltip = String::new();
    new_tooltip.append(prefix);
    new_tooltip.append(tail.as_str());
    assert(new_tooltip@ =~= prefix@ + tail@);
    surface.refresh_tooltip(new_tooltip)
}

/// The tooltip loop does not depend on the update rate or on anything else but
/// the tooltip command: it is absent without one and fires every
/// [`TOOLTIP_INTERVAL_MS`] milliseconds with one.
pub proof fn lemma_tooltip_pace_is_fixed(tooltip_command: Seq<char>)
    ensures
        tooltip_command.len() == 0 ==> tooltip_schedule(tooltip_command) is None,
        tooltip_command.len() > 0 ==> tooltip_schedule(tooltip_command) is Some
            && tooltip_schedule(tooltip_command)->Some_0.interval_ms == 1000,
{
}

} // verus!
