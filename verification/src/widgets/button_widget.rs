//! A button: a text polled from a command, a tooltip of its own, and a
//! command to run when it is clicked.

use vstd::prelude::*;
use crate::config::{take_or_empty, WidgetSpec, WidgetSpecView};
use crate::display::{DisplayView, DisplayedState, TickOutcome};
use crate::error::WidgetError;
use crate::scheduler::{
    content_schedule, poll_tick, polled_display, polled_outcome, reading_view, schedule_view,
    tooltip_display, tooltip_outcome, tooltip_schedule, tooltip_tick, ContentMode, LoopKind, LoopPlan,
    LoopPlanView, Schedule, ScheduleView, TickSource, TickSourceView, TOOLTIP_INTERVAL_MS,
};

verus! {

/// A button widget: its configuration and what it shows.
#[derive(Clone, Debug, PartialEq, Eq)]
pub struct ButtonWidget {
    /// The static tooltip, and the prefix of a tooltip that a command fills.
    pub tooltip: String,
    /// The command whose output follows the prefix; empty for none.
    pub tooltip_command: String,
    /// The command to run when the button is clicked; empty for none.
    pub command: String,
    /// What the button shows.
    pub button: DisplayedState,
    /// The interval of the text loop in milliseconds; 0 for none.
    pub update_rate: u64,
    /// The command that produces the button's text; empty for none.
    pub text_command: String,
}

/// The mathematical content of a [`ButtonWidget`].
pub struct ButtonView {
    pub tooltip: Seq<char>,
    pub tooltip_command: Seq<char>,
    pub command: Seq<char>,
    pub button: DisplayView,
    pub update_rate: u64,
    pub text_command: Seq<char>,
}

impl View for ButtonWidget {
    type V = ButtonView;

    open spec fn view(&self) -> ButtonView {
        ButtonView {
            tooltip: self.tooltip@,
            tooltip_command: self.tooltip_command@,
            command: self.command@,
            button: self.button@,
            update_rate: self.update_rate,
            text_command: self.text_command@,
        }
    }
}

/// What attaching a button leaves for the host to carry out.
#[derive(Clone, Debug, PartialEq, Eq)]
pub struct ButtonAttachment {
    /// The command to run at each click, if the button has one.
    pub click_command: Option<String>,
    /// The loops to register.
    pub loops: LoopPlan,
}

/// The mathematical content of a [`ButtonAttachment`].
pub struct ButtonAttachmentView {
    pub click_command: Option<Seq<char>>,
    pub loops: LoopPlanView,
}

impl View for ButtonAttachment {
    type V = ButtonAttachmentView;

    open spec fn view(&self) -> ButtonAttachmentView {
        ButtonAttachmentView {
            click_command: match self.click_command {
                Some(command) => Some(command@),
                None => None,
            },
            loops: self.loops@,
        }
    }
}

impl ButtonView {
    /// The button built from a configuration: a button without a text loop
    /// shows its static text from the start, any other starts out empty, and
    /// the tooltip shows the prefix. A button never listens.
    pub open spec fn configured(spec: WidgetSpecView) -> ButtonView {
        ButtonView {
            tooltip: spec.tooltip_prefix,
            tooltip_command: spec.tooltip_command,
            command: spec.activation_command,
            button: DisplayView {
                text: if spec.content_command.len() == 0 || spec.update_rate_ms == 0 {
                    spec.static_text
                } else {
                    Seq::<char>::empty()
                },
                tooltip: spec.tooltip_prefix,
            },
            update_rate: spec.update_rate_ms,
            text_command: spec.content_command,
        }
    }

    /// How the button gets its text: it is static or polled.
    pub open spec fn mode(self) -> ContentMode {
        crate::scheduler::spec_content_mode(self.text_command, self.update_rate, false)
    }

    /// Whether the button has no text loop.
    pub open spec fn is_static(self) -> bool {
        self.text_command.len() == 0 || self.update_rate == 0
    }

    /// The same button showing something else.
    pub open spec fn with_button(self, button: DisplayView) -> ButtonView {
        ButtonView {
            tooltip: self.tooltip,
            tooltip_command: self.tooltip_command,
            command: self.command,
            button: button,
            update_rate: self.update_rate,
            text_command: self.text_command,
        }
    }

    /// The loops that the button registers.
    pub open spec fn loops(self) -> LoopPlanView {
        LoopPlanView {
            tooltip: tooltip_schedule(self.tooltip_command),
            content: content_schedule(self.text_command, self.update_rate, false),
        }
    }

    /// The button once attached: the tooltip shows the static tooltip and the
    /// text stays what it was.
    pub open spec fn attached(self) -> ButtonView {
        self.with_button(self.button.with_tooltip(self.tooltip))
    }

    /// What attaching the button asks of the host. A click handler is asked
    /// for only where there is a command to run.
    pub open spec fn attachment(self) -> ButtonAttachmentView {
        ButtonAttachmentView {
            click_command: if self.command.len() == 0 {
                None
            } else {
                Some(self.command)
            },
            loops: self.loops(),
        }
    }

    /// The button after one firing of its text loop.
    pub open spec fn after_text_tick(self, output: Result<Seq<char>, WidgetError>) -> ButtonView {
        if self.is_static() {
            self
        } else {
            self.with_button(polled_display(self.button, output))
        }
    }

    /// What one firing of the text loop reports.
    pub open spec fn text_tick_outcome(self, output: Result<Seq<char>, WidgetError>)
        -> TickOutcome {
        if self.is_static() {
            TickOutcome::Skipped
        } else {
            polled_outcome(self.button, output)
        }
    }

    /// The button after one firing of its tooltip loop.
    pub open spec fn after_tooltip_tick(self, output: Result<Seq<char>, WidgetError>)
        -> ButtonView {
        if self.tooltip_command.len() == 0 {
            self
        } else {
            self.with_button(tooltip_display(self.button, self.tooltip, output))
        }
    }

    /// What one firing of the tooltip loop reports.
    pub open spec fn tooltip_tick_outcome(self, output: Result<Seq<char>, WidgetError>)
        -> TickOutcome {
        if self.tooltip_command.len() == 0 {
            TickOutcome::Skipped
        } else {
            tooltip_outcome(self.button, self.tooltip, output)
        }
    }

    /// The button after one firing of the loop `kind`.
    pub open spec fn after_tick(self, kind: LoopKind, reading: Result<Seq<char>, WidgetError>)
        -> ButtonView {
        match kind {
            LoopKind::Content => self.after_text_tick(reading),
            LoopKind::Tooltip => self.after_tooltip_tick(reading),
        }
    }

    /// What one firing of the loop `kind` reports.
    pub open spec fn tick_outcome(self, kind: LoopKind, reading: Result<Seq<char>, WidgetError>)
        -> TickOutcome {
        match kind {
            LoopKind::Content => self.text_tick_outcome(reading),
            LoopKind::Tooltip => self.tooltip_tick_outcome(reading),
        }
    }

    /// The number of writes to the display when the loop `kind` fires once
    /// for each entry of `readings`, in their order.
    pub open spec fn redraws(self, kind: LoopKind, readings: Seq<Result<Seq<char>, WidgetError>>)
        -> nat
        decreases readings.len(),
    {
        if readings.len() == 0 {
            0
        } else {
            let first: nat = if self.tick_outcome(kind, readings[0]) == TickOutcome::Redrawn {
                1
            } else {
                0
            };
            first + self.after_tick(kind, readings[0]).redraws(kind, readings.drop_first())
        }
    }
}

/// Plans the text loop of a button: none without a text command or with an
/// update rate of 0, else one that runs `text_command` every `update_rate`
/// milliseconds.
pub fn start_text_loop(text_command: String, update_rate: u64) -> (schedule: Option<Schedule>)
    ensures
        schedule_view(schedule) == content_schedule(text_command@, update_rate, false),
        schedule is None <==> (text_command@.len() == 0 || update_rate == 0),
{
    if text_command.as_str().is_empty() || update_rate == 0 {
        return None;
    }
    Some(Schedule { interval_ms: update_rate, source: TickSource::Command(text_command) })
}

/// Plans the tooltip loop of a button that has a tooltip command: it runs the
/// command every [`TOOLTIP_INTERVAL_MS`] milliseconds, whatever the button's
/// update rate.
pub fn start_tooltip_loop(tooltip_command: String) -> (schedule: Schedule)
    ensures
        schedule@ == (ScheduleView {
            interval_ms: 1000,
            source: TickSourceView::Command(tooltip_command@),
        }),
{
    Schedule { interval_ms: TOOLTIP_INTERVAL_MS, source: TickSource::Command(tooltip_command) }
}

impl ButtonWidget {
    /// Builds a button from its configuration.
    pub fn construct(spec: WidgetSpec) -> (widget: Self)
        ensures
            widget@ == ButtonView::configured(spec@),
    {
        let text_command = take_or_empty(spec.content_command);
        let is_static = text_command.as_str().is_empty() || spec.update_rate_ms == 0;
        let tooltip = take_or_empty(spec.tooltip_prefix);
        let shown = if is_static {
            take_or_empty(spec.static_text)
        } else {
            String::new()
        };
        ButtonWidget {
            tooltip: tooltip.clone(),
            tooltip_command: take_or_empty(spec.tooltip_command),
            command: take_or_empty(spec.activation_command),
            button: DisplayedState::new(shown, tooltip),
            update_rate: spec.update_rate_ms,
            text_command: text_command,
        }
    }

    /// How the button gets its text.
    pub fn mode(&self) -> (mode: ContentMode)
        ensures
            mode == self@.mode(),
    {
        crate::scheduler::content_mode(self.text_command.as_str(), self.update_rate, false)
    }

    /// Attaches the button: shows the static tooltip, plans the loops, and
    /// asks for a click handler if the button has a command. The text and
    /// the configuration are left as they are.
    pub fn add(&mut self) -> (attachment: ButtonAttachment)
        ensures
            final(self)@ == old(self)@.attached(),
            attachment@ == old(self)@.attachment(),
            attachment.click_command is Some <==> old(self)@.command.len() > 0,
            old(self)@.is_static() ==> attachment.loops.content is None && final(self)@.button.text
                == old(self)@.button.text,
    {
        self.button.current_tooltip = self.tooltip.clone();
        let loops = self.start_loop();
        let click_command = if !self.command.as_str().is_empty() {
            Some(self.command.clone())
        } else {
            None
        };
        ButtonAttachment { click_command: click_command, loops: loops }
    }

    /// Plans the tooltip loop and the text loop of the button.
    pub fn start_loop(&self) -> (loops: LoopPlan)
        ensures
            loops@ == self@.loops(),
            self@.is_static() ==> loops.content is None,
            self@.tooltip_command.len() == 0 ==> loops.tooltip is None,
    {
        let tooltip = if !self.tooltip_command.as_str().is_empty() {
            Some(start_tooltip_loop(self.tooltip_command.clone()))
        } else {
            None
        };
        let content = if !self.text_command.as_str().is_empty() {
            start_text_loop(self.text_command.clone(), self.update_rate)
        } else {
            None
        };
        LoopPlan { tooltip: tooltip, content: content }
    }

    /// One firing of the text loop with the output of `text_command`. A
    /// button without a text loop skips the firing.
    pub fn tick_text(&mut self, output: Result<String, WidgetError>) -> (outcome: TickOutcome)
        ensures
            final(self)@ == old(self)@.after_text_tick(reading_view(output)),
            outcome == old(self)@.text_tick_outcome(reading_view(output)),
    {
        if self.text_command.as_str().is_empty() || self.update_rate == 0 {
            TickOutcome::Skipped
        } else {
            poll_tick(&mut self.button, output)
        }
    }

    /// One firing of the tooltip loop with the output of `tooltip_command`. A
    /// button without a tooltip command has no tooltip loop and skips the
    /// firing.
    pub fn tick_tooltip(&mut self, output: Result<String, WidgetError>) -> (outcome: TickOutcome)
        ensures
            final(self)@ == old(self)@.after_tooltip_tick(reading_view(output)),
            outcome == old(self)@.tooltip_tick_outcome(reading_view(output)),
    {
        if self.tooltip_command.as_str().is_empty() {
            TickOutcome::Skipped
        } else {
            tooltip_tick(&mut self.button, self.tooltip.as_str(), output)
        }
    }
}

/// Neither loop of a button ever changes its configuration, so its mode and
/// its loops stay what they were when it was attached.
pub proof fn lemma_button_mode_is_fixed(
    widget: ButtonView,
    output: Result<Seq<char>, WidgetError>,
)
    ensures
        widget.after_text_tick(output).mode() == widget.mode(),
        widget.after_tooltip_tick(output).mode() == widget.mode(),
        widget.after_text_tick(output).loops() == widget.loops(),
        widget.after_tooltip_tick(output).loops() == widget.loops(),
        widget.attached().mode() == widget.mode(),
        widget.attached().loops() == widget.loops(),
{
}

/// The two loops of a button are independent: the tooltip loop depends on the
/// tooltip command alone, so buttons that differ in update rate or text
/// command have the same tooltip loop.
pub proof fn lemma_button_tooltip_loop_ignores_update_rate(first: ButtonView, second: ButtonView)
    requires
        first.tooltip_command == second.tooltip_command,
    ensures
        first.loops().tooltip == second.loops().tooltip,
        first.loops().tooltip is Some ==> first.loops().tooltip->Some_0.interval_ms == 1000,
{
}

/// A button whose loop `kind` would not write for `reading` does not write
/// however often that reading comes again.
proof fn lemma_button_settled_stays_settled(
    widget: ButtonView,
    kind: LoopKind,
    readings: Seq<Result<Seq<char>, WidgetError>>,
    reading: Result<Seq<char>, WidgetError>,
)
    requires
        forall|i: int| 0 <= i < readings.len() ==> readings[i] == reading,
        widget.tick_outcome(kind, reading) != TickOutcome::Redrawn,
    ensures
        widget.redraws(kind, readings) == 0,
    decreases readings.len(),
{
    if readings.len() > 0 {
        let rest = readings.drop_first();
        assert forall|i: int| 0 <= i < rest.len() implies rest[i] == reading by {
            assert(rest[i] == readings[i + 1]);
        }
        let next = widget.after_tick(kind, reading);
        assert(next.tick_outcome(kind, reading) != TickOutcome::Redrawn);
        lemma_button_settled_stays_settled(next, kind, rest, reading);
    }
}

/// Redrawing is idempotent: while the command's output (or the line in the
/// buffer) stays what it is, a loop of a button writes to the display at most
/// once, and only at its first firing. Every later firing leaves the display
/// alone.
pub proof fn lemma_button_unchanged_reading_draws_once(
    widget: ButtonView,
    kind: LoopKind,
    readings: Seq<Result<Seq<char>, WidgetError>>,
    reading: Result<Seq<char>, WidgetError>,
)
    requires
        forall|i: int| 0 <= i < readings.len() ==> readings[i] == reading,
    ensures
        widget.redraws(kind, readings) <= 1,
        widget.redraws(kind, readings) == (if readings.len() > 0 && widget.tick_outcome(
            kind,
            reading,
        ) == TickOutcome::Redrawn {
            1nat
        } else {
            0nat
        }),
        readings.len() > 0 ==> widget.after_tick(kind, reading).redraws(
            kind,
            readings.drop_first(),
        ) == 0,
{
    if readings.len() > 0 {
        let rest = readings.drop_first();
        assert forall|i: int| 0 <= i < rest.len() implies rest[i] == reading by {
            assert(rest[i] == readings[i + 1]);
        }
        let next = widget.after_tick(kind, reading);
        assert(next.tick_outcome(kind, reading) != TickOutcome::Redrawn);
        lemma_button_settled_stays_settled(next, kind, rest, reading);
    }
}

/// The loops of a button do not reach into each other: the text loop
/// never touches the tooltip and the tooltip loop never touches the text.
pub proof fn lemma_button_loops_are_separate(
    widget: ButtonView,
    reading: Result<Seq<char>, WidgetError>,
)
    ensures
        widget.after_tick(LoopKind::Content, reading).button.tooltip == widget.button.tooltip,
        widget.after_tick(LoopKind::Tooltip, reading).button.text == widget.button.text,
{
}

/// A static button never schedules: it has no text loop, and no firing of
/// either loop changes the text it shows.
pub proof fn lemma_static_button_keeps_its_text(
    widget: ButtonView,
    kind: LoopKind,
    reading: Result<Seq<char>, WidgetError>,
)
    requires
        widget.is_static(),
    ensures
        widget.mode() == ContentMode::Static,
        widget.loops().content is None,
        widget.attached().loops().content is None,
        widget.tick_outcome(LoopKind::Content, reading) == TickOutcome::Skipped,
        widget.after_tick(kind, reading).button.text == widget.button.text,
        widget.after_tick(kind, reading).is_static(),
{
}

} // verus!
