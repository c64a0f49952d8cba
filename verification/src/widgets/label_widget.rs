//! A label: a text that is static, polled from a command, or follows the
//! lines of a streaming command, with a tooltip of its own.

use vstd::prelude::*;
use crate::config::{take_or_empty, WidgetSpec, WidgetSpecView};
use crate::display::{change_outcome, DisplayView, DisplayedState, TickOutcome};
use crate::error::WidgetError;
use crate::ingest::{
    after_events, begin_listen, lemma_last_write_wins, next_line, writes, IngestEventView,
    IngestPhase, Ingester, IngesterView,
};
use crate::scheduler::{
    content_schedule, poll_tick, polled_display, polled_outcome, reading_view, schedule_view,
    spec_content_mode, tooltip_display, tooltip_outcome, tooltip_schedule, tooltip_tick,
    ContentMode, LoopKind, LoopPlan, LoopPlanView, Schedule, TickSource, TOOLTIP_INTERVAL_MS,
};

verus! {

/// A label widget: its configuration and what it shows.
#[derive(Clone, Debug, PartialEq, Eq)]
pub struct LabelWidget {
    /// The static tooltip, and the prefix of a tooltip that a command fills.
    pub tooltip: String,
    /// The command whose output follows the prefix; empty for none.
    pub tooltip_command: String,
    /// The text of a static label.
    pub text: String,
    /// The command that produces the text; empty for none.
    pub command: String,
    /// The interval of the content loop in milliseconds; 0 for none.
    pub update_rate: u64,
    /// What the label shows.
    pub label: DisplayedState,
    /// Whether `command` is a streaming command whose lines the label follows.
    pub listen: bool,
}

/// The mathematical content of a [`LabelWidget`].
pub struct LabelView {
    pub tooltip: Seq<char>,
    pub tooltip_command: Seq<char>,
    pub text: Seq<char>,
    pub command: Seq<char>,
    pub update_rate: u64,
    pub label: DisplayView,
    pub listen: bool,
}

impl View for LabelWidget {
    type V = LabelView;

    open spec fn view(&self) -> LabelView {
        LabelView {
            tooltip: self.tooltip@,
            tooltip_command: self.tooltip_command@,
            text: self.text@,
            command: self.command@,
            update_rate: self.update_rate,
            label: self.label@,
            listen: self.listen,
        }
    }
}

/// What attaching a label leaves for the host to carry out.
#[derive(Clone, Debug, PartialEq, Eq)]
pub struct LabelAttachment {
    /// Whether the label is static: its text is final and no content loop runs.
    pub is_static: bool,
    /// The line reader to run beside the label, if it listens.
    pub stream: Option<Ingester>,
    /// The loops to register.
    pub loops: LoopPlan,
}

/// The mathematical content of a [`LabelAttachment`].
pub struct LabelAttachmentView {
    pub is_static: bool,
    pub stream: Option<IngesterView>,
    pub loops: LoopPlanView,
}

impl View for LabelAttachment {
    type V = LabelAttachmentView;

    open spec fn view(&self) -> LabelAttachmentView {
        LabelAttachmentView {
            is_static: self.is_static,
            stream: match self.stream {
                Some(reader) => Some(reader@),
                None => None,
            },
            loops: self.loops@,
        }
    }
}

/// The display after a firing of a listening content loop: the line read from
/// the buffer is shown; without a line the display stays as it is.
pub open spec fn buffered_display(shown: DisplayView, line: Result<Seq<char>, WidgetError>)
    -> DisplayView {
    match line {
        Ok(line) => shown.with_text(line),
        Err(_) => shown,
    }
}

/// What a firing of a listening content loop reports.
pub open spec fn buffered_outcome(shown: DisplayView, line: Result<Seq<char>, WidgetError>)
    -> TickOutcome {
    match line {
        Ok(line) => change_outcome(shown.text, line),
        Err(_) => TickOutcome::Skipped,
    }
}

impl LabelView {
    /// The label built from a configuration: a static label shows its static
    /// text from the start, any other starts out empty, and the tooltip shows
    /// the prefix.
    pub open spec fn configured(spec: WidgetSpecView) -> LabelView {
        LabelView {
            tooltip: spec.tooltip_prefix,
            tooltip_command: spec.tooltip_command,
            text: spec.static_text,
            command: spec.content_command,
            update_rate: spec.update_rate_ms,
            label: DisplayView {
                text: if spec.mode() == ContentMode::Static {
                    spec.static_text
                } else {
                    Seq::<char>::empty()
                },
                tooltip: spec.tooltip_prefix,
            },
            listen: spec.listen_mode,
        }
    }

    /// How the label gets its text.
    pub open spec fn mode(self) -> ContentMode {
        spec_content_mode(self.command, self.update_rate, self.listen)
    }

    /// Whether the label has no content loop.
    pub open spec fn is_static(self) -> bool {
        self.command.len() == 0 || self.update_rate == 0
    }

    /// The same label showing something else.
    pub open spec fn with_label(self, label: DisplayView) -> LabelView {
        LabelView {
            tooltip: self.tooltip,
            tooltip_command: self.tooltip_command,
            text: self.text,
            command: self.command,
            update_rate: self.update_rate,
            label: label,
            listen: self.listen,
        }
    }

    /// The loops that the label registers.
    pub open spec fn loops(self) -> LoopPlanView {
        LoopPlanView {
            tooltip: tooltip_schedule(self.tooltip_command),
            content: content_schedule(self.command, self.update_rate, self.listen),
        }
    }

    /// The label once attached: the tooltip shows the static tooltip, and a
    /// static label shows its static text.
    pub open spec fn attached(self) -> LabelView {
        self.with_label(
            DisplayView {
                text: if self.is_static() {
                    self.text
                } else {
                    self.label.text
                },
                tooltip: self.tooltip,
            },
        )
    }

    /// What attaching the label asks of the host, with a reader that rests
    /// `stream_rate_ms` milliseconds after each line.
    pub open spec fn attachment(self, stream_rate_ms: u64) -> LabelAttachmentView {
        LabelAttachmentView {
            is_static: self.is_static(),
            stream: if self.listen {
                Some(
                    IngesterView {
                        command: self.command,
                        pace_ms: stream_rate_ms,
                        phase: IngestPhase::Spawning,
                    },
                )
            } else {
                None
            },
            loops: self.loops(),
        }
    }

    /// The label after one firing of its content loop.
    pub open spec fn after_label_tick(self, reading: Result<Seq<char>, WidgetError>) -> LabelView {
        match self.mode() {
            ContentMode::Static => self,
            ContentMode::Polling => self.with_label(polled_display(self.label, reading)),
            ContentMode::Listening => self.with_label(buffered_display(self.label, reading)),
        }
    }

    /// What one firing of the content loop reports.
    pub open spec fn label_tick_outcome(self, reading: Result<Seq<char>, WidgetError>)
        -> TickOutcome {
        match self.mode() {
            ContentMode::Static => TickOutcome::Skipped,
            ContentMode::Polling => polled_outcome(self.label, reading),
            ContentMode::Listening => buffered_outcome(self.label, reading),
        }
    }

    /// The label after one firing of its tooltip loop.
    pub open spec fn after_tooltip_tick(self, output: Result<Seq<char>, WidgetError>)
        -> LabelView {
        if self.tooltip_command.len() == 0 {
            self
        } else {
            self.with_label(tooltip_display(self.label, self.tooltip, output))
        }
    }

    /// What one firing of the tooltip loop reports.
    pub open spec fn tooltip_tick_outcome(self, output: Result<Seq<char>, WidgetError>)
        -> TickOutcome {
        if self.tooltip_command.len() == 0 {
            TickOutcome::Skipped
        } else {
            tooltip_outcome(self.label, self.tooltip, output)
        }
    }

    /// The label after one firing of the loop `kind`.
    pub open spec fn after_tick(self, kind: LoopKind, reading: Result<Seq<char>, WidgetError>)
        -> LabelView {
        match kind {
            LoopKind::Content => self.after_label_tick(reading),
            LoopKind::Tooltip => self.after_tooltip_tick(reading),
        }
    }

    /// What one firing of the loop `kind` reports.
    pub open spec fn tick_outcome(self, kind: LoopKind, reading: Result<Seq<char>, WidgetError>)
        -> TickOutcome {
        match kind {
            LoopKind::Content => self.label_tick_outcome(reading),
            LoopKind::Tooltip => self.tooltip_tick_outcome(reading),
        }
    }

    /// The number of writes to the display when the loop `kind` fires once
    /// for each entry of `readings`, in their order.
    pub open spec fn redraws(self, kind: LoopKind, readings: Seq<Result<Seq<char>, WidgetError>>)
        -> nat
        decreases readings.len(),
    {
        if readings.len() == 0 {
            0
        } else {
            let first: nat = if self.tick_outcome(kind, readings[0]) == TickOutcome::Redrawn {
                1
            } else {
                0
            };
            first + self.after_tick(kind, readings[0]).redraws(kind, readings.drop_first())
        }
    }
}

/// Plans the tooltip loop of a label: none without a tooltip command, else
/// one that runs the command every [`TOOLTIP_INTERVAL_MS`] milliseconds,
/// whatever the label's update rate.
pub fn start_tooltip_loop(label_ref: &LabelWidget) -> (schedule: Option<Schedule>)
    ensures
        schedule_view(schedule) == tooltip_schedule(label_ref@.tooltip_command),
        schedule is Some <==> label_ref@.tooltip_command.len() > 0,
        schedule is Some ==> schedule->Some_0.interval_ms == 1000,
{
    let tooltip_command = label_ref.tooltip_command.clone();
    if tooltip_command.as_str().is_empty() {
        return None;
    }
    Some(Schedule { interval_ms: TOOLTIP_INTERVAL_MS, source: TickSource::Command(tooltip_command) })
}

/// Plans the content loop of a label: none for a static label (no command, or
/// an update rate of 0), else one firing every `update_rate` milliseconds that
/// reads the shared buffer if the label listens and runs `command` if not.
pub fn start_label_loop(command: String, update_rate: u64, listen: bool) -> (schedule: Option<
    Schedule,
>)
    ensures
        schedule_view(schedule) == content_schedule(command@, update_rate, listen),
        schedule is None <==> (command@.len() == 0 || update_rate == 0),
{
    if command.as_str().is_empty() || update_rate == 0 {
        return None;
    }
    if !listen {
        Some(Schedule { interval_ms: update_rate, source: TickSource::Command(command) })
    } else {
        Some(Schedule { interval_ms: update_rate, source: TickSource::Buffer })
    }
}

/// One firing of a listening content loop: shows the line that the host read
/// from the shared buffer, writing only where it differs from the text shown.
/// Where the buffer could not be read, the firing is skipped and the display
/// stays as it is.
pub fn update_from_buffer(label: &mut DisplayedState, line: Result<String, WidgetError>) -> (outcome:
    TickOutcome)
    ensures
        final(label)@ == buffered_display(old(label)@, reading_view(line)),
        outcome == buffered_outcome(old(label)@, reading_view(line)),
{
    match line {
        Ok(new_content) => label.refresh_text(new_content),
        Err(_) => TickOutcome::Skipped,
    }
}

impl LabelWidget {
    /// Builds a label from its configuration.
    pub fn construct(spec: WidgetSpec) -> (widget: Self)
        ensures
            widget@ == LabelView::configured(spec@),
    {
        let is_static = match spec.mode() {
            ContentMode::Static => true,
            _ => false,
        };
        let tooltip = take_or_empty(spec.tooltip_prefix);
        let text = take_or_empty(spec.static_text);
        let shown = if is_static {
            text.clone()
        } else {
            String::new()
        };
        LabelWidget {
            tooltip: tooltip.clone(),
            tooltip_command: take_or_empty(spec.tooltip_command),
            text: text,
            command: take_or_empty(spec.content_command),
            update_rate: spec.update_rate_ms,
            label: DisplayedState::new(shown, tooltip),
            listen: spec.listen_mode,
        }
    }

    /// How the label gets its text.
    pub fn mode(&self) -> (mode: ContentMode)
        ensures
            mode == self@.mode(),
    {
        crate::scheduler::content_mode(self.command.as_str(), self.update_rate, self.listen)
    }

    /// Attaches the label: shows the static tooltip, and the static text if
    /// the label is static; sets up the line reader if the label listens,
    /// with a pause of `stream_rate_ms` milliseconds after each line; and
    /// plans the loops. The configuration is left as it is.
    pub fn add(&mut self, stream_rate_ms: u64) -> (attachment: LabelAttachment)
        ensures
            final(self)@ == old(self)@.attached(),
            attachment@ == old(self)@.attachment(stream_rate_ms),
            old(self)@.is_static() ==> attachment.loops.content is None && final(self)@.label.text
                == old(self)@.text,
    {
        let is_static = self.command.as_str().is_empty() || self.update_rate == 0;
        self.label.current_tooltip = self.tooltip.clone();
        let stream = if self.listen {
            Some(begin_listen(self.command.clone(), stream_rate_ms))
        } else {
            None
        };
        let loops = self.start_loop();
        if is_static {
            self.label.current_text = self.text.clone();
        }
        LabelAttachment { is_static: is_static, stream: stream, loops: loops }
    }

    /// Plans the tooltip loop and the content loop of the label.
    pub fn start_loop(&self) -> (loops: LoopPlan)
        ensures
            loops@ == self@.loops(),
            self@.is_static() ==> loops.content is None,
            self@.tooltip_command.len() == 0 ==> loops.tooltip is None,
    {
        let tooltip = start_tooltip_loop(self);
        let content = start_label_loop(self.command.clone(), self.update_rate, self.listen);
        LoopPlan { tooltip: tooltip, content: content }
    }

    /// One firing of the content loop. `reading` is the output of `command`
    /// for a polling label and the line in the shared buffer for a listening
    /// one. A static label has no content loop and skips the firing.
    pub fn tick_label(&mut self, reading: Result<String, WidgetError>) -> (outcome: TickOutcome)
        ensures
            final(self)@ == old(self)@.after_label_tick(reading_view(reading)),
            outcome == old(self)@.label_tick_outcome(reading_view(reading)),
    {
        if self.command.as_str().is_empty() || self.update_rate == 0 {
            TickOutcome::Skipped
        } else if !self.listen {
            poll_tick(&mut self.label, reading)
        } else {
            update_from_buffer(&mut self.label, reading)
        }
    }

    /// One firing of the tooltip loop with the output of `tooltip_command`. A
    /// label without a tooltip command has no tooltip loop and skips the
    /// firing.
    pub fn tick_tooltip(&mut self, output: Result<String, WidgetError>) -> (outcome: TickOutcome)
        ensures
            final(self)@ == old(self)@.after_tooltip_tick(reading_view(output)),
            outcome == old(self)@.tooltip_tick_outcome(reading_view(output)),
    {
        if self.tooltip_command.as_str().is_empty() {
            TickOutcome::Skipped
        } else {
            tooltip_tick(&mut self.label, self.tooltip.as_str(), output)
        }
    }
}

/// A listening label shows the latest line: once the reader has stored the
/// line `line`, and whatever the host reports to the reader after that short
/// of a newer write, the next firing that reads the buffer shows exactly
/// `line`, whatever the buffer and the label held before, and redraws exactly
/// when the label showed something else.
pub proof fn lemma_listening_shows_latest_line(
    widget: LabelView,
    reader: IngesterView,
    stored: Seq<char>,
    line: Seq<char>,
    later: Seq<IngestEventView>,
)
    requires
        widget.mode() == ContentMode::Listening,
        reader.phase == IngestPhase::Reading,
        writes(reader.after(IngestEventView::Line(line)), later) == 0,
    ensures
        ({
            let written = next_line(reader.phase, IngestEventView::Line(line), stored);
            let buffer = after_events(
                reader.after(IngestEventView::Line(line)),
                written,
                later,
            ).1;
            &&& buffer == line
            &&& widget.after_label_tick(Ok(buffer)).label.text == line
            &&& widget.label_tick_outcome(Ok(buffer)) == change_outcome(widget.label.text, line)
        }),
{
    lemma_last_write_wins(reader.after(IngestEventView::Line(line)), line, line, later);
}

/// Neither loop of a label ever changes its configuration, so its mode and
/// its loops stay what they were when it was attached.
pub proof fn lemma_label_mode_is_fixed(
    widget: LabelView,
    reading: Result<Seq<char>, WidgetError>,
)
    ensures
        widget.after_label_tick(reading).mode() == widget.mode(),
        widget.after_tooltip_tick(reading).mode() == widget.mode(),
        widget.after_label_tick(reading).loops() == widget.loops(),
        widget.after_tooltip_tick(reading).loops() == widget.loops(),
        widget.attached().mode() == widget.mode(),
        widget.attached().loops() == widget.loops(),
{
}

/// The two loops of a label are independent: the tooltip loop depends on the
/// tooltip command alone, so labels that differ in update rate, content
/// command or listen flag have the same tooltip loop.
pub proof fn lemma_label_tooltip_loop_ignores_update_rate(first: LabelView, second: LabelView)
    requires
        first.tooltip_command == second.tooltip_command,
    ensures
        first.loops().tooltip == second.loops().tooltip,
        first.loops().tooltip is Some ==> first.loops().tooltip->Some_0.interval_ms == 1000,
{
}

/// A label whose loop `kind` would not write for `reading` does not write
/// however often that reading comes again.
proof fn lemma_label_settled_stays_settled(
    widget: LabelView,
    kind: LoopKind,
    readings: Seq<Result<Seq<char>, WidgetError>>,
    reading: Result<Seq<char>, WidgetError>,
)
    requires
        forall|i: int| 0 <= i < readings.len() ==> readings[i] == reading,
        widget.tick_outcome(kind, reading) != TickOutcome::Redrawn,
    ensures
        widget.redraws(kind, readings) == 0,
    decreases readings.len(),
{
    if readings.len() > 0 {
        let rest = readings.drop_first();
        assert forall|i: int| 0 <= i < rest.len() implies rest[i] == reading by {
            assert(rest[i] == readings[i + 1]);
        }
        let next = widget.after_tick(kind, reading);
        assert(next.tick_outcome(kind, reading) != TickOutcome::Redrawn);
        lemma_label_settled_stays_settled(next, kind, rest, reading);
    }
}

/// Redrawing is idempotent: while the command's output (or the line in the
/// buffer) stays what it is, a loop of a label writes to the display at most
/// once, and only at its first firing. Every later firing leaves the display
/// alone.
pub proof fn lemma_label_unchanged_reading_draws_once(
    widget: LabelView,
    kind: LoopKind,
    readings: Seq<Result<Seq<char>, WidgetError>>,
    reading: Result<Seq<char>, WidgetError>,
)
    requires
        forall|i: int| 0 <= i < readings.len() ==> readings[i] == reading,
    ensures
        widget.redraws(kind, readings) <= 1,
        widget.redraws(kind, readings) == (if readings.len() > 0 && widget.tick_outcome(
            kind,
            reading,
        ) == TickOutcome::Redrawn {
            1nat
        } else {
            0nat
        }),
        readings.len() > 0 ==> widget.after_tick(kind, reading).redraws(
            kind,
            readings.drop_first(),
        ) == 0,
{
    if readings.len() > 0 {
        let rest = readings.drop_first();
        assert forall|i: int| 0 <= i < rest.len() implies rest[i] == reading by {
            assert(rest[i] == readings[i + 1]);
        }
        let next = widget.after_tick(kind, reading);
        assert(next.tick_outcome(kind, reading) != TickOutcome::Redrawn);
        lemma_label_settled_stays_settled(next, kind, rest, reading);
    }
}

/// The loops of a label do not reach into each other: the content loop
/// never touches the tooltip and the tooltip loop never touches the text.
pub proof fn lemma_label_loops_are_separate(
    widget: LabelView,
    reading: Result<Seq<char>, WidgetError>,
)
    ensures
        widget.after_tick(LoopKind::Content, reading).label.tooltip == widget.label.tooltip,
        widget.after_tick(LoopKind::Tooltip, reading).label.text == widget.label.text,
{
}

/// A static label never schedules: it has no content loop, and no firing of
/// either loop changes the text it shows.
pub proof fn lemma_static_label_keeps_its_text(
    widget: LabelView,
    kind: LoopKind,
    reading: Result<Seq<char>, WidgetError>,
)
    requires
        widget.is_static(),
    ensures
        widget.mode() == ContentMode::Static,
        widget.loops().content is None,
        widget.attached().loops().content is None,
        widget.tick_outcome(LoopKind::Content, reading) == TickOutcome::Skipped,
        widget.after_tick(kind, reading).label.text == widget.label.text,
        widget.after_tick(kind, reading).is_static(),
{
}

} // verus!
