//! The reader that feeds the shared line buffer from a streaming command.
//!
//! The reader itself never waits: the host spawns the command, awaits lines and
//! sleeps, and reports each result as an [`IngestEvent`]. [`Ingester::step`]
//! answers with the next thing to do, or with the error that ends the reader.

use vstd::prelude::*;
use crate::buffer::SharedLineBuffer;
use crate::error::WidgetError;

verus! {

/// Where a line reader stands.
#[derive(Clone, Copy, Debug, PartialEq, Eq, Structural)]
pub enum IngestPhase {
    /// The streaming command has to be started.
    Spawning,
    /// The next line of the command's output is awaited.
    Reading,
    /// A line was stored; the reader rests before it reads again.
    Pacing,
    /// The source ended or could not be started. Nothing follows.
    Terminated,
}

/// What the host reports to the reader.
#[derive(Clone, Debug, PartialEq, Eq)]
pub enum IngestEvent {
    /// The streaming command runs and its output can be read.
    Spawned,
    /// The streaming command could not be started.
    SpawnFailed,
    /// One complete line arrived, without its line ending.
    Line(String),
    /// The command's output is exhausted.
    StreamEnded,
    /// Reading the command's output failed.
    ReadFailed,
    /// The pause after a line is over.
    Slept,
}

/// The mathematical content of an [`IngestEvent`].
pub enum IngestEventView {
    Spawned,
    SpawnFailed,
    Line(Seq<char>),
    StreamEnded,
    ReadFailed,
    Slept,
}

impl View for IngestEvent {
    type V = IngestEventView;

    open spec fn view(&self) -> IngestEventView {
        match *self {
            IngestEvent::Spawned => IngestEventView::Spawned,
            IngestEvent::SpawnFailed => IngestEventView::SpawnFailed,
            IngestEvent::Line(line) => IngestEventView::Line(line@),
            IngestEvent::StreamEnded => IngestEventView::StreamEnded,
            IngestEvent::ReadFailed => IngestEventView::ReadFailed,
            IngestEvent::Slept => IngestEventView::Slept,
        }
    }
}

/// What the host does next for the reader.
#[derive(Clone, Debug, PartialEq, Eq)]
pub enum IngestAction {
    /// Start this command as a child process whose life ends with the
    /// reader's, and report `Spawned` or `SpawnFailed`.
    Spawn(String),
    /// Await one line and report `Line`, `StreamEnded` or `ReadFailed`.
    ReadLine,
    /// Wait this many milliseconds and report `Slept`.
    Sleep(u64),
}

/// The mathematical content of an [`IngestAction`].
pub enum IngestActionView {
    Spawn(Seq<char>),
    ReadLine,
    Sleep(u64),
}

impl View for IngestAction {
    type V = IngestActionView;

    open spec fn view(&self) -> IngestActionView {
        match *self {
            IngestAction::Spawn(command) => IngestActionView::Spawn(command@),
            IngestAction::ReadLine => IngestActionView::ReadLine,
            IngestAction::Sleep(ms) => IngestActionView::Sleep(ms),
        }
    }
}

/// What a step hands to the host: the next action, or the error that ended
/// the reader.
pub open spec fn request_view(request: Result<IngestAction, WidgetError>) -> Result<
    IngestActionView,
    WidgetError,
> {
    match request {
        Ok(action) => Ok(action@),
        Err(error) => Err(error),
    }
}

/// A line reader: the command it follows, its pace, and where it stands.
#[derive(Clone, Debug, PartialEq, Eq)]
pub struct Ingester {
    pub command: String,
    pub pace_ms: u64,
    pub phase: IngestPhase,
}

/// The mathematical content of an [`Ingester`].
pub struct IngesterView {
    pub command: Seq<char>,
    pub pace_ms: u64,
    pub phase: IngestPhase,
}

impl View for Ingester {
    type V = IngesterView;

    open spec fn view(&self) -> IngesterView {
        IngesterView { command: self.command@, pace_ms: self.pace_ms, phase: self.phase }
    }
}

/// The phase that follows `phase` when the host reports `event`. An event that
/// the phase does not wait for changes nothing.
pub open spec fn next_phase(phase: IngestPhase, event: IngestEventView) -> IngestPhase {
    match (phase, event) {
        (IngestPhase::Spawning, IngestEventView::Spawned) => IngestPhase::Reading,
        (IngestPhase::Spawning, IngestEventView::SpawnFailed) => IngestPhase::Terminated,
        (IngestPhase::Reading, IngestEventView::Line(_)) => IngestPhase::Pacing,
        (IngestPhase::Reading, IngestEventView::StreamEnded) => IngestPhase::Terminated,
        (IngestPhase::Reading, IngestEventView::ReadFailed) => IngestPhase::Terminated,
        (IngestPhase::Pacing, IngestEventView::Slept) => IngestPhase::Reading,
        _ => phase,
    }
}

/// The buffer's line after the host reports `event` in `phase`: a line that
/// arrives while reading replaces it, and nothing else touches it.
pub open spec fn next_line(phase: IngestPhase, event: IngestEventView, line: Seq<char>) -> Seq<
    char,
> {
    match (phase, event) {
        (IngestPhase::Reading, IngestEventView::Line(fresh)) => fresh,
        _ => line,
    }
}

impl IngesterView {
    /// The reader after the host reports `event`.
    pub open spec fn after(self, event: IngestEventView) -> IngesterView {
        IngesterView {
            command: self.command,
            pace_ms: self.pace_ms,
            phase: next_phase(self.phase, event),
        }
    }

    /// What the reader waits for: the action of its phase, or
    /// `StreamTerminated` once it has ended.
    pub open spec fn pending(self) -> Result<IngestActionView, WidgetError> {
        match self.phase {
            IngestPhase::Spawning => Ok(IngestActionView::Spawn(self.command)),
            IngestPhase::Reading => Ok(IngestActionView::ReadLine),
            IngestPhase::Pacing => Ok(IngestActionView::Sleep(self.pace_ms)),
            IngestPhase::Terminated => Err(WidgetError::StreamTerminated),
        }
    }
}

/// Sets up the reader for the streaming command `cmd`, which rests `pace_ms`
/// milliseconds after each line. Nothing runs yet: the reader's first pending
/// action asks the host to spawn the command.
pub fn begin_listen(cmd: String, pace_ms: u64) -> (reader: Ingester)
    ensures
        reader@ == (IngesterView { command: cmd@, pace_ms: pace_ms, phase: IngestPhase::Spawning }),
{
    Ingester { command: cmd, pace_ms: pace_ms, phase: IngestPhase::Spawning }
}

impl Ingester {
    /// What the host has to do for the reader now.
    pub fn pending(&self) -> (request: Result<IngestAction, WidgetError>)
        ensures
            request_view(request) == self@.pending(),
    {
        match self.phase {
            IngestPhase::Spawning => Ok(IngestAction::Spawn(self.command.clone())),
            IngestPhase::Reading => Ok(IngestAction::ReadLine),
            IngestPhase::Pacing => Ok(IngestAction::Sleep(self.pace_ms)),
            IngestPhase::Terminated => Err(WidgetError::StreamTerminated),
        }
    }

    /// Takes one report from the host, stores a line that arrived into
    /// `buffer`, and says what to do next.
    ///
    /// A line overwrites the buffer and is followed by a pause of `pace_ms`.
    /// A source that ends, fails or cannot be started ends the reader: this
    /// and every later step return `StreamTerminated` and leave the buffer as
    /// it is.
    pub fn step(&mut self, event: IngestEvent, buffer: &mut SharedLineBuffer) -> (request: Result<
        IngestAction,
        WidgetError,
    >)
        ensures
            final(self)@ == old(self)@.after(event@),
            final(buffer)@ == next_line(old(self).phase, event@, old(buffer)@),
            request_view(request) == final(self)@.pending(),
    {
        match self.phase {
            IngestPhase::Spawning => match event {
                IngestEvent::Spawned => {
                    self.phase = IngestPhase::Reading;
                },
                IngestEvent::SpawnFailed => {
                    self.phase = IngestPhase::Terminated;
                },
                _ => {},
            },
            IngestPhase::Reading => match event {
                IngestEvent::Line(line) => {
                    buffer.write(line);
                    self.phase = IngestPhase::Pacing;
                },
                IngestEvent::StreamEnded => {
                    self.phase = IngestPhase::Terminated;
                },
                IngestEvent::ReadFailed => {
                    self.phase = IngestPhase::Terminated;
                },
                _ => {},
            },
            IngestPhase::Pacing => match event {
                IngestEvent::Slept => {
                    self.phase = IngestPhase::Reading;
                },
                _ => {},
            },
            IngestPhase::Terminated => {},
        }
        self.pending()
    }
}

/// Whether the host's report `event` in `phase` writes to the buffer: only a
/// line that arrives while the reader is reading does.
pub open spec fn writes_line(phase: IngestPhase, event: IngestEventView) -> bool {
    phase == IngestPhase::Reading && event is Line
}

/// The reader and the buffer's line after the host has reported `events`, one
/// after the other.
pub open spec fn after_events(
    reader: IngesterView,
    line: Seq<char>,
    events: Seq<IngestEventView>,
) -> (IngesterView, Seq<char>)
    decreases events.len(),
{
    if events.len() == 0 {
        (reader, line)
    } else {
        after_events(
            reader.after(events[0]),
            next_line(reader.phase, events[0], line),
            events.drop_first(),
        )
    }
}

/// The number of writes to the buffer while the host reports `events`.
pub open spec fn writes(reader: IngesterView, events: Seq<IngestEventView>) -> nat
    decreases events.len(),
{
    if events.len() == 0 {
        0
    } else {
        let first: nat = if writes_line(reader.phase, events[0]) {
            1
        } else {
            0
        };
        first + writes(reader.after(events[0]), events.drop_first())
    }
}

/// Once a reader has ended, no report revives it or changes the buffer: the
/// widget keeps showing the last line that was stored.
pub proof fn lemma_terminated_is_final(
    reader: IngesterView,
    line: Seq<char>,
    events: Seq<IngestEventView>,
)
    requires
        reader.phase == IngestPhase::Terminated,
    ensures
        after_events(reader, line, events) == (reader, line),
        writes(reader, events) == 0,
        reader.pending() == Err::<IngestActionView, WidgetError>(WidgetError::StreamTerminated),
    decreases events.len(),
{
    if events.len() > 0 {
        assert(reader.after(events[0]) == reader);
        lemma_terminated_is_final(reader, line, events.drop_first());
    }
}

/// The last write wins, and nothing but a write changes the buffer: a line
/// that arrives while the reader is reading replaces the buffer's line, and
/// over any run of reports without such a write the buffer keeps its line.
pub proof fn lemma_last_write_wins(
    reader: IngesterView,
    line: Seq<char>,
    fresh: Seq<char>,
    events: Seq<IngestEventView>,
)
    ensures
        reader.phase == IngestPhase::Reading ==> next_line(
            reader.phase,
            IngestEventView::Line(fresh),
            line,
        ) == fresh,
        writes(reader, events) == 0 ==> after_events(reader, line, events).1 == line,
    decreases events.len(),
{
    if events.len() > 0 && writes(reader, events) == 0 {
        lemma_last_write_wins(
            reader.after(events[0]),
            next_line(reader.phase, events[0], line),
            fresh,
            events.drop_first(),
        );
    }
}

} // verus!
