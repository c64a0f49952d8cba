//! The single-slot store between a line reader and the widgets that follow it.

use vstd::prelude::*;

verus! {

/// Holds the most recent complete line received from a streaming source.
///
/// The host shares one value between the reader task and the listening
/// widgets behind a lock of its choice; a write replaces the whole line, so a
/// reader holding the lock never sees part of one.
pub struct SharedLineBuffer {
    pub last_line: String,
}

impl View for SharedLineBuffer {
    type V = Seq<char>;

    open spec fn view(&self) -> Seq<char> {
        self.last_line@
    }
}

impl SharedLineBuffer {
    /// An empty buffer: nothing has been received yet.
    pub fn new() -> (buffer: Self)
        ensures
            buffer@ == Seq::<char>::empty(),
    {
        SharedLineBuffer { last_line: String::new() }
    }

    /// Replaces the stored line. The last write wins.
    pub fn write(&mut self, line: String)
        ensures
            final(self)@ == line@,
    {
        self.last_line = line;
    }

    /// The line stored by the most recent write.
    pub fn read(&self) -> (line: String)
        ensures
            line@ == self@,
    {
        self.last_line.clone()
    }
}

} // verus!
