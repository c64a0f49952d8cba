//! Failures that the schedulers and the line reader recover from or report.

use vstd::prelude::*;

verus! {

/// What can go wrong around a widget.
#[derive(Clone, Copy, Debug, PartialEq, Eq, Structural)]
pub enum WidgetError {
    /// A command could not be run. The firing goes on as if the command had
    /// printed nothing, and later firings are not affected.
    ExecutionFailed,
    /// A streaming source ended or could not be started. The reader stops for
    /// good and the widget keeps the last line it was given.
    StreamTerminated,
    /// The shared line buffer could not be acquired. The firing is skipped.
    BufferUnavailable,
}

} // verus!
