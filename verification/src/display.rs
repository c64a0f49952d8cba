//! The text and tooltip that a widget currently shows.

use vstd::prelude::*;

verus! {

/// What a widget's display surface shows. Only the schedulers change it, and
/// they read it before each write so that an unchanged value is not drawn
/// again.
#[derive(Clone, Debug, PartialEq, Eq)]
pub struct DisplayedState {
    pub current_text: String,
    pub current_tooltip: String,
}

/// The mathematical content of a [`DisplayedState`].
pub struct DisplayView {
    pub text: Seq<char>,
    pub tooltip: Seq<char>,
}

impl DisplayView {
    /// The same display with another text.
    pub open spec fn with_text(self, text: Seq<char>) -> DisplayView {
        DisplayView { text: text, tooltip: self.tooltip }
    }

    /// The same display with another tooltip.
    pub open spec fn with_tooltip(self, tooltip: Seq<char>) -> DisplayView {
        DisplayView { text: self.text, tooltip: tooltip }
    }
}

impl View for DisplayedState {
    type V = DisplayView;

    open spec fn view(&self) -> DisplayView {
        DisplayView { text: self.current_text@, tooltip: self.current_tooltip@ }
    }
}

/// What one firing did to the display surface.
#[derive(Clone, Copy, Debug, PartialEq, Eq, Structural)]
pub enum TickOutcome {
    /// The value differed from the one shown and was written: the host draws.
    Redrawn,
    /// The value equals the one shown: nothing was written.
    Unchanged,
    /// The firing had no value to compare and left the display alone.
    Skipped,
}

/// The outcome of comparing the value `shown` with a `fresh` one. The
/// comparison is exact: no trimming, no normalisation.
pub open spec fn change_outcome(shown: Seq<char>, fresh: Seq<char>) -> TickOutcome {
    if shown == fresh {
        TickOutcome::Unchanged
    } else {
        TickOutcome::Redrawn
    }
}

impl TickOutcome {
    /// Whether the loop stays registered after a firing with this outcome. It
    /// always does: a firing that fails or is skipped never ends the loop, and
    /// the next firing starts afresh.
    pub fn keeps_loop(&self) -> (keeps: bool)
        ensures
            keeps,
    {
        true
    }
}

impl DisplayedState {
    /// A display that shows `text` with the tooltip `tooltip`.
    pub fn new(text: String, tooltip: String) -> (shown: Self)
        ensures
            shown@ == (DisplayView { text: text@, tooltip: tooltip@ }),
    {
        DisplayedState { current_text: text, current_tooltip: tooltip }
    }

    /// Shows `fresh` as the text, writing only where it differs from the
    /// text already shown.
    pub fn refresh_text(&mut self, fresh: String) -> (outcome: TickOutcome)
        ensures
            final(self)@ == old(self)@.with_text(fresh@),
            outcome == change_outcome(old(self)@.text, fresh@),
    {
        if self.current_text == fresh {
            TickOutcome::Unchanged
        } else {
            self.current_text = fresh;
            TickOutcome::Redrawn
        }
    }

    /// Shows `fresh` as the tooltip, writing only where it differs from the
    /// tooltip already shown.
    pub fn refresh_tooltip(&mut self, fresh: String) -> (outcome: TickOutcome)
        ensures
            final(self)@ == old(self)@.with_tooltip(fresh@),
            outcome == change_outcome(old(self)@.tooltip, fresh@),
    {
        if self.current_tooltip == fresh {
            TickOutcome::Unchanged
        } else {
            self.current_tooltip = fresh;
            TickOutcome::Redrawn
        }
    }
}

/// The number of writes to the display when one firing after another shows
/// the entries of `values`, starting from a display that shows `shown`.
pub open spec fn redraws(shown: Seq<char>, values: Seq<Seq<char>>) -> nat
    decreases values.len(),
{
    if values.len() == 0 {
        0
    } else {
        let first: nat = if change_outcome(shown, values[0]) == TickOutcome::Redrawn {
            1
        } else {
            0
        };
        first + redraws(values[0], values.drop_first())
    }
}

/// Redrawing is idempotent: over any run of firings that all bring the same
/// value, the display is written at most once, by the first firing and only
/// if it showed something else before. Later firings never write.
pub proof fn lemma_unchanged_value_draws_once(
    shown: Seq<char>,
    values: Seq<Seq<char>>,
    value: Seq<char>,
)
    requires
        forall|i: int| 0 <= i < values.len() ==> values[i] == value,
    ensures
        redraws(shown, values) <= 1,
        redraws(shown, values) == (if values.len() == 0 || shown == value {
            0nat
        } else {
            1nat
        }),
    decreases values.len(),
{
    if values.len() > 0 {
        let rest = values.drop_first();
        assert forall|i: int| 0 <= i < rest.len() implies rest[i] == value by {
            assert(rest[i] == values[i + 1]);
        }
        lemma_unchanged_value_draws_once(values[0], rest, value);
    }
}

} // verus!
