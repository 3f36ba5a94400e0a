//! The selection state machine.
//!
//! A session starts `Idle`. A press of the primary button anchors a drag at
//! the cursor; its release ends the session, with the rectangle between the
//! anchor and the cursor if that is more than one pixel wide and high, and
//! cancelled otherwise. The two final phases are never left again.

use vstd::prelude::*;
use crate::geometry::{normalize, get_selection_box, Point, Rect};

verus! {

/// Code of the primary (left) pointer button.
pub const BUTTON_PRIMARY: u32 = 272;

/// Code of the secondary (right) pointer button.
pub const BUTTON_SECONDARY: u32 = 273;

/// Code of the Escape key.
pub const KEY_ESCAPE: u32 = 1;

/// One pixel, in units: a selection is reported only if it is wider and
/// higher than this.
pub const COMMIT_THRESHOLD: u64 = 256;

/// Exit status of a session that reported a selection.
pub const EXIT_COMMITTED: i32 = 0;

/// Exit status of a session that was cancelled.
pub const EXIT_CANCELLED: i32 = 1;

#[derive(Clone, Copy, Debug, PartialEq, Eq, Structural)]
pub enum Phase {
    /// No drag has started.
    Idle,
    /// The primary button is held; `anchor` is where it went down.
    Dragging { anchor: Point },
    /// The session ended with `selection`.
    Committed { selection: Rect },
    /// The session ended without a selection.
    Cancelled,
}

/// Whether a released drag counts as a selection rather than as a click.
pub open spec fn large_enough(selection: Rect) -> bool {
    selection.width > COMMIT_THRESHOLD && selection.height > COMMIT_THRESHOLD
}

impl Phase {
    pub open spec fn is_terminal(self) -> bool {
        self is Committed || self is Cancelled
    }

    /// The phase after the primary button goes down with the cursor at
    /// `cursor`. A press during a drag anchors the drag anew.
    pub open spec fn after_press(self, cursor: Point) -> Phase {
        if self.is_terminal() {
            self
        } else {
            Phase::Dragging { anchor: cursor }
        }
    }

    /// The phase after the primary button comes up with the cursor at
    /// `cursor`. Without a drag the release means nothing.
    pub open spec fn after_release(self, cursor: Point) -> Phase {
        match self {
            Phase::Dragging { anchor } => {
                if large_enough(normalize(anchor, cursor)) {
                    Phase::Committed { selection: normalize(anchor, cursor) }
                } else {
                    Phase::Cancelled
                }
            },
            _ => self,
        }
    }

    /// The phase after the user or the compositor calls the session off.
    pub open spec fn after_cancel(self) -> Phase {
        if self.is_terminal() {
            self
        } else {
            Phase::Cancelled
        }
    }

    /// The exit status that the phase stands for, once the session has ended.
    pub open spec fn exit_status(self) -> Option<i32> {
        match self {
            Phase::Committed { .. } => Some(EXIT_COMMITTED),
            Phase::Cancelled => Some(EXIT_CANCELLED),
            _ => None,
        }
    }

    /// The rectangle that the phase shows on screen: the one being dragged.
    pub open spec fn live_selection(self, cursor: Point) -> Option<Rect> {
        match self {
            Phase::Dragging { anchor } => Some(normalize(anchor, cursor)),
            _ => None,
        }
    }

    pub fn finished(&self) -> (done: bool)
        ensures
            done == self.is_terminal(),
    {
        match self {
            Phase::Committed { .. } => true,
            Phase::Cancelled => true,
            _ => false,
        }
    }

    pub fn press(self, cursor: Point) -> (next: Phase)
        ensures
            next == self.after_press(cursor),
    {
        if self.finished() {
            self
        } else {
            Phase::Dragging { anchor: cursor }
        }
    }

    pub fn release(self, cursor: Point) -> (next: Phase)
        ensures
            next == self.after_release(cursor),
    {
        match self {
            Phase::Dragging { anchor } => {
                let selection: Rect = get_selection_box(anchor, cursor);
                if selection.width > COMMIT_THRESHOLD && selection.height > COMMIT_THRESHOLD {
                    Phase::Committed { selection }
                } else {
                    Phase::Cancelled
                }
            },
            _ => self,
        }
    }

    pub fn cancel(self) -> (next: Phase)
        ensures
            next == self.after_cancel(),
    {
        if self.finished() {
            self
        } else {
            Phase::Cancelled
        }
    }

    pub fn exit_code(&self) -> (code: Option<i32>)
        ensures
            code == self.exit_status(),
    {
        match self {
            Phase::Committed { .. } => Some(EXIT_COMMITTED),
            Phase::Cancelled => Some(EXIT_CANCELLED),
            _ => None,
        }
    }

    pub fn current_selection(&self, cursor: Point) -> (live: Option<Rect>)
        ensures
            live == self.live_selection(cursor),
    {
        match self {
            Phase::Dragging { anchor } => Some(get_selection_box(*anchor, cursor)),
            _ => None,
        }
    }
}

/// A release that leaves a rectangle at most one pixel wide or at most one
/// pixel high never commits: from a drag it cancels.
pub proof fn lemma_small_release_cancels(phase: Phase, cursor: Point)
    requires
        phase matches Phase::Dragging { anchor } && (normalize(anchor, cursor).width
            <= COMMIT_THRESHOLD || normalize(anchor, cursor).height <= COMMIT_THRESHOLD),
    ensures
        phase.after_release(cursor) == Phase::Cancelled,
        !(phase.after_release(cursor) is Committed),
{
}

/// Whatever a release commits is the normalized drag rectangle, and it is
/// more than one pixel wide and high.
pub proof fn lemma_commit_is_large(phase: Phase, cursor: Point)
    requires
        !phase.is_terminal(),
        phase.after_release(cursor) is Committed,
    ensures
        phase matches Phase::Dragging { anchor } && phase.after_release(cursor) == (
        Phase::Committed { selection: normalize(anchor, cursor) }),
        large_enough(phase.after_release(cursor)->selection),
{
}

/// A session that has ended stays as it ended, whatever the user does.
pub proof fn lemma_terminal_is_final(phase: Phase, cursor: Point)
    requires
        phase.is_terminal(),
    ensures
        phase.after_press(cursor) == phase,
        phase.after_release(cursor) == phase,
        phase.after_cancel() == phase,
{
}

/// Cancelling a running session always ends it with the failure status.
pub proof fn lemma_cancel_ends_with_failure(phase: Phase)
    requires
        !phase.is_terminal(),
    ensures
        phase.after_cancel() == Phase::Cancelled,
        phase.after_cancel().exit_status() == Some(EXIT_CANCELLED),
{
}

} // verus!
