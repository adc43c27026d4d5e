//! Which modal may act on the input events reaching the current frame.
//!
//! A frame is handed the key presses produced while the previous frame was on
//! screen.  A modal that opens and reads keys in the same frame therefore
//! reads presses aimed at whatever the user was actually looking at.  The same
//! hazard applies when a modal's content changes.
//!
//! Both cases are one rule: a modal may act on a frame's events only when the
//! previous frame painted that same modal showing the same thing.

use vstd::prelude::*;

verus! {

/// A modal, at the granularity `ModalGate` compares.  Two states a user must be
/// able to tell apart before answering are two kinds, not one.
#[derive(Debug, Clone, Copy, PartialEq, Eq, Structural)]
pub enum ModalKind {
    Delete,
    CloseSession,
    DetachAll,
    RemoveProject,
    Error,
    Palette,
    Rename,
    BaseBranchPicker,
    CreatePrompt,
    CreateRunning,
    CreateDone,
    Quit,
}

/// Remembers what the last frame painted so this frame's modal can tell
/// whether the events it is being handed were aimed at it.
#[derive(Debug, Clone, Copy, PartialEq, Eq, Structural)]
pub struct ModalGate {
    pub painted: Option<ModalKind>,
    pub current: Option<ModalKind>,
}

impl ModalGate {
    /// Nothing painted yet.
    pub fn new() -> (r: Self)
        ensures
            r == (ModalGate { painted: None, current: None }),
    {
        ModalGate { painted: None, current: None }
    }

    /// Whether the modal now painting may act on this frame's input events.
    /// Records it as this frame's modal either way, so the caller cannot
    /// accept input without also arming the next frame's gate.
    pub fn accepts(&mut self, now: ModalKind) -> (r: bool)
        ensures
            r == (old(self).painted == Some(now)),
            *final(self) == (ModalGate { current: Some(now), ..*old(self) }),
    {
        self.current = Some(now);
        self.painted == Some(now)
    }

    /// Carry what this frame painted into the next frame's gate.  Runs every
    /// frame, including the frames that paint no modal at all.
    pub fn end_frame(&mut self)
        ensures
            *final(self) == (ModalGate { painted: old(self).current, current: None }),
    {
        self.painted = self.current;
        self.current = None;
    }
}

/// What one frame does to a `ModalGate`: it paints a modal or none, and ends.
pub open spec fn frame(gate: ModalGate, painting: Option<ModalKind>) -> ModalGate {
    ModalGate {
        painted: match painting {
            Some(kind) => Some(kind),
            None => gate.current,
        },
        current: None,
    }
}

/// A modal acts on a frame's events exactly when the frame before painted it:
/// not on the frame it opens on, not after another stood in its place, and not
/// after a frame without any.
pub proof fn a_modal_acts_once_it_was_seen(gate: ModalGate, painting: Option<ModalKind>, now: ModalKind)
    requires
        gate.current is None,
    ensures
        (frame(gate, painting).painted == Some(now)) == (painting == Some(now)),
        frame(gate, painting).current is None,
{
}

} // verus!
