//! The cursor-capture gate: the boolean that decides whether pointer motion
//! is translated into orientation change.
//!
//! The host window system owns the visual side (hiding and confining the
//! pointer); this component owns only the logical flag. It is set once at
//! startup and flipped by an edge-triggered key press afterwards.

use vstd::prelude::*;

verus! {

/// What one toggle does to the captured flag.
pub open spec fn spec_toggled(captured: bool) -> bool {
    !captured
}

/// Whether look-input is currently active.
#[derive(Clone, Copy, PartialEq, Eq, Structural, Debug)]
pub struct CursorCaptureGate {
    pub captured: bool,
}

impl CursorCaptureGate {
    /// The capture flag as initialized once at process start: capturing.
    pub fn startup() -> (g: CursorCaptureGate)
        ensures
            g.captured,
    {
        CursorCaptureGate { captured: true }
    }

    /// Flip the capture flag; the host applies the matching pointer visibility and
    /// confinement change.
    pub fn toggle(&mut self)
        ensures
            final(self).captured == spec_toggled(old(self).captured),
    {
        self.captured = !self.captured;
    }

    /// React to the toggle key for this tick: flip exactly on an
    /// edge-triggered press, never while the key is merely held.
    pub fn on_toggle_key(&mut self, just_pressed: bool)
        ensures
            final(self).captured == (if just_pressed {
                spec_toggled(old(self).captured)
            } else {
                old(self).captured
            }),
    {
        if just_pressed {
            self.toggle();
        }
    }

    /// Whether pointer motion is translated into orientation change.
    pub fn is_active(&self) -> (r: bool)
        ensures
            r == self.captured,
    {
        self.captured
    }
}

/// Two separate edge-triggered presses of the toggle key restore the capture flag to
/// the state it started from.
pub proof fn lemma_toggle_twice_restores(captured: bool)
    ensures
        spec_toggled(spec_toggled(captured)) == captured,
{
}

} // verus!
