//! The mouse-look orientation integrator: drains pointer-motion events,
//! accumulates pitch and yaw, and clamps pitch, gated by the cursor-capture
//! flag.
//!
//! Angles are signed microradians. One raw pointer count turns the view by
//! [`LOOK_STEP_URAD`] microradians (the fixed sensitivity times the fixed
//! angular scale of the host window, converted to radians). Pitch is clamped
//! to [`PITCH_LIMIT_URAD`], just under a quarter turn, so the view can never
//! flip past vertical; yaw is reduced into one full turn, which loses
//! nothing because only its cosine and sine are ever used.

use vstd::prelude::*;

verus! {

use crate::fixed::{clamp_i64, clamp_spec, rem_euclid_i64};
use crate::gate::CursorCaptureGate;

/// The pitch clamp bound in microradians: 1.54 rad, just under 90 degrees.
pub const PITCH_LIMIT_URAD: i64 = 1_540_000;

/// One full turn in microradians.
pub const TAU_URAD: i64 = 6_283_185;

/// Microradians of view turn per raw pointer count: the fixed sensitivity
/// (0.00012 per count) times the fixed angular window scale (720 degrees),
/// converted to radians.
pub const LOOK_STEP_URAD: i64 = 1_508;

/// One relative pointer-motion event, in raw counts.
#[derive(Clone, Copy, PartialEq, Eq, Structural, Debug)]
pub struct MotionDelta {
    pub dx: i32,
    pub dy: i32,
}

/// Pitch after one motion event: turn, then clamp at once.
pub open spec fn pitch_step(pitch: int, dy: int) -> int {
    clamp_spec(
        pitch - dy * LOOK_STEP_URAD,
        -PITCH_LIMIT_URAD as int,
        PITCH_LIMIT_URAD as int,
    )
}

/// Yaw after one motion event: turn, then reduce into `[0, TAU_URAD)`.
pub open spec fn yaw_step(yaw: int, dx: int) -> int {
    (yaw - dx * LOOK_STEP_URAD) % (TAU_URAD as int)
}

/// Pitch and yaw after a whole sequence of motion events, applied in order.
pub open spec fn angles_after(pitch: int, yaw: int, events: Seq<MotionDelta>) -> (int, int)
    decreases events.len(),
{
    if events.len() == 0 {
        (pitch, yaw)
    } else {
        angles_after(
            pitch_step(pitch, events[0].dy as int),
            yaw_step(yaw, events[0].dx as int),
            events.drop_first(),
        )
    }
}

/// Appending one event to a sequence applies its step last.
pub proof fn lemma_angles_after_push(pitch: int, yaw: int, events: Seq<MotionDelta>, e: MotionDelta)
    ensures
        angles_after(pitch, yaw, events.push(e)) == (pitch_step(
            angles_after(pitch, yaw, events).0,
            e.dy as int,
        ), yaw_step(angles_after(pitch, yaw, events).1, e.dx as int)),
    decreases events.len(),
{
    if events.len() == 0 {
        assert(events.push(e).drop_first() =~= events);
        assert(events.push(e)[0] == e);
        assert(angles_after(pitch, yaw, events.push(e)) == angles_after(
            pitch_step(pitch, e.dy as int),
            yaw_step(yaw, e.dx as int),
            events.push(e).drop_first(),
        ));
    } else {
        assert(events.push(e).drop_first() =~= events.drop_first().push(e));
        lemma_angles_after_push(
            pitch_step(pitch, events[0].dy as int),
            yaw_step(yaw, events[0].dx as int),
            events.drop_first(),
            e,
        );
    }
}

/// However many motion events arrive, pitch never leaves the clamp range it
/// started in.
pub proof fn lemma_pitch_stays_clamped(pitch: int, yaw: int, events: Seq<MotionDelta>)
    requires
        -PITCH_LIMIT_URAD <= pitch <= PITCH_LIMIT_URAD,
    ensures
        -PITCH_LIMIT_URAD <= angles_after(pitch, yaw, events).0 <= PITCH_LIMIT_URAD,
    decreases events.len(),
{
    if events.len() > 0 {
        lemma_pitch_stays_clamped(
            pitch_step(pitch, events[0].dy as int),
            yaw_step(yaw, events[0].dx as int),
            events.drop_first(),
        );
    }
}

/// Yaw stays reduced into one full turn.
pub proof fn lemma_yaw_stays_reduced(pitch: int, yaw: int, events: Seq<MotionDelta>)
    requires
        0 <= yaw < TAU_URAD,
    ensures
        0 <= angles_after(pitch, yaw, events).1 < TAU_URAD,
    decreases events.len(),
{
    if events.len() > 0 {
        vstd::arithmetic::div_mod::lemma_mod_division_less_than_divisor(
            yaw - events[0].dx as int * LOOK_STEP_URAD,
            TAU_URAD as int,
        );
        lemma_yaw_stays_reduced(
            pitch_step(pitch, events[0].dy as int),
            yaw_step(yaw, events[0].dx as int),
            events.drop_first(),
        );
    }
}

/// The mouse-look state for one look-controlled entity: the accumulated
/// angles and the read cursor into the append-only motion-event stream.
///
/// The cursor is this consumer's own position in the stream; it must never
/// be shared with another consumer, or events would be applied twice or
/// dropped.
#[derive(Clone, Copy, PartialEq, Eq, Structural, Debug)]
pub struct OrientationState {
    /// Signed microradians, always within the pitch clamp.
    pub pitch: i64,
    /// Microradians, reduced into `[0, TAU_URAD)`.
    pub yaw: i64,
    /// Index of the first motion event not yet consumed.
    pub cursor: usize,
}

impl OrientationState {
    /// The angle invariants.
    pub open spec fn wf(self) -> bool {
        &&& -PITCH_LIMIT_URAD <= self.pitch <= PITCH_LIMIT_URAD
        &&& 0 <= self.yaw < TAU_URAD
    }

    /// The state created once at startup: level view, nothing consumed.
    pub fn startup() -> (s: OrientationState)
        ensures
            s.wf(),
            s.pitch == 0,
            s.yaw == 0,
            s.cursor == 0,
    {
        OrientationState { pitch: 0, yaw: 0, cursor: 0 }
    }

    /// Drain the motion events that arrived since the last tick.
    ///
    /// `events` is the whole append-only stream; entries before the cursor
    /// were consumed in earlier ticks. Every pending event is consumed
    /// either way; while capture is inactive the angles stay untouched, so
    /// no backlog is replayed as one huge jump when capture is re-enabled.
    /// A tick with no pending events leaves the state exactly as it was.
    pub fn update(&mut self, events: &Vec<MotionDelta>, gate: &CursorCaptureGate)
        requires
            old(self).wf(),
            old(self).cursor <= events@.len(),
        ensures
            final(self).wf(),
            final(self).cursor == events@.len(),
            !gate.captured ==> final(self).pitch == old(self).pitch && final(self).yaw == old(
                self,
            ).yaw,
            gate.captured ==> (final(self).pitch as int, final(self).yaw as int) == angles_after(
                old(self).pitch as int,
                old(self).yaw as int,
                events@.subrange(old(self).cursor as int, events@.len() as int),
            ),
            old(self).cursor == events@.len() ==> *final(self) == *old(self),
    {
        let ghost pitch0: int = self.pitch as int;
        let ghost yaw0: int = self.yaw as int;
        let ghost start: int = self.cursor as int;
        let n: usize = events.len();
        let active = gate.is_active();
        let mut i: usize = self.cursor;
        while i < n
            invariant
                start <= i <= n,
                n == events@.len(),
                self.wf(),
                self.cursor == start,
                active == gate.captured,
                !active ==> self.pitch == pitch0 && self.yaw == yaw0,
                active ==> (self.pitch as int, self.yaw as int) == angles_after(
                    pitch0,
                    yaw0,
                    events@.subrange(start, i as int),
                ),
            decreases n - i,
        {
            let e = events[i];
            if active {
                let ghost before = events@.subrange(start, i as int);
                let dy_turn: i64 = (e.dy as i64) * LOOK_STEP_URAD;
                let dx_turn: i64 = (e.dx as i64) * LOOK_STEP_URAD;
                self.pitch = clamp_i64(self.pitch - dy_turn, -PITCH_LIMIT_URAD, PITCH_LIMIT_URAD);
                self.yaw = rem_euclid_i64(self.yaw - dx_turn, TAU_URAD);
                proof {
                    lemma_angles_after_push(pitch0, yaw0, before, e);
                    assert(events@.subrange(start, i as int + 1) =~= before.push(e));
                }
            }
            i = i + 1;
        }
        self.cursor = n;
        proof {
            if start == n as int {
                assert(events@.subrange(start, n as int) =~= Seq::<MotionDelta>::empty());
            }
        }
    }
}

} // verus!
