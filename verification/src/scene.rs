//! The scene registry: per-entity poses keyed by a small closed set of
//! roles, with an explicit lookup that reports a missing or ambiguous match
//! instead of panicking, and the goal-line test on the ball's position.

use vstd::prelude::*;

verus! {

use crate::motion::Pose;

/// The capability tags under which the controlled entities are found.
#[derive(Clone, Copy, PartialEq, Eq, Structural, Debug)]
pub enum EntityRole {
    Camera,
    PrimaryActor,
    SecondaryActor,
}

/// Why a lookup returned no entity. The caller is expected to log a warning
/// and skip its update for the tick; state is re-evaluated fresh next tick.
#[derive(Clone, Copy, PartialEq, Eq, Structural, Debug)]
pub enum LookupError {
    NotFound,
    Ambiguous,
}

/// One controlled entity: its role and its transform.
#[derive(Clone, Copy, PartialEq, Eq, Structural, Debug)]
pub struct SceneEntry {
    pub role: EntityRole,
    pub pose: Pose,
}

/// How many entries carry the given role.
pub open spec fn role_count(s: Seq<SceneEntry>, role: EntityRole) -> nat
    decreases s.len(),
{
    if s.len() == 0 {
        0
    } else {
        role_count(s.drop_last(), role) + (if s.last().role == role {
            1nat
        } else {
            0nat
        })
    }
}

/// The registry of controlled entities.
pub struct SceneRegistry {
    pub entries: Vec<SceneEntry>,
}

impl SceneRegistry {
    /// An empty registry.
    pub fn new() -> (r: SceneRegistry)
        ensures
            r.entries@.len() == 0,
    {
        SceneRegistry { entries: Vec::new() }
    }

    /// Register one entity.
    pub fn add(&mut self, role: EntityRole, pose: Pose)
        ensures
            final(self).entries@ == old(self).entries@.push(
                SceneEntry { role, pose },
            ),
    {
        self.entries.push(SceneEntry { role, pose });
    }

    /// The index of the unique entity with the given role, or an explicit
    /// report that there is none or that the role is ambiguous.
    pub fn find_unique(&self, role: EntityRole) -> (r: Result<usize, LookupError>)
        ensures
            match r {
                Ok(i) => {
                    &&& role_count(self.entries@, role) == 1
                    &&& i < self.entries@.len()
                    &&& self.entries@[i as int].role == role
                    &&& forall|j: int|
                        0 <= j < self.entries@.len() && j != i ==> self.entries@[j].role != role
                },
                Err(LookupError::NotFound) => role_count(self.entries@, role) == 0,
                Err(LookupError::Ambiguous) => role_count(self.entries@, role) >= 2,
            },
    {
        let n = self.entries.len();
        let mut count: usize = 0;
        let mut found: usize = 0;
        let mut i: usize = 0;
        while i < n
            invariant
                0 <= i <= n,
                n == self.entries@.len(),
                count <= i,
                count == role_count(self.entries@.subrange(0, i as int), role),
                count == 0 ==> forall|j: int| 0 <= j < i ==> self.entries@[j].role != role,
                count >= 1 ==> found < i && self.entries@[found as int].role == role,
                count == 1 ==> forall|j: int|
                    0 <= j < i && j != found ==> self.entries@[j].role != role,
            decreases n - i,
        {
            proof {
                let pre = self.entries@.subrange(0, i as int);
                let ext = self.entries@.subrange(0, i as int + 1);
                assert(ext.drop_last() =~= pre);
                assert(ext.last() == self.entries@[i as int]);
            }
            if self.entries[i].role == role {
                if count == 0 {
                    found = i;
                }
                count = count + 1;
            }
            i = i + 1;
        }
        proof {
            assert(self.entries@.subrange(0, n as int) =~= self.entries@);
        }
        if count == 0 {
            Err(LookupError::NotFound)
        } else if count == 1 {
            Ok(found)
        } else {
            Err(LookupError::Ambiguous)
        }
    }
}

/// The goal line's distance from the middle of the pitch, in fixed-point
/// world units.
pub const GOAL_LINE_FX: i64 = 4_000_000;

/// Whether the ball's sideways coordinate has crossed either goal line.
pub fn ball_in_goal(ball_x: i64) -> (r: bool)
    ensures
        r <==> (ball_x > GOAL_LINE_FX || ball_x < -GOAL_LINE_FX),
{
    ball_x > GOAL_LINE_FX || ball_x < -GOAL_LINE_FX
}

} // verus!
