//! The fall of the notes: where a note is at a given time.
use vstd::prelude::*;
use crate::lane::{anchor_of, lane_anchor, Position};
use crate::note::{notes_wf, LiveNote};
use crate::timing::{valid_time, FALL_SPEED};

verus! {

/// Height of a note of lane `lane` with target time `target` at time `t`: it
/// is on the hit line at its target time, above it before and below it after,
/// and falls at the fall speed.
pub open spec fn fall_y(lane: int, target: int, t: int) -> int {
    anchor_of(lane).1 - (t - target) * FALL_SPEED
}

/// Every note of `before` moved to where it is at time `t`.
pub open spec fn moved_all(before: Seq<LiveNote>, t: i64) -> Seq<LiveNote> {
    Seq::new(before.len(), |i: int| before[i].moved(t))
}

impl LiveNote {
    /// The note, moved to where it is at time `t`: in its lane's column, at
    /// the height `fall_y`. Nothing else of it changes.
    pub open spec fn moved(self, t: i64) -> LiveNote {
        LiveNote {
            position: Position {
                x: anchor_of(self.lane as int).0 as i64,
                y: fall_y(self.lane as int, self.target_time as int, t as int) as i64,
            },
            ..self
        }
    }

    /// Moves the note to where it is at time `t`.
    pub fn move_down(self, t: i64) -> (r: LiveNote)
        requires
            self.wf(),
            valid_time(t as int),
        ensures
            r == self.moved(t),
            r.position.x == anchor_of(self.lane as int).0,
            r.position.y == fall_y(self.lane as int, self.target_time as int, t as int),
            r.wf(),
    {
        let anchor = lane_anchor(self.lane);
        let elapsed: i64 = t - self.target_time;
        LiveNote {
            lane: self.lane,
            target_time: self.target_time,
            position: Position { x: anchor.x, y: anchor.y - elapsed * FALL_SPEED },
            judgment: self.judgment,
        }
    }
}

/// Moves every note to where it is at time `t`, resolved notes included.
pub fn move_notes_down(notes: &mut Vec<LiveNote>, t: i64)
    requires
        notes_wf(old(notes)@),
        valid_time(t as int),
    ensures
        final(notes)@ == moved_all(old(notes)@, t),
        notes_wf(final(notes)@),
{
    let n: usize = notes.len();
    let mut i: usize = 0;
    while i < n
        invariant
            i <= n,
            notes@.len() == n,
            old(notes)@.len() == n,
            valid_time(t as int),
            notes_wf(old(notes)@),
            forall|k: int| 0 <= k < i ==> #[trigger] notes@[k] == old(notes)@[k].moved(t),
            forall|k: int| i <= k < n ==> #[trigger] notes@[k] == old(notes)@[k],
        decreases n - i,
    {
        let moved = notes[i].move_down(t);
        notes.set(i, moved);
        i = i + 1;
    }
    assert(notes@ =~= moved_all(old(notes)@, t));
    assert forall|k: int| 0 <= k < notes@.len() implies (#[trigger] notes@[k]).wf() by {
        assert(old(notes)@[k].wf());
    }
}

} // verus!
