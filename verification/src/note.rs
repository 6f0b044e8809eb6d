//! The records of the game: a scheduled entry, a live note, its judgment and
//! the outcome that ends it.
use vstd::prelude::*;
use crate::lane::{is_lane, Position, LANE_COUNT};
use crate::timing::{is_valid_time, valid_time};

verus! {

/// One scheduled note of a beatmap.
#[derive(Clone, Copy, Debug, PartialEq, Eq, Structural)]
pub struct BeatmapEntry {
    /// The lane the note falls in.
    pub lane: u8,
    /// The time at which the note crosses the hit line, in microseconds.
    pub target_time: i64,
}

/// How a note ended.
#[derive(Clone, Copy, Debug, PartialEq, Eq, Structural)]
pub struct Outcome {
    /// The note was hit; otherwise it was missed.
    pub is_hit: bool,
    /// The time of the tick that resolved the note.
    pub resolution_time: i64,
    /// Resolution time minus target time: negative for an early hit.
    pub offset: i64,
}

/// The state of a live note. A note only ever goes from `Pending` to
/// `Eligible` and from `Eligible` to `Resolved`.
#[derive(Clone, Copy, Debug, PartialEq, Eq, Structural)]
pub enum Judgment {
    /// The hit window has not been entered.
    Pending,
    /// The hit window was entered; a press of the lane's key hits the note.
    Eligible,
    /// The note was hit or missed.
    Resolved(Outcome),
}

/// A note that has been spawned.
#[derive(Clone, Copy, Debug, PartialEq, Eq, Structural)]
pub struct LiveNote {
    pub lane: u8,
    pub target_time: i64,
    pub position: Position,
    pub judgment: Judgment,
}

impl BeatmapEntry {
    /// The lane exists and the target time is one the library accepts.
    pub open spec fn wf(self) -> bool {
        self.lane < LANE_COUNT && valid_time(self.target_time as int)
    }

    /// Tells whether the entry is well formed.
    pub fn is_well_formed(&self) -> (r: bool)
        ensures
            r == self.wf(),
    {
        is_lane(self.lane) && is_valid_time(self.target_time)
    }
}

impl LiveNote {
    /// The lane exists, the target time is one the library accepts, and an
    /// outcome, where there is one, carries the offset of its resolution time
    /// from the target time.
    pub open spec fn wf(self) -> bool {
        &&& self.lane < LANE_COUNT
        &&& valid_time(self.target_time as int)
        &&& match self.judgment {
            Judgment::Resolved(o) => {
                &&& valid_time(o.resolution_time as int)
                &&& o.offset == o.resolution_time - self.target_time
            },
            _ => true,
        }
    }

    /// The note has an outcome.
    pub open spec fn resolved(self) -> bool {
        self.judgment is Resolved
    }

    /// The note is shown: every note is, but one that was hit.
    pub open spec fn visible(self) -> bool {
        match self.judgment {
            Judgment::Resolved(o) => !o.is_hit,
            _ => true,
        }
    }

    /// Tells whether the note is well formed.
    pub fn is_well_formed(&self) -> (r: bool)
        ensures
            r == self.wf(),
    {
        if !is_lane(self.lane) || !is_valid_time(self.target_time) {
            return false;
        }
        match self.judgment {
            Judgment::Resolved(o) => {
                is_valid_time(o.resolution_time) && o.offset == o.resolution_time
                    - self.target_time
            },
            _ => true,
        }
    }

    /// The note's outcome, once it has one.
    pub fn outcome(&self) -> (r: Option<Outcome>)
        ensures
            r == (match self.judgment {
                Judgment::Resolved(o) => Some(o),
                _ => None,
            }),
    {
        match self.judgment {
            Judgment::Resolved(o) => Some(o),
            _ => None,
        }
    }

    /// Tells whether the note is to be shown.
    pub fn is_visible(&self) -> (r: bool)
        ensures
            r == self.visible(),
    {
        match self.judgment {
            Judgment::Resolved(o) => !o.is_hit,
            _ => true,
        }
    }
}

/// Every entry of the sequence is well formed.
pub open spec fn entries_wf(entries: Seq<BeatmapEntry>) -> bool {
    forall|i: int| 0 <= i < entries.len() ==> (#[trigger] entries[i]).wf()
}

/// Every note of the sequence is well formed.
pub open spec fn notes_wf(notes: Seq<LiveNote>) -> bool {
    forall|i: int| 0 <= i < notes.len() ==> (#[trigger] notes[i]).wf()
}

} // verus!
