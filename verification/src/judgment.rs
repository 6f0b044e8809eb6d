//! The judgment of the notes: entering the hit window, a hit, a miss.
//!
//! Within a tick the three steps run in this order. A note that becomes
//! eligible can therefore be hit in the same tick, and a press is judged
//! before a miss can be declared.
use vstd::prelude::*;
use crate::lane::{bound_key, lane_key, KeyEdges};
use crate::note::{notes_wf, Judgment, LiveNote, Outcome};
use crate::timing::{
    in_hit_window, is_in_hit_window, is_past_hit_window, past_hit_window, valid_time,
};

verus! {

impl LiveNote {
    /// The outcome of the note when it is resolved at time `t`.
    pub open spec fn outcome_at(self, is_hit: bool, t: i64) -> Outcome {
        Outcome { is_hit, resolution_time: t, offset: (t - self.target_time) as i64 }
    }

    /// The note after the window step at time `t`: a pending note becomes
    /// eligible exactly when `t` is strictly inside its hit window; any other
    /// note is unchanged.
    pub open spec fn evaluated(self, t: i64) -> LiveNote {
        if self.judgment is Pending && in_hit_window(self.target_time as int, t as int) {
            LiveNote { judgment: Judgment::Eligible, ..self }
        } else {
            self
        }
    }

    /// The note after the hit step at time `t`: an eligible note whose lane's
    /// key was just pressed is resolved as a hit; any other note is unchanged.
    pub open spec fn struck(self, t: i64, edges: KeyEdges) -> LiveNote {
        if self.judgment is Eligible && edges.edge(lane_key(self.lane as int)).just_pressed {
            LiveNote { judgment: Judgment::Resolved(self.outcome_at(true, t)), ..self }
        } else {
            self
        }
    }

    /// The note after the miss step at time `t`: an eligible note whose hit
    /// window lies strictly before `t` is resolved as a miss; any other note
    /// is unchanged.
    pub open spec fn lapsed(self, t: i64) -> LiveNote {
        if self.judgment is Eligible && past_hit_window(self.target_time as int, t as int) {
            LiveNote { judgment: Judgment::Resolved(self.outcome_at(false, t)), ..self }
        } else {
            self
        }
    }

    /// The note after the three steps of one tick, in their order.
    pub open spec fn judged(self, t: i64, edges: KeyEdges) -> LiveNote {
        self.evaluated(t).struck(t, edges).lapsed(t)
    }

    /// The window step on one note.
    pub fn evaluate(self, t: i64) -> (r: LiveNote)
        requires
            self.wf(),
            valid_time(t as int),
        ensures
            r == self.evaluated(t),
            r.wf(),
    {
        match self.judgment {
            Judgment::Pending => {
                if is_in_hit_window(self.target_time, t) {
                    LiveNote {
                        lane: self.lane,
                        target_time: self.target_time,
                        position: self.position,
                        judgment: Judgment::Eligible,
                    }
                } else {
                    self
                }
            },
            _ => self,
        }
    }

    /// The hit step on one note.
    pub fn hit(self, t: i64, edges: &KeyEdges) -> (r: LiveNote)
        requires
            self.wf(),
            valid_time(t as int),
        ensures
            r == self.struck(t, *edges),
            r.wf(),
    {
        match self.judgment {
            Judgment::Eligible => {
                if edges.of(bound_key(self.lane)).just_pressed {
                    self.resolve(true, t)
                } else {
                    self
                }
            },
            _ => self,
        }
    }

    /// The miss step on one note.
    pub fn miss(self, t: i64) -> (r: LiveNote)
        requires
            self.wf(),
            valid_time(t as int),
        ensures
            r == self.lapsed(t),
            r.wf(),
    {
        match self.judgment {
            Judgment::Eligible => {
                if is_past_hit_window(self.target_time, t) {
                    self.resolve(false, t)
                } else {
                    self
                }
            },
            _ => self,
        }
    }

    /// The three steps of one tick on one note.
    pub fn judge(self, t: i64, edges: &KeyEdges) -> (r: LiveNote)
        requires
            self.wf(),
            valid_time(t as int),
        ensures
            r == self.judged(t, *edges),
            r.wf(),
    {
        self.evaluate(t).hit(t, edges).miss(t)
    }

    fn resolve(self, is_hit: bool, t: i64) -> (r: LiveNote)
        requires
            self.wf(),
            valid_time(t as int),
        ensures
            r == (LiveNote { judgment: Judgment::Resolved(self.outcome_at(is_hit, t)), ..self }),
            r.wf(),
    {
        LiveNote {
            lane: self.lane,
            target_time: self.target_time,
            position: self.position,
            judgment: Judgment::Resolved(
                Outcome { is_hit, resolution_time: t, offset: t - self.target_time },
            ),
        }
    }
}

/// Every note of `before` after the window step at time `t`.
pub open spec fn evaluated_all(before: Seq<LiveNote>, t: i64) -> Seq<LiveNote> {
    Seq::new(before.len(), |i: int| before[i].evaluated(t))
}

/// Every note of `before` after the hit step at time `t`.
pub open spec fn struck_all(before: Seq<LiveNote>, t: i64, edges: KeyEdges) -> Seq<LiveNote> {
    Seq::new(before.len(), |i: int| before[i].struck(t, edges))
}

/// Every note of `before` after the miss step at time `t`.
pub open spec fn lapsed_all(before: Seq<LiveNote>, t: i64) -> Seq<LiveNote> {
    Seq::new(before.len(), |i: int| before[i].lapsed(t))
}

/// Every note of `before` after the three steps of one tick.
pub open spec fn judged_all(before: Seq<LiveNote>, t: i64, edges: KeyEdges) -> Seq<LiveNote> {
    Seq::new(before.len(), |i: int| before[i].judged(t, edges))
}

/// The window step: every pending note whose hit window holds `t` becomes
/// eligible.
pub fn evaluate_notes(notes: &mut Vec<LiveNote>, t: i64)
    requires
        notes_wf(old(notes)@),
        valid_time(t as int),
    ensures
        final(notes)@ == evaluated_all(old(notes)@, t),
        notes_wf(final(notes)@),
{
    let n: usize = notes.len();
    let mut i: usize = 0;
    while i < n
        invariant
            i <= n,
            notes@.len() == n,
            old(notes)@.len() == n,
            valid_time(t as int),
            notes_wf(old(notes)@),
            forall|k: int| 0 <= k < i ==> #[trigger] notes@[k] == old(notes)@[k].evaluated(t),
            forall|k: int| 0 <= k < i ==> (#[trigger] notes@[k]).wf(),
            forall|k: int| i <= k < n ==> #[trigger] notes@[k] == old(notes)@[k],
        decreases n - i,
    {
        let next = notes[i].evaluate(t);
        notes.set(i, next);
        i = i + 1;
    }
    assert(notes@ =~= evaluated_all(old(notes)@, t));
}

/// The hit step: every eligible note whose lane's key was just pressed is
/// resolved as a hit at time `t`. One press resolves every eligible note of
/// its lane.
pub fn hit_note(notes: &mut Vec<LiveNote>, t: i64, edges: &KeyEdges)
    requires
        notes_wf(old(notes)@),
        valid_time(t as int),
    ensures
        final(notes)@ == struck_all(old(notes)@, t, *edges),
        notes_wf(final(notes)@),
{
    let n: usize = notes.len();
    let mut i: usize = 0;
    while i < n
        invariant
            i <= n,
            notes@.len() == n,
            old(notes)@.len() == n,
            valid_time(t as int),
            notes_wf(old(notes)@),
            forall|k: int| 0 <= k < i ==> #[trigger] notes@[k] == old(notes)@[k].struck(t, *edges),
            forall|k: int| 0 <= k < i ==> (#[trigger] notes@[k]).wf(),
            forall|k: int| i <= k < n ==> #[trigger] notes@[k] == old(notes)@[k],
        decreases n - i,
    {
        let next = notes[i].hit(t, edges);
        notes.set(i, next);
        i = i + 1;
    }
    assert(notes@ =~= struck_all(old(notes)@, t, *edges));
}

/// The miss step: every eligible note whose hit window lies before `t` is
/// resolved as a miss at time `t`.
pub fn handle_missed_notes(notes: &mut Vec<LiveNote>, t: i64)
    requires
        notes_wf(old(notes)@),
        valid_time(t as int),
    ensures
        final(notes)@ == lapsed_all(old(notes)@, t),
        notes_wf(final(notes)@),
{
    let n: usize = notes.len();
    let mut i: usize = 0;
    while i < n
        invariant
            i <= n,
            notes@.len() == n,
            old(notes)@.len() == n,
            valid_time(t as int),
            notes_wf(old(notes)@),
            forall|k: int| 0 <= k < i ==> #[trigger] notes@[k] == old(notes)@[k].lapsed(t),
            forall|k: int| 0 <= k < i ==> (#[trigger] notes@[k]).wf(),
            forall|k: int| i <= k < n ==> #[trigger] notes@[k] == old(notes)@[k],
        decreases n - i,
    {
        let next = notes[i].miss(t);
        notes.set(i, next);
        i = i + 1;
    }
    assert(notes@ =~= lapsed_all(old(notes)@, t));
}

/// The three steps of one tick, in their order, on every note.
pub fn judge_notes(notes: &mut Vec<LiveNote>, t: i64, edges: &KeyEdges)
    requires
        notes_wf(old(notes)@),
        valid_time(t as int),
    ensures
        final(notes)@ == judged_all(old(notes)@, t, *edges),
        notes_wf(final(notes)@),
{
    evaluate_notes(notes, t);
    hit_note(notes, t, edges);
    handle_missed_notes(notes, t);
    assert(notes@ =~= judged_all(old(notes)@, t, *edges));
}

} // verus!
