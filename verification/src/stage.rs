//! The whole game state and the one routine that advances it by a tick.
use vstd::prelude::*;
use crate::judgment::{judge_notes, judged_all};
use crate::lane::KeyEdges;
use crate::motion::{move_notes_down, moved_all};
use crate::note::{entries_wf, notes_wf, BeatmapEntry, LiveNote};
use crate::spawn::{spawn_notes_from_song, spawned_notes, waiting_entries};
use crate::timing::valid_time;

verus! {

/// The entries that still wait and the notes that are live. An entry is in
/// `waiting` until it spawns and in `live`, as a note, from then on.
pub struct Stage {
    pub waiting: Vec<BeatmapEntry>,
    pub live: Vec<LiveNote>,
}

/// The live notes after a tick at time `t` with key edges `edges`: the notes
/// that were live, moved, followed by the notes spawned in this tick, all of
/// them judged.
pub open spec fn ticked_notes(
    live: Seq<LiveNote>,
    waiting: Seq<BeatmapEntry>,
    t: i64,
    edges: KeyEdges,
) -> Seq<LiveNote> {
    judged_all(moved_all(live, t) + spawned_notes(waiting, t), t, edges)
}

/// Tells whether every entry of a beatmap is well formed.
pub fn check_song(song: &Vec<BeatmapEntry>) -> (r: bool)
    ensures
        r == entries_wf(song@),
{
    let n: usize = song.len();
    let mut i: usize = 0;
    while i < n
        invariant
            i <= n,
            song@.len() == n,
            forall|k: int| 0 <= k < i ==> (#[trigger] song@[k]).wf(),
        decreases n - i,
    {
        if !song[i].is_well_formed() {
            return false;
        }
        i = i + 1;
    }
    true
}

/// Tells whether every note of a list is well formed.
pub fn check_notes(notes: &Vec<LiveNote>) -> (r: bool)
    ensures
        r == notes_wf(notes@),
{
    let n: usize = notes.len();
    let mut i: usize = 0;
    while i < n
        invariant
            i <= n,
            notes@.len() == n,
            forall|k: int| 0 <= k < i ==> (#[trigger] notes@[k]).wf(),
        decreases n - i,
    {
        if !notes[i].is_well_formed() {
            return false;
        }
        i = i + 1;
    }
    true
}

impl Stage {
    /// Every waiting entry and every live note is well formed.
    pub open spec fn wf(&self) -> bool {
        entries_wf(self.waiting@) && notes_wf(self.live@)
    }

    /// Tells whether the stage is well formed.
    pub fn is_well_formed(&self) -> (r: bool)
        ensures
            r == self.wf(),
    {
        check_song(&self.waiting) && check_notes(&self.live)
    }

    /// A stage on which the whole beatmap waits and no note is live.
    pub fn new(song: Vec<BeatmapEntry>) -> (stage: Stage)
        requires
            entries_wf(song@),
        ensures
            stage.waiting@ == song@,
            stage.live@.len() == 0,
            stage.wf(),
    {
        Stage { waiting: song, live: Vec::new() }
    }

    /// One tick at time `t` with the key edges `edges`: the live notes move,
    /// the due entries spawn, and every live note goes through the window
    /// step, the hit step and the miss step, in this order.
    pub fn tick(&mut self, t: i64, edges: &KeyEdges)
        requires
            old(self).wf(),
            valid_time(t as int),
        ensures
            final(self).waiting@ == waiting_entries(old(self).waiting@, t),
            final(self).live@ == ticked_notes(old(self).live@, old(self).waiting@, t, *edges),
            final(self).wf(),
    {
        move_notes_down(&mut self.live, t);
        spawn_notes_from_song(&mut self.waiting, &mut self.live, t);
        judge_notes(&mut self.live, t, edges);
    }
}

} // verus!
