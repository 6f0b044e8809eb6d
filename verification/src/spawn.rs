//! The spawn of the notes: entries that come within the lookahead leave the
//! waiting list and become live notes.
use vstd::prelude::*;
use crate::lane::{spawn_point, spawn_point_of, Position};
use crate::note::{entries_wf, notes_wf, BeatmapEntry, Judgment, LiveNote};
use crate::timing::{is_spawn_due, spawn_due, valid_time};

verus! {

/// The live note that an entry becomes: at its lane's spawn point, pending.
pub open spec fn fresh_note(entry: BeatmapEntry) -> LiveNote {
    LiveNote {
        lane: entry.lane,
        target_time: entry.target_time,
        position: Position {
            x: spawn_point_of(entry.lane as int).0 as i64,
            y: spawn_point_of(entry.lane as int).1 as i64,
        },
        judgment: Judgment::Pending,
    }
}

/// The entries of `waiting` that are due at time `t`, in their order.
pub open spec fn due_entries(waiting: Seq<BeatmapEntry>, t: i64) -> Seq<BeatmapEntry> {
    waiting.filter(|e: BeatmapEntry| spawn_due(e.target_time as int, t as int))
}

/// The entries of `waiting` that are not yet due at time `t`, in their order.
pub open spec fn waiting_entries(waiting: Seq<BeatmapEntry>, t: i64) -> Seq<BeatmapEntry> {
    waiting.filter(|e: BeatmapEntry| !spawn_due(e.target_time as int, t as int))
}

/// The notes spawned from `waiting` at time `t`: one for each due entry, in
/// the order of the entries.
pub open spec fn spawned_notes(waiting: Seq<BeatmapEntry>, t: i64) -> Seq<LiveNote> {
    due_entries(waiting, t).map_values(|e: BeatmapEntry| fresh_note(e))
}

/// What the three sequences are on a list that grows by one entry at its end.
pub proof fn lemma_spawn_step(waiting: Seq<BeatmapEntry>, entry: BeatmapEntry, t: i64)
    ensures
        spawn_due(entry.target_time as int, t as int) ==> due_entries(waiting.push(entry), t)
            == due_entries(waiting, t).push(entry),
        spawn_due(entry.target_time as int, t as int) ==> waiting_entries(waiting.push(entry), t)
            == waiting_entries(waiting, t),
        spawn_due(entry.target_time as int, t as int) ==> spawned_notes(waiting.push(entry), t)
            == spawned_notes(waiting, t).push(fresh_note(entry)),
        !spawn_due(entry.target_time as int, t as int) ==> due_entries(waiting.push(entry), t)
            == due_entries(waiting, t),
        !spawn_due(entry.target_time as int, t as int) ==> waiting_entries(waiting.push(entry), t)
            == waiting_entries(waiting, t).push(entry),
        !spawn_due(entry.target_time as int, t as int) ==> spawned_notes(waiting.push(entry), t)
            == spawned_notes(waiting, t),
{
    reveal(Seq::filter);
    let longer = waiting.push(entry);
    assert(longer.drop_last() =~= waiting);
    assert(longer.last() == entry);
    if spawn_due(entry.target_time as int, t as int) {
        assert(spawned_notes(longer, t) =~= spawned_notes(waiting, t).push(fresh_note(entry)));
    }
}

/// Makes the live note that an entry becomes.
pub fn spawn_note(entry: &BeatmapEntry) -> (note: LiveNote)
    requires
        entry.wf(),
    ensures
        note == fresh_note(*entry),
        note.wf(),
{
    LiveNote {
        lane: entry.lane,
        target_time: entry.target_time,
        position: spawn_point(entry.lane),
        judgment: Judgment::Pending,
    }
}

/// The spawn step at time `t`: every waiting entry that is due leaves
/// `waiting` and is added, as a fresh note, at the end of `live`. Both lists
/// keep their order.
pub fn spawn_notes_from_song(waiting: &mut Vec<BeatmapEntry>, live: &mut Vec<LiveNote>, t: i64)
    requires
        entries_wf(old(waiting)@),
        notes_wf(old(live)@),
        valid_time(t as int),
    ensures
        final(waiting)@ == waiting_entries(old(waiting)@, t),
        final(live)@ == old(live)@ + spawned_notes(old(waiting)@, t),
        entries_wf(final(waiting)@),
        notes_wf(final(live)@),
{
    let n: usize = waiting.len();
    let mut kept: Vec<BeatmapEntry> = Vec::new();
    let mut i: usize = 0;
    proof {
        reveal(Seq::filter);
        assert(waiting@.take(0) =~= Seq::<BeatmapEntry>::empty());
        assert(live@ =~= old(live)@ + spawned_notes(waiting@.take(0), t));
    }
    while i < n
        invariant
            i <= n,
            waiting@.len() == n,
            waiting@ == old(waiting)@,
            valid_time(t as int),
            entries_wf(waiting@),
            kept@ == waiting_entries(waiting@.take(i as int), t),
            live@ == old(live)@ + spawned_notes(waiting@.take(i as int), t),
            entries_wf(kept@),
            notes_wf(live@),
        decreases n - i,
    {
        let entry = waiting[i];
        proof {
            assert(entry.wf());
            assert(waiting@.take(i + 1) =~= waiting@.take(i as int).push(entry));
            lemma_spawn_step(waiting@.take(i as int), entry, t);
        }
        if is_spawn_due(entry.target_time, t) {
            let note = spawn_note(&entry);
            live.push(note);
            assert(live@ =~= old(live)@ + spawned_notes(waiting@.take(i + 1), t));
        } else {
            kept.push(entry);
        }
        i = i + 1;
    }
    assert(waiting@.take(n as int) =~= waiting@);
    *waiting = kept;
}

} // verus!
