//! What holds of the rules, whatever the notes, the clock and the keys.
use vstd::prelude::*;
use crate::lane::{anchor_of, lane_key, KeyEdges, LANE_COUNT};
use crate::motion::{fall_y, moved_all};
use crate::note::{BeatmapEntry, Judgment, LiveNote, Outcome};
use crate::spawn::{due_entries, lemma_spawn_step, spawned_notes, waiting_entries};
use crate::stage::ticked_notes;
use crate::timing::{in_hit_window, past_hit_window, spawn_due, valid_time, HIT_MARGIN};

verus! {

/// How far a judgment has come: pending, eligible, resolved.
pub open spec fn progress(judgment: Judgment) -> int {
    match judgment {
        Judgment::Pending => 0,
        Judgment::Eligible => 1,
        Judgment::Resolved(_) => 2,
    }
}

/// Different lanes are bound to different keys.
pub proof fn law_lane_keys_differ(a: int, b: int)
    requires
        0 <= a < LANE_COUNT,
        0 <= b < LANE_COUNT,
        a != b,
    ensures
        lane_key(a) != lane_key(b),
{
}

/// A spawn step splits the waiting list: every entry either stays waiting or
/// becomes one live note, and none does both.
pub proof fn law_spawn_splits(waiting: Seq<BeatmapEntry>, t: i64)
    ensures
        waiting_entries(waiting, t).len() + spawned_notes(waiting, t).len() == waiting.len(),
        spawned_notes(waiting, t).len() == due_entries(waiting, t).len(),
        waiting_entries(waiting, t).to_multiset().add(due_entries(waiting, t).to_multiset())
            == waiting.to_multiset(),
        forall|i: int|
            0 <= i < waiting_entries(waiting, t).len() ==> !spawn_due(
                (#[trigger] waiting_entries(waiting, t)[i]).target_time as int,
                t as int,
            ),
        forall|i: int|
            0 <= i < due_entries(waiting, t).len() ==> spawn_due(
                (#[trigger] due_entries(waiting, t)[i]).target_time as int,
                t as int,
            ),
    decreases waiting.len(),
{
    broadcast use vstd::seq_lib::group_to_multiset_ensures;

    if waiting.len() == 0 {
        reveal(Seq::filter);
        assert(waiting_entries(waiting, t) =~= waiting);
        assert(due_entries(waiting, t) =~= waiting);
    } else {
        let front = waiting.drop_last();
        let entry = waiting.last();
        law_spawn_splits(front, t);
        lemma_spawn_step(front, entry, t);
        assert(front.push(entry) =~= waiting);
        assert(waiting_entries(waiting, t).to_multiset().add(
            due_entries(waiting, t).to_multiset(),
        ) =~= waiting.to_multiset());
    }
}

/// A spawn step repeated at the same time, or at an earlier one, does
/// nothing: no entry is left that could spawn a second note.
pub proof fn law_spawn_idempotent(waiting: Seq<BeatmapEntry>, t: i64, again: i64)
    requires
        again <= t,
    ensures
        spawned_notes(waiting_entries(waiting, t), again).len() == 0,
        waiting_entries(waiting_entries(waiting, t), again) == waiting_entries(waiting, t),
    decreases waiting.len(),
{
    if waiting.len() == 0 {
        reveal(Seq::filter);
        assert(waiting_entries(waiting, t) =~= waiting);
        assert(waiting_entries(waiting, again) =~= waiting);
        assert(due_entries(waiting, again) =~= waiting);
    } else {
        let front = waiting.drop_last();
        let entry = waiting.last();
        law_spawn_idempotent(front, t, again);
        lemma_spawn_step(front, entry, t);
        assert(front.push(entry) =~= waiting);
        if !spawn_due(entry.target_time as int, t as int) {
            lemma_spawn_step(waiting_entries(front, t), entry, again);
        }
    }
}

/// With a clock that does not go back, two spawn steps leave waiting what one
/// step at the later time leaves, and spawn as many notes as it spawns: an
/// entry spawned by the first step is not spawned again by the second.
pub proof fn law_spawn_once(waiting: Seq<BeatmapEntry>, t: i64, later: i64)
    requires
        t <= later,
    ensures
        waiting_entries(waiting_entries(waiting, t), later) == waiting_entries(waiting, later),
        spawned_notes(waiting, t).len() + spawned_notes(waiting_entries(waiting, t), later).len()
            == spawned_notes(waiting, later).len(),
        spawned_notes(waiting, t).to_multiset().add(
            spawned_notes(waiting_entries(waiting, t), later).to_multiset(),
        ) == spawned_notes(waiting, later).to_multiset(),
    decreases waiting.len(),
{
    broadcast use vstd::seq_lib::group_to_multiset_ensures;

    if waiting.len() == 0 {
        reveal(Seq::filter);
        assert(waiting_entries(waiting, t) =~= waiting);
        assert(waiting_entries(waiting, later) =~= waiting);
        assert(due_entries(waiting, t) =~= waiting);
        assert(due_entries(waiting, later) =~= waiting);
    } else {
        let front = waiting.drop_last();
        let entry = waiting.last();
        law_spawn_once(front, t, later);
        lemma_spawn_step(front, entry, t);
        lemma_spawn_step(front, entry, later);
        assert(front.push(entry) =~= waiting);
        if !spawn_due(entry.target_time as int, t as int) {
            lemma_spawn_step(waiting_entries(front, t), entry, later);
        }
        assert(spawned_notes(waiting, t).to_multiset().add(
            spawned_notes(waiting_entries(waiting, t), later).to_multiset(),
        ) =~= spawned_notes(waiting, later).to_multiset());
    }
}

/// A resolved note is final: no step at any time with any key edges changes
/// it, and moving it changes nothing but its position.
pub proof fn law_resolved_is_final(note: LiveNote, t: i64, edges: KeyEdges)
    requires
        note.resolved(),
    ensures
        note.evaluated(t) == note,
        note.struck(t, edges) == note,
        note.lapsed(t) == note,
        note.judged(t, edges) == note,
        note.moved(t).judgment == note.judgment,
{
}

/// A judgment never goes back, and a tick changes nothing of a note but its
/// judgment.
pub proof fn law_judgment_one_way(note: LiveNote, t: i64, edges: KeyEdges)
    ensures
        progress(note.judged(t, edges).judgment) >= progress(note.judgment),
        note.judged(t, edges) == (LiveNote { judgment: note.judged(t, edges).judgment, ..note }),
{
}

/// The note after a run of ticks, each a time and the key edges of that
/// tick, taken in their order.
pub open spec fn after_ticks(note: LiveNote, ticks: Seq<(i64, KeyEdges)>) -> LiveNote
    decreases ticks.len(),
{
    if ticks.len() == 0 {
        note
    } else {
        after_ticks(note, ticks.drop_last()).moved(ticks.last().0).judged(
            ticks.last().0,
            ticks.last().1,
        )
    }
}

/// One outcome per note: whatever ticks follow the one that resolved a note,
/// at whatever times and with whatever keys, its outcome stays the same.
pub proof fn law_outcome_survives_ticks(note: LiveNote, ticks: Seq<(i64, KeyEdges)>)
    requires
        note.resolved(),
    ensures
        after_ticks(note, ticks).judgment == note.judgment,
        after_ticks(note, ticks).lane == note.lane,
        after_ticks(note, ticks).target_time == note.target_time,
    decreases ticks.len(),
{
    if ticks.len() > 0 {
        law_outcome_survives_ticks(note, ticks.drop_last());
        law_resolved_is_final(
            after_ticks(note, ticks.drop_last()).moved(ticks.last().0),
            ticks.last().0,
            ticks.last().1,
        );
    }
}

/// A tick of the whole stage loses no entry and makes none twice: waiting
/// entries and live notes together are as many after it as before, and every
/// note that was live is the same note, moved and judged, at the same place.
pub proof fn law_tick_conserves_notes(
    live: Seq<LiveNote>,
    waiting: Seq<BeatmapEntry>,
    t: i64,
    edges: KeyEdges,
)
    ensures
        ticked_notes(live, waiting, t, edges).len() + waiting_entries(waiting, t).len()
            == live.len() + waiting.len(),
        forall|i: int|
            0 <= i < live.len() ==> #[trigger] ticked_notes(live, waiting, t, edges)[i]
                == live[i].moved(t).judged(t, edges),
        forall|i: int|
            0 <= i < spawned_notes(waiting, t).len() ==> #[trigger] ticked_notes(
                live,
                waiting,
                t,
                edges,
            )[live.len() + i] == spawned_notes(waiting, t)[i].judged(t, edges),
{
    law_spawn_splits(waiting, t);
    let before = moved_all(live, t) + spawned_notes(waiting, t);
    assert forall|i: int| 0 <= i < live.len() implies #[trigger] ticked_notes(
        live,
        waiting,
        t,
        edges,
    )[i] == live[i].moved(t).judged(t, edges) by {
        assert(before[i] == live[i].moved(t));
    }
    assert forall|i: int| 0 <= i < spawned_notes(waiting, t).len() implies #[trigger] ticked_notes(
        live,
        waiting,
        t,
        edges,
    )[live.len() + i] == spawned_notes(waiting, t)[i].judged(t, edges) by {
        assert(before[live.len() + i] == spawned_notes(waiting, t)[i]);
    }
}

/// A tick of the whole stage keeps every live note at its place in the list
/// and keeps the outcome of every note that is resolved.
pub proof fn law_tick_keeps_outcomes(
    live: Seq<LiveNote>,
    waiting: Seq<BeatmapEntry>,
    t: i64,
    edges: KeyEdges,
    i: int,
)
    requires
        0 <= i < live.len(),
        live[i].resolved(),
    ensures
        ticked_notes(live, waiting, t, edges).len() == live.len() + spawned_notes(waiting, t).len(),
        ticked_notes(live, waiting, t, edges)[i].judgment == live[i].judgment,
{
    let before = moved_all(live, t) + spawned_notes(waiting, t);
    assert(before[i] == live[i].moved(t));
    law_resolved_is_final(live[i].moved(t), t, edges);
}

/// A note that is not resolved and whose key is pressed at a time strictly
/// inside its hit window is resolved as a hit in that tick, with the offset
/// of the press from the target time.
pub proof fn law_press_in_window_hits(note: LiveNote, t: i64, edges: KeyEdges)
    requires
        note.wf(),
        valid_time(t as int),
        !note.resolved(),
        in_hit_window(note.target_time as int, t as int),
        edges.edge(lane_key(note.lane as int)).just_pressed,
    ensures
        note.judged(t, edges).judgment == Judgment::Resolved(
            Outcome { is_hit: true, resolution_time: t, offset: (t - note.target_time) as i64 },
        ),
        (t - note.target_time) as i64 == t - note.target_time,
{
}

/// The hit step comes first: an eligible note whose key is pressed is hit,
/// however late the tick.
pub proof fn law_hit_precedes_miss(note: LiveNote, t: i64, edges: KeyEdges)
    requires
        note.judgment is Eligible,
        edges.edge(lane_key(note.lane as int)).just_pressed,
    ensures
        note.judged(t, edges).judgment == Judgment::Resolved(note.outcome_at(true, t)),
{
}

/// An eligible note whose key is not pressed is resolved as a miss by a tick
/// strictly after its hit window, and by no tick up to the window's end.
pub proof fn law_miss_after_window(note: LiveNote, t: i64, edges: KeyEdges)
    requires
        note.judgment is Eligible,
        !edges.edge(lane_key(note.lane as int)).just_pressed,
    ensures
        past_hit_window(note.target_time as int, t as int) ==> note.judged(t, edges).judgment
            == Judgment::Resolved(note.outcome_at(false, t)),
        !past_hit_window(note.target_time as int, t as int) ==> note.judged(t, edges) == note,
{
}

/// An eligible note does not outlast its window: any tick strictly after the
/// window resolves it, as a hit if its key is pressed and as a miss if not.
pub proof fn law_eligible_resolves_after_window(note: LiveNote, t: i64, edges: KeyEdges)
    requires
        note.judgment is Eligible,
        past_hit_window(note.target_time as int, t as int),
    ensures
        note.judged(t, edges).judgment == Judgment::Resolved(
            note.outcome_at(edges.edge(lane_key(note.lane as int)).just_pressed, t),
        ),
{
}

/// A pending note becomes eligible in the window step exactly when the time
/// is less than the hit margin away from its target time; at any other time
/// the whole tick leaves it pending.
pub proof fn law_eligibility_window(note: LiveNote, t: i64, edges: KeyEdges)
    requires
        note.judgment is Pending,
    ensures
        note.evaluated(t).judgment is Eligible <==> vstd::math::abs(t - note.target_time)
            < HIT_MARGIN,
        !(note.evaluated(t).judgment is Eligible) ==> note.judged(t, edges) == note,
        in_hit_window(note.target_time as int, t as int) <==> vstd::math::abs(
            t - note.target_time,
        ) < HIT_MARGIN,
{
}

/// On well-formed notes and accepted times the rules are exact: the position
/// of a moved note and the offset of an outcome are the integers that the
/// formulas give, with nothing lost to the width of an `i64`, and the notes
/// stay well formed.
pub proof fn law_rules_are_exact(note: LiveNote, is_hit: bool, t: i64, edges: KeyEdges)
    requires
        note.wf(),
        valid_time(t as int),
    ensures
        note.moved(t).position.x == anchor_of(note.lane as int).0,
        note.moved(t).position.y == fall_y(note.lane as int, note.target_time as int, t as int),
        note.outcome_at(is_hit, t).offset == t - note.target_time,
        note.moved(t).wf(),
        note.judged(t, edges).wf(),
{
}

/// A note falls: later means strictly lower.
pub proof fn law_fall_strictly_decreases(lane: int, target: int, earlier: int, later: int)
    requires
        earlier < later,
    ensures
        fall_y(lane, target, later) < fall_y(lane, target, earlier),
{
}

/// A note is on the hit line at its target time and at no other time.
pub proof fn law_on_hit_line_at_target(lane: int, target: int, t: int)
    ensures
        fall_y(lane, target, t) == anchor_of(lane).1 <==> t == target,
{
}

} // verus!
