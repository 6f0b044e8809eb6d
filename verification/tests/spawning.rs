use rhythm_core::beatmap::load_song;
use rhythm_core::lane::{KeyEdges, KeyId, Position};
use rhythm_core::note::{BeatmapEntry, Judgment, LiveNote, Outcome};
use rhythm_core::spawn::{spawn_note, spawn_notes_from_song};
use rhythm_core::stage::{check_notes, check_song, Stage};
use rhythm_core::timing::{is_in_hit_window, is_past_hit_window, is_spawn_due, is_valid_time};

fn entry(lane: u8, seconds: i64) -> BeatmapEntry {
    BeatmapEntry { lane, target_time: seconds * 1_000_000 }
}

#[test]
fn timing_comparisons() {
    assert!(is_spawn_due(10_000_000, 5_000_000));
    assert!(!is_spawn_due(10_000_000, 4_999_999));
    assert!(is_spawn_due(10_000_000, 20_000_000));
    assert!(is_in_hit_window(10_000_000, 9_850_001));
    assert!(!is_in_hit_window(10_000_000, 9_850_000));
    assert!(!is_in_hit_window(10_000_000, 10_150_000));
    assert!(is_past_hit_window(10_000_000, 10_150_001));
    assert!(!is_past_hit_window(10_000_000, 10_150_000));
    assert!(is_valid_time(0));
    assert!(is_valid_time(-1_000_000_000_000_000));
    assert!(!is_valid_time(1_000_000_000_000_001));
}

#[test]
fn built_in_song() {
    let song = load_song();
    assert_eq!(song.len(), 24);
    assert_eq!(song[0], entry(0, 4));
    assert_eq!(song[1], entry(1, 5));
    assert_eq!(song[5], entry(1, 9));
    assert_eq!(song[23], entry(3, 27));
    for (i, e) in song.iter().enumerate() {
        assert_eq!(e.lane as usize, i % 4);
        assert_eq!(e.target_time, (4 + i as i64) * 1_000_000);
    }
    assert!(check_song(&song));
}

#[test]
fn check_song_finds_a_bad_entry() {
    assert!(check_song(&Vec::new()));
    assert!(check_song(&vec![entry(0, 1), entry(3, 2)]));
    assert!(!check_song(&vec![entry(0, 1), entry(4, 2)]));
    assert!(!check_song(&vec![BeatmapEntry { lane: 0, target_time: i64::MIN }, entry(1, 2)]));
}

#[test]
fn fresh_note_is_pending_at_the_spawn_point() {
    let note = spawn_note(&entry(2, 10));
    assert_eq!(
        note,
        LiveNote {
            lane: 2,
            target_time: 10_000_000,
            position: Position { x: 200_000_000, y: 1_000_000_000 },
            judgment: Judgment::Pending,
        }
    );
    assert!(note.is_visible());
    assert_eq!(note.outcome(), None);
}

#[test]
fn spawn_takes_due_entries_and_keeps_order() {
    let mut waiting = vec![entry(0, 12), entry(1, 6), entry(2, 30), entry(3, 7), entry(0, 11)];
    let old = spawn_note(&entry(3, 1));
    let mut live = vec![old];
    spawn_notes_from_song(&mut waiting, &mut live, 7_000_000);
    assert_eq!(waiting, vec![entry(2, 30)]);
    assert_eq!(
        live,
        vec![
            old,
            spawn_note(&entry(0, 12)),
            spawn_note(&entry(1, 6)),
            spawn_note(&entry(3, 7)),
            spawn_note(&entry(0, 11)),
        ]
    );
}

#[test]
fn spawn_exactly_at_lookahead() {
    let mut waiting = vec![entry(2, 10)];
    let mut live = Vec::new();
    spawn_notes_from_song(&mut waiting, &mut live, 4_999_999);
    assert_eq!(waiting.len(), 1);
    assert!(live.is_empty());
    spawn_notes_from_song(&mut waiting, &mut live, 5_000_000);
    assert!(waiting.is_empty());
    assert_eq!(live, vec![spawn_note(&entry(2, 10))]);
}

#[test]
fn idempotent_spawn() {
    let mut waiting = vec![entry(2, 10), entry(1, 20), entry(2, 10)];
    let mut live = Vec::new();
    for t in [5_000_000i64, 5_000_000, 4_000_000, 5_000_001, 9_000_000, 14_999_999] {
        spawn_notes_from_song(&mut waiting, &mut live, t);
        assert_eq!(waiting, vec![entry(1, 20)]);
        assert_eq!(live, vec![spawn_note(&entry(2, 10)), spawn_note(&entry(2, 10))]);
    }
    spawn_notes_from_song(&mut waiting, &mut live, 15_000_000);
    spawn_notes_from_song(&mut waiting, &mut live, 40_000_000);
    assert!(waiting.is_empty());
    assert_eq!(live.len(), 3);
}

#[test]
fn every_entry_is_waiting_or_live_after_each_tick() {
    let mut stage = Stage::new(load_song());
    let mut t = 0i64;
    while t <= 40_000_000 {
        stage.tick(t, &KeyEdges::none());
        assert_eq!(stage.waiting.len() + stage.live.len(), 24);
        let due = if t < -1_000_000 { 0 } else { ((t + 1_000_000) / 1_000_000 + 1).min(24) };
        assert_eq!(stage.live.len() as i64, due);
        t += 250_000;
    }
    assert!(stage.waiting.is_empty());
    assert!(stage.live.iter().all(|n| n.outcome().is_some() || n.judgment == Judgment::Pending));
}

#[test]
fn end_to_end_hit() {
    let mut stage = Stage::new(vec![entry(2, 10)]);
    assert!(stage.live.is_empty());
    stage.tick(4_999_999, &KeyEdges::none());
    assert!(stage.live.is_empty());
    assert_eq!(stage.waiting, vec![entry(2, 10)]);

    stage.tick(5_000_000, &KeyEdges::none());
    assert!(stage.waiting.is_empty());
    assert_eq!(stage.live, vec![spawn_note(&entry(2, 10))]);

    stage.tick(9_850_000, &KeyEdges::none());
    assert_eq!(stage.live.len(), 1);
    assert_eq!(stage.live[0].judgment, Judgment::Pending);
    assert_eq!(stage.live[0].position, Position { x: 300_000_000, y: -470_000_000 });

    stage.tick(9_900_010, &KeyEdges::none());
    assert_eq!(stage.live[0].judgment, Judgment::Eligible);
    stage.tick(10_000_000, &KeyEdges::press(KeyId::D));
    assert_eq!(stage.live[0].judgment, Judgment::Eligible);
    assert_eq!(stage.live[0].position, Position { x: 300_000_000, y: -500_000_000 });

    stage.tick(10_050_000, &KeyEdges::press(KeyId::J));
    let hit = Outcome { is_hit: true, resolution_time: 10_050_000, offset: 50_000 };
    assert_eq!(stage.live[0].judgment, Judgment::Resolved(hit));
    assert!(!stage.live[0].is_visible());

    stage.tick(10_150_100, &KeyEdges::press(KeyId::J));
    stage.tick(11_000_000, &KeyEdges::none());
    assert_eq!(stage.live.len(), 1);
    assert_eq!(stage.live[0].outcome(), Some(hit));
}

#[test]
fn end_to_end_miss() {
    let mut stage = Stage::new(vec![entry(2, 10)]);
    stage.tick(5_000_000, &KeyEdges::none());
    stage.tick(9_900_010, &KeyEdges::none());
    assert_eq!(stage.live[0].judgment, Judgment::Eligible);
    stage.tick(10_150_000, &KeyEdges::none());
    assert_eq!(stage.live[0].judgment, Judgment::Eligible);
    stage.tick(10_150_100, &KeyEdges::none());
    let miss = Outcome { is_hit: false, resolution_time: 10_150_100, offset: 150_100 };
    assert_eq!(stage.live[0].judgment, Judgment::Resolved(miss));
    assert!(stage.live[0].is_visible());
    stage.tick(10_200_000, &KeyEdges::press(KeyId::J));
    assert_eq!(stage.live[0].outcome(), Some(miss));
}

#[test]
fn note_spawned_inside_its_window_is_judged_in_the_same_tick() {
    let mut stage = Stage::new(vec![entry(1, 3)]);
    stage.tick(3_000_000, &KeyEdges::press(KeyId::F));
    assert_eq!(
        stage.live[0].judgment,
        Judgment::Resolved(Outcome { is_hit: true, resolution_time: 3_000_000, offset: 0 })
    );
    assert_eq!(stage.live[0].position, Position { x: 100_000_000, y: 1_000_000_000 });
}

#[test]
fn stage_well_formedness_is_checked() {
    let mut stage = Stage::new(load_song());
    assert!(stage.is_well_formed());
    stage.tick(6_000_000, &KeyEdges::none());
    assert!(stage.is_well_formed());
    assert!(check_notes(&stage.live));
    assert_eq!(stage.live.len(), 8);
    stage.live[1].lane = 9;
    assert!(!check_notes(&stage.live));
    assert!(!stage.is_well_formed());
    stage.live[1].lane = 1;
    stage.waiting[0].lane = 4;
    assert!(!stage.is_well_formed());
}
