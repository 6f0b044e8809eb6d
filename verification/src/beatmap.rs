//! The built-in song.
use vstd::prelude::*;
use crate::note::{entries_wf, BeatmapEntry};
use crate::timing::MICROS_PER_SECOND;

verus! {

/// Number of entries of the built-in song.
pub const SONG_LENGTH: u8 = 24;

/// Target time of the first entry of the built-in song, in seconds.
pub const SONG_LEAD_IN: i64 = 4;

/// Entry `i` of the built-in song: the lanes are taken in turn, one note per
/// second, the first after the lead-in.
pub open spec fn song_entry(i: int) -> BeatmapEntry {
    BeatmapEntry { lane: (i % 4) as u8, target_time: ((SONG_LEAD_IN + i) * MICROS_PER_SECOND) as i64 }
}

/// The built-in song, in the order of its target times.
pub fn load_song() -> (song: Vec<BeatmapEntry>)
    ensures
        song@.len() == SONG_LENGTH,
        forall|i: int| 0 <= i < SONG_LENGTH ==> #[trigger] song@[i] == song_entry(i),
        entries_wf(song@),
{
    let mut song: Vec<BeatmapEntry> = Vec::new();
    let mut i: u8 = 0;
    while i < SONG_LENGTH
        invariant
            i <= SONG_LENGTH,
            song@.len() == i,
            forall|k: int| 0 <= k < i ==> #[trigger] song@[k] == song_entry(k),
        decreases SONG_LENGTH - i,
    {
        let beat: i64 = i as i64;
        song.push(BeatmapEntry { lane: i % 4, target_time: (SONG_LEAD_IN + beat) * MICROS_PER_SECOND });
        i = i + 1;
    }
    song
}

} // verus!
