//! Timing and judgment core of a four-lane rhythm game.
//!
//! Time is counted in whole microseconds and screen distance in millionths of
//! a screen unit, so that every rule of the game is exact integer arithmetic.
//! A [`stage::Stage`] holds the entries of a beatmap that still wait and the
//! notes that are live; one call of [`stage::Stage::tick`] per frame moves the
//! notes, spawns the entries that have come within the lookahead, and judges
//! every note against the clock and the key edges of that frame.
//!
//! - [`timing`]: the constants and the comparisons on time.
//! - [`lane`]: lanes, keys, key edges, anchors and lane lights.
//! - [`input`]: key edges read from bevy's keyboard state.
//! - [`note`]: beatmap entries, live notes, judgments and outcomes.
//! - [`beatmap`]: the built-in song.
//! - [`motion`], [`spawn`], [`judgment`]: the steps of a tick.
//! - [`stage`]: the game state and its tick.
//! - [`laws`]: what holds of the rules in general.

pub mod timing;
pub mod lane;
pub mod input;
pub mod note;
pub mod beatmap;
pub mod motion;
pub mod spawn;
pub mod judgment;
pub mod stage;
pub mod laws;
