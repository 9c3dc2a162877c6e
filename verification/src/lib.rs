//! Game logic of PULSE, a one-button rhythm game: a ring pulses inwards and
//! the player taps when it meets the target ring.
//!
//! The library holds what the game decides on plain values: scoring and
//! combos, the combo display cues, the screen flow, the on-screen texts,
//! the share link, which sound each event plays, and the WAV encoding of
//! the procedurally generated sound effects.

pub mod audio_gate;
pub mod flow;
pub mod hud;
pub mod scoring;
pub mod share;
pub mod sound;
pub mod text;
pub mod wav;
