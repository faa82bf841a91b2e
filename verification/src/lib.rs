//! Control core of a physical-media jukebox: tag identifiers scanned by a
//! keyboard-emulating reader are assembled from digit key presses, resolved
//! through a configured mapping to sound files, and played on a single output
//! channel whose gain two debounced buttons adjust.
//!
//! This crate holds the decision logic only. The surrounding binary owns the
//! devices (input reader, GPIO lines, audio output) and feeds their
//! observations in as plain values.

pub mod assembler;
pub mod debounce;
pub mod dispatch;
pub mod ident;
pub mod keys;
pub mod player;
