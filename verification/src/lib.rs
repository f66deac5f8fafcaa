//! Capo placement for guitar chord progressions.
//!
//! A capo on fret `k` raises every chord of a progression by `k` semitones.
//! This crate models the twelve chord roots of the chromatic scale
//! ([`chord::Chord`]) and finds the lowest fret at which a progression can be
//! played without a single barre chord ([`progression::find_capo_position`]).

pub mod chord;
pub mod progression;
