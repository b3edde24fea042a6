//! Decoder for the osu! beatmap text format.
//!
//! A beatmap file is a line-oriented text document split into bracketed
//! sections. The decoder scans the lines once, routes each line to the
//! parser for the current section, and delivers every selected category
//! to a [`Visitor`](decoder::Visitor) at end of stream. Which categories
//! are computed at all is controlled by a [`BeatmapDecoder`](decoder::BeatmapDecoder)
//! selection, and selection never changes the value of a category that is
//! selected.

use vstd::prelude::*;

pub mod beatmap;
pub mod colour;
pub mod countdown;
pub mod decoder;
pub mod difficulty;
pub mod editor;
pub mod event;
pub mod general;
pub mod hit_object;
pub mod hit_sample;
pub mod hit_sound;
pub mod laws;
pub mod metadata;
pub mod mode;
pub mod numbers;
pub mod overlay_position;
pub mod sample_set;
pub mod strutil;
pub mod timing_point;

verus! {

/// Failure raised while decoding a beatmap.
///
/// A malformed `HitObjects` or `TimingPoints` line, a malformed value for a
/// recognized record key, and an unparsable version header all abort the
/// whole decode with one of these. A malformed `Events` line is dropped
/// silently instead, and an unrecognized section or record key is a no-op.
#[derive(Debug, Clone, Copy, PartialEq, Eq)]
pub enum Error {
    /// A token parses but lies outside its enumeration's valid domain.
    InvalidInput(&'static str),
    /// A known line is missing an expected token, or a token combination is
    /// structurally invalid.
    InvalidData(&'static str),
    /// A token failed to parse as an integer.
    ParseIntError,
    /// A token failed to parse as a decimal number.
    ParseFloatError,
}

} // verus!
