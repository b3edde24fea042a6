//! TimingPoints list section.

use vstd::prelude::*;

use crate::Error;
use crate::numbers::Decimal;
use crate::numbers::parse_decimal;
use crate::numbers::parse_i32;
use crate::numbers::parse_u64;
use crate::numbers::parse_u8;
use crate::numbers::spec_div_neg25;
use crate::numbers::spec_parse_decimal;
use crate::numbers::spec_parse_int;
use crate::numbers::spec_parse_uint;
use crate::sample_set::SampleSet;
use crate::sample_set::spec_sample_set_from_i32;
use crate::strutil::trimmed_parts;

verus! {

/// Bit flags giving a timing point extra effects.
///
/// Bit 0 is kiai time and bit 3 omits the first bar line; no other bit is
/// ever set.
#[derive(Debug, Clone, Copy, PartialEq, Eq, Structural, PartialOrd, Ord, Hash)]
pub struct Effects {
    /// The raw flag bits, with only bits 0 and 3 possibly set.
    pub bits: u8,
}

impl Effects {
    /// The flag set with no effect at all.
    pub fn empty() -> (r: Effects)
        ensures
            r.bits == 0,
    {
        Effects { bits: 0 }
    }

    /// Keeps the two defined effect bits of a raw byte and drops the rest.
    pub fn from_bits_truncate(bits: u8) -> (r: Effects)
        ensures
            r == (Effects { bits: bits & 0x09 }),
    {
        Effects { bits: bits & 0x09 }
    }

    /// The raw flag bits.
    pub fn bits(self) -> (r: u8)
        ensures
            r == self.bits,
    {
        self.bits
    }

    /// Whether kiai time is enabled.
    pub fn kiai(self) -> (r: bool)
        ensures
            r == (self.bits & 0x01 == 0x01),
    {
        self.bits & 0x01 == 0x01
    }

    /// Whether every flag of `other` is also set in `self`.
    pub fn contains(self, other: Effects) -> (r: bool)
        ensures
            r == (self.bits & other.bits == other.bits),
    {
        self.bits & other.bits == other.bits
    }
}

impl Default for Effects {
    /// No effect flags at all.
    fn default() -> (r: Self)
        ensures
            r.bits == 0,
    {
        Effects { bits: 0 }
    }
}

/// A timing section that sets a new tempo.
#[derive(Debug, Clone, Copy, PartialEq, Eq, Structural)]
pub struct UninheritedTimingPoint {
    /// Start time of the timing section, in milliseconds from the beginning
    /// of the beatmap's audio.
    pub time: u64,
    /// The duration of a beat, in milliseconds.
    pub beat_length: Decimal,
    /// Amount of beats in a measure.
    pub meter: i32,
    /// Default sample set for hit objects (`None` = beatmap default).
    pub sample_set: Option<SampleSet>,
    /// Custom sample index for hit objects (`None` = default hitsounds).
    pub sample_index: Option<i32>,
    /// Volume percentage for hit objects.
    pub volume: i32,
    /// Bit flags that give the timing point extra effects.
    pub effects: Effects,
}

/// A timing section that inherits the tempo and scales slider velocity.
#[derive(Debug, Clone, Copy, PartialEq, Eq, Structural)]
pub struct InheritedTimingPoint {
    /// Start time of the timing section, in milliseconds from the beginning
    /// of the beatmap's audio.
    pub time: u64,
    /// Slider velocity multiplier, derived from the raw beat length.
    pub slider_velocity: Decimal,
    /// Default sample set for hit objects (`None` = beatmap default).
    pub sample_set: Option<SampleSet>,
    /// Custom sample index for hit objects (`None` = default hitsounds).
    pub sample_index: Option<i32>,
    /// Volume percentage for hit objects.
    pub volume: i32,
    /// Bit flags that give the timing point extra effects.
    pub effects: Effects,
}

/// One timing point, in exactly one of its two variants, chosen by the
/// line's boolean selector token.
#[derive(Debug, Clone, Copy, PartialEq, Eq, Structural)]
pub enum TimingPoint {
    Uninherited(UninheritedTimingPoint),
    Inherited(InheritedTimingPoint),
}

impl TimingPoint {
    /// Start time of the timing section, in milliseconds.
    pub fn time(&self) -> (r: u64)
        ensures
            r == match *self {
                TimingPoint::Uninherited(t) => t.time,
                TimingPoint::Inherited(t) => t.time,
            },
    {
        match self {
            TimingPoint::Uninherited(t) => t.time,
            TimingPoint::Inherited(t) => t.time,
        }
    }

    /// Slider velocity multiplier; an uninherited point always has one.
    pub fn slider_velocity(&self) -> (r: Decimal)
        ensures
            r == match *self {
                TimingPoint::Uninherited(_) => Decimal { mantissa: 1, scale: 0 },
                TimingPoint::Inherited(t) => t.slider_velocity,
            },
    {
        match self {
            TimingPoint::Uninherited(_) => Decimal { mantissa: 1, scale: 0 },
            TimingPoint::Inherited(t) => t.slider_velocity,
        }
    }

    /// Default sample set for hit objects in this section.
    pub fn sample_set(&self) -> (r: Option<SampleSet>)
        ensures
            r == match *self {
                TimingPoint::Uninherited(t) => t.sample_set,
                TimingPoint::Inherited(t) => t.sample_set,
            },
    {
        match self {
            TimingPoint::Uninherited(t) => t.sample_set,
            TimingPoint::Inherited(t) => t.sample_set,
        }
    }

    /// Custom sample index for hit objects in this section.
    pub fn sample_index(&self) -> (r: Option<i32>)
        ensures
            r == match *self {
                TimingPoint::Uninherited(t) => t.sample_index,
                TimingPoint::Inherited(t) => t.sample_index,
            },
    {
        match self {
            TimingPoint::Uninherited(t) => t.sample_index,
            TimingPoint::Inherited(t) => t.sample_index,
        }
    }

    /// Volume percentage for hit objects in this section.
    pub fn volume(&self) -> (r: i32)
        ensures
            r == match *self {
                TimingPoint::Uninherited(t) => t.volume,
                TimingPoint::Inherited(t) => t.volume,
            },
    {
        match self {
            TimingPoint::Uninherited(t) => t.volume,
            TimingPoint::Inherited(t) => t.volume,
        }
    }

    /// Effect flags of this section.
    pub fn effects(&self) -> (r: Effects)
        ensures
            r == match *self {
                TimingPoint::Uninherited(t) => t.effects,
                TimingPoint::Inherited(t) => t.effects,
            },
    {
        match self {
            TimingPoint::Uninherited(t) => t.effects,
            TimingPoint::Inherited(t) => t.effects,
        }
    }

    /// Whether this point is the uninherited variant.
    pub fn uninherited(&self) -> (r: bool)
        ensures
            r == (*self is Uninherited),
    {
        match self {
            TimingPoint::Uninherited(_) => true,
            TimingPoint::Inherited(_) => false,
        }
    }

    /// Whether this point is the inherited variant.
    pub fn inherited(&self) -> (r: bool)
        ensures
            r == (*self is Inherited),
    {
        match self {
            TimingPoint::Uninherited(_) => false,
            TimingPoint::Inherited(_) => true,
        }
    }
}

/// The timing point a line denotes: nine fixed comma-separated tokens, all
/// consumed whatever the variant. The seventh token selects the variant;
/// an inherited point derives its slider velocity as the beat length
/// divided by `-25` and does not keep the raw beat length.
pub open spec fn spec_parse_timing_point(s: Seq<char>) -> Result<TimingPoint, Error> {
    let parts = trimmed_parts(s, ',');
    match spec_parse_uint(parts[0], u64::MAX as nat) {
        None => Err(Error::ParseIntError),
        Some(time) => if parts.len() < 2 {
            Err(Error::InvalidData("expected beat length while parsing timing point"))
        } else {
            match spec_parse_decimal(parts[1]) {
                Err(e) => Err(e),
                Ok(beat_length) => if parts.len() < 3 {
                    Err(Error::InvalidData("expected meter while parsing timing point"))
                } else {
                    match spec_parse_int(parts[2], i32::MIN as int, i32::MAX as int) {
                        None => Err(Error::ParseIntError),
                        Some(meter) => if parts.len() < 4 {
                            Err(Error::InvalidData("expected sample set while parsing timing point"))
                        } else {
                            match spec_parse_int(parts[3], i32::MIN as int, i32::MAX as int) {
                                None => Err(Error::ParseIntError),
                                Some(ss_raw) => {
                                    let sample_set_r = if ss_raw == 0 {
                                        Ok(None)
                                    } else {
                                        match spec_sample_set_from_i32(ss_raw) {
                                            Ok(ss) => Ok(Some(ss)),
                                            Err(e) => Err(e),
                                        }
                                    };
                                    match sample_set_r {
                                        Err(e) => Err(e),
                                        Ok(sample_set) => spec_parse_timing_point_tail(
                                            s,
                                            time as u64,
                                            beat_length,
                                            meter as i32,
                                            sample_set,
                                        ),
                                    }
                                },
                            }
                        },
                    }
                },
            }
        },
    }
}

/// The last four tokens of a timing-point line: sample index, volume, the
/// variant selector and the effect flags, combined with the already-parsed
/// head fields into the finished point.
pub open spec fn spec_parse_timing_point_tail(
    s: Seq<char>,
    time: u64,
    beat_length: Decimal,
    meter: i32,
    sample_set: Option<SampleSet>,
) -> Result<TimingPoint, Error> {
    let parts = trimmed_parts(s, ',');
    if parts.len() < 5 {
        Err(Error::InvalidData("expected sample index while parsing timing point"))
    } else {
        match spec_parse_int(parts[4], i32::MIN as int, i32::MAX as int) {
            None => Err(Error::ParseIntError),
            Some(si_raw) => {
                let sample_index = if si_raw == 0 {
                    None
                } else {
                    Some(si_raw as i32)
                };
                if parts.len() < 6 {
                    Err(Error::InvalidData("expected volume while parsing timing point"))
                } else {
                    match spec_parse_int(parts[5], i32::MIN as int, i32::MAX as int) {
                        None => Err(Error::ParseIntError),
                        Some(volume) => if parts.len() < 7 {
                            Err(Error::InvalidData("expected uninherited while parsing timing point"))
                        } else {
                            match spec_parse_uint(parts[6], u8::MAX as nat) {
                                None => Err(Error::ParseIntError),
                                Some(sel) => if parts.len() < 8 {
                                    Err(Error::InvalidData("expected effects while parsing timing point"))
                                } else {
                                    match spec_parse_uint(parts[7], u8::MAX as nat) {
                                        None => Err(Error::ParseIntError),
                                        Some(fx) => {
                                            let effects = Effects { bits: (fx as u8) & 0x09 };
                                            if sel == 1 {
                                                Ok(
                                                    TimingPoint::Uninherited(
                                                        UninheritedTimingPoint {
                                                            time,
                                                            beat_length,
                                                            meter,
                                                            sample_set,
                                                            sample_index,
                                                            volume: volume as i32,
                                                            effects,
                                                        },
                                                    ),
                                                )
                                            } else {
                                                Ok(
                                                    TimingPoint::Inherited(
                                                        InheritedTimingPoint {
                                                            time,
                                                            slider_velocity: spec_div_neg25(
                                                                beat_length,
                                                            ),
                                                            sample_set,
                                                            sample_index,
                                                            volume: volume as i32,
                                                            effects,
                                                        },
                                                    ),
                                                )
                                            }
                                        },
                                    }
                                },
                            }
                        },
                    }
                }
            },
        }
    }
}

impl TimingPoint {
    /// Parses a timing-point line.
    pub fn from_str(s: &str) -> (r: Result<TimingPoint, Error>)
        ensures
            r == spec_parse_timing_point(s@),
    {
        let parts = crate::strutil::split_trimmed(s, ',');
        proof {
            assert forall|j: int| 0 <= j < parts@.len() implies #[trigger] crate::strutil::views_of(
                parts@,
            )[j] == parts@[j]@ by {}
        }
        let time = parse_u64(parts[0])?;
        if parts.len() < 2 {
            return Err(Error::InvalidData("expected beat length while parsing timing point"));
        }
        let beat_length = parse_decimal(parts[1])?;
        if parts.len() < 3 {
            return Err(Error::InvalidData("expected meter while parsing timing point"));
        }
        let meter = parse_i32(parts[2])?;
        if parts.len() < 4 {
            return Err(Error::InvalidData("expected sample set while parsing timing point"));
        }
        let ss_raw = parse_i32(parts[3])?;
        let sample_set = if ss_raw == 0 {
            None
        } else {
            Some(SampleSet::try_from_i32(ss_raw)?)
        };
        if parts.len() < 5 {
            return Err(Error::InvalidData("expected sample index while parsing timing point"));
        }
        let si_raw = parse_i32(parts[4])?;
        let sample_index = if si_raw == 0 {
            None
        } else {
            Some(si_raw)
        };
        if parts.len() < 6 {
            return Err(Error::InvalidData("expected volume while parsing timing point"));
        }
        let volume = parse_i32(parts[5])?;
        if parts.len() < 7 {
            return Err(Error::InvalidData("expected uninherited while parsing timing point"));
        }
        let sel = parse_u8(parts[6])?;
        if parts.len() < 8 {
            return Err(Error::InvalidData("expected effects while parsing timing point"));
        }
        let fx = parse_u8(parts[7])?;
        let effects = Effects::from_bits_truncate(fx);
        if sel == 1 {
            Ok(
                TimingPoint::Uninherited(
                    UninheritedTimingPoint {
                        time,
                        beat_length,
                        meter,
                        sample_set,
                        sample_index,
                        volume,
                        effects,
                    },
                ),
            )
        } else {
            Ok(
                TimingPoint::Inherited(
                    InheritedTimingPoint {
                        time,
                        slider_velocity: beat_length.div_neg25(),
                        sample_set,
                        sample_index,
                        volume,
                        effects,
                    },
                ),
            )
        }
    }
}

} // verus!
