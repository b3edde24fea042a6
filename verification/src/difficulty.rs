//! Difficulty record section.

use vstd::prelude::*;

use crate::Error;
use crate::numbers::Decimal;
use crate::numbers::parse_decimal;
use crate::numbers::spec_parse_decimal;
use crate::strutil::spec_split_once;
use crate::strutil::spec_trim;
use crate::strutil::split_once_char;
use crate::strutil::str_eq;
use crate::strutil::trim;

verus! {

/// The difficulty settings of a beatmap.
#[derive(Debug, Clone, Copy, PartialEq, Eq, Structural)]
pub struct Difficulty {
    /// HP drain rate setting.
    pub hp: Decimal,
    /// Circle size setting.
    pub cs: Decimal,
    /// Overall difficulty setting.
    pub od: Decimal,
    /// Approach rate setting.
    pub ar: Decimal,
    /// Base slider velocity in hundreds of osu! pixels per beat.
    pub slider_multiplier: Decimal,
    /// Amount of slider ticks per beat.
    pub slider_tick_rate: Decimal,
}

/// The difficulty settings before any record line is applied.
pub open spec fn spec_difficulty_default() -> Difficulty {
    Difficulty {
        hp: Decimal { mantissa: 5, scale: 0 },
        cs: Decimal { mantissa: 5, scale: 0 },
        od: Decimal { mantissa: 5, scale: 0 },
        ar: Decimal { mantissa: 5, scale: 0 },
        slider_multiplier: Decimal { mantissa: 14, scale: 1 },
        slider_tick_rate: Decimal { mantissa: 1, scale: 0 },
    }
}

/// One `Difficulty` record line applied to the settings: each recognized
/// key replaces its field with the decimal value; an unrecognized key or a
/// line without `:` is a no-op; a malformed value for a recognized key
/// fails.
pub open spec fn spec_apply_difficulty(d: Difficulty, line: Seq<char>) -> Result<
    Difficulty,
    Error,
> {
    match spec_split_once(line, ':') {
        None => Ok(d),
        Some((k, v)) => {
            let key = spec_trim(k);
            let value = spec_trim(v);
            if key == "HPDrainRate"@ {
                match spec_parse_decimal(value) {
                    Ok(x) => Ok(Difficulty { hp: x, ..d }),
                    Err(e) => Err(e),
                }
            } else if key == "CircleSize"@ {
                match spec_parse_decimal(value) {
                    Ok(x) => Ok(Difficulty { cs: x, ..d }),
                    Err(e) => Err(e),
                }
            } else if key == "OverallDifficulty"@ {
                match spec_parse_decimal(value) {
                    Ok(x) => Ok(Difficulty { od: x, ..d }),
                    Err(e) => Err(e),
                }
            } else if key == "ApproachRate"@ {
                match spec_parse_decimal(value) {
                    Ok(x) => Ok(Difficulty { ar: x, ..d }),
                    Err(e) => Err(e),
                }
            } else if key == "SliderMultiplier"@ {
                match spec_parse_decimal(value) {
                    Ok(x) => Ok(Difficulty { slider_multiplier: x, ..d }),
                    Err(e) => Err(e),
                }
            } else if key == "SliderTickRate"@ {
                match spec_parse_decimal(value) {
                    Ok(x) => Ok(Difficulty { slider_tick_rate: x, ..d }),
                    Err(e) => Err(e),
                }
            } else {
                Ok(d)
            }
        },
    }
}

impl Difficulty {
    /// Applies one `Difficulty` record line to the settings.
    pub fn parse(&mut self, s: &str) -> (r: Result<(), Error>)
        ensures
            match spec_apply_difficulty(*old(self), s@) {
                Ok(d) => r is Ok && *final(self) == d,
                Err(e) => r == Err::<(), Error>(e) && *final(self) == *old(self),
            },
    {
        match split_once_char(s, ':') {
            None => Ok(()),
            Some((k, v)) => {
                let key = trim(k);
                let value = trim(v);
                if str_eq(key, "HPDrainRate") {
                    self.hp = parse_decimal(value)?;
                    Ok(())
                } else if str_eq(key, "CircleSize") {
                    self.cs = parse_decimal(value)?;
                    Ok(())
                } else if str_eq(key, "OverallDifficulty") {
                    self.od = parse_decimal(value)?;
                    Ok(())
                } else if str_eq(key, "ApproachRate") {
                    self.ar = parse_decimal(value)?;
                    Ok(())
                } else if str_eq(key, "SliderMultiplier") {
                    self.slider_multiplier = parse_decimal(value)?;
                    Ok(())
                } else if str_eq(key, "SliderTickRate") {
                    self.slider_tick_rate = parse_decimal(value)?;
                    Ok(())
                } else {
                    Ok(())
                }
            },
        }
    }
}

impl Default for Difficulty {
    /// The difficulty settings before any record line is applied.
    fn default() -> (r: Self)
        ensures
            r == spec_difficulty_default(),
    {
        Difficulty {
            hp: Decimal { mantissa: 5, scale: 0 },
            cs: Decimal { mantissa: 5, scale: 0 },
            od: Decimal { mantissa: 5, scale: 0 },
            ar: Decimal { mantissa: 5, scale: 0 },
            slider_multiplier: Decimal { mantissa: 14, scale: 1 },
            slider_tick_rate: Decimal { mantissa: 1, scale: 0 },
        }
    }
}

} // verus!
