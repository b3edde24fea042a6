//! Game mode selector.

use vstd::prelude::*;

use crate::Error;

verus! {

/// The game mode a beatmap is made for.
#[derive(Debug, Clone, Copy, PartialEq, Eq, Structural, PartialOrd, Ord, Hash)]
pub enum Mode {
    Standard,
    Taiko,
    Catch,
    Mania,
}

/// The mode a numeric token denotes: `0` to `3`, anything else rejected.
pub open spec fn spec_mode_from_i32(v: int) -> Result<Mode, Error> {
    if v == 0 {
        Ok(Mode::Standard)
    } else if v == 1 {
        Ok(Mode::Taiko)
    } else if v == 2 {
        Ok(Mode::Catch)
    } else if v == 3 {
        Ok(Mode::Mania)
    } else {
        Err(Error::InvalidInput("invalid mode value"))
    }
}

impl Mode {
    /// Converts a numeric mode value, rejecting values outside `0..=3`.
    pub fn try_from_i32(value: i32) -> (r: Result<Mode, Error>)
        ensures
            r == spec_mode_from_i32(value as int),
    {
        match value {
            0 => Ok(Mode::Standard),
            1 => Ok(Mode::Taiko),
            2 => Ok(Mode::Catch),
            3 => Ok(Mode::Mania),
            _ => Err(Error::InvalidInput("invalid mode value")),
        }
    }

    /// Converts a numeric mode value, `None` for values outside `0..=3`.
    pub fn from_i32(value: i32) -> (r: Option<Mode>)
        ensures
            r == match spec_mode_from_i32(value as int) {
                Ok(m) => Some(m),
                Err(_) => None::<Mode>,
            },
    {
        match Mode::try_from_i32(value) {
            Ok(m) => Some(m),
            Err(_) => None,
        }
    }
}

impl Default for Mode {
    /// The default game mode.
    fn default() -> (r: Self)
        ensures
            r == Mode::Standard,
    {
        Mode::Standard
    }
}

} // verus!
