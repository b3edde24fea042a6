//! Countdown speed selector.

use vstd::prelude::*;

use crate::Error;

verus! {

/// Speed of the countdown shown before the first hit object.
#[derive(Debug, Clone, Copy, PartialEq, Eq, Structural, PartialOrd, Ord, Hash)]
pub enum Countdown {
    Normal,
    Half,
    Double,
}

/// The countdown speed a numeric token denotes: `1` to `3`, anything else
/// rejected.
pub open spec fn spec_countdown_from_i32(v: int) -> Result<Countdown, Error> {
    if v == 1 {
        Ok(Countdown::Normal)
    } else if v == 2 {
        Ok(Countdown::Half)
    } else if v == 3 {
        Ok(Countdown::Double)
    } else {
        Err(Error::InvalidInput("invalid countdown value"))
    }
}

impl Countdown {
    /// Converts a numeric countdown value, rejecting values outside `1..=3`.
    pub fn try_from_i32(value: i32) -> (r: Result<Countdown, Error>)
        ensures
            r == spec_countdown_from_i32(value as int),
    {
        match value {
            1 => Ok(Countdown::Normal),
            2 => Ok(Countdown::Half),
            3 => Ok(Countdown::Double),
            _ => Err(Error::InvalidInput("invalid countdown value")),
        }
    }

    /// Converts a numeric countdown value, `None` outside `1..=3`.
    pub fn from_i32(value: i32) -> (r: Option<Countdown>)
        ensures
            r == match spec_countdown_from_i32(value as int) {
                Ok(v) => Some(v),
                Err(_) => None::<Countdown>,
            },
    {
        match Countdown::try_from_i32(value) {
            Ok(v) => Some(v),
            Err(_) => None,
        }
    }
}

impl Default for Countdown {
    /// The default countdown speed.
    fn default() -> (r: Self)
        ensures
            r == Countdown::Normal,
    {
        Countdown::Normal
    }
}

} // verus!
