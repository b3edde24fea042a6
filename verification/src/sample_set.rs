//! Sample set selector.

use vstd::prelude::*;

use crate::Error;
use crate::strutil::str_eq;

verus! {

/// The bank of sounds hit objects draw their samples from.
#[derive(Debug, Clone, Copy, PartialEq, Eq, Structural, PartialOrd, Ord, Hash)]
pub enum SampleSet {
    Normal,
    Soft,
    Drum,
}

/// The sample set a numeric token denotes: `1` to `3`, anything else
/// rejected.
pub open spec fn spec_sample_set_from_i32(v: int) -> Result<SampleSet, Error> {
    if v == 1 {
        Ok(SampleSet::Normal)
    } else if v == 2 {
        Ok(SampleSet::Soft)
    } else if v == 3 {
        Ok(SampleSet::Drum)
    } else {
        Err(Error::InvalidInput("invalid sample set value"))
    }
}

/// The sample set a name denotes: exactly `Normal`, `Soft` or `Drum`.
pub open spec fn spec_sample_set_from_name(s: Seq<char>) -> Result<SampleSet, Error> {
    if s == "Normal"@ {
        Ok(SampleSet::Normal)
    } else if s == "Soft"@ {
        Ok(SampleSet::Soft)
    } else if s == "Drum"@ {
        Ok(SampleSet::Drum)
    } else {
        Err(Error::InvalidInput("invalid sample set value"))
    }
}

impl SampleSet {
    /// Converts a numeric sample-set value, rejecting values outside `1..=3`.
    pub fn try_from_i32(value: i32) -> (r: Result<SampleSet, Error>)
        ensures
            r == spec_sample_set_from_i32(value as int),
    {
        match value {
            1 => Ok(SampleSet::Normal),
            2 => Ok(SampleSet::Soft),
            3 => Ok(SampleSet::Drum),
            _ => Err(Error::InvalidInput("invalid sample set value")),
        }
    }

    /// Converts a numeric sample-set value, `None` outside `1..=3`.
    pub fn from_i32(value: i32) -> (r: Option<SampleSet>)
        ensures
            r == match spec_sample_set_from_i32(value as int) {
                Ok(v) => Some(v),
                Err(_) => None::<SampleSet>,
            },
    {
        match SampleSet::try_from_i32(value) {
            Ok(v) => Some(v),
            Err(_) => None,
        }
    }

    /// Converts a sample-set name, rejecting anything but the three names.
    pub fn from_name(s: &str) -> (r: Result<SampleSet, Error>)
        ensures
            r == spec_sample_set_from_name(s@),
    {
        if str_eq(s, "Normal") {
            Ok(SampleSet::Normal)
        } else if str_eq(s, "Soft") {
            Ok(SampleSet::Soft)
        } else if str_eq(s, "Drum") {
            Ok(SampleSet::Drum)
        } else {
            Err(Error::InvalidInput("invalid sample set value"))
        }
    }

    /// Converts a sample-set name, `None` for anything but the three names.
    pub fn parse(s: &str) -> (r: Option<SampleSet>)
        ensures
            r == match spec_sample_set_from_name(s@) {
                Ok(v) => Some(v),
                Err(_) => None::<SampleSet>,
            },
    {
        match SampleSet::from_name(s) {
            Ok(v) => Some(v),
            Err(_) => None,
        }
    }
}

impl Default for SampleSet {
    /// The default sample set.
    fn default() -> (r: Self)
        ensures
            r == SampleSet::Normal,
    {
        SampleSet::Normal
    }
}

} // verus!
