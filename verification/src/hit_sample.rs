//! Hit-sample descriptors.

use vstd::prelude::*;

use crate::Error;
use crate::numbers::parse_i32;
use crate::numbers::spec_parse_int;
use crate::sample_set::SampleSet;
use crate::sample_set::spec_sample_set_from_i32;
use crate::strutil::spec_split;
use crate::strutil::split_char;
use crate::strutil::str_eq;

verus! {

/// Spec-level image of [`HitSample`].
pub struct HitSampleV {
    pub normal_set: Option<SampleSet>,
    pub addition_set: Option<SampleSet>,
    pub index: Option<i32>,
    pub volume: Option<i32>,
    pub filename: Option<Seq<char>>,
}

/// Which samples are played when an object is hit.
///
/// Every field is optional, with the literal token `0` as the sentinel for
/// "not present"; a genuinely zero volume or index is therefore
/// indistinguishable from absence, an ambiguity the format itself carries.
#[derive(Debug, Clone, PartialEq)]
pub struct HitSample {
    /// Sample set of the normal sound.
    pub normal_set: Option<SampleSet>,
    /// Sample set of the whistle, finish and clap sounds.
    pub addition_set: Option<SampleSet>,
    /// Custom sample index.
    pub index: Option<i32>,
    /// Volume percentage of the sample.
    pub volume: Option<i32>,
    /// Custom filename of the addition sound.
    pub filename: Option<String>,
}

impl View for HitSample {
    type V = HitSampleV;

    open spec fn view(&self) -> HitSampleV {
        HitSampleV {
            normal_set: self.normal_set,
            addition_set: self.addition_set,
            index: self.index,
            volume: self.volume,
            filename: match self.filename {
                Some(ref f) => Some(f@),
                None => None,
            },
        }
    }
}

/// The hit sample with every field absent.
pub open spec fn spec_hit_sample_default() -> HitSampleV {
    HitSampleV { normal_set: None, addition_set: None, index: None, volume: None, filename: None }
}

/// The sample set an optional field token denotes: the `0` sentinel means
/// absent, anything else must be a valid numeric sample set.
pub open spec fn spec_opt_sample_set(tok: Seq<char>) -> Result<Option<SampleSet>, Error> {
    if tok == "0"@ {
        Ok(None)
    } else {
        match spec_parse_int(tok, i32::MIN as int, i32::MAX as int) {
            Some(v) => match spec_sample_set_from_i32(v) {
                Ok(ss) => Ok(Some(ss)),
                Err(e) => Err(e),
            },
            None => Err(Error::ParseIntError),
        }
    }
}

/// The integer an optional field token denotes: the `0` sentinel means
/// absent.
pub open spec fn spec_opt_i32(tok: Seq<char>) -> Result<Option<i32>, Error> {
    if tok == "0"@ {
        Ok(None)
    } else {
        match spec_parse_int(tok, i32::MIN as int, i32::MAX as int) {
            Some(v) => Ok(Some(v as i32)),
            None => Err(Error::ParseIntError),
        }
    }
}

/// The hit sample a token denotes: five colon-separated fields, untrimmed,
/// each with the `0` sentinel for absence. Fewer than five fields is a
/// structural failure; surplus fields are ignored.
pub open spec fn spec_parse_hit_sample(s: Seq<char>) -> Result<HitSampleV, Error> {
    let parts = spec_split(s, ':');
    if parts.len() < 2 {
        Err(Error::InvalidData("expected addition set while parsing hit sample"))
    } else if parts.len() < 3 {
        Err(Error::InvalidData("expected index while parsing hit sample"))
    } else if parts.len() < 4 {
        Err(Error::InvalidData("expected volume while parsing hit sample"))
    } else if parts.len() < 5 {
        Err(Error::InvalidData("expected filename while parsing hit sample"))
    } else {
        match spec_opt_sample_set(parts[0]) {
            Err(e) => Err(e),
            Ok(normal_set) => match spec_opt_sample_set(parts[1]) {
                Err(e) => Err(e),
                Ok(addition_set) => match spec_opt_i32(parts[2]) {
                    Err(e) => Err(e),
                    Ok(index) => match spec_opt_i32(parts[3]) {
                        Err(e) => Err(e),
                        Ok(volume) => Ok(
                            HitSampleV {
                                normal_set,
                                addition_set,
                                index,
                                volume,
                                filename: if parts[4] == "0"@ {
                                    None
                                } else {
                                    Some(parts[4])
                                },
                            },
                        ),
                    },
                },
            },
        }
    }
}

/// Parses an optional sample-set field with its `0` sentinel.
fn parse_opt_sample_set(tok: &str) -> (r: Result<Option<SampleSet>, Error>)
    ensures
        r == spec_opt_sample_set(tok@),
{
    if str_eq(tok, "0") {
        Ok(None)
    } else {
        Ok(Some(SampleSet::try_from_i32(parse_i32(tok)?)?))
    }
}

/// Parses an optional integer field with its `0` sentinel.
fn parse_opt_i32(tok: &str) -> (r: Result<Option<i32>, Error>)
    ensures
        r == spec_opt_i32(tok@),
{
    if str_eq(tok, "0") {
        Ok(None)
    } else {
        Ok(Some(parse_i32(tok)?))
    }
}

impl HitSample {
    /// Parses a hit-sample token.
    pub fn from_str(s: &str) -> (r: Result<HitSample, Error>)
        ensures
            match r {
                Ok(h) => spec_parse_hit_sample(s@) == Ok::<HitSampleV, Error>(h@),
                Err(e) => spec_parse_hit_sample(s@) == Err::<HitSampleV, Error>(e),
            },
    {
        let parts = split_char(s, ':');
        proof {
            assert(crate::strutil::views_of(parts@).len() == parts@.len());
        }
        if parts.len() < 2 {
            return Err(Error::InvalidData("expected addition set while parsing hit sample"));
        }
        if parts.len() < 3 {
            return Err(Error::InvalidData("expected index while parsing hit sample"));
        }
        if parts.len() < 4 {
            return Err(Error::InvalidData("expected volume while parsing hit sample"));
        }
        if parts.len() < 5 {
            return Err(Error::InvalidData("expected filename while parsing hit sample"));
        }
        proof {
            assert forall|j: int| 0 <= j < 5 implies crate::strutil::views_of(parts@)[j] == parts@[
                j
            ]@ by {}
        }
        let normal_set = parse_opt_sample_set(parts[0])?;
        let addition_set = parse_opt_sample_set(parts[1])?;
        let index = parse_opt_i32(parts[2])?;
        let volume = parse_opt_i32(parts[3])?;
        let filename = if str_eq(parts[4], "0") {
            None
        } else {
            Some(parts[4].to_owned())
        };
        Ok(HitSample { normal_set, addition_set, index, volume, filename })
    }
}

impl Default for HitSample {
    /// The hit sample with every field absent.
    fn default() -> (r: Self)
        ensures
            r@ == spec_hit_sample_default(),
    {
        HitSample { normal_set: None, addition_set: None, index: None, volume: None, filename: None }
    }
}

} // verus!
