//! Editor record section.

use vstd::prelude::*;

use crate::Error;
use crate::numbers::Decimal;
use crate::numbers::parse_decimal;
use crate::numbers::parse_i32;
use crate::numbers::parse_u64;
use crate::numbers::spec_parse_decimal;
use crate::numbers::spec_parse_int;
use crate::numbers::spec_parse_uint;
use crate::strutil::spec_split;
use crate::strutil::spec_split_once;
use crate::strutil::spec_trim;
use crate::strutil::split_char;
use crate::strutil::split_once_char;
use crate::strutil::str_eq;
use crate::strutil::trim;
use crate::strutil::trimmed_parts;

verus! {

/// Spec-level image of [`Editor`].
pub struct EditorV {
    pub bookmarks: Seq<u64>,
    pub distance_spacing: Decimal,
    pub beat_divisor: i32,
    pub grid_size: i32,
    pub timeline_zoom: Decimal,
}

/// The editor settings saved with a beatmap.
#[derive(Debug, Clone, PartialEq)]
pub struct Editor {
    /// Time in milliseconds of bookmarks.
    pub bookmarks: Vec<u64>,
    /// Distance snap multiplier.
    pub distance_spacing: Decimal,
    /// Beat snap divisor.
    pub beat_divisor: i32,
    /// Grid size.
    pub grid_size: i32,
    /// Scale factor for the object timeline.
    pub timeline_zoom: Decimal,
}

impl View for Editor {
    type V = EditorV;

    open spec fn view(&self) -> EditorV {
        EditorV {
            bookmarks: self.bookmarks@,
            distance_spacing: self.distance_spacing,
            beat_divisor: self.beat_divisor,
            grid_size: self.grid_size,
            timeline_zoom: self.timeline_zoom,
        }
    }
}

/// The editor settings before any record line is applied.
pub open spec fn spec_editor_default() -> EditorV {
    EditorV {
        bookmarks: Seq::empty(),
        distance_spacing: Decimal { mantissa: 0, scale: 0 },
        beat_divisor: 0,
        grid_size: 0,
        timeline_zoom: Decimal { mantissa: 0, scale: 0 },
    }
}

/// The bookmark times a `Bookmarks` value denotes: comma-separated
/// millisecond values, each trimmed; any bad value fails the whole list.
pub open spec fn spec_parse_bookmarks(value: Seq<char>) -> Result<Seq<u64>, Error> {
    let parts = trimmed_parts(value, ',');
    if exists|i: int|
        0 <= i < parts.len() && spec_parse_uint(#[trigger] parts[i], u64::MAX as nat) is None {
        Err(Error::ParseIntError)
    } else {
        Ok(Seq::new(parts.len(), |i: int| spec_parse_uint(parts[i], u64::MAX as nat).unwrap() as u64))
    }
}

/// One `Editor` record line applied to the settings.
pub open spec fn spec_apply_editor(e: EditorV, line: Seq<char>) -> Result<EditorV, Error> {
    match spec_split_once(line, ':') {
        None => Ok(e),
        Some((k, v)) => {
            let key = spec_trim(k);
            let value = spec_trim(v);
            if key == "Bookmarks"@ {
                match spec_parse_bookmarks(value) {
                    Ok(bs) => Ok(EditorV { bookmarks: bs, ..e }),
                    Err(err) => Err(err),
                }
            } else if key == "DistanceSpacing"@ {
                match spec_parse_decimal(value) {
                    Ok(x) => Ok(EditorV { distance_spacing: x, ..e }),
                    Err(err) => Err(err),
                }
            } else if key == "BeatDivisor"@ {
                match spec_parse_int(value, i32::MIN as int, i32::MAX as int) {
                    Some(x) => Ok(EditorV { beat_divisor: x as i32, ..e }),
                    None => Err(Error::ParseIntError),
                }
            } else if key == "GridSize"@ {
                match spec_parse_int(value, i32::MIN as int, i32::MAX as int) {
                    Some(x) => Ok(EditorV { grid_size: x as i32, ..e }),
                    None => Err(Error::ParseIntError),
                }
            } else if key == "TimelineZoom"@ {
                match spec_parse_decimal(value) {
                    Ok(x) => Ok(EditorV { timeline_zoom: x, ..e }),
                    Err(err) => Err(err),
                }
            } else {
                Ok(e)
            }
        },
    }
}

impl Editor {
    /// Applies one `Editor` record line to the settings.
    pub fn parse(&mut self, s: &str) -> (r: Result<(), Error>)
        ensures
            match spec_apply_editor(old(self)@, s@) {
                Ok(e) => r is Ok && final(self)@ == e,
                Err(err) => r == Err::<(), Error>(err) && final(self)@ == old(self)@,
            },
    {
        match split_once_char(s, ':') {
            None => Ok(()),
            Some((k, v)) => {
                let key = trim(k);
                let value = trim(v);
                if str_eq(key, "Bookmarks") {
                    self.bookmarks = parse_bookmarks(value)?;
                    Ok(())
                } else if str_eq(key, "DistanceSpacing") {
                    self.distance_spacing = parse_decimal(value)?;
                    Ok(())
                } else if str_eq(key, "BeatDivisor") {
                    self.beat_divisor = parse_i32(value)?;
                    Ok(())
                } else if str_eq(key, "GridSize") {
                    self.grid_size = parse_i32(value)?;
                    Ok(())
                } else if str_eq(key, "TimelineZoom") {
                    self.timeline_zoom = parse_decimal(value)?;
                    Ok(())
                } else {
                    Ok(())
                }
            },
        }
    }
}

/// Parses a `Bookmarks` value into its millisecond times.
fn parse_bookmarks(value: &str) -> (r: Result<Vec<u64>, Error>)
    ensures
        match r {
            Ok(bs) => spec_parse_bookmarks(value@) == Ok::<Seq<u64>, Error>(bs@),
            Err(e) => spec_parse_bookmarks(value@) == Err::<Seq<u64>, Error>(e),
        },
{
    let ghost parts = trimmed_parts(value@, ',');
    let raw = split_char(value, ',');
    let mut bs: Vec<u64> = Vec::new();
    let n = raw.len();
    let mut i: usize = 0;
    while i < n
        invariant
            0 <= i <= n,
            n == raw@.len(),
            parts == trimmed_parts(value@, ','),
            crate::strutil::views_of(raw@) == spec_split(value@, ','),
            parts.len() == n,
            bs@.len() == i,
            forall|j: int|
                0 <= j < i ==> spec_parse_uint(#[trigger] parts[j], u64::MAX as nat) == Some(
                    bs@[j] as nat,
                ),
        decreases n - i,
    {
        let t = trim(raw[i]);
        proof {
            assert(parts[i as int] == spec_trim(spec_split(value@, ',')[i as int]));
            assert(crate::strutil::views_of(raw@)[i as int] == raw@[i as int]@);
            assert(t@ == parts[i as int]);
        }
        match parse_u64(t) {
            Ok(v) => {
                bs.push(v);
            },
            Err(_) => {
                proof {
                    assert(spec_parse_uint(parts[i as int], u64::MAX as nat) is None);
                }
                return Err(Error::ParseIntError);
            },
        }
        i += 1;
    }
    proof {
        assert(bs@ =~= Seq::new(
            parts.len(),
            |j: int| spec_parse_uint(parts[j], u64::MAX as nat).unwrap() as u64,
        ));
    }
    Ok(bs)
}

impl Default for Editor {
    /// The editor settings before any record line is applied.
    fn default() -> (r: Self)
        ensures
            r@ == spec_editor_default(),
    {
        let r = Editor {
            bookmarks: Vec::new(),
            distance_spacing: Decimal { mantissa: 0, scale: 0 },
            beat_divisor: 0,
            grid_size: 0,
            timeline_zoom: Decimal { mantissa: 0, scale: 0 },
        };
        proof {
            assert(r@.bookmarks =~= Seq::<u64>::empty());
        }
        r
    }
}

} // verus!
