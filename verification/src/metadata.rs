//! Metadata record section.

use vstd::prelude::*;

use crate::Error;
use crate::numbers::parse_i64;
use crate::numbers::spec_parse_int;
use crate::strutil::spec_split;
use crate::strutil::spec_split_once;
use crate::strutil::spec_trim;
use crate::strutil::split_char;
use crate::strutil::split_once_char;
use crate::strutil::str_eq;
use crate::strutil::string_views;
use crate::strutil::trim;
use crate::strutil::trimmed_parts;

verus! {

/// Spec-level image of [`Metadata`]: every text field as its character
/// sequence.
pub struct MetadataV {
    pub title: Seq<char>,
    pub title_unicode: Seq<char>,
    pub artist: Seq<char>,
    pub artist_unicode: Seq<char>,
    pub creator: Seq<char>,
    pub version: Seq<char>,
    pub source: Seq<char>,
    pub tags: Seq<Seq<char>>,
    pub beatmap_id: Option<i64>,
    pub beatmap_set_id: Option<i64>,
}

/// The metadata of a beatmap: titles, artists, creator and search terms.
#[derive(Debug, Clone, PartialEq)]
pub struct Metadata {
    /// Romanised song title.
    pub title: String,
    /// Song title.
    pub title_unicode: String,
    /// Romanised song artist.
    pub artist: String,
    /// Song artist.
    pub artist_unicode: String,
    /// Beatmap creator.
    pub creator: String,
    /// Difficulty name.
    pub version: String,
    /// Original media the song was produced for.
    pub source: String,
    /// Search terms.
    pub tags: Vec<String>,
    /// Difficulty ID.
    pub beatmap_id: Option<i64>,
    /// Beatmap ID.
    pub beatmap_set_id: Option<i64>,
}

impl View for Metadata {
    type V = MetadataV;

    open spec fn view(&self) -> MetadataV {
        MetadataV {
            title: self.title@,
            title_unicode: self.title_unicode@,
            artist: self.artist@,
            artist_unicode: self.artist_unicode@,
            creator: self.creator@,
            version: self.version@,
            source: self.source@,
            tags: string_views(self.tags@),
            beatmap_id: self.beatmap_id,
            beatmap_set_id: self.beatmap_set_id,
        }
    }
}

/// The metadata before any record line is applied: every text empty,
/// no tags, no IDs.
pub open spec fn spec_metadata_default() -> MetadataV {
    MetadataV {
        title: Seq::empty(),
        title_unicode: Seq::empty(),
        artist: Seq::empty(),
        artist_unicode: Seq::empty(),
        creator: Seq::empty(),
        version: Seq::empty(),
        source: Seq::empty(),
        tags: Seq::empty(),
        beatmap_id: None,
        beatmap_set_id: None,
    }
}

/// One `Metadata` record line applied: text keys replace their field with
/// the trimmed value, `Tags` splits the value on spaces, the two ID keys
/// parse an integer, an unrecognized key or a line without `:` is a no-op.
pub open spec fn spec_apply_metadata(m: MetadataV, line: Seq<char>) -> Result<MetadataV, Error> {
    match spec_split_once(line, ':') {
        None => Ok(m),
        Some((k, v)) => {
            let key = spec_trim(k);
            let value = spec_trim(v);
            if key == "Title"@ {
                Ok(MetadataV { title: value, ..m })
            } else if key == "TitleUnicode"@ {
                Ok(MetadataV { title_unicode: value, ..m })
            } else if key == "Artist"@ {
                Ok(MetadataV { artist: value, ..m })
            } else if key == "ArtistUnicode"@ {
                Ok(MetadataV { artist_unicode: value, ..m })
            } else if key == "Creator"@ {
                Ok(MetadataV { creator: value, ..m })
            } else if key == "Version"@ {
                Ok(MetadataV { version: value, ..m })
            } else if key == "Source"@ {
                Ok(MetadataV { source: value, ..m })
            } else if key == "Tags"@ {
                Ok(MetadataV { tags: trimmed_parts(value, ' '), ..m })
            } else if key == "BeatmapID"@ {
                match spec_parse_int(value, i64::MIN as int, i64::MAX as int) {
                    Some(x) => Ok(MetadataV { beatmap_id: Some(x as i64), ..m }),
                    None => Err(Error::ParseIntError),
                }
            } else if key == "BeatmapSetID"@ {
                match spec_parse_int(value, i64::MIN as int, i64::MAX as int) {
                    Some(x) => Ok(MetadataV { beatmap_set_id: Some(x as i64), ..m }),
                    None => Err(Error::ParseIntError),
                }
            } else {
                Ok(m)
            }
        },
    }
}

impl Metadata {
    /// Applies one `Metadata` record line.
    pub fn parse(&mut self, s: &str) -> (r: Result<(), Error>)
        ensures
            match spec_apply_metadata(old(self)@, s@) {
                Ok(m) => r is Ok && final(self)@ == m,
                Err(e) => r == Err::<(), Error>(e) && final(self)@ == old(self)@,
            },
    {
        match split_once_char(s, ':') {
            None => Ok(()),
            Some((k, v)) => {
                let key = trim(k);
                let value = trim(v);
                if str_eq(key, "Title") {
                    self.title = value.to_owned();
                    Ok(())
                } else if str_eq(key, "TitleUnicode") {
                    self.title_unicode = value.to_owned();
                    Ok(())
                } else if str_eq(key, "Artist") {
                    self.artist = value.to_owned();
                    Ok(())
                } else if str_eq(key, "ArtistUnicode") {
                    self.artist_unicode = value.to_owned();
                    Ok(())
                } else if str_eq(key, "Creator") {
                    self.creator = value.to_owned();
                    Ok(())
                } else if str_eq(key, "Version") {
                    self.version = value.to_owned();
                    Ok(())
                } else if str_eq(key, "Source") {
                    self.source = value.to_owned();
                    Ok(())
                } else if str_eq(key, "Tags") {
                    self.tags = split_tags(value);
                    Ok(())
                } else if str_eq(key, "BeatmapID") {
                    self.beatmap_id = Some(parse_i64(value)?);
                    Ok(())
                } else if str_eq(key, "BeatmapSetID") {
                    self.beatmap_set_id = Some(parse_i64(value)?);
                    Ok(())
                } else {
                    Ok(())
                }
            },
        }
    }
}

/// Splits a `Tags` value into its space-separated terms, each trimmed.
fn split_tags(value: &str) -> (r: Vec<String>)
    ensures
        string_views(r@) == trimmed_parts(value@, ' '),
{
    let raw = split_char(value, ' ');
    let mut tags: Vec<String> = Vec::new();
    let n = raw.len();
    let mut i: usize = 0;
    while i < n
        invariant
            0 <= i <= n,
            n == raw@.len(),
            crate::strutil::views_of(raw@) == spec_split(value@, ' '),
            tags@.len() == i,
            forall|j: int|
                0 <= j < i ==> #[trigger] string_views(tags@)[j] == trimmed_parts(value@, ' ')[j],
        decreases n - i,
    {
        let t = trim(raw[i]);
        proof {
            assert(crate::strutil::views_of(raw@)[i as int] == raw@[i as int]@);
            assert(trimmed_parts(value@, ' ')[i as int] == spec_trim(spec_split(value@, ' ')[
                i as int
            ]));
        }
        let ghost old_tags = tags@;
        tags.push(t.to_owned());
        proof {
            assert forall|j: int| 0 <= j < i + 1 implies #[trigger] string_views(tags@)[j]
                == trimmed_parts(value@, ' ')[j] by {
                assert(string_views(tags@)[j] == tags@[j]@);
                if j < i {
                    assert(tags@[j] == old_tags[j]);
                    assert(string_views(old_tags)[j] == old_tags[j]@);
                }
            }
        }
        i += 1;
    }
    proof {
        assert(string_views(tags@) =~= trimmed_parts(value@, ' '));
    }
    tags
}

impl Default for Metadata {
    /// The metadata before any record line is applied.
    fn default() -> (r: Self)
        ensures
            r@ == spec_metadata_default(),
    {
        let r = Metadata {
            title: String::new(),
            title_unicode: String::new(),
            artist: String::new(),
            artist_unicode: String::new(),
            creator: String::new(),
            version: String::new(),
            source: String::new(),
            tags: Vec::new(),
            beatmap_id: None,
            beatmap_set_id: None,
        };
        proof {
            assert(string_views(r.tags@) =~= Seq::<Seq<char>>::empty());
        }
        r
    }
}

} // verus!
