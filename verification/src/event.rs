//! Events list section.

use vstd::prelude::*;

use crate::Error;
use crate::numbers::parse_i32;
use crate::numbers::parse_u64;
use crate::numbers::spec_parse_int;
use crate::numbers::spec_parse_uint;
use crate::strutil::str_eq;
use crate::strutil::trimmed_parts;

verus! {

/// A screen offset in osu! pixels from the centre of the screen.
#[derive(Debug, Clone, Copy, PartialEq, Eq, Structural)]
pub struct Offset {
    pub x: i32,
    pub y: i32,
}

/// Spec-level image of [`Background`].
pub struct BackgroundV {
    pub offset: Offset,
    pub filename: Seq<char>,
}

/// A background image event.
#[derive(Debug, Clone, PartialEq)]
pub struct Background {
    /// Offset in osu! pixels from the centre of the screen.
    pub offset: Offset,
    /// Location of the background image relative to the beatmap directory.
    pub filename: String,
}

impl View for Background {
    type V = BackgroundV;

    open spec fn view(&self) -> BackgroundV {
        BackgroundV { offset: self.offset, filename: self.filename@ }
    }
}

/// Spec-level image of [`Video`].
pub struct VideoV {
    pub offset: Offset,
    pub start_time: u64,
    pub filename: Seq<char>,
}

/// A background video event.
#[derive(Debug, Clone, PartialEq)]
pub struct Video {
    /// Offset in osu! pixels from the centre of the screen.
    pub offset: Offset,
    /// Start time of the event, in milliseconds from the beginning of the
    /// beatmap's audio.
    pub start_time: u64,
    /// Location of the video file relative to the beatmap directory.
    pub filename: String,
}

impl View for Video {
    type V = VideoV;

    open spec fn view(&self) -> VideoV {
        VideoV { offset: self.offset, start_time: self.start_time, filename: self.filename@ }
    }
}

/// A gameplay break.
#[derive(Debug, Clone, Copy, PartialEq, Eq, Structural)]
pub struct Break {
    /// Start time of the break, in milliseconds from the beginning of the
    /// beatmap's audio.
    pub start_time: u64,
    /// End time of the break, in milliseconds from the beginning of the
    /// beatmap's audio.
    pub end_time: u64,
}

/// Spec-level image of [`EventKind`].
pub enum EventKindV {
    Background(BackgroundV),
    Video(VideoV),
    Break(Break),
}

/// One event of the `Events` section, keyed by its leading type tag.
#[derive(Debug, Clone, PartialEq)]
pub enum EventKind {
    Background(Background),
    Video(Video),
    Break(Break),
}

impl View for EventKind {
    type V = EventKindV;

    open spec fn view(&self) -> EventKindV {
        match self {
            EventKind::Background(b) => EventKindV::Background(b@),
            EventKind::Video(v) => EventKindV::Video(v@),
            EventKind::Break(b) => EventKindV::Break(*b),
        }
    }
}

impl EventKind {
    /// Whether this event is a background image.
    pub fn is_background(&self) -> (r: bool)
        ensures
            r == (self@ is Background),
    {
        match self {
            EventKind::Background(_) => true,
            _ => false,
        }
    }

    /// Whether this event is a background video.
    pub fn is_video(&self) -> (r: bool)
        ensures
            r == (self@ is Video),
    {
        match self {
            EventKind::Video(_) => true,
            _ => false,
        }
    }

    /// Whether this event is a gameplay break.
    pub fn is_break(&self) -> (r: bool)
        ensures
            r == (self@ is Break),
    {
        match self {
            EventKind::Break(_) => true,
            _ => false,
        }
    }
}

/// The views of a sequence of events.
pub open spec fn event_views(es: Seq<EventKind>) -> Seq<EventKindV> {
    es.map_values(|e: EventKind| e@)
}

/// The background event a line denotes: the type tag and a start time are
/// present but ignored, the third field is the image location, and the
/// optional fourth and fifth fields are the offset, zero when absent.
pub open spec fn spec_parse_background(s: Seq<char>) -> Result<BackgroundV, Error> {
    let parts = trimmed_parts(s, ',');
    if parts.len() < 2 {
        Err(Error::InvalidData("expected start time while parsing background event"))
    } else if parts.len() < 3 {
        Err(Error::InvalidData("expected filename while parsing background event"))
    } else {
        let x = if parts.len() > 3 {
            match spec_parse_int(parts[3], i32::MIN as int, i32::MAX as int) {
                Some(v) => Ok(v as i32),
                None => Err(Error::ParseIntError),
            }
        } else {
            Ok(0i32)
        };
        let y = if parts.len() > 4 {
            match spec_parse_int(parts[4], i32::MIN as int, i32::MAX as int) {
                Some(v) => Ok(v as i32),
                None => Err(Error::ParseIntError),
            }
        } else {
            Ok(0i32)
        };
        match x {
            Err(e) => Err(e),
            Ok(x) => match y {
                Err(e) => Err(e),
                Ok(y) => Ok(BackgroundV { offset: Offset { x, y }, filename: parts[2] }),
            },
        }
    }
}

/// The video event a line denotes: the type tag is ignored, then a start
/// time in milliseconds, the video location, and a required offset.
pub open spec fn spec_parse_video(s: Seq<char>) -> Result<VideoV, Error> {
    let parts = trimmed_parts(s, ',');
    if parts.len() < 2 {
        Err(Error::InvalidData("expected start time while parsing video event"))
    } else {
        match spec_parse_uint(parts[1], u64::MAX as nat) {
            None => Err(Error::ParseIntError),
            Some(start_time) => if parts.len() < 3 {
                Err(Error::InvalidData("expected filename while parsing video event"))
            } else if parts.len() < 4 {
                Err(Error::InvalidData("expected x while parsing video event"))
            } else {
                match spec_parse_int(parts[3], i32::MIN as int, i32::MAX as int) {
                    None => Err(Error::ParseIntError),
                    Some(x) => if parts.len() < 5 {
                        Err(Error::InvalidData("expected y while parsing video event"))
                    } else {
                        match spec_parse_int(parts[4], i32::MIN as int, i32::MAX as int) {
                            None => Err(Error::ParseIntError),
                            Some(y) => Ok(
                                VideoV {
                                    offset: Offset { x: x as i32, y: y as i32 },
                                    start_time: start_time as u64,
                                    filename: parts[2],
                                },
                            ),
                        }
                    },
                }
            },
        }
    }
}

/// The break a line denotes: the type tag is ignored, then the start and
/// end times in milliseconds.
pub open spec fn spec_parse_break(s: Seq<char>) -> Result<Break, Error> {
    let parts = trimmed_parts(s, ',');
    if parts.len() < 2 {
        Err(Error::InvalidData("expected start time while parsing break event"))
    } else {
        match spec_parse_uint(parts[1], u64::MAX as nat) {
            None => Err(Error::ParseIntError),
            Some(start_time) => if parts.len() < 3 {
                Err(Error::InvalidData("expected end time while parsing break event"))
            } else {
                match spec_parse_uint(parts[2], u64::MAX as nat) {
                    None => Err(Error::ParseIntError),
                    Some(end_time) => Ok(
                        Break { start_time: start_time as u64, end_time: end_time as u64 },
                    ),
                }
            },
        }
    }
}

/// The event a line denotes, dispatched on its leading type tag: `0` is a
/// background, `1` or `Video` a video, `2` or `Break` a break, anything
/// else invalid.
pub open spec fn spec_parse_event(s: Seq<char>) -> Result<EventKindV, Error> {
    let parts = trimmed_parts(s, ',');
    let ty = parts[0];
    if ty == "0"@ {
        match spec_parse_background(s) {
            Ok(b) => Ok(EventKindV::Background(b)),
            Err(e) => Err(e),
        }
    } else if ty == "1"@ || ty == "Video"@ {
        match spec_parse_video(s) {
            Ok(v) => Ok(EventKindV::Video(v)),
            Err(e) => Err(e),
        }
    } else if ty == "2"@ || ty == "Break"@ {
        match spec_parse_break(s) {
            Ok(b) => Ok(EventKindV::Break(b)),
            Err(e) => Err(e),
        }
    } else {
        Err(Error::InvalidData("invalid event type"))
    }
}

impl Background {
    /// Parses a background event line.
    pub fn from_str(s: &str) -> (r: Result<Background, Error>)
        ensures
            match r {
                Ok(b) => spec_parse_background(s@) == Ok::<BackgroundV, Error>(b@),
                Err(e) => spec_parse_background(s@) == Err::<BackgroundV, Error>(e),
            },
    {
        let parts = crate::strutil::split_trimmed(s, ',');
        proof {
            assert forall|j: int| 0 <= j < parts@.len() implies #[trigger] crate::strutil::views_of(
                parts@,
            )[j] == parts@[j]@ by {}
        }
        if parts.len() < 2 {
            return Err(Error::InvalidData("expected start time while parsing background event"));
        }
        if parts.len() < 3 {
            return Err(Error::InvalidData("expected filename while parsing background event"));
        }
        let x: i32 = if parts.len() > 3 {
            parse_i32(parts[3])?
        } else {
            0
        };
        let y: i32 = if parts.len() > 4 {
            parse_i32(parts[4])?
        } else {
            0
        };
        Ok(Background { offset: Offset { x, y }, filename: parts[2].to_owned() })
    }
}

impl Video {
    /// Parses a video event line.
    pub fn from_str(s: &str) -> (r: Result<Video, Error>)
        ensures
            match r {
                Ok(v) => spec_parse_video(s@) == Ok::<VideoV, Error>(v@),
                Err(e) => spec_parse_video(s@) == Err::<VideoV, Error>(e),
            },
    {
        let parts = crate::strutil::split_trimmed(s, ',');
        proof {
            assert forall|j: int| 0 <= j < parts@.len() implies #[trigger] crate::strutil::views_of(
                parts@,
            )[j] == parts@[j]@ by {}
        }
        if parts.len() < 2 {
            return Err(Error::InvalidData("expected start time while parsing video event"));
        }
        let start_time = parse_u64(parts[1])?;
        if parts.len() < 3 {
            return Err(Error::InvalidData("expected filename while parsing video event"));
        }
        if parts.len() < 4 {
            return Err(Error::InvalidData("expected x while parsing video event"));
        }
        let x = parse_i32(parts[3])?;
        if parts.len() < 5 {
            return Err(Error::InvalidData("expected y while parsing video event"));
        }
        let y = parse_i32(parts[4])?;
        Ok(Video { offset: Offset { x, y }, start_time, filename: parts[2].to_owned() })
    }
}

impl Break {
    /// Parses a break event line.
    pub fn from_str(s: &str) -> (r: Result<Break, Error>)
        ensures
            match r {
                Ok(b) => spec_parse_break(s@) == Ok::<Break, Error>(b),
                Err(e) => spec_parse_break(s@) == Err::<Break, Error>(e),
            },
    {
        let parts = crate::strutil::split_trimmed(s, ',');
        proof {
            assert forall|j: int| 0 <= j < parts@.len() implies #[trigger] crate::strutil::views_of(
                parts@,
            )[j] == parts@[j]@ by {}
        }
        if parts.len() < 2 {
            return Err(Error::InvalidData("expected start time while parsing break event"));
        }
        let start_time = parse_u64(parts[1])?;
        if parts.len() < 3 {
            return Err(Error::InvalidData("expected end time while parsing break event"));
        }
        let end_time = parse_u64(parts[2])?;
        Ok(Break { start_time, end_time })
    }
}

impl EventKind {
    /// Parses an event line, dispatching on its leading type tag.
    pub fn from_str(s: &str) -> (r: Result<EventKind, Error>)
        ensures
            match r {
                Ok(e) => spec_parse_event(s@) == Ok::<EventKindV, Error>(e@),
                Err(e) => spec_parse_event(s@) == Err::<EventKindV, Error>(e),
            },
    {
        let parts = crate::strutil::split_trimmed(s, ',');
        proof {
            assert(crate::strutil::views_of(parts@)[0] == parts@[0]@);
        }
        let ty = parts[0];
        if str_eq(ty, "0") {
            Ok(EventKind::Background(Background::from_str(s)?))
        } else if str_eq(ty, "1") || str_eq(ty, "Video") {
            Ok(EventKind::Video(Video::from_str(s)?))
        } else if str_eq(ty, "2") || str_eq(ty, "Break") {
            Ok(EventKind::Break(Break::from_str(s)?))
        } else {
            Err(Error::InvalidData("invalid event type"))
        }
    }
}

} // verus!
