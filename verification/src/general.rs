//! General record section.

use vstd::prelude::*;

use crate::Error;
use crate::countdown::Countdown;
use crate::countdown::spec_countdown_from_i32;
use crate::mode::Mode;
use crate::mode::spec_mode_from_i32;
use crate::numbers::Decimal;
use crate::numbers::parse_decimal;
use crate::numbers::parse_i32;
use crate::numbers::parse_i64;
use crate::numbers::spec_parse_decimal;
use crate::numbers::spec_parse_int;
use crate::overlay_position::OverlayPosition;
use crate::overlay_position::spec_overlay_position_from_name;
use crate::sample_set::SampleSet;
use crate::sample_set::spec_sample_set_from_name;
use crate::strutil::spec_split_once;
use crate::strutil::spec_trim;
use crate::strutil::split_once_char;
use crate::strutil::str_eq;
use crate::strutil::trim;

verus! {

/// Spec-level image of [`General`].
pub struct GeneralV {
    pub audio_filename: Seq<char>,
    pub audio_lead_in: i32,
    pub preview_time: Option<i32>,
    pub countdown: Option<Countdown>,
    pub sample_set: SampleSet,
    pub stack_leniency: Decimal,
    pub mode: Mode,
    pub letterbox_in_breaks: bool,
    pub use_skin_sprites: bool,
    pub overlay_position: Option<OverlayPosition>,
    pub skin_preference: Option<Seq<char>>,
    pub epilepsy_warning: bool,
    pub countdown_offset: i32,
    pub special_style: bool,
    pub widescreen_storyboard: bool,
    pub samples_match_playback_rate: bool,
}

/// The general settings of a beatmap.
#[derive(Debug, Clone, PartialEq)]
pub struct General {
    /// Location of the audio file relative to the current folder.
    pub audio_filename: String,
    /// Milliseconds of silence before the audio starts playing.
    pub audio_lead_in: i32,
    /// Time in milliseconds when the audio preview should start.
    pub preview_time: Option<i32>,
    /// Speed of the countdown before the first hit object.
    pub countdown: Option<Countdown>,
    /// Sample set that will be used if timing points do not override it.
    pub sample_set: SampleSet,
    /// Multiplier for the threshold in time where hit objects placed close
    /// together stack.
    pub stack_leniency: Decimal,
    /// Game mode.
    pub mode: Mode,
    /// Whether or not breaks have a letterboxing effect.
    pub letterbox_in_breaks: bool,
    /// Whether or not the storyboard can use the user's skin images.
    pub use_skin_sprites: bool,
    /// Draw order of hit circle overlays compared to hit numbers; `None`
    /// means the skin setting decides.
    pub overlay_position: Option<OverlayPosition>,
    /// Preferred skin to use during gameplay.
    pub skin_preference: Option<String>,
    /// Whether or not a warning about flashing colours should be shown at
    /// the beginning of the map.
    pub epilepsy_warning: bool,
    /// Time in beats that the countdown starts before the first hit object.
    pub countdown_offset: i32,
    /// Whether or not the "N+1" style key layout is used for osu!mania.
    pub special_style: bool,
    /// Whether or not the storyboard allows widescreen viewing.
    pub widescreen_storyboard: bool,
    /// Whether or not sound samples will change rate when playing with
    /// speed-changing mods.
    pub samples_match_playback_rate: bool,
}

impl View for General {
    type V = GeneralV;

    open spec fn view(&self) -> GeneralV {
        GeneralV {
            audio_filename: self.audio_filename@,
            audio_lead_in: self.audio_lead_in,
            preview_time: self.preview_time,
            countdown: self.countdown,
            sample_set: self.sample_set,
            stack_leniency: self.stack_leniency,
            mode: self.mode,
            letterbox_in_breaks: self.letterbox_in_breaks,
            use_skin_sprites: self.use_skin_sprites,
            overlay_position: self.overlay_position,
            skin_preference: match self.skin_preference {
                Some(ref p) => Some(p@),
                None => None,
            },
            epilepsy_warning: self.epilepsy_warning,
            countdown_offset: self.countdown_offset,
            special_style: self.special_style,
            widescreen_storyboard: self.widescreen_storyboard,
            samples_match_playback_rate: self.samples_match_playback_rate,
        }
    }
}

/// The general settings before any record line is applied.
pub open spec fn spec_general_default() -> GeneralV {
    GeneralV {
        audio_filename: Seq::empty(),
        audio_lead_in: 0,
        preview_time: None,
        countdown: None,
        sample_set: SampleSet::Normal,
        stack_leniency: Decimal { mantissa: 7, scale: 1 },
        mode: Mode::Standard,
        letterbox_in_breaks: false,
        use_skin_sprites: false,
        overlay_position: None,
        skin_preference: None,
        epilepsy_warning: false,
        countdown_offset: 0,
        special_style: false,
        widescreen_storyboard: false,
        samples_match_playback_rate: true,
    }
}

/// The boolean a flag token denotes: any integer token, nonzero meaning
/// true, not restricted to the literal tokens `0` and `1`.
pub open spec fn spec_parse_flag(value: Seq<char>) -> Result<bool, Error> {
    match spec_parse_int(value, i64::MIN as int, i64::MAX as int) {
        Some(v) => Ok(v != 0),
        None => Err(Error::ParseIntError),
    }
}

/// One `General` record line applied to the settings: each recognized key
/// parses its value and replaces its field, an unrecognized key or a line
/// without `:` is a no-op, and a malformed value for a recognized key
/// fails.
pub open spec fn spec_apply_general(g: GeneralV, line: Seq<char>) -> Result<GeneralV, Error> {
    match spec_split_once(line, ':') {
        None => Ok(g),
        Some((k, v)) => {
            let key = spec_trim(k);
            let value = spec_trim(v);
            if key == "AudioFilename"@ {
                Ok(GeneralV { audio_filename: value, ..g })
            } else if key == "AudioLeadIn"@ {
                match spec_parse_int(value, i32::MIN as int, i32::MAX as int) {
                    Some(x) => Ok(GeneralV { audio_lead_in: x as i32, ..g }),
                    None => Err(Error::ParseIntError),
                }
            } else if key == "PreviewTime"@ {
                match spec_parse_int(value, i32::MIN as int, i32::MAX as int) {
                    Some(x) => Ok(GeneralV { preview_time: Some(x as i32), ..g }),
                    None => Err(Error::ParseIntError),
                }
            } else if key == "Countdown"@ {
                match spec_parse_int(value, i32::MIN as int, i32::MAX as int) {
                    Some(x) => match spec_countdown_from_i32(x) {
                        Ok(c) => Ok(GeneralV { countdown: Some(c), ..g }),
                        Err(e) => Err(e),
                    },
                    None => Err(Error::ParseIntError),
                }
            } else if key == "SampleSet"@ {
                match spec_sample_set_from_name(value) {
                    Ok(ss) => Ok(GeneralV { sample_set: ss, ..g }),
                    Err(e) => Err(e),
                }
            } else if key == "StackLeniency"@ {
                match spec_parse_decimal(value) {
                    Ok(x) => Ok(GeneralV { stack_leniency: x, ..g }),
                    Err(e) => Err(e),
                }
            } else if key == "Mode"@ {
                match spec_parse_int(value, i32::MIN as int, i32::MAX as int) {
                    Some(x) => match spec_mode_from_i32(x) {
                        Ok(m) => Ok(GeneralV { mode: m, ..g }),
                        Err(e) => Err(e),
                    },
                    None => Err(Error::ParseIntError),
                }
            } else if key == "LetterboxInBreaks"@ {
                match spec_parse_flag(value) {
                    Ok(b) => Ok(GeneralV { letterbox_in_breaks: b, ..g }),
                    Err(e) => Err(e),
                }
            } else if key == "UseSkinSprites"@ {
                match spec_parse_flag(value) {
                    Ok(b) => Ok(GeneralV { use_skin_sprites: b, ..g }),
                    Err(e) => Err(e),
                }
            } else if key == "OverlayPosition"@ {
                if value == "NoChange"@ {
                    Ok(GeneralV { overlay_position: None, ..g })
                } else {
                    match spec_overlay_position_from_name(value) {
                        Ok(p) => Ok(GeneralV { overlay_position: Some(p), ..g }),
                        Err(e) => Err(e),
                    }
                }
            } else if key == "SkinPreference"@ {
                Ok(GeneralV { skin_preference: Some(value), ..g })
            } else if key == "EpilepsyWarning"@ {
                match spec_parse_flag(value) {
                    Ok(b) => Ok(GeneralV { epilepsy_warning: b, ..g }),
                    Err(e) => Err(e),
                }
            } else if key == "CountdownOffset"@ {
                match spec_parse_int(value, i32::MIN as int, i32::MAX as int) {
                    Some(x) => Ok(GeneralV { countdown_offset: x as i32, ..g }),
                    None => Err(Error::ParseIntError),
                }
            } else if key == "SpecialStyle"@ {
                match spec_parse_flag(value) {
                    Ok(b) => Ok(GeneralV { special_style: b, ..g }),
                    Err(e) => Err(e),
                }
            } else if key == "WidescreenStoryboard"@ {
                match spec_parse_flag(value) {
                    Ok(b) => Ok(GeneralV { widescreen_storyboard: b, ..g }),
                    Err(e) => Err(e),
                }
            } else if key == "SamplesMatchPlaybackRate"@ {
                match spec_parse_flag(value) {
                    Ok(b) => Ok(GeneralV { samples_match_playback_rate: b, ..g }),
                    Err(e) => Err(e),
                }
            } else {
                Ok(g)
            }
        },
    }
}

/// Parses a boolean flag token: any integer token, nonzero meaning true.
fn parse_flag(value: &str) -> (r: Result<bool, Error>)
    ensures
        r == spec_parse_flag(value@),
{
    let v = parse_i64(value)?;
    Ok(v != 0)
}

impl General {
    /// Applies one `General` record line to the settings.
    #[verifier::rlimit(100)]
    pub fn parse(&mut self, s: &str) -> (r: Result<(), Error>)
        ensures
            match spec_apply_general(old(self)@, s@) {
                Ok(g) => r is Ok && final(self)@ == g,
                Err(e) => r == Err::<(), Error>(e) && final(self)@ == old(self)@,
            },
    {
        match split_once_char(s, ':') {
            None => Ok(()),
            Some((k, v)) => {
                let key = trim(k);
                let value = trim(v);
                if str_eq(key, "AudioFilename") {
                    self.audio_filename = value.to_owned();
                    Ok(())
                } else if str_eq(key, "AudioLeadIn") {
                    self.audio_lead_in = parse_i32(value)?;
                    Ok(())
                } else if str_eq(key, "PreviewTime") {
                    self.preview_time = Some(parse_i32(value)?);
                    Ok(())
                } else if str_eq(key, "Countdown") {
                    self.countdown = Some(Countdown::try_from_i32(parse_i32(value)?)?);
                    Ok(())
                } else if str_eq(key, "SampleSet") {
                    self.sample_set = SampleSet::from_name(value)?;
                    Ok(())
                } else if str_eq(key, "StackLeniency") {
                    self.stack_leniency = parse_decimal(value)?;
                    Ok(())
                } else if str_eq(key, "Mode") {
                    self.mode = Mode::try_from_i32(parse_i32(value)?)?;
                    Ok(())
                } else if str_eq(key, "LetterboxInBreaks") {
                    self.letterbox_in_breaks = parse_flag(value)?;
                    Ok(())
                } else if str_eq(key, "UseSkinSprites") {
                    self.use_skin_sprites = parse_flag(value)?;
                    Ok(())
                } else if str_eq(key, "OverlayPosition") {
                    if str_eq(value, "NoChange") {
                        self.overlay_position = None;
                    } else {
                        self.overlay_position = Some(OverlayPosition::from_name(value)?);
                    }
                    Ok(())
                } else if str_eq(key, "SkinPreference") {
                    self.skin_preference = Some(value.to_owned());
                    Ok(())
                } else if str_eq(key, "EpilepsyWarning") {
                    self.epilepsy_warning = parse_flag(value)?;
                    Ok(())
                } else if str_eq(key, "CountdownOffset") {
                    self.countdown_offset = parse_i32(value)?;
                    Ok(())
                } else if str_eq(key, "SpecialStyle") {
                    self.special_style = parse_flag(value)?;
                    Ok(())
                } else if str_eq(key, "WidescreenStoryboard") {
                    self.widescreen_storyboard = parse_flag(value)?;
                    Ok(())
                } else if str_eq(key, "SamplesMatchPlaybackRate") {
                    self.samples_match_playback_rate = parse_flag(value)?;
                    Ok(())
                } else {
                    Ok(())
                }
            },
        }
    }
}

impl Default for General {
    /// The general settings before any record line is applied.
    fn default() -> (r: Self)
        ensures
            r@ == spec_general_default(),
    {
        General {
            audio_filename: String::new(),
            audio_lead_in: 0,
            preview_time: None,
            countdown: None,
            sample_set: SampleSet::Normal,
            stack_leniency: Decimal { mantissa: 7, scale: 1 },
            mode: Mode::Standard,
            letterbox_in_breaks: false,
            use_skin_sprites: false,
            overlay_position: None,
            skin_preference: None,
            epilepsy_warning: false,
            countdown_offset: 0,
            special_style: false,
            widescreen_storyboard: false,
            samples_match_playback_rate: true,
        }
    }
}

} // verus!
