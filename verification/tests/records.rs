use osu_beatmap::Error;
use osu_beatmap::colour::Colour;
use osu_beatmap::colour::Colours;
use osu_beatmap::countdown::Countdown;
use osu_beatmap::difficulty::Difficulty;
use osu_beatmap::editor::Editor;
use osu_beatmap::general::General;
use osu_beatmap::metadata::Metadata;
use osu_beatmap::mode::Mode;
use osu_beatmap::numbers::Decimal;
use osu_beatmap::overlay_position::OverlayPosition;
use osu_beatmap::sample_set::SampleSet;

fn dec(mantissa: i64, scale: u32) -> Decimal {
    Decimal { mantissa, scale }
}

#[test]
fn general_applies_recognized_keys() {
    let mut g = General::default();
    g.parse("AudioFilename: audio.mp3").unwrap();
    g.parse("AudioLeadIn: 500").unwrap();
    g.parse("PreviewTime: -1").unwrap();
    g.parse("Countdown: 2").unwrap();
    g.parse("SampleSet: Soft").unwrap();
    g.parse("StackLeniency: 0.5").unwrap();
    g.parse("Mode: 3").unwrap();
    g.parse("LetterboxInBreaks: 1").unwrap();
    assert_eq!(g.audio_filename, "audio.mp3");
    assert_eq!(g.audio_lead_in, 500);
    assert_eq!(g.preview_time, Some(-1));
    assert_eq!(g.countdown, Some(Countdown::Half));
    assert_eq!(g.sample_set, SampleSet::Soft);
    assert_eq!(g.stack_leniency, dec(5, 1));
    assert_eq!(g.mode, Mode::Mania);
    assert!(g.letterbox_in_breaks);
}

#[test]
fn general_defaults() {
    let g = General::default();
    assert_eq!(g.audio_filename, "");
    assert_eq!(g.stack_leniency, dec(7, 1));
    assert_eq!(g.mode, Mode::Standard);
    assert_eq!(g.sample_set, SampleSet::Normal);
    assert!(g.samples_match_playback_rate);
    assert!(!g.widescreen_storyboard);
}

#[test]
fn general_boolean_flags_accept_any_integer() {
    let mut g = General::default();
    g.parse("WidescreenStoryboard: 7").unwrap();
    assert!(g.widescreen_storyboard);
    g.parse("WidescreenStoryboard: 0").unwrap();
    assert!(!g.widescreen_storyboard);
    g.parse("LetterboxInBreaks: 256").unwrap();
    assert!(g.letterbox_in_breaks);
    g.parse("UseSkinSprites: -1").unwrap();
    assert!(g.use_skin_sprites);
    assert_eq!(g.parse("EpilepsyWarning: yes"), Err(Error::ParseIntError));
}

#[test]
fn general_overlay_position_no_change() {
    let mut g = General::default();
    g.parse("OverlayPosition: Above").unwrap();
    assert_eq!(g.overlay_position, Some(OverlayPosition::Above));
    g.parse("OverlayPosition: NoChange").unwrap();
    assert_eq!(g.overlay_position, None);
}

#[test]
fn general_unrecognized_key_is_a_no_op() {
    let mut g = General::default();
    let before = g.clone();
    g.parse("SomethingElse: 42").unwrap();
    g.parse("no colon at all").unwrap();
    assert_eq!(g, before);
}

#[test]
fn general_bad_value_for_recognized_key_fails() {
    let mut g = General::default();
    assert_eq!(g.parse("AudioLeadIn: abc"), Err(Error::ParseIntError));
    assert_eq!(g.parse("Mode: 9"), Err(Error::InvalidInput("invalid mode value")));
    assert_eq!(g.parse("Countdown: 9"), Err(Error::InvalidInput("invalid countdown value")));
    assert_eq!(g.parse("SampleSet: Loud"), Err(Error::InvalidInput("invalid sample set value")));
    assert_eq!(g.parse("StackLeniency: x"), Err(Error::ParseFloatError));
    assert_eq!(
        g.parse("OverlayPosition: Sideways"),
        Err(Error::InvalidInput("invalid overlay position value"))
    );
    assert_eq!(g, General::default());
}

#[test]
fn editor_applies_recognized_keys() {
    let mut e = Editor::default();
    e.parse("Bookmarks: 100,200,300").unwrap();
    e.parse("DistanceSpacing: 1.2").unwrap();
    e.parse("BeatDivisor: 4").unwrap();
    e.parse("GridSize: 8").unwrap();
    e.parse("TimelineZoom: 2.5").unwrap();
    assert_eq!(e.bookmarks, vec![100, 200, 300]);
    assert_eq!(e.distance_spacing, dec(12, 1));
    assert_eq!(e.beat_divisor, 4);
    assert_eq!(e.grid_size, 8);
    assert_eq!(e.timeline_zoom, dec(25, 1));
}

#[test]
fn editor_bad_bookmark_fails_the_whole_list() {
    let mut e = Editor::default();
    assert_eq!(e.parse("Bookmarks: 100,abc,300"), Err(Error::ParseIntError));
    assert!(e.bookmarks.is_empty());
}

#[test]
fn metadata_applies_recognized_keys() {
    let mut m = Metadata::default();
    m.parse("Title: A Song").unwrap();
    m.parse("TitleUnicode: A Song U").unwrap();
    m.parse("Artist: Somebody").unwrap();
    m.parse("Creator: Mapper").unwrap();
    m.parse("Version: Hard").unwrap();
    m.parse("Source: A Film").unwrap();
    m.parse("Tags: alpha beta gamma").unwrap();
    m.parse("BeatmapID: 12345").unwrap();
    m.parse("BeatmapSetID: -1").unwrap();
    assert_eq!(m.title, "A Song");
    assert_eq!(m.title_unicode, "A Song U");
    assert_eq!(m.artist, "Somebody");
    assert_eq!(m.creator, "Mapper");
    assert_eq!(m.version, "Hard");
    assert_eq!(m.source, "A Film");
    assert_eq!(m.tags, vec!["alpha".to_string(), "beta".to_string(), "gamma".to_string()]);
    assert_eq!(m.beatmap_id, Some(12345));
    assert_eq!(m.beatmap_set_id, Some(-1));
}

#[test]
fn metadata_bad_id_fails() {
    let mut m = Metadata::default();
    assert_eq!(m.parse("BeatmapID: abc"), Err(Error::ParseIntError));
    assert_eq!(m.beatmap_id, None);
}

#[test]
fn difficulty_applies_recognized_keys() {
    let mut d = Difficulty::default();
    d.parse("HPDrainRate: 6.5").unwrap();
    d.parse("CircleSize: 4").unwrap();
    d.parse("OverallDifficulty: 8.2").unwrap();
    d.parse("ApproachRate: 9").unwrap();
    d.parse("SliderMultiplier: 1.8").unwrap();
    d.parse("SliderTickRate: 2").unwrap();
    assert_eq!(d.hp, dec(65, 1));
    assert_eq!(d.cs, dec(4, 0));
    assert_eq!(d.od, dec(82, 1));
    assert_eq!(d.ar, dec(9, 0));
    assert_eq!(d.slider_multiplier, dec(18, 1));
    assert_eq!(d.slider_tick_rate, dec(2, 0));
}

#[test]
fn difficulty_defaults() {
    let d = Difficulty::default();
    assert_eq!(d.hp, dec(5, 0));
    assert_eq!(d.cs, dec(5, 0));
    assert_eq!(d.od, dec(5, 0));
    assert_eq!(d.ar, dec(5, 0));
    assert_eq!(d.slider_multiplier, dec(14, 1));
    assert_eq!(d.slider_tick_rate, dec(1, 0));
}

#[test]
fn colour_token_parses_three_channels() {
    assert_eq!(Colour::from_str("255, 128, 0"), Ok(Colour(255, 128, 0)));
    assert_eq!(Colour::from_str("1,2,3,4").unwrap_err(),
        Error::InvalidData("expected three comma-separated numbers while parsing colour"));
    assert_eq!(Colour::from_str("1,abc,3"), Err(Error::ParseIntError));
    assert_eq!(Colour::from_str("1,300,3"), Err(Error::ParseIntError));
}

#[test]
fn colour_new_builds_channels() {
    assert_eq!(Colour::new(10, 20, 30), Colour(10, 20, 30));
}

#[test]
fn colours_enumeration_truncates_at_first_gap() {
    let mut c = Colours::default();
    c.parse("Combo1 : 255,0,0").unwrap();
    c.parse("Combo3 : 0,0,255").unwrap();
    let active = c.combo_colours();
    assert_eq!(active, vec![(0usize, Colour(255, 0, 0))]);
}

#[test]
fn colours_enumeration_in_slot_order() {
    let mut c = Colours::default();
    c.parse("Combo2 : 0,255,0").unwrap();
    c.parse("Combo1 : 255,0,0").unwrap();
    c.parse("Combo3 : 0,0,255").unwrap();
    let active = c.combo_colours();
    assert_eq!(active, vec![
        (0usize, Colour(255, 0, 0)),
        (1usize, Colour(0, 255, 0)),
        (2usize, Colour(0, 0, 255)),
    ]);
}

#[test]
fn colours_slider_overrides() {
    let mut c = Colours::default();
    c.parse("SliderBorder : 1,2,3").unwrap();
    c.parse("SliderTrackOverride : 4,5,6").unwrap();
    assert_eq!(c.slider_border, Some(Colour(1, 2, 3)));
    assert_eq!(c.slider_track_override, Some(Colour(4, 5, 6)));
}

#[test]
fn mode_and_enum_helpers() {
    assert_eq!(Mode::from_i32(0), Some(Mode::Standard));
    assert_eq!(Mode::from_i32(4), None);
    assert_eq!(Countdown::from_i32(1), Some(Countdown::Normal));
    assert_eq!(Countdown::from_i32(0), None);
    assert_eq!(SampleSet::from_i32(3), Some(SampleSet::Drum));
    assert_eq!(SampleSet::from_i32(0), None);
    assert_eq!(SampleSet::parse("Normal"), Some(SampleSet::Normal));
    assert_eq!(SampleSet::parse("quiet"), None);
    assert_eq!(OverlayPosition::parse("Below"), Some(OverlayPosition::Below));
    assert_eq!(OverlayPosition::parse("below"), None);
}

#[test]
fn general_skin_preference_and_warning_flags() {
    let mut g = General::default();
    g.parse("SkinPreference: SomeSkin").unwrap();
    g.parse("EpilepsyWarning: 1").unwrap();
    g.parse("CountdownOffset: 3").unwrap();
    g.parse("SpecialStyle: 1").unwrap();
    g.parse("UseSkinSprites: 1").unwrap();
    g.parse("SamplesMatchPlaybackRate: 0").unwrap();
    assert_eq!(g.skin_preference, Some("SomeSkin".to_string()));
    assert!(g.epilepsy_warning);
    assert_eq!(g.countdown_offset, 3);
    assert!(g.special_style);
    assert!(g.use_skin_sprites);
    assert!(!g.samples_match_playback_rate);
}

#[test]
fn colours_all_eight_slots() {
    let mut c = Colours::default();
    c.parse("Combo1:1,1,1").unwrap();
    c.parse("Combo2:2,2,2").unwrap();
    c.parse("Combo3:3,3,3").unwrap();
    c.parse("Combo4:4,4,4").unwrap();
    c.parse("Combo5:5,5,5").unwrap();
    c.parse("Combo6:6,6,6").unwrap();
    c.parse("Combo7:7,7,7").unwrap();
    c.parse("Combo8:8,8,8").unwrap();
    let active = c.combo_colours();
    assert_eq!(active.len(), 8);
    assert_eq!(active[7], (7usize, Colour(8, 8, 8)));
}

#[test]
fn record_keys_and_values_are_trimmed_like_the_standard_library() {
    let mut m = Metadata::default();
    m.parse("\u{a0}Title\u{3000}:\t An Old Song \u{2028}").unwrap();
    assert_eq!(m.title, "An Old Song");
}
