use osu_beatmap::Error;
use osu_beatmap::beatmap::Beatmap;
use osu_beatmap::beatmap::MinimalBeatmap;
use osu_beatmap::decoder::BeatmapDecoder;
use osu_beatmap::event::EventKind;
use osu_beatmap::numbers::Decimal;
use osu_beatmap::timing_point::TimingPoint;

fn lines(ls: &[&str]) -> Vec<String> {
    ls.iter().map(|s| s.to_string()).collect()
}

fn sample_file() -> Vec<String> {
    lines(&[
        "osu file format v14",
        "",
        "[General]",
        "AudioFilename: audio.mp3",
        "AudioLeadIn: 0",
        "Mode: 0",
        "// a comment inside a section",
        "",
        "[Metadata]",
        "Title: A Song",
        "Artist: Somebody",
        "[Difficulty]",
        "HPDrainRate:6",
        "CircleSize:4.2",
        "[Events]",
        "//Background and Video events",
        "0,0,\"bg.jpg\",0,0",
        "2,24000,30000",
        "[TimingPoints]",
        "10000,333.33,4,2,0,60,1,1",
        "10000,-50,4,2,0,60,0,0",
        "[Colours]",
        "Combo1 : 255,128,0",
        "[HitObjects]",
        "256,192,1000,1,0,0:0:0:0:",
        "100,100,3000,2,0,B|200:200,2,140.5",
    ])
}

#[test]
fn full_decode_of_a_small_file() {
    let b = BeatmapDecoder::all().decode(&sample_file()).unwrap();
    assert_eq!(b.file_format_version, 14);
    assert_eq!(b.general.audio_filename, "audio.mp3");
    assert_eq!(b.metadata.title, "A Song");
    assert_eq!(b.metadata.artist, "Somebody");
    assert_eq!(b.difficulty.hp, Decimal { mantissa: 6, scale: 0 });
    assert_eq!(b.difficulty.cs, Decimal { mantissa: 42, scale: 1 });
    assert_eq!(b.events.len(), 2);
    assert!(b.events[0].is_background());
    assert!(b.events[1].is_break());
    assert_eq!(b.timing_points.len(), 2);
    assert!(b.timing_points[0].uninherited());
    assert!(b.timing_points[1].inherited());
    assert_eq!(b.colours.combo_colours().len(), 1);
    assert_eq!(b.hit_objects.len(), 2);
    assert!(b.hit_objects[0].kind.is_hit_circle());
    assert!(b.hit_objects[1].kind.is_slider());
}

#[test]
fn selection_never_alters_content() {
    let file = sample_file();
    let full = BeatmapDecoder::all().decode(&file).unwrap();
    let minimal = BeatmapDecoder::minimal().decode(&file).unwrap();
    assert_eq!(minimal.general, full.general);
    assert_eq!(minimal.metadata, full.metadata);
    assert_eq!(minimal.difficulty, full.difficulty);
    assert_eq!(minimal.events, full.events);
    assert_eq!(minimal.timing_points, full.timing_points);
    // Categories outside the subset stay at their defaults.
    assert_eq!(minimal.editor, Default::default());
    assert!(minimal.hit_objects.is_empty());
    let only_objects = BeatmapDecoder::empty().hit_objects().decode(&file).unwrap();
    assert_eq!(only_objects.hit_objects, full.hit_objects);
    assert_eq!(only_objects.metadata, Default::default());
}

#[test]
fn independent_decodes_are_equal() {
    let file = sample_file();
    let b1 = BeatmapDecoder::all().decode(&file).unwrap();
    let b2 = BeatmapDecoder::all().decode(&file).unwrap();
    assert_eq!(b1, b2);
}

#[test]
fn bad_hit_object_aborts_the_whole_decode() {
    let mut file = sample_file();
    file.push("abc,192,1000,1,0".to_string());
    assert_eq!(BeatmapDecoder::all().decode(&file), Err(Error::ParseFloatError));
}

#[test]
fn bad_hit_object_does_not_abort_when_deselected() {
    let mut file = sample_file();
    file.push("abc,192,1000,1,0".to_string());
    let b = BeatmapDecoder::minimal().decode(&file).unwrap();
    assert_eq!(b.metadata.title, "A Song");
}

#[test]
fn bad_events_line_is_dropped() {
    let file = lines(&[
        "[Events]",
        "0,0,bg.png",
        "not an event at all",
        "2,100,200",
    ]);
    let b = BeatmapDecoder::all().decode(&file).unwrap();
    // Three non-comment lines in the section, only two survive.
    assert_eq!(b.events.len(), 2);
    assert!(matches!(b.events[0], EventKind::Background(_)));
    assert!(matches!(b.events[1], EventKind::Break(_)));
}

#[test]
fn bad_timing_point_aborts() {
    let file = lines(&["[TimingPoints]", "0,abc,4,0,0,50,1,0"]);
    assert_eq!(BeatmapDecoder::all().decode(&file), Err(Error::ParseFloatError));
}

#[test]
fn bad_record_value_aborts() {
    let file = lines(&["[General]", "AudioLeadIn: abc"]);
    assert_eq!(BeatmapDecoder::all().decode(&file), Err(Error::ParseIntError));
}

#[test]
fn unknown_section_and_key_are_inert() {
    let file = lines(&[
        "[SomethingNew]",
        "0,abc,4,0,0,50,1,0",
        "[General]",
        "NotAKey: zzz",
    ]);
    let b = BeatmapDecoder::all().decode(&file).unwrap();
    assert_eq!(b.general, Default::default());
}

#[test]
fn version_header_is_one_shot() {
    let file = lines(&["osu file format v14", "osu file format v7"]);
    let b = BeatmapDecoder::all().decode(&file).unwrap();
    assert_eq!(b.file_format_version, 14);
}

#[test]
fn unparsable_version_header_aborts() {
    let file = lines(&["osu file format vX"]);
    assert_eq!(BeatmapDecoder::all().decode(&file), Err(Error::ParseIntError));
}

#[test]
fn comments_and_blank_lines_are_skipped_everywhere() {
    let file = lines(&["[TimingPoints]", "", "// 0,abc,4,0,0,50,1,0"]);
    let b = BeatmapDecoder::all().decode(&file).unwrap();
    assert!(b.timing_points.is_empty());
}

#[test]
fn default_selection_is_all() {
    let file = sample_file();
    let by_default = BeatmapDecoder::default().decode(&file).unwrap();
    let by_all = BeatmapDecoder::all().decode(&file).unwrap();
    assert_eq!(by_default, by_all);
}

#[test]
fn minimal_preset_selects_five_categories() {
    let m = BeatmapDecoder::minimal();
    assert!(m.general && m.metadata && m.difficulty && m.events && m.timing_points);
    assert!(!m.editor && !m.colours && !m.hit_objects);
}

#[test]
fn parse_drives_a_custom_consumer() {
    let file = sample_file();
    let m = BeatmapDecoder::minimal().parse(MinimalBeatmap::default(), &file).unwrap();
    let full = BeatmapDecoder::all().decode(&file).unwrap();
    assert_eq!(m.general, full.general);
    assert_eq!(m.metadata, full.metadata);
    assert_eq!(m.difficulty, full.difficulty);
    assert_eq!(m.events, full.events);
    assert_eq!(m.timing_points, full.timing_points);
}

#[test]
fn parse_into_beatmap_matches_decode() {
    let file = sample_file();
    let via_parse = BeatmapDecoder::all().parse(Beatmap::default(), &file).unwrap();
    let via_decode = BeatmapDecoder::all().decode(&file).unwrap();
    assert_eq!(via_parse, via_decode);
}

#[test]
fn empty_selection_decodes_nothing() {
    let file = sample_file();
    let b = BeatmapDecoder::empty().decode(&file).unwrap();
    assert_eq!(b.file_format_version, 14);
    assert_eq!(b.general, Default::default());
    assert!(b.hit_objects.is_empty());
}

#[test]
fn decode_of_timing_points_keeps_file_order() {
    let file = lines(&[
        "[TimingPoints]",
        "100,333.33,4,0,0,50,1,0",
        "200,-50,4,0,0,50,0,0",
        "300,-100,4,0,0,50,0,0",
    ]);
    let b = BeatmapDecoder::all().decode(&file).unwrap();
    let times: Vec<u64> = b.timing_points.iter().map(TimingPoint::time).collect();
    assert_eq!(times, vec![100, 200, 300]);
}

#[test]
fn empty_input_decodes_to_defaults() {
    let file: Vec<String> = Vec::new();
    let b = BeatmapDecoder::all().decode(&file).unwrap();
    assert_eq!(b, Beatmap::default());
}

#[test]
fn repeated_record_key_keeps_the_last_value() {
    let file = lines(&["[Metadata]", "Title: First", "Title: Second"]);
    let b = BeatmapDecoder::all().decode(&file).unwrap();
    assert_eq!(b.metadata.title, "Second");
}

#[test]
fn section_switch_routes_lines_to_the_new_section() {
    let file = lines(&[
        "[Metadata]",
        "Title: A",
        "[General]",
        "AudioFilename: x.mp3",
        "[Metadata]",
        "Artist: B",
    ]);
    let b = BeatmapDecoder::all().decode(&file).unwrap();
    assert_eq!(b.metadata.title, "A");
    assert_eq!(b.metadata.artist, "B");
    assert_eq!(b.general.audio_filename, "x.mp3");
}

#[test]
fn parse_through_a_mutable_reference_visitor() {
    let file = sample_file();
    let mut m = MinimalBeatmap::default();
    BeatmapDecoder::minimal().parse(&mut m, &file).unwrap();
    assert_eq!(m.metadata.title, "A Song");
    assert_eq!(m.timing_points.len(), 2);
}

#[test]
fn parse_through_a_boxed_visitor() {
    let file = sample_file();
    let b = BeatmapDecoder::all().parse(Box::new(Beatmap::default()), &file).unwrap();
    assert_eq!(b.file_format_version, 14);
}
