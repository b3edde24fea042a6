use osu_beatmap::Error;
use osu_beatmap::hit_object::Curve;
use osu_beatmap::hit_object::HitObject;
use osu_beatmap::hit_object::HitObjectKind;
use osu_beatmap::hit_object::Position;
use osu_beatmap::hit_sample::HitSample;
use osu_beatmap::numbers::Decimal;
use osu_beatmap::sample_set::SampleSet;

fn dec(mantissa: i64, scale: u32) -> Decimal {
    Decimal { mantissa, scale }
}

fn pos(x: i64, y: i64) -> Position {
    Position { x: dec(x, 0), y: dec(y, 0) }
}

#[test]
fn hit_circle_line() {
    let h = HitObject::from_str("256,192,1000,1,0,0:0:0:0:").unwrap();
    assert_eq!(h.position, pos(256, 192));
    assert_eq!(h.time, 1000);
    assert!(!h.new_combo);
    assert_eq!(h.colour_hax, 0);
    assert_eq!(h.hit_sound.bits(), 0);
    assert!(h.kind.is_hit_circle());
    assert_eq!(h.hit_sample.normal_set, None);
    assert_eq!(h.hit_sample.addition_set, None);
    assert_eq!(h.hit_sample.index, None);
    assert_eq!(h.hit_sample.volume, None);
}

#[test]
fn bezier_curve_token() {
    let c = Curve::from_str("B|100:100|200:200").unwrap();
    assert_eq!(c, Curve::Bezier(vec![pos(100, 100), pos(200, 200)]));
}

#[test]
fn curve_kinds_by_letter() {
    assert!(matches!(Curve::from_str("C|1:2").unwrap(), Curve::CatmullRom(_)));
    assert!(matches!(Curve::from_str("L|1:2").unwrap(), Curve::Linear(_)));
    assert!(matches!(Curve::from_str("P|1:2").unwrap(), Curve::Perfect(_)));
}

#[test]
fn curve_with_no_points() {
    let c = Curve::from_str("B|").unwrap();
    assert_eq!(c, Curve::Bezier(vec![]));
}

#[test]
fn curve_errors() {
    assert_eq!(Curve::from_str("B"), Err(Error::InvalidData("invalid curve format")));
    assert_eq!(Curve::from_str("X|1:2"), Err(Error::InvalidData("invalid curve type")));
    assert_eq!(Curve::from_str("B|12"), Err(Error::InvalidData("invalid point format")));
    assert_eq!(Curve::from_str("B|a:2"), Err(Error::ParseFloatError));
}

#[test]
fn slider_line_with_edge_lists() {
    let h = HitObject::from_str("100,100,3000,2,0,B|200:200,2,140.5,2|0,1:2|2:3").unwrap();
    match h.kind {
        HitObjectKind::Slider(s) => {
            assert_eq!(s.curve, Curve::Bezier(vec![pos(200, 200)]));
            assert_eq!(s.slides, 2);
            assert_eq!(s.length, dec(1405, 1));
            assert_eq!(s.edge_sounds.len(), 2);
            assert_eq!(s.edge_sounds[0].bits(), 2);
            assert_eq!(s.edge_sounds[1].bits(), 0);
            assert_eq!(s.edge_sets, vec![
                (SampleSet::Normal, SampleSet::Soft),
                (SampleSet::Soft, SampleSet::Drum),
            ]);
        },
        _ => panic!("expected a slider"),
    }
}

#[test]
fn slider_without_edge_lists_gets_empty_ones() {
    let h = HitObject::from_str("100,100,3000,2,0,L|300:100,1,200").unwrap();
    match h.kind {
        HitObjectKind::Slider(s) => {
            assert!(s.edge_sounds.is_empty());
            assert!(s.edge_sets.is_empty());
        },
        _ => panic!("expected a slider"),
    }
}

#[test]
fn spinner_line() {
    let h = HitObject::from_str("256,192,5000,8,0,6000").unwrap();
    match h.kind {
        HitObjectKind::Spinner(sp) => assert_eq!(sp.end_time, 6000),
        _ => panic!("expected a spinner"),
    }
    assert!(h.kind.is_spinner());
}

#[test]
fn new_combo_and_colour_skip_bits() {
    let h = HitObject::from_str("0,0,0,53,0").unwrap();
    assert!(h.new_combo);
    assert_eq!(h.colour_hax, 3);
    assert!(h.kind.is_hit_circle());
}

#[test]
fn type_byte_without_any_kind_is_invalid() {
    assert_eq!(
        HitObject::from_str("0,0,0,128,0,123"),
        Err(Error::InvalidData("invalid hit object type"))
    );
    assert_eq!(
        HitObject::from_str("0,0,0,4,0"),
        Err(Error::InvalidData("invalid hit object type"))
    );
}

#[test]
fn unparsable_x_is_a_value_conversion_error() {
    assert_eq!(HitObject::from_str("abc,192,1000,1,0"), Err(Error::ParseFloatError));
}

#[test]
fn hit_sound_byte_keeps_only_defined_bits() {
    let h = HitObject::from_str("0,0,0,1,255").unwrap();
    assert_eq!(h.hit_sound.bits(), 15);
}

#[test]
fn hit_sample_fields_with_sentinels() {
    let hs = HitSample::from_str("1:2:3:70:hit.wav").unwrap();
    assert_eq!(hs.normal_set, Some(SampleSet::Normal));
    assert_eq!(hs.addition_set, Some(SampleSet::Soft));
    assert_eq!(hs.index, Some(3));
    assert_eq!(hs.volume, Some(70));
    assert_eq!(hs.filename, Some("hit.wav".to_string()));
}

#[test]
fn hit_sample_zero_sentinel_means_absent() {
    let hs = HitSample::from_str("0:0:0:0:0").unwrap();
    assert_eq!(hs.normal_set, None);
    assert_eq!(hs.addition_set, None);
    assert_eq!(hs.index, None);
    assert_eq!(hs.volume, None);
    assert_eq!(hs.filename, None);
}

#[test]
fn hit_sample_too_few_fields() {
    assert_eq!(
        HitSample::from_str("1:2:3"),
        Err(Error::InvalidData("expected volume while parsing hit sample"))
    );
}

#[test]
fn decimal_positions_are_kept_exactly() {
    let h = HitObject::from_str("256.5,192.25,1000,1,0").unwrap();
    assert_eq!(h.position, Position { x: dec(2565, 1), y: dec(19225, 2) });
}
