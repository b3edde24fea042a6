use osu_beatmap::Error;
use osu_beatmap::numbers::Decimal;
use osu_beatmap::sample_set::SampleSet;
use osu_beatmap::timing_point::TimingPoint;

fn dec(mantissa: i64, scale: u32) -> Decimal {
    Decimal { mantissa, scale }
}

#[test]
fn uninherited_line() {
    let tp = TimingPoint::from_str("10000,333.33,4,2,0,60,1,1").unwrap();
    match tp {
        TimingPoint::Uninherited(u) => {
            assert_eq!(u.time, 10000);
            assert_eq!(u.beat_length, dec(33333, 2));
            assert_eq!(u.meter, 4);
            assert_eq!(u.sample_set, Some(SampleSet::Soft));
            assert_eq!(u.sample_index, None);
            assert_eq!(u.volume, 60);
            assert_eq!(u.effects.bits(), 1);
            assert!(u.effects.kiai());
        },
        TimingPoint::Inherited(_) => panic!("expected an uninherited timing point"),
    }
}

#[test]
fn inherited_line_derives_slider_velocity() {
    let tp = TimingPoint::from_str("10000,-50,4,2,0,60,0,0").unwrap();
    match tp {
        TimingPoint::Inherited(i) => {
            assert_eq!(i.time, 10000);
            assert_eq!(i.slider_velocity, dec(2, 0));
        },
        TimingPoint::Uninherited(_) => panic!("expected an inherited timing point"),
    }
}

#[test]
fn slider_velocity_fractional() {
    let tp = TimingPoint::from_str("0,-12.5,4,0,0,50,0,0").unwrap();
    assert_eq!(tp.slider_velocity(), dec(5, 1));
}

#[test]
fn slider_velocity_negative_for_positive_beat_length() {
    let tp = TimingPoint::from_str("0,100,4,0,0,50,0,0").unwrap();
    assert_eq!(tp.slider_velocity(), dec(-4, 0));
}

#[test]
fn uninherited_slider_velocity_is_one() {
    let tp = TimingPoint::from_str("0,333.33,4,0,0,50,1,0").unwrap();
    assert_eq!(tp.slider_velocity(), dec(1, 0));
    assert!(tp.uninherited());
    assert!(!tp.inherited());
}

#[test]
fn selector_other_than_one_is_inherited() {
    let tp = TimingPoint::from_str("0,-50,4,0,0,50,2,0").unwrap();
    assert!(tp.inherited());
}

#[test]
fn getters_on_shared_fields() {
    let tp = TimingPoint::from_str("123,-50,4,3,7,80,0,8").unwrap();
    assert_eq!(tp.time(), 123);
    assert_eq!(tp.sample_set(), Some(SampleSet::Drum));
    assert_eq!(tp.sample_index(), Some(7));
    assert_eq!(tp.volume(), 80);
    assert_eq!(tp.effects().bits(), 8);
    assert!(!tp.effects().kiai());
}

#[test]
fn zero_sample_overrides_mean_absent() {
    let tp = TimingPoint::from_str("0,333.33,4,0,0,100,1,0").unwrap();
    assert_eq!(tp.sample_set(), None);
    assert_eq!(tp.sample_index(), None);
}

#[test]
fn effects_byte_keeps_only_defined_bits() {
    let tp = TimingPoint::from_str("0,333.33,4,0,0,100,1,255").unwrap();
    assert_eq!(tp.effects().bits(), 9);
}

#[test]
fn bad_time_is_int_error() {
    assert_eq!(TimingPoint::from_str("abc,333.33,4,0,0,100,1,0"), Err(Error::ParseIntError));
}

#[test]
fn bad_beat_length_is_float_error() {
    assert_eq!(TimingPoint::from_str("0,abc,4,0,0,100,1,0"), Err(Error::ParseFloatError));
}

#[test]
fn invalid_sample_set_value() {
    assert_eq!(
        TimingPoint::from_str("0,333.33,4,5,0,100,1,0"),
        Err(Error::InvalidInput("invalid sample set value"))
    );
}

#[test]
fn missing_tokens_are_structural_errors() {
    assert_eq!(
        TimingPoint::from_str("0,333.33"),
        Err(Error::InvalidData("expected meter while parsing timing point"))
    );
    assert_eq!(
        TimingPoint::from_str("0,333.33,4,0,0,100,1"),
        Err(Error::InvalidData("expected effects while parsing timing point"))
    );
}

#[test]
fn surplus_tokens_are_ignored() {
    let tp = TimingPoint::from_str("0,333.33,4,0,0,100,1,0,99,98").unwrap();
    assert!(tp.uninherited());
}
