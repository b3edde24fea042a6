use osu_beatmap::Error;
use osu_beatmap::numbers::Decimal;
use osu_beatmap::numbers::parse_decimal;
use osu_beatmap::numbers::parse_i32;
use osu_beatmap::numbers::parse_u64;

fn dec(mantissa: i64, scale: u32) -> Decimal {
    Decimal { mantissa, scale }
}

#[test]
fn decimal_tokens_parse_exactly() {
    assert_eq!(parse_decimal("333.33"), Ok(dec(33333, 2)));
    assert_eq!(parse_decimal("-50"), Ok(dec(-50, 0)));
    assert_eq!(parse_decimal("0.7"), Ok(dec(7, 1)));
    assert_eq!(parse_decimal("+1.4"), Ok(dec(14, 1)));
    assert_eq!(parse_decimal(".5"), Ok(dec(5, 1)));
    assert_eq!(parse_decimal("1."), Ok(dec(1, 0)));
    assert_eq!(parse_decimal("0"), Ok(dec(0, 0)));
    assert_eq!(parse_decimal("-0.0"), Ok(dec(0, 0)));
}

#[test]
fn decimal_values_are_normalized() {
    assert_eq!(parse_decimal("2.50"), Ok(dec(25, 1)));
    assert_eq!(parse_decimal("2.0"), Ok(dec(2, 0)));
    assert_eq!(parse_decimal("10"), Ok(dec(10, 0)));
}

#[test]
fn decimal_exponent_forms_are_folded_exactly() {
    assert_eq!(parse_decimal("1e3"), Ok(dec(1000, 0)));
    assert_eq!(parse_decimal("1.5E2"), Ok(dec(150, 0)));
    assert_eq!(parse_decimal("2.5e1"), Ok(dec(25, 0)));
    assert_eq!(parse_decimal("1e-3"), Ok(dec(1, 3)));
    assert_eq!(parse_decimal("-1.5e-1"), Ok(dec(-15, 2)));
    assert_eq!(parse_decimal(".5e1"), Ok(dec(5, 0)));
    assert_eq!(parse_decimal("1.e3"), Ok(dec(1000, 0)));
    assert_eq!(parse_decimal("1e+2"), Ok(dec(100, 0)));
    assert_eq!(parse_decimal("0e999999999999"), Ok(dec(0, 0)));
    assert_eq!(parse_decimal("1e19"), Err(Error::ParseFloatError));
    assert_eq!(parse_decimal("1e"), Err(Error::ParseFloatError));
    assert_eq!(parse_decimal("e3"), Err(Error::ParseFloatError));
    assert_eq!(parse_decimal("1e3.5"), Err(Error::ParseFloatError));
}

#[test]
fn decimal_rejects_malformed_tokens() {
    assert_eq!(parse_decimal(""), Err(Error::ParseFloatError));
    assert_eq!(parse_decimal("-"), Err(Error::ParseFloatError));
    assert_eq!(parse_decimal("."), Err(Error::ParseFloatError));
    assert_eq!(parse_decimal("1.2.3"), Err(Error::ParseFloatError));
    assert_eq!(parse_decimal("1a"), Err(Error::ParseFloatError));
    assert_eq!(parse_decimal(" 1"), Err(Error::ParseFloatError));
}

#[test]
fn integers_parse_like_core() {
    assert_eq!(parse_u64("18446744073709551615"), Ok(u64::MAX));
    assert_eq!(parse_u64("18446744073709551616"), Err(Error::ParseIntError));
    assert_eq!(parse_u64("+7"), Ok(7));
    assert_eq!(parse_u64("-1"), Err(Error::ParseIntError));
    assert_eq!(parse_u64(""), Err(Error::ParseIntError));
    assert_eq!(parse_i32("-2147483648"), Ok(i32::MIN));
    assert_eq!(parse_i32("2147483647"), Ok(i32::MAX));
    assert_eq!(parse_i32("2147483648"), Err(Error::ParseIntError));
    assert_eq!(parse_i32("-2147483649"), Err(Error::ParseIntError));
}

#[test]
fn division_by_minus_twenty_five_is_exact() {
    assert_eq!(parse_decimal("-50").unwrap().div_neg25(), dec(2, 0));
    assert_eq!(parse_decimal("-60").unwrap().div_neg25(), dec(24, 1));
    assert_eq!(parse_decimal("-12.5").unwrap().div_neg25(), dec(5, 1));
    assert_eq!(parse_decimal("-333.33").unwrap().div_neg25(), dec(133332, 4));
    assert_eq!(parse_decimal("100").unwrap().div_neg25(), dec(-4, 0));
    assert_eq!(parse_decimal("0").unwrap().div_neg25(), dec(0, 0));
}
