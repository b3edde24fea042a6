//! Verified numeric token parsers.
//!
//! Integer tokens are parsed exactly as `core`'s integer parsers accept
//! them: an optional sign followed by one or more decimal digits, rejecting
//! values outside the target range. Decimal-fraction tokens (the format's
//! floating-point fields) are held exactly in a [`Decimal`]: a scaled
//! integer `mantissa / 10^scale`, normalized so that equal numbers are
//! structurally equal.

use vstd::prelude::*;
use vstd::arithmetic::div_mod::lemma_fundamental_div_mod;

use crate::Error;
use crate::strutil::find_char;

verus! {

/// Largest mantissa magnitude a decimal token may parse to. Tokens beyond
/// this are rejected as a value-conversion failure; the bound leaves room
/// to multiply by four when deriving a slider velocity.
pub const DEC_MANTISSA_LIMIT: u64 = 2000000000000000000;

/// Largest number of fractional digits a decimal token may carry.
pub const DEC_SCALE_LIMIT: u32 = 1000000;

/// `c` is an ASCII decimal digit.
pub open spec fn is_digit(c: char) -> bool {
    '0' <= c && c <= '9'
}

/// Numeric value of a digit character.
pub open spec fn digit_val(c: char) -> nat {
    (c as int - '0' as int) as nat
}

/// Every character of `s` is a decimal digit.
pub open spec fn all_digits(s: Seq<char>) -> bool {
    forall|j: int| 0 <= j < s.len() ==> is_digit(s[j])
}

/// The number written by a digit sequence, most significant digit first.
pub open spec fn digits_val(s: Seq<char>) -> nat
    decreases s.len(),
{
    if s.len() == 0 {
        0
    } else {
        digits_val(s.take(s.len() - 1)) * 10 + digit_val(s[s.len() - 1])
    }
}

/// The value of a digit string never shrinks as more digits are read.
proof fn lemma_digits_val_mono(s: Seq<char>, i: int, j: int)
    requires
        0 <= i <= j <= s.len(),
    ensures
        digits_val(s.take(i)) <= digits_val(s.take(j)),
    decreases j - i,
{
    if i < j {
        lemma_digits_val_mono(s, i, j - 1);
        assert(s.take(j).take(j - 1) =~= s.take(j - 1));
        assert(digits_val(s.take(j)) == digits_val(s.take(j - 1)) * 10 + digit_val(
            s.take(j)[j - 1],
        ));
    }
}

/// Digits appended on the right never shrink the value.
proof fn lemma_digits_val_concat(a: Seq<char>, b: Seq<char>)
    ensures
        digits_val(a + b) >= digits_val(a),
{
    assert((a + b).take(a.len() as int) =~= a);
    assert((a + b).take((a + b).len() as int) =~= a + b);
    lemma_digits_val_mono(a + b, a.len() as int, (a + b).len() as int);
}

/// The unsigned number a token denotes: an optional `+` sign, then digits,
/// accepted only when the value is at most `limit`.
pub open spec fn spec_parse_uint(s: Seq<char>, limit: nat) -> Option<nat> {
    let digits = if s.len() > 0 && s[0] == '+' {
        s.skip(1)
    } else {
        s
    };
    if digits.len() > 0 && all_digits(digits) && digits_val(digits) <= limit {
        Some(digits_val(digits))
    } else {
        None
    }
}

/// The signed number a token denotes: an optional sign, then digits,
/// accepted only when the value lies in `min ..= max`.
pub open spec fn spec_parse_int(s: Seq<char>, min: int, max: int) -> Option<int> {
    let neg = s.len() > 0 && s[0] == '-';
    let digits = if s.len() > 0 && (s[0] == '-' || s[0] == '+') {
        s.skip(1)
    } else {
        s
    };
    if digits.len() > 0 && all_digits(digits) {
        let v = if neg {
            -(digits_val(digits) as int)
        } else {
            digits_val(digits) as int
        };
        if min <= v <= max {
            Some(v)
        } else {
            None
        }
    } else {
        None
    }
}

/// `acc * 10 + d` exceeds `limit` exactly when `acc` exceeds the cutoff the
/// executable overflow test uses.
proof fn lemma_overflow_cutoff(acc: nat, d: nat, limit: nat)
    requires
        d <= 9,
        9 <= limit,
    ensures
        (acc * 10 + d > limit) <==> (acc > (limit - d) / 10),
{
    let x = (limit - d) as nat;
    lemma_fundamental_div_mod(x as int, 10);
    let q = x / 10;
    let r = x % 10;
    assert(x == 10 * q + r);
    if acc > q {
        assert(acc * 10 >= (q + 1) * 10) by (nonlinear_arith)
            requires acc >= q + 1,
        ;
    } else {
        assert(acc * 10 <= q * 10) by (nonlinear_arith)
            requires acc <= q,
        ;
    }
}

/// Parses the digits of `s` from position `start` on, requiring at least one
/// digit, all characters digits, and a value at most `limit`.
fn parse_digits(s: &str, start: usize, limit: u64) -> (r: Option<u64>)
    requires
        start <= s@.len(),
        limit >= 9,
    ensures
        ({
            let digits = s@.skip(start as int);
            match r {
                Some(v) => digits.len() > 0 && all_digits(digits) && digits_val(digits) == v && v
                    <= limit,
                None => digits.len() == 0 || !all_digits(digits) || digits_val(digits) > limit,
            }
        }),
{
    let ghost digits = s@.skip(start as int);
    let len = s.unicode_len();
    if start == len {
        return None;
    }
    let mut acc: u64 = 0;
    let mut i: usize = start;
    while i < len
        invariant
            start <= i <= len,
            limit >= 9,
            len == s@.len(),
            digits == s@.skip(start as int),
            all_digits(digits.take(i - start)),
            acc == digits_val(digits.take(i - start)),
            acc <= limit,
        decreases len - i,
    {
        let c = s.get_char(i);
        proof {
            assert(digits[i - start] == s@[i as int]);
        }
        if c < '0' || c > '9' {
            proof {
                assert(!is_digit(digits[i - start]));
            }
            return None;
        }
        let d = (c as u32 - 48) as u64;
        proof {
            assert(d == digit_val(digits[i - start]));
            lemma_overflow_cutoff(acc as nat, d as nat, limit as nat);
        }
        if acc > (limit - d) / 10 {
            proof {
                assert(digits.take(i - start + 1).take(i - start) =~= digits.take(i - start));
                assert(digits.take(i - start + 1)[i - start] == digits[i - start]);
                assert(digits_val(digits.take(i - start + 1)) > limit);
                lemma_digits_val_mono(digits, i - start + 1, digits.len() as int);
                assert(digits.take(digits.len() as int) =~= digits);
            }
            return None;
        }
        proof {
            assert(digits.take(i - start + 1).take(i - start) =~= digits.take(i - start));
            assert(digits.take(i - start + 1)[i - start] == digits[i - start]);
        }
        acc = acc * 10 + d;
        i += 1;
    }
    proof {
        assert(digits.take(digits.len() as int) =~= digits);
    }
    Some(acc)
}

/// Whether `s` begins with the given sign character.
fn sign_at(s: &str, c: char) -> (r: bool)
    ensures
        r == (s@.len() > 0 && s@[0] == c),
{
    if s.unicode_len() == 0 {
        false
    } else {
        s.get_char(0) == c
    }
}

/// Parses an unsigned token worth at most `limit`.
fn parse_uint_limited(s: &str, limit: u64) -> (r: Option<u64>)
    requires
        limit >= 9,
    ensures
        ({
            let sp = spec_parse_uint(s@, limit as nat);
            match r {
                Some(v) => sp == Some(v as nat),
                None => sp is None,
            }
        }),
{
    let start: usize = if sign_at(s, '+') {
        1
    } else {
        0
    };
    proof {
        assert(s@.skip(0) =~= s@);
    }
    parse_digits(s, start, limit)
}

/// Parses a `u64` token.
pub fn parse_u64(s: &str) -> (r: Result<u64, Error>)
    ensures
        r == match spec_parse_uint(s@, u64::MAX as nat) {
            Some(v) => Result::<u64, Error>::Ok(v as u64),
            None => Result::<u64, Error>::Err(Error::ParseIntError),
        },
{
    match parse_uint_limited(s, u64::MAX) {
        Some(v) => Ok(v),
        None => Err(Error::ParseIntError),
    }
}

/// Parses a `u32` token.
pub fn parse_u32(s: &str) -> (r: Result<u32, Error>)
    ensures
        r == match spec_parse_uint(s@, u32::MAX as nat) {
            Some(v) => Result::<u32, Error>::Ok(v as u32),
            None => Result::<u32, Error>::Err(Error::ParseIntError),
        },
{
    match parse_uint_limited(s, u32::MAX as u64) {
        Some(v) => Ok(v as u32),
        None => Err(Error::ParseIntError),
    }
}

/// Parses a `u8` token.
pub fn parse_u8(s: &str) -> (r: Result<u8, Error>)
    ensures
        r == match spec_parse_uint(s@, u8::MAX as nat) {
            Some(v) => Result::<u8, Error>::Ok(v as u8),
            None => Result::<u8, Error>::Err(Error::ParseIntError),
        },
{
    match parse_uint_limited(s, u8::MAX as u64) {
        Some(v) => Ok(v as u8),
        None => Err(Error::ParseIntError),
    }
}

/// Parses a signed token with magnitude at most `neg_limit` when negative
/// and `pos_limit` when positive.
fn parse_int_limited(s: &str, neg_limit: u64, pos_limit: u64) -> (r: Option<(bool, u64)>)
    requires
        neg_limit >= 9,
        pos_limit >= 9,
    ensures
        ({
            let sp = spec_parse_int(s@, -(neg_limit as int), pos_limit as int);
            match r {
                Some((neg, mag)) => sp matches Some(v) && v == if neg {
                    -(mag as int)
                } else {
                    mag as int
                },
                None => sp is None,
            }
        }),
{
    let neg = sign_at(s, '-');
    let start: usize = if neg || sign_at(s, '+') {
        1
    } else {
        0
    };
    let limit = if neg {
        neg_limit
    } else {
        pos_limit
    };
    proof {
        assert(s@.skip(0) =~= s@);
    }
    match parse_digits(s, start, limit) {
        Some(v) => Some((neg, v)),
        None => None,
    }
}

/// Parses an `i32` token.
pub fn parse_i32(s: &str) -> (r: Result<i32, Error>)
    ensures
        r == match spec_parse_int(s@, i32::MIN as int, i32::MAX as int) {
            Some(v) => Result::<i32, Error>::Ok(v as i32),
            None => Result::<i32, Error>::Err(Error::ParseIntError),
        },
{
    match parse_int_limited(s, 2147483648, 2147483647) {
        Some((neg, mag)) => if neg {
            Ok((-(mag as i64)) as i32)
        } else {
            Ok(mag as i32)
        },
        None => Err(Error::ParseIntError),
    }
}

/// Parses an `i64` token.
pub fn parse_i64(s: &str) -> (r: Result<i64, Error>)
    ensures
        r == match spec_parse_int(s@, i64::MIN as int, i64::MAX as int) {
            Some(v) => Result::<i64, Error>::Ok(v as i64),
            None => Result::<i64, Error>::Err(Error::ParseIntError),
        },
{
    match parse_int_limited(s, 9223372036854775808, 9223372036854775807) {
        Some((neg, mag)) => if neg {
            if mag == 9223372036854775808 {
                Ok(i64::MIN)
            } else {
                Ok(-(mag as i64))
            }
        } else {
            Ok(mag as i64)
        },
        None => Err(Error::ParseIntError),
    }
}

/// An exact decimal number `mantissa / 10^scale`.
///
/// Values are kept normalized: a nonzero scale implies the mantissa is not
/// divisible by ten, so two equal numbers are structurally equal. This type
/// stands in for the format's floating-point fields, holding exactly the
/// digits the file gives.
#[derive(Debug, Clone, Copy, PartialEq, Eq, Structural)]
pub struct Decimal {
    /// Signed digits of the number.
    pub mantissa: i64,
    /// Number of fractional digits.
    pub scale: u32,
}

/// `(m, s)` with trailing zero digits moved out of the fraction.
pub open spec fn spec_norm(m: nat, s: nat) -> (nat, nat)
    decreases s,
{
    if s > 0 && m % 10 == 0 {
        spec_norm(m / 10, (s - 1) as nat)
    } else {
        (m, s)
    }
}

/// Normalization never grows the mantissa or the scale.
proof fn lemma_norm_bounds(m: nat, s: nat)
    ensures
        spec_norm(m, s).0 <= m,
        spec_norm(m, s).1 <= s,
    decreases s,
{
    if s > 0 && m % 10 == 0 {
        lemma_norm_bounds(m / 10, (s - 1) as nat);
        assert(m / 10 <= m) by (nonlinear_arith);
    }
}

impl Decimal {
    /// The mantissa magnitude and scale stay within the parser's bounds and
    /// the value is normalized.
    pub open spec fn wf(self) -> bool {
        &&& -(DEC_MANTISSA_LIMIT as int) <= self.mantissa as int <= DEC_MANTISSA_LIMIT as int
        &&& self.scale <= DEC_SCALE_LIMIT
        &&& self.scale > 0 ==> self.mantissa as int % 10 != 0
    }
}

/// Strips trailing zero digits from a magnitude/scale pair.
fn normalize_mag(m: u64, s: u32) -> (r: (u64, u32))
    ensures
        (r.0 as nat, r.1 as nat) == spec_norm(m as nat, s as nat),
        r.0 <= m,
        r.1 <= s,
        r.1 > 0 ==> r.0 % 10 != 0,
{
    let mut m = m;
    let mut s = s;
    let ghost m0 = m as nat;
    let ghost s0 = s as nat;
    while s > 0 && m % 10 == 0
        invariant
            spec_norm(m as nat, s as nat) == spec_norm(m0, s0),
            m as nat <= m0,
            s as nat <= s0,
        decreases s,
    {
        proof {
            assert(m as nat / 10 <= m as nat) by (nonlinear_arith);
        }
        m = m / 10;
        s = s - 1;
    }
    (m, s)
}

/// `10^n`.
pub open spec fn pow10(n: nat) -> nat
    decreases n,
{
    if n == 0 {
        1
    } else {
        10 * pow10((n - 1) as nat)
    }
}

/// Powers of ten are at least one.
proof fn lemma_pow10_pos(n: nat)
    ensures
        pow10(n) >= 1,
    decreases n,
{
    if n > 0 {
        lemma_pow10_pos((n - 1) as nat);
    }
}

/// Powers of ten grow with the exponent.
proof fn lemma_pow10_mono(a: nat, b: nat)
    requires
        a <= b,
    ensures
        pow10(a) <= pow10(b),
    decreases b - a,
{
    if a < b {
        lemma_pow10_mono(a, (b - 1) as nat);
        lemma_pow10_pos((b - 1) as nat);
    }
}

/// Position of the first exponent marker (`e` or `E`) in `s`, if any.
pub open spec fn find_exp(s: Seq<char>) -> Option<int>
    decreases s.len(),
{
    if s.len() == 0 {
        None
    } else if s[0] == 'e' || s[0] == 'E' {
        Some(0int)
    } else {
        match find_exp(s.skip(1)) {
            None => None,
            Some(i) => Some(i + 1),
        }
    }
}

/// [`find_exp`] computed from a scan that stopped at position `i`.
proof fn lemma_find_exp_at(s: Seq<char>, i: int)
    requires
        0 <= i <= s.len(),
        forall|j: int| 0 <= j < i ==> s[j] != 'e' && s[j] != 'E',
        i == s.len() || s[i] == 'e' || s[i] == 'E',
    ensures
        i < s.len() ==> find_exp(s) == Some(i),
        i == s.len() ==> find_exp(s) is None,
    decreases i,
{
    if s.len() == 0 {
    } else if i == 0 {
    } else {
        assert(s[0] != 'e' && s[0] != 'E');
        assert forall|j: int| 0 <= j < i - 1 implies s.skip(1)[j] != 'e' && s.skip(1)[j]
            != 'E' by {
            assert(s.skip(1)[j] == s[j + 1]);
        }
        assert(i - 1 == s.skip(1).len() || s.skip(1)[i - 1] == 'e' || s.skip(1)[i - 1] == 'E');
        lemma_find_exp_at(s.skip(1), i - 1);
    }
}

/// The parsed digits rebased by a decimal exponent: the net power of ten,
/// exponent minus fraction length, is folded into the number exactly,
/// growing the mantissa when it is positive and the scale when it is
/// negative; rejected when the mantissa would exceed
/// [`DEC_MANTISSA_LIMIT`] or the scale [`DEC_SCALE_LIMIT`].
pub open spec fn spec_rebase(neg: bool, dv: nat, frac_len: nat, exp: int) -> Result<
    Decimal,
    Error,
> {
    let d = exp - frac_len;
    if d >= 0 {
        let m = dv * pow10(d as nat);
        if m > DEC_MANTISSA_LIMIT as nat {
            Err(Error::ParseFloatError)
        } else {
            let n = spec_norm(m, 0);
            Ok(
                Decimal {
                    mantissa: (if neg {
                        -(n.0 as int)
                    } else {
                        n.0 as int
                    }) as i64,
                    scale: n.1 as u32,
                },
            )
        }
    } else if -d > DEC_SCALE_LIMIT as int {
        Err(Error::ParseFloatError)
    } else {
        let n = spec_norm(dv, (-d) as nat);
        Ok(
            Decimal {
                mantissa: (if neg {
                    -(n.0 as int)
                } else {
                    n.0 as int
                }) as i64,
                scale: n.1 as u32,
            },
        )
    }
}

/// Applies the net decimal exponent to the parsed digits.
fn rebase_decimal(neg: bool, acc: u64, frac_len: usize, exp: i64) -> (r: Result<Decimal, Error>)
    requires
        acc <= DEC_MANTISSA_LIMIT,
    ensures
        r == spec_rebase(neg, acc as nat, frac_len as nat, exp as int),
        r matches Ok(d) ==> d.wf(),
{
    let d: i128 = exp as i128 - frac_len as i128;
    if d >= 0 {
        if acc == 0 {
            proof {
                assert(0nat * pow10(d as nat) == 0) by (nonlinear_arith);
            }
            return Ok(Decimal { mantissa: 0, scale: 0 });
        }
        let mut m: u64 = acc;
        let mut k: i128 = 0;
        proof {
            assert(pow10(0) == 1);
            assert(acc as nat * 1 == acc as nat) by (nonlinear_arith);
        }
        while k < d
            invariant
                0 <= k <= d,
                d == exp as i128 - frac_len as i128,
                1 <= acc <= DEC_MANTISSA_LIMIT,
                1 <= m <= DEC_MANTISSA_LIMIT,
                m as nat == acc as nat * pow10(k as nat),
            decreases d - k,
        {
            proof {
                lemma_overflow_cutoff(m as nat, 0, DEC_MANTISSA_LIMIT as nat);
                assert(pow10((k + 1) as nat) == 10 * pow10(k as nat));
                assert(acc as nat * pow10((k + 1) as nat) == (acc as nat * pow10(k as nat))
                    * 10) by (nonlinear_arith)
                    requires
                        pow10((k + 1) as nat) == 10 * pow10(k as nat),
                ;
            }
            if m > DEC_MANTISSA_LIMIT / 10 {
                proof {
                    lemma_pow10_mono((k + 1) as nat, d as nat);
                    assert(acc as nat * pow10(d as nat) >= acc as nat * pow10(
                        (k + 1) as nat,
                    )) by (nonlinear_arith)
                        requires
                            acc as nat >= 1,
                            pow10(d as nat) >= pow10((k + 1) as nat),
                    ;
                }
                return Err(Error::ParseFloatError);
            }
            m = m * 10;
            k += 1;
        }
        let n = normalize_mag(m, 0);
        Ok(
            Decimal {
                mantissa: if neg {
                    -(n.0 as i64)
                } else {
                    n.0 as i64
                },
                scale: n.1,
            },
        )
    } else {
        let nd: i128 = -d;
        if nd > DEC_SCALE_LIMIT as i128 {
            return Err(Error::ParseFloatError);
        }
        let n = normalize_mag(acc, nd as u32);
        Ok(
            Decimal {
                mantissa: if neg {
                    -(n.0 as i64)
                } else {
                    n.0 as i64
                },
                scale: n.1,
            },
        )
    }
}

/// The decimal number a token denotes: an optional sign, digits with at
/// most one decimal point among them and at least one digit, then an
/// optional exponent part (`e` or `E` followed by an optionally signed
/// integer), folded exactly into the scaled mantissa; rejected when the
/// mantissa would exceed [`DEC_MANTISSA_LIMIT`] or the fraction
/// [`DEC_SCALE_LIMIT`].
pub open spec fn spec_parse_decimal(s: Seq<char>) -> Result<Decimal, Error> {
    let neg = s.len() > 0 && s[0] == '-';
    let body = if s.len() > 0 && (s[0] == '-' || s[0] == '+') {
        s.skip(1)
    } else {
        s
    };
    let mant = match find_exp(body) {
        None => body,
        Some(k) => body.take(k),
    };
    let exp = match find_exp(body) {
        None => Some(0int),
        Some(k) => spec_parse_int(body.skip(k + 1), i64::MIN as int, i64::MAX as int),
    };
    let ip = match find_char(mant, '.') {
        None => mant,
        Some(i) => mant.take(i),
    };
    let fp = match find_char(mant, '.') {
        None => Seq::<char>::empty(),
        Some(i) => mant.skip(i + 1),
    };
    let digits = ip + fp;
    if digits.len() == 0 || !all_digits(ip) || !all_digits(fp) || exp is None {
        Err(Error::ParseFloatError)
    } else if digits_val(digits) > DEC_MANTISSA_LIMIT as nat {
        Err(Error::ParseFloatError)
    } else {
        spec_rebase(neg, digits_val(digits), fp.len(), exp->Some_0)
    }
}

/// Position of the first exponent marker at or after `start`, or the text
/// length when there is none.
fn find_exp_marker(s: &str, start: usize) -> (epos: usize)
    requires
        start <= s@.len(),
    ensures
        start <= epos <= s@.len(),
        find_exp(s@.skip(start as int)) == (if epos < s@.len() {
            Some(epos - start)
        } else {
            None::<int>
        }),
{
    let ghost body = s@.skip(start as int);
    let len = s.unicode_len();
    let mut epos: usize = len;
    let mut i: usize = start;
    while i < len
        invariant
            start <= i <= len,
            len == s@.len(),
            epos == len || (start <= epos < i && (s@[epos as int] == 'e' || s@[epos as int]
                == 'E')),
            forall|j: int|
                start <= j < (if epos == len {
                    i as int
                } else {
                    epos as int
                }) ==> s@[j] != 'e' && s@[j] != 'E',
        decreases len - i,
    {
        if epos == len {
            let c = s.get_char(i);
            if c == 'e' || c == 'E' {
                epos = i;
            }
        }
        i += 1;
    }
    proof {
        assert forall|j: int|
            0 <= j < (if epos < len {
                epos - start
            } else {
                body.len() as int
            }) implies body[j] != 'e' && body[j] != 'E' by {
            assert(body[j] == s@[j + start]);
        }
        if epos < len {
            assert(body[epos - start] == s@[epos as int]);
            lemma_find_exp_at(body, epos - start);
        } else {
            lemma_find_exp_at(body, body.len() as int);
        }
    }
    epos
}

/// Position of the first decimal point in `s[start..end]`, or `end` when
/// there is none.
fn find_dot_in(s: &str, start: usize, end: usize) -> (dot: usize)
    requires
        start <= end <= s@.len(),
    ensures
        start <= dot <= end,
        find_char(s@.subrange(start as int, end as int), '.') == (if dot < end {
            Some(dot - start)
        } else {
            None::<int>
        }),
{
    let ghost mant = s@.subrange(start as int, end as int);
    let mut dot: usize = end;
    let mut p: usize = start;
    while p < end
        invariant
            start <= p <= end <= s@.len(),
            dot == end || (start <= dot < p && s@[dot as int] == '.'),
            forall|j: int|
                start <= j < (if dot == end {
                    p as int
                } else {
                    dot as int
                }) ==> s@[j] != '.',
        decreases end - p,
    {
        if dot == end && s.get_char(p) == '.' {
            dot = p;
        }
        p += 1;
    }
    proof {
        assert forall|j: int|
            0 <= j < (if dot < end {
                dot - start
            } else {
                mant.len() as int
            }) implies mant[j] != '.' by {
            assert(mant[j] == s@[j + start]);
        }
        if dot < end {
            assert(mant[dot - start] == s@[dot as int]);
            crate::strutil::lemma_find_char_at(mant, '.', dot - start);
        } else {
            crate::strutil::lemma_find_char_at(mant, '.', mant.len() as int);
        }
    }
    dot
}

/// Parses a decimal-fraction token.
#[verifier::rlimit(100)]
pub fn parse_decimal(s: &str) -> (r: Result<Decimal, Error>)
    ensures
        r == spec_parse_decimal(s@),
        r matches Ok(d) ==> d.wf(),
{
    let neg = sign_at(s, '-');
    let start: usize = if neg || sign_at(s, '+') {
        1
    } else {
        0
    };
    let len = s.unicode_len();
    let ghost body = s@.skip(start as int);
    proof {
        assert(s@.skip(0) =~= s@);
    }
    // Find the exponent marker and the decimal point, if any.
    let epos = find_exp_marker(s, start);
    let ghost mant = if epos < len {
        body.take(epos - start)
    } else {
        body
    };
    proof {
        assert(s@.subrange(start as int, epos as int) =~= mant);
    }
    let dot = find_dot_in(s, start, epos);
    let ghost ip = if dot < epos {
        mant.take(dot - start)
    } else {
        mant
    };
    let ghost fp = if dot < epos {
        mant.skip(dot - start + 1)
    } else {
        Seq::<char>::empty()
    };
    // Parse the exponent part.
    let exp: i64 = if epos < len {
        let et = s.substring_char(epos + 1, len);
        proof {
            assert(et@ =~= body.skip(epos - start + 1));
        }
        match parse_i64(et) {
            Ok(v) => v,
            Err(_) => {
                return Err(Error::ParseFloatError);
            },
        }
    } else {
        0
    };
    if start == epos || (dot == start && dot + 1 == epos) {
        // No digits in the mantissa: empty, a bare sign, or a lone dot.
        proof {
            assert(ip + fp =~= Seq::<char>::empty());
        }
        return Err(Error::ParseFloatError);
    }
    proof {
        assert(s@.subrange(start as int, dot as int) =~= ip);
    }
    let mag_int = match parse_digits_prefix(s, start, dot) {
        Some(v) => v,
        None => {
            proof {
                lemma_digits_val_concat(ip, fp);
            }
            return Err(Error::ParseFloatError);
        },
    };
    if dot == epos {
        proof {
            assert(ip + fp =~= ip);
        }
        return rebase_decimal(neg, mag_int, 0, exp);
    }
    // Accumulate the fractional digits onto the integer value.
    let frac_start = dot + 1;
    proof {
        assert(s@.subrange(frac_start as int, epos as int) =~= fp);
    }
    let acc = match accumulate_frac(s, frac_start, epos, mag_int, Ghost(ip)) {
        Some(v) => v,
        None => {
            return Err(Error::ParseFloatError);
        },
    };
    rebase_decimal(neg, acc, epos - frac_start, exp)
}

/// Extends the digits accumulated so far by the digit run
/// `s[frac_start..end]`, requiring every character there to be a digit and
/// the combined value to stay within the mantissa bound.
fn accumulate_frac(s: &str, frac_start: usize, end: usize, acc0: u64, Ghost(ip): Ghost<Seq<char>>) -> (r:
    Option<u64>)
    requires
        frac_start <= end <= s@.len(),
        acc0 <= DEC_MANTISSA_LIMIT,
        acc0 == digits_val(ip),
    ensures
        ({
            let fp = s@.subrange(frac_start as int, end as int);
            match r {
                Some(v) => all_digits(fp) && v == digits_val(ip + fp) && v <= DEC_MANTISSA_LIMIT,
                None => !all_digits(fp) || digits_val(ip + fp) > DEC_MANTISSA_LIMIT as nat,
            }
        }),
{
    let ghost fp = s@.subrange(frac_start as int, end as int);
    let mut acc: u64 = acc0;
    let mut k: usize = frac_start;
    proof {
        assert(ip + fp.take(0) =~= ip);
    }
    while k < end
        invariant
            frac_start <= k <= end <= s@.len(),
            fp == s@.subrange(frac_start as int, end as int),
            all_digits(fp.take(k - frac_start)),
            acc == digits_val(ip + fp.take(k - frac_start)),
            acc <= DEC_MANTISSA_LIMIT,
        decreases end - k,
    {
        let c = s.get_char(k);
        proof {
            assert(fp[k - frac_start] == s@[k as int]);
        }
        if c < '0' || c > '9' {
            proof {
                assert(!is_digit(fp[k - frac_start]));
            }
            return None;
        }
        let d = (c as u32 - 48) as u64;
        proof {
            assert(d == digit_val(fp[k - frac_start]));
            lemma_overflow_cutoff(acc as nat, d as nat, DEC_MANTISSA_LIMIT as nat);
        }
        if acc > (DEC_MANTISSA_LIMIT - d) / 10 {
            proof {
                let whole = ip + fp;
                let upto = k - frac_start + 1;
                assert((ip + fp.take(upto)).take(ip.len() + upto - 1) =~= ip + fp.take(upto - 1));
                assert((ip + fp.take(upto))[ip.len() + upto - 1] == fp[upto - 1]);
                assert(digits_val(ip + fp.take(upto)) > DEC_MANTISSA_LIMIT as nat);
                assert(whole.take(ip.len() + upto) =~= ip + fp.take(upto));
                lemma_digits_val_mono(whole, ip.len() + upto, whole.len() as int);
                assert(whole.take(whole.len() as int) =~= whole);
            }
            return None;
        }
        proof {
            let upto = k - frac_start + 1;
            assert((ip + fp.take(upto)).take(ip.len() + upto - 1) =~= ip + fp.take(upto - 1));
            assert((ip + fp.take(upto))[ip.len() + upto - 1] == fp[upto - 1]);
        }
        acc = acc * 10 + d;
        k += 1;
    }
    proof {
        assert(fp.take(fp.len() as int) =~= fp);
    }
    Some(acc)
}

/// Parses the digit run `s[start..end]`, requiring every character there to
/// be a digit; an empty run yields zero.
fn parse_digits_prefix(s: &str, start: usize, end: usize) -> (r: Option<u64>)
    requires
        start <= end <= s@.len(),
    ensures
        ({
            let digits = s@.subrange(start as int, end as int);
            match r {
                Some(v) => all_digits(digits) && digits_val(digits) == v && v
                    <= DEC_MANTISSA_LIMIT,
                None => !all_digits(digits) || digits_val(digits) > DEC_MANTISSA_LIMIT as nat,
            }
        }),
{
    let ghost digits = s@.subrange(start as int, end as int);
    let mut acc: u64 = 0;
    let mut i: usize = start;
    while i < end
        invariant
            start <= i <= end <= s@.len(),
            digits == s@.subrange(start as int, end as int),
            all_digits(digits.take(i - start)),
            acc == digits_val(digits.take(i - start)),
            acc <= DEC_MANTISSA_LIMIT,
        decreases end - i,
    {
        let c = s.get_char(i);
        proof {
            assert(digits[i - start] == s@[i as int]);
        }
        if c < '0' || c > '9' {
            proof {
                assert(!is_digit(digits[i - start]));
            }
            return None;
        }
        let d = (c as u32 - 48) as u64;
        proof {
            assert(d == digit_val(digits[i - start]));
            lemma_overflow_cutoff(acc as nat, d as nat, DEC_MANTISSA_LIMIT as nat);
        }
        if acc > (DEC_MANTISSA_LIMIT - d) / 10 {
            proof {
                assert(digits.take(i - start + 1).take(i - start) =~= digits.take(i - start));
                assert(digits.take(i - start + 1)[i - start] == digits[i - start]);
                lemma_digits_val_mono(digits, i - start + 1, digits.len() as int);
                assert(digits.take(digits.len() as int) =~= digits);
            }
            return None;
        }
        proof {
            assert(digits.take(i - start + 1).take(i - start) =~= digits.take(i - start));
            assert(digits.take(i - start + 1)[i - start] == digits[i - start]);
        }
        acc = acc * 10 + d;
        i += 1;
    }
    proof {
        assert(digits.take(digits.len() as int) =~= digits);
    }
    Some(acc)
}

/// The slider-velocity derivation `d / -25`, exactly: the mantissa is scaled
/// by `-4` and the scale raised by two, then normalized.
pub open spec fn spec_div_neg25(d: Decimal) -> Decimal {
    let mag = if d.mantissa < 0 {
        (-(d.mantissa as int) * 4) as nat
    } else {
        (d.mantissa as int * 4) as nat
    };
    let n = spec_norm(mag, d.scale as nat + 2);
    Decimal {
        mantissa: (if d.mantissa > 0 {
            -(n.0 as int)
        } else {
            n.0 as int
        }) as i64,
        scale: n.1 as u32,
    }
}

impl Decimal {
    /// Divides by `-25` exactly, as the inherited timing-point derivation
    /// requires.
    pub fn div_neg25(self) -> (r: Decimal)
        requires
            self.wf(),
        ensures
            r == spec_div_neg25(self),
    {
        let neg_result = self.mantissa > 0;
        let mag: u64 = if self.mantissa < 0 {
            ((-(self.mantissa as i128)) as u64) * 4
        } else {
            (self.mantissa as u64) * 4
        };
        let n = normalize_mag(mag, self.scale + 2);
        Decimal {
            mantissa: if neg_result {
                -(n.0 as i64)
            } else {
                n.0 as i64
            },
            scale: n.1,
        }
    }
}

} // verus!
