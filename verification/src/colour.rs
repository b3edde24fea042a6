//! Combo and slider colours.

use vstd::prelude::*;

use crate::Error;
use crate::numbers::spec_parse_uint;
use crate::numbers::parse_u8;
use crate::strutil::spec_split;
use crate::strutil::spec_split_once;
use crate::strutil::spec_trim;
use crate::strutil::split_char;
use crate::strutil::split_once_char;
use crate::strutil::str_eq;
use crate::strutil::trim;

verus! {

/// An RGB colour, one byte per channel.
#[derive(Debug, Clone, Copy, PartialEq, Eq, Structural, Hash)]
pub struct Colour(pub u8, pub u8, pub u8);

impl Colour {
    /// Builds a colour from its three channels.
    pub fn new(r: u8, g: u8, b: u8) -> (c: Self)
        ensures
            c == Colour(r, g, b),
    {
        Colour(r, g, b)
    }
}

/// The colour a token denotes: exactly three comma-separated byte values,
/// each trimmed. A value that is not a byte is a value-conversion failure;
/// a wrong count of well-formed values is a structural failure.
pub open spec fn spec_colour_from_chars(s: Seq<char>) -> Result<Colour, Error> {
    let parts = crate::strutil::trimmed_parts(s, ',');
    if exists|i: int| 0 <= i < parts.len() && spec_parse_uint(#[trigger] parts[i], 255) is None {
        Err(Error::ParseIntError)
    } else if parts.len() != 3 {
        Err(Error::InvalidData("expected three comma-separated numbers while parsing colour"))
    } else {
        Ok(
            Colour(
                spec_parse_uint(parts[0], 255).unwrap() as u8,
                spec_parse_uint(parts[1], 255).unwrap() as u8,
                spec_parse_uint(parts[2], 255).unwrap() as u8,
            ),
        )
    }
}

impl Colour {
    /// Parses a colour token.
    pub fn from_str(s: &str) -> (r: Result<Colour, Error>)
        ensures
            r == spec_colour_from_chars(s@),
    {
        let ghost parts = crate::strutil::trimmed_parts(s@, ',');
        let raw = split_char(s, ',');
        let mut rgb: Vec<u8> = Vec::new();
        let n = raw.len();
        let mut i: usize = 0;
        while i < n
            invariant
                0 <= i <= n,
                n == raw@.len(),
                parts == crate::strutil::trimmed_parts(s@, ','),
                crate::strutil::views_of(raw@) == spec_split(s@, ','),
                parts.len() == n,
                rgb@.len() == i,
                forall|j: int|
                    0 <= j < i ==> spec_parse_uint(#[trigger] parts[j], 255) == Some(
                        rgb@[j] as nat,
                    ),
            decreases n - i,
        {
            let t = trim(raw[i]);
            proof {
                assert(parts[i as int] == spec_trim(spec_split(s@, ',')[i as int]));
                assert(crate::strutil::views_of(raw@)[i as int] == raw@[i as int]@);
                assert(t@ == parts[i as int]);
            }
            match parse_u8(t) {
                Ok(v) => {
                    rgb.push(v);
                },
                Err(_) => {
                    proof {
                        assert(spec_parse_uint(parts[i as int], 255) is None);
                    }
                    return Err(Error::ParseIntError);
                },
            }
            i += 1;
        }
        if rgb.len() != 3 {
            return Err(
                Error::InvalidData("expected three comma-separated numbers while parsing colour"),
            );
        }
        Ok(Colour(rgb[0], rgb[1], rgb[2]))
    }
}

/// Spec-level image of [`Colours`]: the eight combo slots and the two
/// overrides.
pub struct ColoursV {
    pub combo_colours: Seq<Option<Colour>>,
    pub slider_track_override: Option<Colour>,
    pub slider_border: Option<Colour>,
}

/// Position of the first unset combo slot, or the slot count when all are
/// set; combo colours past this position are unreachable.
pub open spec fn first_unset(combo: Seq<Option<Colour>>) -> int
    decreases combo.len(),
{
    if combo.len() == 0 {
        0
    } else if combo[0] is None {
        0
    } else {
        1 + first_unset(combo.skip(1))
    }
}

/// Bounds and characterization of [`first_unset`].
pub proof fn lemma_first_unset(combo: Seq<Option<Colour>>)
    ensures
        0 <= first_unset(combo) <= combo.len(),
        forall|i: int| 0 <= i < first_unset(combo) ==> combo[i] is Some,
        first_unset(combo) < combo.len() ==> combo[first_unset(combo)] is None,
    decreases combo.len(),
{
    if combo.len() > 0 && combo[0] is Some {
        lemma_first_unset(combo.skip(1));
        assert forall|i: int| 0 <= i < first_unset(combo) implies combo[i] is Some by {
            if i > 0 {
                assert(combo[i] == combo.skip(1)[i - 1]);
            }
        }
    }
}

/// The colour configuration of a beatmap: eight ordered combo-colour slots
/// and two optional slider override colours.
#[derive(Debug, Clone, PartialEq)]
pub struct Colours {
    /// The eight combo-colour slots, in slot order.
    pub combo_colours: [Option<Colour>; 8],
    /// Colour overriding the slider track, when present.
    pub slider_track_override: Option<Colour>,
    /// Colour overriding the slider border, when present.
    pub slider_border: Option<Colour>,
}

impl View for Colours {
    type V = ColoursV;

    open spec fn view(&self) -> ColoursV {
        ColoursV {
            combo_colours: self.combo_colours@,
            slider_track_override: self.slider_track_override,
            slider_border: self.slider_border,
        }
    }
}

/// The colours configuration with every slot and override unset.
pub open spec fn spec_colours_default() -> ColoursV {
    ColoursV {
        combo_colours: seq![
            None::<Colour>,
            None::<Colour>,
            None::<Colour>,
            None::<Colour>,
            None::<Colour>,
            None::<Colour>,
            None::<Colour>,
            None::<Colour>,
        ],
        slider_track_override: None,
        slider_border: None,
    }
}

/// One `Colours` line applied to the configuration: `ComboN` keys fill
/// their slot, the two slider keys fill their override, any other key is a
/// no-op, and a line without `:` is a no-op. A recognized key with a
/// malformed colour value fails.
pub open spec fn spec_apply_colours(c: ColoursV, line: Seq<char>) -> Result<ColoursV, Error> {
    match spec_split_once(line, ':') {
        None => Ok(c),
        Some((k, v)) => {
            let key = spec_trim(k);
            let value = spec_trim(v);
            if key == "Combo1"@ {
                spec_set_combo(c, 0, value)
            } else if key == "Combo2"@ {
                spec_set_combo(c, 1, value)
            } else if key == "Combo3"@ {
                spec_set_combo(c, 2, value)
            } else if key == "Combo4"@ {
                spec_set_combo(c, 3, value)
            } else if key == "Combo5"@ {
                spec_set_combo(c, 4, value)
            } else if key == "Combo6"@ {
                spec_set_combo(c, 5, value)
            } else if key == "Combo7"@ {
                spec_set_combo(c, 6, value)
            } else if key == "Combo8"@ {
                spec_set_combo(c, 7, value)
            } else if key == "SliderBorder"@ {
                match spec_colour_from_chars(value) {
                    Ok(col) => Ok(ColoursV { slider_border: Some(col), ..c }),
                    Err(e) => Err(e),
                }
            } else if key == "SliderTrackOverride"@ {
                match spec_colour_from_chars(value) {
                    Ok(col) => Ok(ColoursV { slider_track_override: Some(col), ..c }),
                    Err(e) => Err(e),
                }
            } else {
                Ok(c)
            }
        },
    }
}

/// Slot `i` of the configuration filled with the colour a token denotes.
pub open spec fn spec_set_combo(c: ColoursV, i: int, value: Seq<char>) -> Result<ColoursV, Error> {
    match spec_colour_from_chars(value) {
        Ok(col) => Ok(ColoursV { combo_colours: c.combo_colours.update(i, Some(col)), ..c }),
        Err(e) => Err(e),
    }
}

impl Colours {
    /// The active combo colours: the slots before the first unset one, in
    /// slot order, each with its slot position. Slots after a gap are
    /// unreachable even if set.
    pub fn combo_colours(&self) -> (r: Vec<(usize, Colour)>)
        ensures
            r@.len() == first_unset(self@.combo_colours),
            forall|i: int|
                0 <= i < r@.len() ==> #[trigger] r@[i] == (
                    i as usize,
                    self@.combo_colours[i]->Some_0,
                ),
    {
        proof {
            lemma_first_unset(self@.combo_colours);
        }
        let mut r: Vec<(usize, Colour)> = Vec::new();
        let mut i: usize = 0;
        while i < 8 && self.combo_colours[i].is_some()
            invariant
                0 <= i <= 8,
                self@.combo_colours.len() == 8,
                0 <= first_unset(self@.combo_colours) <= 8,
                i < 8 ==> i as int <= first_unset(self@.combo_colours),
                i == 8 ==> first_unset(self@.combo_colours) == 8,
                forall|j: int| 0 <= j < i ==> self@.combo_colours[j] is Some,
                r@.len() == i,
                forall|j: int|
                    0 <= j < i ==> #[trigger] r@[j] == (
                        j as usize,
                        self@.combo_colours[j]->Some_0,
                    ),
            decreases 8 - i,
        {
            let c = self.combo_colours[i].unwrap();
            r.push((i, c));
            i += 1;
            proof {
                lemma_first_unset_step(self@.combo_colours, i as int);
            }
        }
        proof {
            if i < 8 {
                lemma_first_unset_step_none(self@.combo_colours, i as int);
            }
        }
        r
    }

    /// Applies one `Colours` record line to the configuration.
    pub fn parse(&mut self, s: &str) -> (r: Result<(), Error>)
        ensures
            match spec_apply_colours(old(self)@, s@) {
                Ok(c) => r is Ok && final(self)@ == c,
                Err(e) => r == Err::<(), Error>(e) && final(self)@ == old(self)@,
            },
    {
        match split_once_char(s, ':') {
            None => Ok(()),
            Some((k, v)) => {
                let key = trim(k);
                let value = trim(v);
                if str_eq(key, "Combo1") {
                    self.set_combo(0, value)
                } else if str_eq(key, "Combo2") {
                    self.set_combo(1, value)
                } else if str_eq(key, "Combo3") {
                    self.set_combo(2, value)
                } else if str_eq(key, "Combo4") {
                    self.set_combo(3, value)
                } else if str_eq(key, "Combo5") {
                    self.set_combo(4, value)
                } else if str_eq(key, "Combo6") {
                    self.set_combo(5, value)
                } else if str_eq(key, "Combo7") {
                    self.set_combo(6, value)
                } else if str_eq(key, "Combo8") {
                    self.set_combo(7, value)
                } else if str_eq(key, "SliderBorder") {
                    match Colour::from_str(value) {
                        Ok(col) => {
                            self.slider_border = Some(col);
                            Ok(())
                        },
                        Err(e) => Err(e),
                    }
                } else if str_eq(key, "SliderTrackOverride") {
                    match Colour::from_str(value) {
                        Ok(col) => {
                            self.slider_track_override = Some(col);
                            Ok(())
                        },
                        Err(e) => Err(e),
                    }
                } else {
                    Ok(())
                }
            },
        }
    }

    /// Fills one combo slot from a colour token.
    fn set_combo(&mut self, i: usize, value: &str) -> (r: Result<(), Error>)
        requires
            i < 8,
        ensures
            match spec_set_combo(old(self)@, i as int, value@) {
                Ok(c) => r is Ok && final(self)@ == c,
                Err(e) => r == Err::<(), Error>(e) && final(self)@ == old(self)@,
            },
    {
        match Colour::from_str(value) {
            Ok(col) => {
                self.combo_colours[i] = Some(col);
                proof {
                    assert(self@.combo_colours =~= old(self)@.combo_colours.update(
                        i as int,
                        Some(col),
                    ));
                }
                Ok(())
            },
            Err(e) => Err(e),
        }
    }
}

/// After stepping past a set slot, the first unset slot is still ahead.
proof fn lemma_first_unset_step(combo: Seq<Option<Colour>>, i: int)
    requires
        0 < i <= combo.len(),
        forall|j: int| 0 <= j < i ==> combo[j] is Some,
    ensures
        i <= first_unset(combo),
    decreases i,
{
    lemma_first_unset(combo);
    if i > 1 {
        assert forall|j: int| 0 <= j < i - 1 implies combo.skip(1)[j] is Some by {
            assert(combo.skip(1)[j] == combo[j + 1]);
        }
        lemma_first_unset_step(combo.skip(1), i - 1);
    }
}

/// A scan that stops at an unset slot has found the first one.
proof fn lemma_first_unset_step_none(combo: Seq<Option<Colour>>, i: int)
    requires
        0 <= i < combo.len(),
        forall|j: int| 0 <= j < i ==> combo[j] is Some,
        combo[i] is None,
    ensures
        first_unset(combo) == i,
    decreases i,
{
    if i > 0 {
        assert forall|j: int| 0 <= j < i - 1 implies combo.skip(1)[j] is Some by {
            assert(combo.skip(1)[j] == combo[j + 1]);
        }
        assert(combo.skip(1)[i - 1] is None);
        lemma_first_unset_step_none(combo.skip(1), i - 1);
    }
}

impl Default for Colours {
    /// The colour configuration with nothing set.
    fn default() -> (r: Self)
        ensures
            r@ == spec_colours_default(),
    {
        let r = Colours {
            combo_colours: [None, None, None, None, None, None, None, None],
            slider_track_override: None,
            slider_border: None,
        };
        proof {
            assert(r@.combo_colours =~= spec_colours_default().combo_colours);
        }
        r
    }
}

} // verus!
