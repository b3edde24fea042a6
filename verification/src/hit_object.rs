//! HitObjects list section.

use vstd::prelude::*;

use crate::Error;
use crate::hit_sample::HitSample;
use crate::hit_sample::HitSampleV;
use crate::hit_sample::spec_hit_sample_default;
use crate::hit_sample::spec_parse_hit_sample;
use crate::hit_sound::HitSound;
use crate::numbers::Decimal;
use crate::numbers::parse_decimal;
use crate::numbers::parse_i32;
use crate::numbers::parse_u32;
use crate::numbers::parse_u64;
use crate::numbers::parse_u8;
use crate::numbers::spec_parse_decimal;
use crate::numbers::spec_parse_int;
use crate::numbers::spec_parse_uint;
use crate::sample_set::SampleSet;
use crate::sample_set::spec_sample_set_from_i32;
use crate::strutil::spec_split;
use crate::strutil::spec_split_once;
use crate::strutil::split_char;
use crate::strutil::split_once_char;
use crate::strutil::split_trimmed;
use crate::strutil::str_eq;
use crate::strutil::trimmed_parts;
use crate::strutil::views_of;

verus! {

/// A position in osu! pixels.
#[derive(Debug, Clone, Copy, PartialEq, Eq, Structural)]
pub struct Position {
    pub x: Decimal,
    pub y: Decimal,
}

/// A spinner: an object held until its end time.
#[derive(Debug, Clone, Copy, PartialEq, Eq, Structural)]
pub struct Spinner {
    /// End time of the spinner, in milliseconds from the beginning of the
    /// beatmap's audio.
    pub end_time: u64,
}

/// Spec-level image of [`Curve`].
pub enum CurveV {
    Bezier(Seq<Position>),
    CatmullRom(Seq<Position>),
    Linear(Seq<Position>),
    Perfect(Seq<Position>),
}

/// The anchor-point curve of a slider, tagged by its one-letter kind.
#[derive(Debug, Clone, PartialEq)]
pub enum Curve {
    /// Bézier curves of arbitrary degree; several can be joined into one
    /// slider by repeating their points of intersection.
    Bezier(Vec<Position>),
    /// Catmull curves, an interpolating alternative to Bézier curves.
    CatmullRom(Vec<Position>),
    /// Straight paths between all points.
    Linear(Vec<Position>),
    /// Perfect circle curves, defined by the boundary of a circle.
    Perfect(Vec<Position>),
}

impl View for Curve {
    type V = CurveV;

    open spec fn view(&self) -> CurveV {
        match self {
            Curve::Bezier(ps) => CurveV::Bezier(ps@),
            Curve::CatmullRom(ps) => CurveV::CatmullRom(ps@),
            Curve::Linear(ps) => CurveV::Linear(ps@),
            Curve::Perfect(ps) => CurveV::Perfect(ps@),
        }
    }
}

/// Spec-level image of [`Slider`].
pub struct SliderV {
    pub curve: CurveV,
    pub slides: u32,
    pub length: Decimal,
    pub edge_sounds: Seq<HitSound>,
    pub edge_sets: Seq<(SampleSet, SampleSet)>,
}

/// A slider: an object followed along a curve, possibly several times.
#[derive(Debug, Clone, PartialEq)]
pub struct Slider {
    /// Anchor points used to construct the slider.
    pub curve: Curve,
    /// Amount of times the player has to follow the slider's curve
    /// back-and-forth before the slider is complete.
    pub slides: u32,
    /// Visual length in osu! pixels of the slider.
    pub length: Decimal,
    /// Hitsounds that play when hitting edges of the slider's curve.
    pub edge_sounds: Vec<HitSound>,
    /// Sample sets used for the edge sounds.
    pub edge_sets: Vec<(SampleSet, SampleSet)>,
}

impl View for Slider {
    type V = SliderV;

    open spec fn view(&self) -> SliderV {
        SliderV {
            curve: self.curve@,
            slides: self.slides,
            length: self.length,
            edge_sounds: self.edge_sounds@,
            edge_sets: self.edge_sets@,
        }
    }
}

/// Spec-level image of [`HitObjectKind`].
pub enum HitObjectKindV {
    HitCircle,
    Slider(SliderV),
    Spinner(Spinner),
}

/// The three kinds of hit object this decoder parses.
#[derive(Debug, Clone, PartialEq)]
pub enum HitObjectKind {
    HitCircle,
    Slider(Slider),
    Spinner(Spinner),
}

impl View for HitObjectKind {
    type V = HitObjectKindV;

    open spec fn view(&self) -> HitObjectKindV {
        match self {
            HitObjectKind::HitCircle => HitObjectKindV::HitCircle,
            HitObjectKind::Slider(s) => HitObjectKindV::Slider(s@),
            HitObjectKind::Spinner(s) => HitObjectKindV::Spinner(*s),
        }
    }
}

impl HitObjectKind {
    /// Whether this object is a slider.
    pub fn is_slider(&self) -> (r: bool)
        ensures
            r == (self@ is Slider),
    {
        match self {
            HitObjectKind::Slider(_) => true,
            _ => false,
        }
    }

    /// Whether this object is a spinner.
    pub fn is_spinner(&self) -> (r: bool)
        ensures
            r == (self@ is Spinner),
    {
        match self {
            HitObjectKind::Spinner(_) => true,
            _ => false,
        }
    }

    /// Whether this object is a hit circle.
    pub fn is_hit_circle(&self) -> (r: bool)
        ensures
            r == (self@ is HitCircle),
    {
        match self {
            HitObjectKind::HitCircle => true,
            _ => false,
        }
    }
}

/// Spec-level image of [`HitObject`].
pub struct HitObjectV {
    pub position: Position,
    pub time: u64,
    pub new_combo: bool,
    pub colour_hax: u8,
    pub hit_sound: HitSound,
    pub kind: HitObjectKindV,
    pub hit_sample: HitSampleV,
}

/// One hit object: its position, time, kind-specific data and sounds.
#[derive(Debug, Clone, PartialEq)]
pub struct HitObject {
    /// Position in osu! pixels of the object.
    pub position: Position,
    /// Time when the object is to be hit, in milliseconds from the
    /// beginning of the beatmap's audio.
    pub time: u64,
    /// Whether the object starts a new combo.
    pub new_combo: bool,
    /// How many combo colours to skip, from the three-bit field of the
    /// type byte.
    pub colour_hax: u8,
    /// Bit flags indicating the hitsound applied to the object.
    pub hit_sound: HitSound,
    /// The kind-specific data of the object.
    pub kind: HitObjectKind,
    /// Information about which samples are played when the object is hit.
    pub hit_sample: HitSample,
}

impl View for HitObject {
    type V = HitObjectV;

    open spec fn view(&self) -> HitObjectV {
        HitObjectV {
            position: self.position,
            time: self.time,
            new_combo: self.new_combo,
            colour_hax: self.colour_hax,
            hit_sound: self.hit_sound,
            kind: self.kind@,
            hit_sample: self.hit_sample@,
        }
    }
}

/// The views of a sequence of hit objects.
pub open spec fn hit_object_views(hs: Seq<HitObject>) -> Seq<HitObjectV> {
    hs.map_values(|h: HitObject| h@)
}

/// The curve point a `x:y` token denotes, both coordinates decimal.
pub open spec fn spec_parse_point(p: Seq<char>) -> Result<Position, Error> {
    match spec_split_once(p, ':') {
        None => Err(Error::InvalidData("invalid point format")),
        Some((xs, ys)) => match spec_parse_decimal(xs) {
            Err(e) => Err(e),
            Ok(x) => match spec_parse_decimal(ys) {
                Err(e) => Err(e),
                Ok(y) => Ok(Position { x, y }),
            },
        },
    }
}

/// The curve points a list of `x:y` tokens denotes, stopping at the first
/// malformed one.
pub open spec fn spec_points_from_parts(parts: Seq<Seq<char>>) -> Result<Seq<Position>, Error>
    decreases parts.len(),
{
    if parts.len() == 0 {
        Ok(Seq::empty())
    } else {
        match spec_parse_point(parts[0]) {
            Err(e) => Err(e),
            Ok(p) => match spec_points_from_parts(parts.skip(1)) {
                Err(e) => Err(e),
                Ok(ps) => Ok(seq![p] + ps),
            },
        }
    }
}

/// The curve a token denotes: a one-letter kind, a `|`, then `x:y` anchor
/// points separated by `|`; an empty point list is accepted. The letter is
/// checked only after the points parse.
pub open spec fn spec_parse_curve(s: Seq<char>) -> Result<CurveV, Error> {
    match spec_split_once(s, '|') {
        None => Err(Error::InvalidData("invalid curve format")),
        Some((ty, rest)) => {
            let points_r = if rest.len() == 0 {
                Ok(Seq::<Position>::empty())
            } else {
                spec_points_from_parts(trimmed_parts(rest, '|'))
            };
            match points_r {
                Err(e) => Err(e),
                Ok(points) => if ty == "B"@ {
                    Ok(CurveV::Bezier(points))
                } else if ty == "C"@ {
                    Ok(CurveV::CatmullRom(points))
                } else if ty == "L"@ {
                    Ok(CurveV::Linear(points))
                } else if ty == "P"@ {
                    Ok(CurveV::Perfect(points))
                } else {
                    Err(Error::InvalidData("invalid curve type"))
                },
            }
        },
    }
}

impl Curve {
    /// Parses a curve token.
    pub fn from_str(s: &str) -> (r: Result<Curve, Error>)
        ensures
            match r {
                Ok(c) => spec_parse_curve(s@) == Ok::<CurveV, Error>(c@),
                Err(e) => spec_parse_curve(s@) == Err::<CurveV, Error>(e),
            },
    {
        let (ty, rest) = match split_once_char(s, '|') {
            None => {
                return Err(Error::InvalidData("invalid curve format"));
            },
            Some(pair) => pair,
        };
        let points = if rest.unicode_len() == 0 {
            Vec::new()
        } else {
            parse_points(rest)?
        };
        proof {
            if rest@.len() == 0 {
                assert(points@ =~= Seq::<Position>::empty());
            }
        }
        if str_eq(ty, "B") {
            Ok(Curve::Bezier(points))
        } else if str_eq(ty, "C") {
            Ok(Curve::CatmullRom(points))
        } else if str_eq(ty, "L") {
            Ok(Curve::Linear(points))
        } else if str_eq(ty, "P") {
            Ok(Curve::Perfect(points))
        } else {
            Err(Error::InvalidData("invalid curve type"))
        }
    }
}

/// Parses a non-empty `|`-separated list of curve points.
fn parse_points(rest: &str) -> (r: Result<Vec<Position>, Error>)
    ensures
        match r {
            Ok(ps) => spec_points_from_parts(trimmed_parts(rest@, '|')) == Ok::<
                Seq<Position>,
                Error,
            >(ps@),
            Err(e) => spec_points_from_parts(trimmed_parts(rest@, '|')) == Err::<
                Seq<Position>,
                Error,
            >(e),
        },
{
    let ghost parts = trimmed_parts(rest@, '|');
    let raw = split_trimmed(rest, '|');
    let mut acc: Vec<Position> = Vec::new();
    let n = raw.len();
    let mut i: usize = 0;
    proof {
        assert(parts.skip(0) =~= parts);
        let t = spec_points_from_parts(parts);
        if t is Ok {
            assert(Seq::<Position>::empty() + t->Ok_0 =~= t->Ok_0);
        }
    }
    while i < n
        invariant
            0 <= i <= n,
            n == raw@.len(),
            parts == trimmed_parts(rest@, '|'),
            views_of(raw@) == parts,
            acc@.len() == i,
            match spec_points_from_parts(parts.skip(i as int)) {
                Ok(ps) => spec_points_from_parts(parts) == Ok::<Seq<Position>, Error>(acc@ + ps),
                Err(e) => spec_points_from_parts(parts) == Err::<Seq<Position>, Error>(e),
            },
        decreases n - i,
    {
        proof {
            assert(views_of(raw@)[i as int] == raw@[i as int]@);
            assert(parts.skip(i as int)[0] == parts[i as int]);
            assert(parts.skip(i as int).skip(1) =~= parts.skip(i + 1));
        }
        let p = parse_one_point(raw[i]);
        match p {
            Err(e) => {
                return Err(e);
            },
            Ok(pos) => {
                let ghost old_acc = acc@;
                acc.push(pos);
                proof {
                    let rest = spec_points_from_parts(parts.skip(i + 1));
                    if rest is Ok {
                        assert(old_acc + (seq![pos] + rest->Ok_0) =~= acc@ + rest->Ok_0);
                    }
                }
            },
        }
        i += 1;
    }
    proof {
        assert(parts.skip(n as int) =~= Seq::<Seq<char>>::empty());
        assert(acc@ + Seq::<Position>::empty() =~= acc@);
    }
    Ok(acc)
}

/// Parses one `x:y` curve point token.
fn parse_one_point(p: &str) -> (r: Result<Position, Error>)
    ensures
        r == spec_parse_point(p@),
{
    match split_once_char(p, ':') {
        None => Err(Error::InvalidData("invalid point format")),
        Some((xs, ys)) => {
            let x = parse_decimal(xs)?;
            let y = parse_decimal(ys)?;
            Ok(Position { x, y })
        },
    }
}

/// The edge hitsounds a `|`-separated token denotes, each a byte whose
/// defined sound bits are kept.
pub open spec fn spec_parse_edge_sounds(tok: Seq<char>) -> Result<Seq<HitSound>, Error>
    decreases tok.len(),
{
    spec_edge_sounds_from_parts(spec_split(tok, '|'))
}

/// The edge hitsounds of a token's pieces, stopping at the first malformed
/// one.
pub open spec fn spec_edge_sounds_from_parts(parts: Seq<Seq<char>>) -> Result<Seq<HitSound>, Error>
    decreases parts.len(),
{
    if parts.len() == 0 {
        Ok(Seq::empty())
    } else {
        match spec_parse_uint(parts[0], u8::MAX as nat) {
            None => Err(Error::ParseIntError),
            Some(v) => match spec_edge_sounds_from_parts(parts.skip(1)) {
                Err(e) => Err(e),
                Ok(hs) => Ok(seq![HitSound { bits: (v as u8) & 0x0f }] + hs),
            },
        }
    }
}

/// The edge sample-set pairs a `|`-separated token denotes: each piece is
/// `normal:addition`, two numeric sample sets.
pub open spec fn spec_parse_edge_sets(tok: Seq<char>) -> Result<Seq<(SampleSet, SampleSet)>, Error> {
    spec_edge_sets_from_parts(spec_split(tok, '|'))
}

/// One `normal:addition` edge sample-set piece.
pub open spec fn spec_parse_edge_set(p: Seq<char>) -> Result<(SampleSet, SampleSet), Error> {
    match spec_split_once(p, ':') {
        None => Err(Error::InvalidData("invalid edge set format")),
        Some((ns, asx)) => match spec_parse_int(ns, i32::MIN as int, i32::MAX as int) {
            None => Err(Error::ParseIntError),
            Some(nv) => match spec_parse_int(asx, i32::MIN as int, i32::MAX as int) {
                None => Err(Error::ParseIntError),
                Some(av) => match spec_sample_set_from_i32(nv) {
                    Err(e) => Err(e),
                    Ok(nss) => match spec_sample_set_from_i32(av) {
                        Err(e) => Err(e),
                        Ok(ass) => Ok((nss, ass)),
                    },
                },
            },
        },
    }
}

/// The edge sample-set pairs of a token's pieces, stopping at the first
/// malformed one.
pub open spec fn spec_edge_sets_from_parts(parts: Seq<Seq<char>>) -> Result<
    Seq<(SampleSet, SampleSet)>,
    Error,
>
    decreases parts.len(),
{
    if parts.len() == 0 {
        Ok(Seq::empty())
    } else {
        match spec_parse_edge_set(parts[0]) {
            Err(e) => Err(e),
            Ok(p) => match spec_edge_sets_from_parts(parts.skip(1)) {
                Err(e) => Err(e),
                Ok(ps) => Ok(seq![p] + ps),
            },
        }
    }
}

/// Parses an edge-sounds token.
fn parse_edge_sounds(tok: &str) -> (r: Result<Vec<HitSound>, Error>)
    ensures
        match r {
            Ok(hs) => spec_parse_edge_sounds(tok@) == Ok::<Seq<HitSound>, Error>(hs@),
            Err(e) => spec_parse_edge_sounds(tok@) == Err::<Seq<HitSound>, Error>(e),
        },
{
    let ghost parts = spec_split(tok@, '|');
    let raw = split_char(tok, '|');
    let mut acc: Vec<HitSound> = Vec::new();
    let n = raw.len();
    let mut i: usize = 0;
    proof {
        assert(parts.skip(0) =~= parts);
        let t = spec_edge_sounds_from_parts(parts);
        if t is Ok {
            assert(Seq::<HitSound>::empty() + t->Ok_0 =~= t->Ok_0);
        }
    }
    while i < n
        invariant
            0 <= i <= n,
            n == raw@.len(),
            parts == spec_split(tok@, '|'),
            views_of(raw@) == parts,
            acc@.len() == i,
            match spec_edge_sounds_from_parts(parts.skip(i as int)) {
                Ok(hs) => spec_edge_sounds_from_parts(parts) == Ok::<Seq<HitSound>, Error>(
                    acc@ + hs,
                ),
                Err(e) => spec_edge_sounds_from_parts(parts) == Err::<Seq<HitSound>, Error>(e),
            },
        decreases n - i,
    {
        proof {
            assert(views_of(raw@)[i as int] == raw@[i as int]@);
            assert(parts.skip(i as int)[0] == parts[i as int]);
            assert(parts.skip(i as int).skip(1) =~= parts.skip(i + 1));
        }
        match parse_u8(raw[i]) {
            Err(_) => {
                return Err(Error::ParseIntError);
            },
            Ok(v) => {
                let ghost old_acc = acc@;
                acc.push(HitSound::from_bits_truncate(v));
                proof {
                    let rest = spec_edge_sounds_from_parts(parts.skip(i + 1));
                    if rest is Ok {
                        assert(old_acc + (seq![HitSound { bits: v & 0x0f }] + rest->Ok_0) =~= acc@
                            + rest->Ok_0);
                    }
                }
            },
        }
        i += 1;
    }
    proof {
        assert(parts.skip(n as int) =~= Seq::<Seq<char>>::empty());
        assert(acc@ + Seq::<HitSound>::empty() =~= acc@);
    }
    Ok(acc)
}

/// Parses an edge sample-set pairs token.
fn parse_edge_sets(tok: &str) -> (r: Result<Vec<(SampleSet, SampleSet)>, Error>)
    ensures
        match r {
            Ok(ps) => spec_parse_edge_sets(tok@) == Ok::<Seq<(SampleSet, SampleSet)>, Error>(ps@),
            Err(e) => spec_parse_edge_sets(tok@) == Err::<Seq<(SampleSet, SampleSet)>, Error>(e),
        },
{
    let ghost parts = spec_split(tok@, '|');
    let raw = split_char(tok, '|');
    let mut acc: Vec<(SampleSet, SampleSet)> = Vec::new();
    let n = raw.len();
    let mut i: usize = 0;
    proof {
        assert(parts.skip(0) =~= parts);
        let t = spec_edge_sets_from_parts(parts);
        if t is Ok {
            assert(Seq::<(SampleSet, SampleSet)>::empty() + t->Ok_0 =~= t->Ok_0);
        }
    }
    while i < n
        invariant
            0 <= i <= n,
            n == raw@.len(),
            parts == spec_split(tok@, '|'),
            views_of(raw@) == parts,
            acc@.len() == i,
            match spec_edge_sets_from_parts(parts.skip(i as int)) {
                Ok(ps) => spec_edge_sets_from_parts(parts) == Ok::<
                    Seq<(SampleSet, SampleSet)>,
                    Error,
                >(acc@ + ps),
                Err(e) => spec_edge_sets_from_parts(parts) == Err::<
                    Seq<(SampleSet, SampleSet)>,
                    Error,
                >(e),
            },
        decreases n - i,
    {
        proof {
            assert(views_of(raw@)[i as int] == raw@[i as int]@);
            assert(parts.skip(i as int)[0] == parts[i as int]);
            assert(parts.skip(i as int).skip(1) =~= parts.skip(i + 1));
        }
        match parse_one_edge_set(raw[i]) {
            Err(e) => {
                return Err(e);
            },
            Ok(p) => {
                let ghost old_acc = acc@;
                acc.push(p);
                proof {
                    let rest = spec_edge_sets_from_parts(parts.skip(i + 1));
                    if rest is Ok {
                        assert(old_acc + (seq![p] + rest->Ok_0) =~= acc@ + rest->Ok_0);
                    }
                }
            },
        }
        i += 1;
    }
    proof {
        assert(parts.skip(n as int) =~= Seq::<Seq<char>>::empty());
        assert(acc@ + Seq::<(SampleSet, SampleSet)>::empty() =~= acc@);
    }
    Ok(acc)
}

/// Parses one `normal:addition` edge sample-set piece.
fn parse_one_edge_set(p: &str) -> (r: Result<(SampleSet, SampleSet), Error>)
    ensures
        r == spec_parse_edge_set(p@),
{
    match split_once_char(p, ':') {
        None => Err(Error::InvalidData("invalid edge set format")),
        Some((ns, asx)) => {
            let nv = parse_i32(ns)?;
            let av = parse_i32(asx)?;
            let nss = SampleSet::try_from_i32(nv)?;
            let ass = SampleSet::try_from_i32(av)?;
            Ok((nss, ass))
        },
    }
}

/// The slider tail a hit-object line carries from field `start` on: a
/// curve, a repeat count and a length, then two independently optional
/// trailing lists; a missing list is empty, not an error.
pub open spec fn spec_parse_slider(parts: Seq<Seq<char>>, start: int) -> Result<SliderV, Error> {
    if parts.len() <= start {
        Err(Error::InvalidData("expected curve while parsing slider"))
    } else {
        match spec_parse_curve(parts[start]) {
            Err(e) => Err(e),
            Ok(curve) => if parts.len() <= start + 1 {
                Err(Error::InvalidData("expected slides while parsing slider"))
            } else {
                match spec_parse_uint(parts[start + 1], u32::MAX as nat) {
                    None => Err(Error::ParseIntError),
                    Some(slides) => if parts.len() <= start + 2 {
                        Err(Error::InvalidData("expected length while parsing slider"))
                    } else {
                        match spec_parse_decimal(parts[start + 2]) {
                            Err(e) => Err(e),
                            Ok(length) => {
                                let sounds_r = if parts.len() > start + 3 {
                                    spec_parse_edge_sounds(parts[start + 3])
                                } else {
                                    Ok(Seq::empty())
                                };
                                match sounds_r {
                                    Err(e) => Err(e),
                                    Ok(edge_sounds) => {
                                        let sets_r = if parts.len() > start + 4 {
                                            spec_parse_edge_sets(parts[start + 4])
                                        } else {
                                            Ok(Seq::empty())
                                        };
                                        match sets_r {
                                            Err(e) => Err(e),
                                            Ok(edge_sets) => Ok(
                                                SliderV {
                                                    curve,
                                                    slides: slides as u32,
                                                    length,
                                                    edge_sounds,
                                                    edge_sets,
                                                },
                                            ),
                                        }
                                    },
                                }
                            },
                        }
                    },
                }
            },
        }
    }
}

impl Slider {
    /// Parses the slider tail of a hit-object line, from field `start` on.
    pub fn from_parts(parts: &Vec<&str>, start: usize) -> (r: Result<Slider, Error>)
        requires
            start + 4 <= usize::MAX,
        ensures
            match r {
                Ok(sl) => spec_parse_slider(views_of(parts@), start as int) == Ok::<
                    SliderV,
                    Error,
                >(sl@),
                Err(e) => spec_parse_slider(views_of(parts@), start as int) == Err::<
                    SliderV,
                    Error,
                >(e),
            },
    {
        proof {
            assert forall|j: int| 0 <= j < parts@.len() implies #[trigger] views_of(parts@)[j]
                == parts@[j]@ by {}
        }
        if parts.len() <= start {
            return Err(Error::InvalidData("expected curve while parsing slider"));
        }
        let curve = Curve::from_str(parts[start])?;
        if parts.len() <= start + 1 {
            return Err(Error::InvalidData("expected slides while parsing slider"));
        }
        let slides = parse_u32(parts[start + 1])?;
        if parts.len() <= start + 2 {
            return Err(Error::InvalidData("expected length while parsing slider"));
        }
        let length = parse_decimal(parts[start + 2])?;
        let edge_sounds = if parts.len() > start + 3 {
            parse_edge_sounds(parts[start + 3])?
        } else {
            Vec::new()
        };
        let edge_sets = if parts.len() > start + 4 {
            parse_edge_sets(parts[start + 4])?
        } else {
            Vec::new()
        };
        proof {
            if parts@.len() <= start + 3 {
                assert(edge_sounds@ =~= Seq::<HitSound>::empty());
            }
            if parts@.len() <= start + 4 {
                assert(edge_sets@ =~= Seq::<(SampleSet, SampleSet)>::empty());
            }
        }
        Ok(Slider { curve, slides, length, edge_sounds, edge_sets })
    }
}

/// The spinner tail a hit-object line carries from field `start` on: one
/// end-time token.
pub open spec fn spec_parse_spinner(parts: Seq<Seq<char>>, start: int) -> Result<Spinner, Error> {
    if parts.len() <= start {
        Err(Error::InvalidData("expected end time while parsing spinner"))
    } else {
        match spec_parse_uint(parts[start], u64::MAX as nat) {
            None => Err(Error::ParseIntError),
            Some(t) => Ok(Spinner { end_time: t as u64 }),
        }
    }
}

impl Spinner {
    /// Parses the spinner tail of a hit-object line, from field `start` on.
    pub fn from_parts(parts: &Vec<&str>, start: usize) -> (r: Result<Spinner, Error>)
        ensures
            r == spec_parse_spinner(views_of(parts@), start as int),
    {
        proof {
            assert forall|j: int| 0 <= j < parts@.len() implies #[trigger] views_of(parts@)[j]
                == parts@[j]@ by {}
        }
        if parts.len() <= start {
            return Err(Error::InvalidData("expected end time while parsing spinner"));
        }
        let t = parse_u64(parts[start])?;
        Ok(Spinner { end_time: t })
    }
}

/// The hit object a line denotes: position, time, a type byte, a hit-sound
/// byte, the kind-specific tail, then an optional hit-sample descriptor
/// with a default applied when absent. Bit 0 of the type byte marks a
/// circle, bit 1 a slider, bit 3 a spinner, bit 2 a new combo and bits 4
/// to 6 the combo-colour skip; a type byte naming none of the three kinds
/// is invalid.
pub open spec fn spec_parse_hit_object(s: Seq<char>) -> Result<HitObjectV, Error> {
    let parts = trimmed_parts(s, ',');
    match spec_parse_decimal(parts[0]) {
        Err(e) => Err(e),
        Ok(x) => if parts.len() < 2 {
            Err(Error::InvalidData("expected y while parsing hit object"))
        } else {
            match spec_parse_decimal(parts[1]) {
                Err(e) => Err(e),
                Ok(y) => if parts.len() < 3 {
                    Err(Error::InvalidData("expected time while parsing hit object"))
                } else {
                    match spec_parse_uint(parts[2], u64::MAX as nat) {
                        None => Err(Error::ParseIntError),
                        Some(time) => if parts.len() < 4 {
                            Err(Error::InvalidData("expected type while parsing hit object"))
                        } else {
                            match spec_parse_uint(parts[3], u8::MAX as nat) {
                                None => Err(Error::ParseIntError),
                                Some(ty) => if parts.len() < 5 {
                                    Err(Error::InvalidData("expected hit sound while parsing hit object"))
                                } else {
                                    match spec_parse_uint(parts[4], u8::MAX as nat) {
                                        None => Err(Error::ParseIntError),
                                        Some(hs) => spec_parse_hit_object_kind(
                                            parts,
                                            Position { x, y },
                                            time as u64,
                                            ty as u8,
                                            HitSound { bits: (hs as u8) & 0x0f },
                                        ),
                                    }
                                },
                            }
                        },
                    }
                },
            }
        },
    }
}

/// The kind-dependent tail of a hit-object line, combined with the parsed
/// head fields into the finished object.
pub open spec fn spec_parse_hit_object_kind(
    parts: Seq<Seq<char>>,
    position: Position,
    time: u64,
    ty: u8,
    hit_sound: HitSound,
) -> Result<HitObjectV, Error> {
    let kind_r = if ty & 0x01 != 0 {
        Ok((HitObjectKindV::HitCircle, 5int))
    } else if ty & 0x02 != 0 {
        match spec_parse_slider(parts, 5) {
            Err(e) => Err(e),
            Ok(sl) => Ok((HitObjectKindV::Slider(sl), 10int)),
        }
    } else if ty & 0x08 != 0 {
        match spec_parse_spinner(parts, 5) {
            Err(e) => Err(e),
            Ok(sp) => Ok((HitObjectKindV::Spinner(sp), 6int)),
        }
    } else {
        Err(Error::InvalidData("invalid hit object type"))
    };
    match kind_r {
        Err(e) => Err(e),
        Ok((kind, sample_idx)) => {
            let sample_r = if parts.len() > sample_idx {
                spec_parse_hit_sample(parts[sample_idx])
            } else {
                Ok(spec_hit_sample_default())
            };
            match sample_r {
                Err(e) => Err(e),
                Ok(hit_sample) => Ok(
                    HitObjectV {
                        position,
                        time,
                        new_combo: ty & 0x04 != 0,
                        colour_hax: (ty & 0x70) >> 4,
                        hit_sound,
                        kind,
                        hit_sample,
                    },
                ),
            }
        },
    }
}

impl HitObject {
    /// Parses a hit-object line.
    pub fn from_str(s: &str) -> (r: Result<HitObject, Error>)
        ensures
            match r {
                Ok(h) => spec_parse_hit_object(s@) == Ok::<HitObjectV, Error>(h@),
                Err(e) => spec_parse_hit_object(s@) == Err::<HitObjectV, Error>(e),
            },
    {
        let parts = split_trimmed(s, ',');
        proof {
            assert forall|j: int| 0 <= j < parts@.len() implies #[trigger] views_of(parts@)[j]
                == parts@[j]@ by {}
        }
        let x = parse_decimal(parts[0])?;
        if parts.len() < 2 {
            return Err(Error::InvalidData("expected y while parsing hit object"));
        }
        let y = parse_decimal(parts[1])?;
        if parts.len() < 3 {
            return Err(Error::InvalidData("expected time while parsing hit object"));
        }
        let time = parse_u64(parts[2])?;
        if parts.len() < 4 {
            return Err(Error::InvalidData("expected type while parsing hit object"));
        }
        let ty = parse_u8(parts[3])?;
        if parts.len() < 5 {
            return Err(Error::InvalidData("expected hit sound while parsing hit object"));
        }
        let hs = parse_u8(parts[4])?;
        let hit_sound = HitSound::from_bits_truncate(hs);
        let (kind, sample_idx) = if ty & 0x01 != 0 {
            (HitObjectKind::HitCircle, 5usize)
        } else if ty & 0x02 != 0 {
            (HitObjectKind::Slider(Slider::from_parts(&parts, 5)?), 10usize)
        } else if ty & 0x08 != 0 {
            (HitObjectKind::Spinner(Spinner::from_parts(&parts, 5)?), 6usize)
        } else {
            return Err(Error::InvalidData("invalid hit object type"));
        };
        let hit_sample = if parts.len() > sample_idx {
            HitSample::from_str(parts[sample_idx])?
        } else {
            HitSample::default()
        };
        Ok(
            HitObject {
                position: Position { x, y },
                time,
                new_combo: ty & 0x04 != 0,
                colour_hax: (ty & 0x70) >> 4,
                hit_sound,
                kind,
                hit_sample,
            },
        )
    }
}

} // verus!
