//! The decode engine: selection flags, the line scanner, the consumer
//! contract and the aggregate beatmap types.

use vstd::prelude::*;

use crate::Error;
use crate::colour::Colours;
use crate::colour::ColoursV;
use crate::colour::spec_apply_colours;
use crate::colour::spec_colours_default;
use crate::difficulty::Difficulty;
use crate::difficulty::spec_apply_difficulty;
use crate::difficulty::spec_difficulty_default;
use crate::editor::Editor;
use crate::editor::EditorV;
use crate::editor::spec_apply_editor;
use crate::editor::spec_editor_default;
use crate::event::EventKind;
use crate::event::EventKindV;
use crate::event::event_views;
use crate::event::spec_parse_event;
use crate::general::General;
use crate::general::GeneralV;
use crate::general::spec_apply_general;
use crate::general::spec_general_default;
use crate::hit_object::HitObject;
use crate::hit_object::HitObjectV;
use crate::hit_object::hit_object_views;
use crate::hit_object::spec_parse_hit_object;
use crate::metadata::Metadata;
use crate::metadata::MetadataV;
use crate::metadata::spec_apply_metadata;
use crate::metadata::spec_metadata_default;
use crate::numbers::parse_u32;
use crate::numbers::spec_parse_uint;
use crate::strutil::has_prefix;
use crate::strutil::spec_trim;
use crate::strutil::starts_with;
use crate::strutil::str_eq;
use crate::strutil::string_views;
use crate::strutil::trim;
use crate::timing_point::TimingPoint;
use crate::timing_point::spec_parse_timing_point;

verus! {

/// The consumer of a decode: one notification per decoded category, plus
/// one for the file-format version. Every method has a no-op default, so a
/// consumer subscribes only to what it needs. Each method is invoked at
/// most once per decode, only for categories the engine decoded, with the
/// fully formed value; list categories come in file order.
pub trait Visitor: Sized {
    /// Receives the version number of the file-format header.
    fn visit_file_format_version(&mut self, version: u32) {
        let _ = version;
    }

    /// Receives the decoded `General` section.
    fn visit_general(&mut self, general: General) {
        let _ = general;
    }

    /// Receives the decoded `Editor` section.
    fn visit_editor(&mut self, editor: Editor) {
        let _ = editor;
    }

    /// Receives the decoded `Metadata` section.
    fn visit_metadata(&mut self, metadata: Metadata) {
        let _ = metadata;
    }

    /// Receives the decoded `Difficulty` section.
    fn visit_difficulty(&mut self, difficulty: Difficulty) {
        let _ = difficulty;
    }

    /// Receives the decoded `Events` section, in file order.
    fn visit_events(&mut self, events: Vec<EventKind>) {
        let _ = events;
    }

    /// Receives the decoded `TimingPoints` section, in file order.
    fn visit_timing_points(&mut self, timing_points: Vec<TimingPoint>) {
        let _ = timing_points;
    }

    /// Receives the decoded `Colours` section.
    fn visit_colours(&mut self, colours: Colours) {
        let _ = colours;
    }

    /// Receives the decoded `HitObjects` section, in file order.
    fn visit_hit_objects(&mut self, hit_objects: Vec<HitObject>) {
        let _ = hit_objects;
    }
}

impl<T: Visitor> Visitor for &mut T {
    fn visit_file_format_version(&mut self, version: u32) {
        T::visit_file_format_version(self, version)
    }

    fn visit_general(&mut self, general: General) {
        T::visit_general(self, general)
    }

    fn visit_editor(&mut self, editor: Editor) {
        T::visit_editor(self, editor)
    }

    fn visit_metadata(&mut self, metadata: Metadata) {
        T::visit_metadata(self, metadata)
    }

    fn visit_difficulty(&mut self, difficulty: Difficulty) {
        T::visit_difficulty(self, difficulty)
    }

    fn visit_events(&mut self, events: Vec<EventKind>) {
        T::visit_events(self, events)
    }

    fn visit_timing_points(&mut self, timing_points: Vec<TimingPoint>) {
        T::visit_timing_points(self, timing_points)
    }

    fn visit_colours(&mut self, colours: Colours) {
        T::visit_colours(self, colours)
    }

    fn visit_hit_objects(&mut self, hit_objects: Vec<HitObject>) {
        T::visit_hit_objects(self, hit_objects)
    }
}

impl<T: Visitor> Visitor for Box<T> {
    fn visit_file_format_version(&mut self, version: u32) {
        T::visit_file_format_version(self, version)
    }

    fn visit_general(&mut self, general: General) {
        T::visit_general(self, general)
    }

    fn visit_editor(&mut self, editor: Editor) {
        T::visit_editor(self, editor)
    }

    fn visit_metadata(&mut self, metadata: Metadata) {
        T::visit_metadata(self, metadata)
    }

    fn visit_difficulty(&mut self, difficulty: Difficulty) {
        T::visit_difficulty(self, difficulty)
    }

    fn visit_events(&mut self, events: Vec<EventKind>) {
        T::visit_events(self, events)
    }

    fn visit_timing_points(&mut self, timing_points: Vec<TimingPoint>) {
        T::visit_timing_points(self, timing_points)
    }

    fn visit_colours(&mut self, colours: Colours) {
        T::visit_colours(self, colours)
    }

    fn visit_hit_objects(&mut self, hit_objects: Vec<HitObject>) {
        T::visit_hit_objects(self, hit_objects)
    }
}

/// The selection of categories a decode computes: an immutable set of
/// independent flags, empty by default, grown by the category combinators.
/// Selection controls only what is computed, never the value of a category
/// that is selected.
#[derive(Debug, Clone, Copy, PartialEq, Eq, Structural)]
pub struct BeatmapDecoder {
    pub general: bool,
    pub editor: bool,
    pub metadata: bool,
    pub difficulty: bool,
    pub events: bool,
    pub timing_points: bool,
    pub colours: bool,
    pub hit_objects: bool,
}

/// The selection with every category chosen.
pub open spec fn spec_all() -> BeatmapDecoder {
    BeatmapDecoder {
        general: true,
        editor: true,
        metadata: true,
        difficulty: true,
        events: true,
        timing_points: true,
        colours: true,
        hit_objects: true,
    }
}

/// The selection of the `minimal` preset: general, metadata, difficulty,
/// events and timing points.
pub open spec fn spec_minimal() -> BeatmapDecoder {
    BeatmapDecoder {
        general: true,
        editor: false,
        metadata: true,
        difficulty: true,
        events: true,
        timing_points: true,
        colours: false,
        hit_objects: false,
    }
}

impl BeatmapDecoder {
    /// The empty selection: no category is decoded.
    pub fn empty() -> (r: Self)
        ensures
            r == (BeatmapDecoder {
                general: false,
                editor: false,
                metadata: false,
                difficulty: false,
                events: false,
                timing_points: false,
                colours: false,
                hit_objects: false,
            }),
    {
        BeatmapDecoder {
            general: false,
            editor: false,
            metadata: false,
            difficulty: false,
            events: false,
            timing_points: false,
            colours: false,
            hit_objects: false,
        }
    }

    /// The full selection: every category is decoded.
    pub fn all() -> (r: Self)
        ensures
            r == spec_all(),
    {
        BeatmapDecoder {
            general: true,
            editor: true,
            metadata: true,
            difficulty: true,
            events: true,
            timing_points: true,
            colours: true,
            hit_objects: true,
        }
    }

    /// The `minimal` preset: general, metadata, difficulty, events and
    /// timing points.
    pub fn minimal() -> (r: Self)
        ensures
            r == spec_minimal(),
    {
        Self::empty().general().metadata().difficulty().events().timing_points()
    }

    /// This selection with the `General` category added.
    pub fn general(self) -> (r: Self)
        ensures
            r == (BeatmapDecoder { general: true, ..self }),
    {
        BeatmapDecoder { general: true, ..self }
    }

    /// This selection with the `Editor` category added.
    pub fn editor(self) -> (r: Self)
        ensures
            r == (BeatmapDecoder { editor: true, ..self }),
    {
        BeatmapDecoder { editor: true, ..self }
    }

    /// This selection with the `Metadata` category added.
    pub fn metadata(self) -> (r: Self)
        ensures
            r == (BeatmapDecoder { metadata: true, ..self }),
    {
        BeatmapDecoder { metadata: true, ..self }
    }

    /// This selection with the `Difficulty` category added.
    pub fn difficulty(self) -> (r: Self)
        ensures
            r == (BeatmapDecoder { difficulty: true, ..self }),
    {
        BeatmapDecoder { difficulty: true, ..self }
    }

    /// This selection with the `Events` category added.
    pub fn events(self) -> (r: Self)
        ensures
            r == (BeatmapDecoder { events: true, ..self }),
    {
        BeatmapDecoder { events: true, ..self }
    }

    /// This selection with the `TimingPoints` category added.
    pub fn timing_points(self) -> (r: Self)
        ensures
            r == (BeatmapDecoder { timing_points: true, ..self }),
    {
        BeatmapDecoder { timing_points: true, ..self }
    }

    /// This selection with the `Colours` category added.
    pub fn colours(self) -> (r: Self)
        ensures
            r == (BeatmapDecoder { colours: true, ..self }),
    {
        BeatmapDecoder { colours: true, ..self }
    }

    /// This selection with the `HitObjects` category added.
    pub fn hit_objects(self) -> (r: Self)
        ensures
            r == (BeatmapDecoder { hit_objects: true, ..self }),
    {
        BeatmapDecoder { hit_objects: true, ..self }
    }
}

impl Default for BeatmapDecoder {
    /// The default selection decodes every category.
    fn default() -> (r: Self)
        ensures
            r == spec_all(),
    {
        Self::all()
    }
}

/// The scanner's state between lines: the one-shot version, the current
/// section name, and one accumulator per selected category (`None` for a
/// deselected one).
pub struct ScanState {
    pub version: Option<u32>,
    pub section: Seq<char>,
    pub general: Option<GeneralV>,
    pub editor: Option<EditorV>,
    pub metadata: Option<MetadataV>,
    pub difficulty: Option<Difficulty>,
    pub events: Option<Seq<EventKindV>>,
    pub timing_points: Option<Seq<TimingPoint>>,
    pub colours: Option<ColoursV>,
    pub hit_objects: Option<Seq<HitObjectV>>,
}

/// The scanner's state before any line: no version seen, no section, and a
/// default accumulator for each selected category.
pub open spec fn init_state(sel: BeatmapDecoder) -> ScanState {
    ScanState {
        version: None,
        section: Seq::empty(),
        general: if sel.general {
            Some(spec_general_default())
        } else {
            None
        },
        editor: if sel.editor {
            Some(spec_editor_default())
        } else {
            None
        },
        metadata: if sel.metadata {
            Some(spec_metadata_default())
        } else {
            None
        },
        difficulty: if sel.difficulty {
            Some(spec_difficulty_default())
        } else {
            None
        },
        events: if sel.events {
            Some(Seq::empty())
        } else {
            None
        },
        timing_points: if sel.timing_points {
            Some(Seq::empty())
        } else {
            None
        },
        colours: if sel.colours {
            Some(spec_colours_default())
        } else {
            None
        },
        hit_objects: if sel.hit_objects {
            Some(Seq::empty())
        } else {
            None
        },
    }
}

/// One line of the scan. A version header is parsed wherever it occurs and
/// recorded once; blank lines and comments are skipped; a bracketed line
/// sets the current section; any other line goes to the parser of the
/// current section if that category was selected, and is dropped
/// otherwise. A malformed `Events` line is dropped; any other parser
/// failure aborts the scan.
pub open spec fn scan_line(st: ScanState, line: Seq<char>) -> Result<ScanState, Error> {
    if starts_with(line, "osu file format v"@) {
        match spec_parse_uint(
            spec_trim(line.skip("osu file format v"@.len() as int)),
            u32::MAX as nat,
        ) {
            Some(v) => Ok(
                if st.version is None {
                    ScanState { version: Some(v as u32), ..st }
                } else {
                    st
                },
            ),
            None => Err(Error::ParseIntError),
        }
    } else if line.len() == 0 || starts_with(line, "//"@) {
        Ok(st)
    } else if line.len() >= 2 && line[0] == '[' && line[line.len() - 1] == ']' {
        Ok(ScanState { section: line.subrange(1, line.len() - 1), ..st })
    } else if st.section == "General"@ {
        match st.general {
            None => Ok(st),
            Some(g) => match spec_apply_general(g, line) {
                Ok(g2) => Ok(ScanState { general: Some(g2), ..st }),
                Err(e) => Err(e),
            },
        }
    } else if st.section == "Editor"@ {
        match st.editor {
            None => Ok(st),
            Some(ed) => match spec_apply_editor(ed, line) {
                Ok(e2) => Ok(ScanState { editor: Some(e2), ..st }),
                Err(e) => Err(e),
            },
        }
    } else if st.section == "Metadata"@ {
        match st.metadata {
            None => Ok(st),
            Some(m) => match spec_apply_metadata(m, line) {
                Ok(m2) => Ok(ScanState { metadata: Some(m2), ..st }),
                Err(e) => Err(e),
            },
        }
    } else if st.section == "Difficulty"@ {
        match st.difficulty {
            None => Ok(st),
            Some(d) => match spec_apply_difficulty(d, line) {
                Ok(d2) => Ok(ScanState { difficulty: Some(d2), ..st }),
                Err(e) => Err(e),
            },
        }
    } else if st.section == "TimingPoints"@ {
        match st.timing_points {
            None => Ok(st),
            Some(tps) => match spec_parse_timing_point(line) {
                Ok(tp) => Ok(ScanState { timing_points: Some(tps.push(tp)), ..st }),
                Err(e) => Err(e),
            },
        }
    } else if st.section == "Events"@ {
        match st.events {
            None => Ok(st),
            Some(evs) => match spec_parse_event(line) {
                Ok(ev) => Ok(ScanState { events: Some(evs.push(ev)), ..st }),
                Err(_) => Ok(st),
            },
        }
    } else if st.section == "Colours"@ {
        match st.colours {
            None => Ok(st),
            Some(c) => match spec_apply_colours(c, line) {
                Ok(c2) => Ok(ScanState { colours: Some(c2), ..st }),
                Err(e) => Err(e),
            },
        }
    } else if st.section == "HitObjects"@ {
        match st.hit_objects {
            None => Ok(st),
            Some(hos) => match spec_parse_hit_object(line) {
                Ok(ho) => Ok(ScanState { hit_objects: Some(hos.push(ho)), ..st }),
                Err(e) => Err(e),
            },
        }
    } else {
        Ok(st)
    }
}

/// The whole scan: one forward pass over the lines, stopping at the first
/// failure.
pub open spec fn scan(sel: BeatmapDecoder, lines: Seq<Seq<char>>) -> Result<ScanState, Error>
    decreases lines.len(),
{
    if lines.len() == 0 {
        Ok(init_state(sel))
    } else {
        match scan(sel, lines.drop_last()) {
            Err(e) => Err(e),
            Ok(st) => scan_line(st, lines.last()),
        }
    }
}

/// A scan that has already failed stays failed however many more lines
/// follow.
pub proof fn lemma_scan_err_sticky(sel: BeatmapDecoder, vs: Seq<Seq<char>>, j: int, k: int)
    requires
        0 <= j <= k <= vs.len(),
        scan(sel, vs.take(j)) is Err,
    ensures
        scan(sel, vs.take(k)) == scan(sel, vs.take(j)),
    decreases k - j,
{
    if j < k {
        lemma_scan_err_sticky(sel, vs, j, k - 1);
        assert(vs.take(k).drop_last() =~= vs.take(k - 1));
        assert(vs.take(k).len() == k);
    }
}

/// The scan state assembled from one value per field, holding each
/// category's accumulator exactly when it is selected.
pub open spec fn state_of(
    sel: BeatmapDecoder,
    version: Option<u32>,
    section: Seq<char>,
    general: GeneralV,
    editor: EditorV,
    metadata: MetadataV,
    difficulty: Difficulty,
    events: Seq<EventKindV>,
    timing_points: Seq<TimingPoint>,
    colours: ColoursV,
    hit_objects: Seq<HitObjectV>,
) -> ScanState {
    ScanState {
        version,
        section,
        general: if sel.general {
            Some(general)
        } else {
            None
        },
        editor: if sel.editor {
            Some(editor)
        } else {
            None
        },
        metadata: if sel.metadata {
            Some(metadata)
        } else {
            None
        },
        difficulty: if sel.difficulty {
            Some(difficulty)
        } else {
            None
        },
        events: if sel.events {
            Some(events)
        } else {
            None
        },
        timing_points: if sel.timing_points {
            Some(timing_points)
        } else {
            None
        },
        colours: if sel.colours {
            Some(colours)
        } else {
            None
        },
        hit_objects: if sel.hit_objects {
            Some(hit_objects)
        } else {
            None
        },
    }
}

/// One line of the scan, applied to the live accumulators exactly as
/// [`scan_line`] describes it on the assembled state.
#[verifier::rlimit(100)]
fn scan_step(
    sel: BeatmapDecoder,
    ls: &str,
    version: &mut Option<u32>,
    section: &mut String,
    general: &mut General,
    editor: &mut Editor,
    metadata: &mut Metadata,
    difficulty: &mut Difficulty,
    events: &mut Vec<EventKind>,
    timing_points: &mut Vec<TimingPoint>,
    colours: &mut Colours,
    hit_objects: &mut Vec<HitObject>,
) -> (r: Result<(), Error>)
    ensures
        match scan_line(
            state_of(
                sel,
                *old(version),
                old(section)@,
                old(general)@,
                old(editor)@,
                old(metadata)@,
                *old(difficulty),
                event_views(old(events)@),
                old(timing_points)@,
                old(colours)@,
                hit_object_views(old(hit_objects)@),
            ),
            ls@,
        ) {
            Ok(st2) => r is Ok && st2 == state_of(
                sel,
                *final(version),
                final(section)@,
                final(general)@,
                final(editor)@,
                final(metadata)@,
                *final(difficulty),
                event_views(final(events)@),
                final(timing_points)@,
                final(colours)@,
                hit_object_views(final(hit_objects)@),
            ),
            Err(e) => r == Err::<(), Error>(e),
        },
        !sel.general ==> final(general)@ == old(general)@,
        !sel.editor ==> final(editor)@ == old(editor)@,
        !sel.metadata ==> final(metadata)@ == old(metadata)@,
        !sel.difficulty ==> *final(difficulty) == *old(difficulty),
        !sel.events ==> final(events)@ == old(events)@,
        !sel.timing_points ==> final(timing_points)@ == old(timing_points)@,
        !sel.colours ==> final(colours)@ == old(colours)@,
        !sel.hit_objects ==> final(hit_objects)@ == old(hit_objects)@,
{
    let prefix = "osu file format v";
    if has_prefix(ls, prefix) {
        let rest = ls.substring_char(prefix.unicode_len(), ls.unicode_len());
        proof {
            assert(rest@ =~= ls@.skip("osu file format v"@.len() as int));
        }
        let v = parse_u32(trim(rest))?;
        if version.is_none() {
            *version = Some(v);
        }
        Ok(())
    } else if ls.unicode_len() == 0 || has_prefix(ls, "//") {
        // Blank line or comment: skipped whatever the section.
        Ok(())
    } else {
        let ln = ls.unicode_len();
        if ln >= 2 && ls.get_char(0) == '[' && ls.get_char(ln - 1) == ']' {
            *section = ls.substring_char(1, ln - 1).to_owned();
            Ok(())
        } else if str_eq(section.as_str(), "General") {
            if sel.general {
                general.parse(ls)?;
            }
            Ok(())
        } else if str_eq(section.as_str(), "Editor") {
            if sel.editor {
                editor.parse(ls)?;
            }
            Ok(())
        } else if str_eq(section.as_str(), "Metadata") {
            if sel.metadata {
                metadata.parse(ls)?;
            }
            Ok(())
        } else if str_eq(section.as_str(), "Difficulty") {
            if sel.difficulty {
                difficulty.parse(ls)?;
            }
            Ok(())
        } else if str_eq(section.as_str(), "TimingPoints") {
            if sel.timing_points {
                let tp = TimingPoint::from_str(ls)?;
                let ghost old_tps = timing_points@;
                timing_points.push(tp);
            }
            Ok(())
        } else if str_eq(section.as_str(), "Events") {
            if sel.events {
                match EventKind::from_str(ls) {
                    Ok(ev) => {
                        let ghost old_events = events@;
                        events.push(ev);
                        proof {
                            assert(event_views(events@) =~= event_views(old_events).push(
                                events@[old_events.len() as int]@,
                            ));
                        }
                    },
                    Err(_) => {
                        // A malformed Events line is dropped, not fatal.
                    },
                }
            }
            Ok(())
        } else if str_eq(section.as_str(), "Colours") {
            if sel.colours {
                colours.parse(ls)?;
            }
            Ok(())
        } else if str_eq(section.as_str(), "HitObjects") {
            if sel.hit_objects {
                let ho = HitObject::from_str(ls)?;
                let ghost old_hos = hit_objects@;
                hit_objects.push(ho);
                proof {
                    assert(hit_object_views(hit_objects@) =~= hit_object_views(old_hos).push(
                        hit_objects@[old_hos.len() as int]@,
                    ));
                }
            }
            Ok(())
        } else {
            // A line of an unknown section is silently dropped.
            Ok(())
        }
    }
}

/// Everything one decode produced, before delivery to a consumer.
pub(crate) struct Decoded {
    pub(crate) version: Option<u32>,
    pub(crate) general: General,
    pub(crate) editor: Editor,
    pub(crate) metadata: Metadata,
    pub(crate) difficulty: Difficulty,
    pub(crate) events: Vec<EventKind>,
    pub(crate) timing_points: Vec<TimingPoint>,
    pub(crate) colours: Colours,
    pub(crate) hit_objects: Vec<HitObject>,
}

/// The decoded values correspond to the final scan state: each selected
/// category holds the scanned value, each deselected one its default.
pub(crate) open spec fn decoded_matches(sel: BeatmapDecoder, d: Decoded, st: ScanState) -> bool {
    &&& st == state_of(
        sel,
        d.version,
        st.section,
        d.general@,
        d.editor@,
        d.metadata@,
        d.difficulty,
        event_views(d.events@),
        d.timing_points@,
        d.colours@,
        hit_object_views(d.hit_objects@),
    )
    &&& !sel.general ==> d.general@ == spec_general_default()
    &&& !sel.editor ==> d.editor@ == spec_editor_default()
    &&& !sel.metadata ==> d.metadata@ == spec_metadata_default()
    &&& !sel.difficulty ==> d.difficulty == spec_difficulty_default()
    &&& !sel.events ==> d.events@.len() == 0
    &&& !sel.timing_points ==> d.timing_points@.len() == 0
    &&& !sel.colours ==> d.colours@ == spec_colours_default()
    &&& !sel.hit_objects ==> d.hit_objects@.len() == 0
}

impl BeatmapDecoder {
    /// The scan itself: one forward pass over the lines, keeping an
    /// accumulator for each selected category.
    #[verifier::rlimit(100)]
    pub(crate) fn run(self, lines: &Vec<String>) -> (r: Result<Decoded, Error>)
        ensures
            match scan(self, string_views(lines@)) {
                Ok(st) => r matches Ok(d) && decoded_matches(self, d, st),
                Err(e) => r matches Err(e2) && e2 == e,
            },
    {
        let ghost vs = string_views(lines@);
        let mut version: Option<u32> = None;
        let mut section: String = String::new();
        let mut general = General::default();
        let mut editor = Editor::default();
        let mut metadata = Metadata::default();
        let mut difficulty = Difficulty::default();
        let mut events: Vec<EventKind> = Vec::new();
        let mut timing_points: Vec<TimingPoint> = Vec::new();
        let mut colours = Colours::default();
        let mut hit_objects: Vec<HitObject> = Vec::new();
        let n = lines.len();
        let mut i: usize = 0;
        proof {
            assert(vs.take(0) =~= Seq::<Seq<char>>::empty());
            assert(section@ =~= Seq::<char>::empty());
            assert(event_views(events@) =~= Seq::<EventKindV>::empty());
            assert(hit_object_views(hit_objects@) =~= Seq::<HitObjectV>::empty());
        }
        while i < n
            invariant
                0 <= i <= n,
                n == lines@.len(),
                vs == string_views(lines@),
                !self.general ==> general@ == spec_general_default(),
                !self.editor ==> editor@ == spec_editor_default(),
                !self.metadata ==> metadata@ == spec_metadata_default(),
                !self.difficulty ==> difficulty == spec_difficulty_default(),
                !self.events ==> events@.len() == 0,
                !self.timing_points ==> timing_points@.len() == 0,
                !self.colours ==> colours@ == spec_colours_default(),
                !self.hit_objects ==> hit_objects@.len() == 0,
                scan(self, vs.take(i as int)) == Ok::<ScanState, Error>(
                    state_of(
                        self,
                        version,
                        section@,
                        general@,
                        editor@,
                        metadata@,
                        difficulty,
                        event_views(events@),
                        timing_points@,
                        colours@,
                        hit_object_views(hit_objects@),
                    ),
                ),
            decreases n - i,
        {
            let ls: &str = lines[i].as_str();
            proof {
                assert(vs[i as int] == lines@[i as int]@);
                assert(vs.take(i + 1).drop_last() =~= vs.take(i as int));
                assert(vs.take(i + 1).last() == vs[i as int]);
            }
            match scan_step(
                self,
                ls,
                &mut version,
                &mut section,
                &mut general,
                &mut editor,
                &mut metadata,
                &mut difficulty,
                &mut events,
                &mut timing_points,
                &mut colours,
                &mut hit_objects,
            ) {
                Ok(()) => {},
                Err(e) => {
                    proof {
                        assert(scan(self, vs.take(i + 1)) == Err::<ScanState, Error>(e));
                        lemma_scan_err_sticky(self, vs, i + 1, vs.len() as int);
                        assert(vs.take(vs.len() as int) =~= vs);
                    }
                    return Err(e);
                },
            }
            i += 1;
        }
        proof {
            assert(vs.take(n as int) =~= vs);
        }
        Ok(
            Decoded {
                version,
                general,
                editor,
                metadata,
                difficulty,
                events,
                timing_points,
                colours,
                hit_objects,
            },
        )
    }

    /// Decodes the lines of a beatmap and hands each selected category to
    /// the given consumer, every category at most once, at end of stream,
    /// list categories in file order. Returns the consumer on success; any
    /// failure of the scan aborts the whole decode with no partial result.
    pub fn parse<Vis: Visitor>(self, beatmap: Vis, lines: &Vec<String>) -> (r: Result<Vis, Error>)
        ensures
            r is Ok <==> scan(self, string_views(lines@)) is Ok,
            r matches Err(e) ==> scan(self, string_views(lines@)) == Err::<ScanState, Error>(e),
    {
        let mut beatmap = beatmap;
        match self.run(lines) {
            Err(e) => Err(e),
            Ok(d) => {
                let Decoded {
                    version,
                    general,
                    editor,
                    metadata,
                    difficulty,
                    events,
                    timing_points,
                    colours,
                    hit_objects,
                } = d;
                if let Some(v) = version {
                    beatmap.visit_file_format_version(v);
                }
                if self.general {
                    beatmap.visit_general(general);
                }
                if self.editor {
                    beatmap.visit_editor(editor);
                }
                if self.metadata {
                    beatmap.visit_metadata(metadata);
                }
                if self.difficulty {
                    beatmap.visit_difficulty(difficulty);
                }
                if self.events {
                    beatmap.visit_events(events);
                }
                if self.timing_points {
                    beatmap.visit_timing_points(timing_points);
                }
                if self.colours {
                    beatmap.visit_colours(colours);
                }
                if self.hit_objects {
                    beatmap.visit_hit_objects(hit_objects);
                }
                Ok(beatmap)
            },
        }
    }
}

} // verus!
