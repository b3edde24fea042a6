//! Aggregate beatmap values delivered by a decode.

use vstd::prelude::*;

use crate::Error;
use crate::colour::Colours;
use crate::colour::ColoursV;
use crate::colour::spec_colours_default;
use crate::decoder::BeatmapDecoder;
use crate::decoder::ScanState;
use crate::decoder::Visitor;
use crate::decoder::scan;
use crate::difficulty::Difficulty;
use crate::difficulty::spec_difficulty_default;
use crate::editor::Editor;
use crate::editor::EditorV;
use crate::editor::spec_editor_default;
use crate::event::EventKind;
use crate::event::EventKindV;
use crate::event::event_views;
use crate::general::General;
use crate::general::GeneralV;
use crate::general::spec_general_default;
use crate::hit_object::HitObject;
use crate::hit_object::HitObjectV;
use crate::hit_object::hit_object_views;
use crate::metadata::Metadata;
use crate::metadata::MetadataV;
use crate::metadata::spec_metadata_default;
use crate::strutil::string_views;
use crate::timing_point::TimingPoint;

verus! {

/// Spec-level image of [`Beatmap`].
pub struct BeatmapV {
    pub file_format_version: u8,
    pub general: GeneralV,
    pub editor: EditorV,
    pub metadata: MetadataV,
    pub difficulty: Difficulty,
    pub events: Seq<EventKindV>,
    pub timing_points: Seq<TimingPoint>,
    pub colours: ColoursV,
    pub hit_objects: Seq<HitObjectV>,
}

/// A fully decoded beatmap: one value per category. A category that was
/// not selected keeps its default value.
#[derive(Debug, Clone, PartialEq)]
pub struct Beatmap {
    /// Version number from the file-format header.
    pub file_format_version: u8,
    /// The `General` section.
    pub general: General,
    /// The `Editor` section.
    pub editor: Editor,
    /// The `Metadata` section.
    pub metadata: Metadata,
    /// The `Difficulty` section.
    pub difficulty: Difficulty,
    /// The `Events` section, in file order.
    pub events: Vec<EventKind>,
    /// The `TimingPoints` section, in file order.
    pub timing_points: Vec<TimingPoint>,
    /// The `Colours` section.
    pub colours: Colours,
    /// The `HitObjects` section, in file order.
    pub hit_objects: Vec<HitObject>,
}

impl View for Beatmap {
    type V = BeatmapV;

    open spec fn view(&self) -> BeatmapV {
        BeatmapV {
            file_format_version: self.file_format_version,
            general: self.general@,
            editor: self.editor@,
            metadata: self.metadata@,
            difficulty: self.difficulty,
            events: event_views(self.events@),
            timing_points: self.timing_points@,
            colours: self.colours@,
            hit_objects: hit_object_views(self.hit_objects@),
        }
    }
}

/// The beatmap before anything is decoded into it: version zero and every
/// category at its default.
pub open spec fn spec_beatmap_default() -> BeatmapV {
    BeatmapV {
        file_format_version: 0,
        general: spec_general_default(),
        editor: spec_editor_default(),
        metadata: spec_metadata_default(),
        difficulty: spec_difficulty_default(),
        events: Seq::empty(),
        timing_points: Seq::empty(),
        colours: spec_colours_default(),
        hit_objects: Seq::empty(),
    }
}

/// The beatmap a finished scan state denotes: each decoded category's
/// value, the default for a category that was not computed, and the
/// version header's number reduced to a byte (zero when no header was
/// seen).
pub open spec fn beatmap_of(st: ScanState) -> BeatmapV {
    BeatmapV {
        file_format_version: match st.version {
            Some(v) => v as u8,
            None => 0,
        },
        general: match st.general {
            Some(g) => g,
            None => spec_general_default(),
        },
        editor: match st.editor {
            Some(e) => e,
            None => spec_editor_default(),
        },
        metadata: match st.metadata {
            Some(m) => m,
            None => spec_metadata_default(),
        },
        difficulty: match st.difficulty {
            Some(d) => d,
            None => spec_difficulty_default(),
        },
        events: match st.events {
            Some(es) => es,
            None => Seq::empty(),
        },
        timing_points: match st.timing_points {
            Some(ts) => ts,
            None => Seq::empty(),
        },
        colours: match st.colours {
            Some(c) => c,
            None => spec_colours_default(),
        },
        hit_objects: match st.hit_objects {
            Some(hs) => hs,
            None => Seq::empty(),
        },
    }
}

impl Default for Beatmap {
    /// The beatmap before anything is decoded into it.
    fn default() -> (r: Self)
        ensures
            r@ == spec_beatmap_default(),
    {
        let r = Beatmap {
            file_format_version: 0,
            general: General::default(),
            editor: Editor::default(),
            metadata: Metadata::default(),
            difficulty: Difficulty::default(),
            events: Vec::new(),
            timing_points: Vec::new(),
            colours: Colours::default(),
            hit_objects: Vec::new(),
        };
        proof {
            assert(event_views(r.events@) =~= Seq::<EventKindV>::empty());
            assert(hit_object_views(r.hit_objects@) =~= Seq::<HitObjectV>::empty());
        }
        r
    }
}

impl Visitor for Beatmap {
    /// Stores the version header's number, reduced to a byte, and nothing
    /// else.
    fn visit_file_format_version(&mut self, version: u32)
        ensures
            *final(self) == (Beatmap { file_format_version: version as u8, ..*old(self) }),
    {
        self.file_format_version = #[verifier::truncate] (version as u8);
    }

    /// Stores the delivered `General` section and nothing else.
    fn visit_general(&mut self, general: General)
        ensures
            *final(self) == (Beatmap { general, ..*old(self) }),
    {
        self.general = general;
    }

    /// Stores the delivered `Editor` section and nothing else.
    fn visit_editor(&mut self, editor: Editor)
        ensures
            *final(self) == (Beatmap { editor, ..*old(self) }),
    {
        self.editor = editor;
    }

    /// Stores the delivered `Metadata` section and nothing else.
    fn visit_metadata(&mut self, metadata: Metadata)
        ensures
            *final(self) == (Beatmap { metadata, ..*old(self) }),
    {
        self.metadata = metadata;
    }

    /// Stores the delivered `Difficulty` section and nothing else.
    fn visit_difficulty(&mut self, difficulty: Difficulty)
        ensures
            *final(self) == (Beatmap { difficulty, ..*old(self) }),
    {
        self.difficulty = difficulty;
    }

    /// Stores the delivered events, in their delivered order, and nothing
    /// else.
    fn visit_events(&mut self, events: Vec<EventKind>)
        ensures
            *final(self) == (Beatmap { events, ..*old(self) }),
    {
        self.events = events;
    }

    /// Stores the delivered timing points, in their delivered order, and
    /// nothing else.
    fn visit_timing_points(&mut self, timing_points: Vec<TimingPoint>)
        ensures
            *final(self) == (Beatmap { timing_points, ..*old(self) }),
    {
        self.timing_points = timing_points;
    }

    /// Stores the delivered `Colours` section and nothing else.
    fn visit_colours(&mut self, colours: Colours)
        ensures
            *final(self) == (Beatmap { colours, ..*old(self) }),
    {
        self.colours = colours;
    }

    /// Stores the delivered hit objects, in their delivered order, and
    /// nothing else.
    fn visit_hit_objects(&mut self, hit_objects: Vec<HitObject>)
        ensures
            *final(self) == (Beatmap { hit_objects, ..*old(self) }),
    {
        self.hit_objects = hit_objects;
    }
}

/// Spec-level image of [`MinimalBeatmap`].
pub struct MinimalBeatmapV {
    pub general: GeneralV,
    pub metadata: MetadataV,
    pub difficulty: Difficulty,
    pub events: Seq<EventKindV>,
    pub timing_points: Seq<TimingPoint>,
}

/// A beatmap reduced to the categories of the `minimal` preset.
#[derive(Debug, Clone, PartialEq)]
pub struct MinimalBeatmap {
    /// The `General` section.
    pub general: General,
    /// The `Metadata` section.
    pub metadata: Metadata,
    /// The `Difficulty` section.
    pub difficulty: Difficulty,
    /// The `Events` section, in file order.
    pub events: Vec<EventKind>,
    /// The `TimingPoints` section, in file order.
    pub timing_points: Vec<TimingPoint>,
}

impl View for MinimalBeatmap {
    type V = MinimalBeatmapV;

    open spec fn view(&self) -> MinimalBeatmapV {
        MinimalBeatmapV {
            general: self.general@,
            metadata: self.metadata@,
            difficulty: self.difficulty,
            events: event_views(self.events@),
            timing_points: self.timing_points@,
        }
    }
}

impl Default for MinimalBeatmap {
    /// The minimal beatmap before anything is decoded into it.
    fn default() -> (r: Self)
        ensures
            r@ == (MinimalBeatmapV {
                general: spec_general_default(),
                metadata: spec_metadata_default(),
                difficulty: spec_difficulty_default(),
                events: Seq::empty(),
                timing_points: Seq::empty(),
            }),
    {
        let r = MinimalBeatmap {
            general: General::default(),
            metadata: Metadata::default(),
            difficulty: Difficulty::default(),
            events: Vec::new(),
            timing_points: Vec::new(),
        };
        proof {
            assert(event_views(r.events@) =~= Seq::<EventKindV>::empty());
        }
        r
    }
}

impl Visitor for MinimalBeatmap {
    /// Stores the delivered `General` section and nothing else.
    fn visit_general(&mut self, general: General)
        ensures
            *final(self) == (MinimalBeatmap { general, ..*old(self) }),
    {
        self.general = general;
    }

    /// Stores the delivered `Metadata` section and nothing else.
    fn visit_metadata(&mut self, metadata: Metadata)
        ensures
            *final(self) == (MinimalBeatmap { metadata, ..*old(self) }),
    {
        self.metadata = metadata;
    }

    /// Stores the delivered `Difficulty` section and nothing else.
    fn visit_difficulty(&mut self, difficulty: Difficulty)
        ensures
            *final(self) == (MinimalBeatmap { difficulty, ..*old(self) }),
    {
        self.difficulty = difficulty;
    }

    /// Stores the delivered events, in their delivered order, and nothing
    /// else.
    fn visit_events(&mut self, events: Vec<EventKind>)
        ensures
            *final(self) == (MinimalBeatmap { events, ..*old(self) }),
    {
        self.events = events;
    }

    /// Stores the delivered timing points, in their delivered order, and
    /// nothing else.
    fn visit_timing_points(&mut self, timing_points: Vec<TimingPoint>)
        ensures
            *final(self) == (MinimalBeatmap { timing_points, ..*old(self) }),
    {
        self.timing_points = timing_points;
    }
}

impl BeatmapDecoder {
    /// Decodes the lines of a beatmap into a [`Beatmap`]: every selected
    /// category holds the scanned value, every other category its default.
    /// Any failure of the scan aborts the whole decode with no partial
    /// result.
    pub fn decode(self, lines: &Vec<String>) -> (r: Result<Beatmap, Error>)
        ensures
            match scan(self, string_views(lines@)) {
                Ok(st) => r matches Ok(b) && b@ == beatmap_of(st),
                Err(e) => r matches Err(e2) && e2 == e,
            },
    {
        match self.run(lines) {
            Err(e) => Err(e),
            Ok(d) => {
                let crate::decoder::Decoded {
                    version,
                    general,
                    editor,
                    metadata,
                    difficulty,
                    events,
                    timing_points,
                    colours,
                    hit_objects,
                } = d;
                let file_format_version: u8 = match version {
                    Some(v) => #[verifier::truncate] (v as u8),
                    None => 0,
                };
                let b = Beatmap {
                    file_format_version,
                    general,
                    editor,
                    metadata,
                    difficulty,
                    events,
                    timing_points,
                    colours,
                    hit_objects,
                };
                proof {
                    let st = scan(self, string_views(lines@))->Ok_0;
                    if !self.events {
                        assert(event_views(b.events@) =~= Seq::<EventKindV>::empty());
                    }
                    if !self.hit_objects {
                        assert(hit_object_views(b.hit_objects@) =~= Seq::<HitObjectV>::empty());
                    }
                    if !self.timing_points {
                        assert(b.timing_points@ =~= Seq::<TimingPoint>::empty());
                    }
                }
                Ok(b)
            },
        }
    }
}

} // verus!
