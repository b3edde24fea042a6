//! Crosscutting guarantees of the decode engine.

use vstd::prelude::*;

use crate::Error;
use crate::beatmap::BeatmapV;
use crate::beatmap::beatmap_of;
use crate::decoder::BeatmapDecoder;
use crate::decoder::ScanState;
use crate::decoder::lemma_scan_err_sticky;
use crate::decoder::scan;
use crate::decoder::scan_line;
use crate::decoder::spec_all;
use crate::event::spec_parse_event;
use crate::hit_object::HitObjectV;
use crate::hit_object::spec_parse_hit_object;
use crate::numbers::Decimal;
use crate::numbers::spec_parse_decimal;
use crate::strutil::starts_with;
use crate::strutil::trimmed_parts;

verus! {

/// The subset scan state `a` agrees with the full scan state `b`: same
/// version and section, every category present in `b`, and every category
/// of the selection equal between the two.
pub open spec fn agrees(sel: BeatmapDecoder, a: ScanState, b: ScanState) -> bool {
    &&& a.version == b.version
    &&& a.section == b.section
    &&& b.general is Some
    &&& b.editor is Some
    &&& b.metadata is Some
    &&& b.difficulty is Some
    &&& b.events is Some
    &&& b.timing_points is Some
    &&& b.colours is Some
    &&& b.hit_objects is Some
    &&& if sel.general {
        a.general == b.general
    } else {
        a.general is None
    }
    &&& if sel.editor {
        a.editor == b.editor
    } else {
        a.editor is None
    }
    &&& if sel.metadata {
        a.metadata == b.metadata
    } else {
        a.metadata is None
    }
    &&& if sel.difficulty {
        a.difficulty == b.difficulty
    } else {
        a.difficulty is None
    }
    &&& if sel.events {
        a.events == b.events
    } else {
        a.events is None
    }
    &&& if sel.timing_points {
        a.timing_points == b.timing_points
    } else {
        a.timing_points is None
    }
    &&& if sel.colours {
        a.colours == b.colours
    } else {
        a.colours is None
    }
    &&& if sel.hit_objects {
        a.hit_objects == b.hit_objects
    } else {
        a.hit_objects is None
    }
}

/// One scan step preserves agreement: on a line the full scan survives,
/// the subset scan survives too, and the states still agree.
#[verifier::rlimit(100)]
proof fn lemma_scan_line_sim(sel: BeatmapDecoder, a: ScanState, b: ScanState, line: Seq<char>)
    requires
        agrees(sel, a, b),
        scan_line(b, line) is Ok,
    ensures
        scan_line(a, line) is Ok,
        agrees(sel, scan_line(a, line)->Ok_0, scan_line(b, line)->Ok_0),
{
    if crate::strutil::starts_with(line, "osu file format v"@) {
    } else if line.len() == 0 || crate::strutil::starts_with(line, "//"@) {
    } else if line.len() >= 2 && line[0] == '[' && line[line.len() - 1] == ']' {
    } else if a.section == "General"@ {
        assert(scan_line(a, line) is Ok);
    } else if a.section == "Editor"@ {
        assert(scan_line(a, line) is Ok);
    } else if a.section == "Metadata"@ {
        assert(scan_line(a, line) is Ok);
    } else if a.section == "Difficulty"@ {
        assert(scan_line(a, line) is Ok);
    } else if a.section == "TimingPoints"@ {
        assert(scan_line(a, line) is Ok);
    } else if a.section == "Events"@ {
        assert(scan_line(a, line) is Ok);
    } else if a.section == "Colours"@ {
        assert(scan_line(a, line) is Ok);
    } else if a.section == "HitObjects"@ {
        assert(scan_line(a, line) is Ok);
    } else {
    }
}

/// The whole scan preserves agreement: when the full scan of the lines
/// succeeds, the subset scan succeeds and its state agrees.
proof fn lemma_scan_sim(sel: BeatmapDecoder, lines: Seq<Seq<char>>)
    requires
        scan(spec_all(), lines) is Ok,
    ensures
        scan(sel, lines) is Ok,
        agrees(sel, scan(sel, lines)->Ok_0, scan(spec_all(), lines)->Ok_0),
    decreases lines.len(),
{
    if lines.len() > 0 {
        lemma_scan_sim(sel, lines.drop_last());
        lemma_scan_line_sim(
            sel,
            scan(sel, lines.drop_last())->Ok_0,
            scan(spec_all(), lines.drop_last())->Ok_0,
            lines.last(),
        );
    }
}

/// Selection never alters content. For any line stream whose full decode
/// succeeds, decoding with any subset selection also succeeds, and every
/// category present in the subset — and the format version — has exactly
/// the value the full decode gives it.
pub proof fn lemma_selection_consistent(sel: BeatmapDecoder, lines: Seq<Seq<char>>)
    requires
        scan(spec_all(), lines) is Ok,
    ensures
        scan(sel, lines) is Ok,
        ({
            let sub = scan(sel, lines)->Ok_0;
            let full = scan(spec_all(), lines)->Ok_0;
            &&& sub.version == full.version
            &&& sel.general ==> sub.general == full.general
            &&& sel.editor ==> sub.editor == full.editor
            &&& sel.metadata ==> sub.metadata == full.metadata
            &&& sel.difficulty ==> sub.difficulty == full.difficulty
            &&& sel.events ==> sub.events == full.events
            &&& sel.timing_points ==> sub.timing_points == full.timing_points
            &&& sel.colours ==> sub.colours == full.colours
            &&& sel.hit_objects ==> sub.hit_objects == full.hit_objects
        }),
{
    lemma_scan_sim(sel, lines);
}

/// An ordinary data line: not a version header, not blank, not a comment
/// and not a section header, so the scanner routes it to the parser of the
/// current section.
pub open spec fn is_data_line(line: Seq<char>) -> bool {
    &&& !starts_with(line, "osu file format v"@)
    &&& line.len() > 0
    &&& !starts_with(line, "//"@)
    &&& !(line.len() >= 2 && line[0] == '[' && line[line.len() - 1] == ']')
}

/// The section names the scanner compares against are pairwise distinct,
/// so a known current section decides the scanner's dispatch.
proof fn lemma_section_names_distinct()
    ensures
        "HitObjects"@ != "General"@,
        "HitObjects"@ != "Editor"@,
        "HitObjects"@ != "Metadata"@,
        "HitObjects"@ != "Difficulty"@,
        "HitObjects"@ != "TimingPoints"@,
        "HitObjects"@ != "Events"@,
        "HitObjects"@ != "Colours"@,
        "Events"@ != "General"@,
        "Events"@ != "Editor"@,
        "Events"@ != "Metadata"@,
        "Events"@ != "Difficulty"@,
        "Events"@ != "TimingPoints"@,
{
    reveal_strlit("General");
    reveal_strlit("Editor");
    reveal_strlit("Metadata");
    reveal_strlit("Difficulty");
    reveal_strlit("TimingPoints");
    reveal_strlit("Events");
    reveal_strlit("Colours");
    reveal_strlit("HitObjects");
    assert("General"@.len() == 7);
    assert("Editor"@.len() == 6);
    assert("Metadata"@.len() == 8);
    assert("Difficulty"@.len() == 10);
    assert("TimingPoints"@.len() == 12);
    assert("Events"@.len() == 6);
    assert("Colours"@.len() == 7);
    assert("HitObjects"@.len() == 10);
    assert("HitObjects"@ != "Difficulty"@) by {
        assert("HitObjects"@[0] != "Difficulty"@[0]);
    }
    assert("Events"@ != "Editor"@) by {
        assert("Events"@[1] != "Editor"@[1]);
    }
}

/// Every state of a successful scan carries an accumulator for exactly the
/// selected categories.
#[verifier::rlimit(100)]
pub proof fn lemma_scan_shape(sel: BeatmapDecoder, lines: Seq<Seq<char>>)
    requires
        scan(sel, lines) is Ok,
    ensures
        ({
            let st = scan(sel, lines)->Ok_0;
            &&& (st.general is Some) == sel.general
            &&& (st.editor is Some) == sel.editor
            &&& (st.metadata is Some) == sel.metadata
            &&& (st.difficulty is Some) == sel.difficulty
            &&& (st.events is Some) == sel.events
            &&& (st.timing_points is Some) == sel.timing_points
            &&& (st.colours is Some) == sel.colours
            &&& (st.hit_objects is Some) == sel.hit_objects
        }),
    decreases lines.len(),
{
    if lines.len() > 0 {
        lemma_scan_shape(sel, lines.drop_last());
        let prev = scan(sel, lines.drop_last())->Ok_0;
        let line = lines.last();
        if starts_with(line, "osu file format v"@) {
        } else if line.len() == 0 || starts_with(line, "//"@) {
        } else if line.len() >= 2 && line[0] == '[' && line[line.len() - 1] == ']' {
        } else if prev.section == "General"@ {
            assert(scan_line(prev, line) is Ok);
        } else if prev.section == "Editor"@ {
            assert(scan_line(prev, line) is Ok);
        } else if prev.section == "Metadata"@ {
            assert(scan_line(prev, line) is Ok);
        } else if prev.section == "Difficulty"@ {
            assert(scan_line(prev, line) is Ok);
        } else if prev.section == "TimingPoints"@ {
            assert(scan_line(prev, line) is Ok);
        } else if prev.section == "Events"@ {
            assert(scan_line(prev, line) is Ok);
        } else if prev.section == "Colours"@ {
            assert(scan_line(prev, line) is Ok);
        } else if prev.section == "HitObjects"@ {
            assert(scan_line(prev, line) is Ok);
        } else {
        }
    }
}

/// A `HitObjects` line whose first field does not parse as a decimal
/// number aborts the entire decode with a value-conversion error: the scan
/// of the whole line stream yields that error, however cleanly every
/// earlier line parsed, so the decoder returns it and never a partial
/// beatmap.
#[verifier::rlimit(100)]
pub proof fn lemma_bad_hit_object_aborts(sel: BeatmapDecoder, lines: Seq<Seq<char>>, i: int)
    requires
        sel.hit_objects,
        0 <= i < lines.len(),
        scan(sel, lines.take(i)) is Ok,
        (scan(sel, lines.take(i))->Ok_0).section == "HitObjects"@,
        is_data_line(lines[i]),
        spec_parse_decimal(trimmed_parts(lines[i], ',')[0]) is Err,
    ensures
        scan(sel, lines) == Err::<ScanState, Error>(Error::ParseFloatError),
{
    lemma_section_names_distinct();
    lemma_scan_shape(sel, lines.take(i));
    let st = scan(sel, lines.take(i))->Ok_0;
    let line = lines[i];
    assert(spec_parse_decimal(trimmed_parts(line, ',')[0]) == Err::<Decimal, Error>(
        Error::ParseFloatError,
    ));
    assert(spec_parse_hit_object(line) == Err::<HitObjectV, Error>(Error::ParseFloatError));
    assert(scan_line(st, line) == Err::<ScanState, Error>(Error::ParseFloatError));
    assert(lines.take(i + 1).drop_last() =~= lines.take(i));
    assert(lines.take(i + 1).last() == line);
    assert(scan(sel, lines.take(i + 1)) == Err::<ScanState, Error>(Error::ParseFloatError));
    lemma_scan_err_sticky(sel, lines, i + 1, lines.len() as int);
    assert(lines.take(lines.len() as int) =~= lines);
}

/// Two line streams that scan to the same result still do after the same
/// lines are appended to both.
pub proof fn lemma_scan_extend_equal(
    sel: BeatmapDecoder,
    a: Seq<Seq<char>>,
    b: Seq<Seq<char>>,
    s: Seq<Seq<char>>,
)
    requires
        scan(sel, a) == scan(sel, b),
    ensures
        scan(sel, a + s) == scan(sel, b + s),
    decreases s.len(),
{
    if s.len() == 0 {
        assert(a + s =~= a);
        assert(b + s =~= b);
    } else {
        lemma_scan_extend_equal(sel, a, b, s.drop_last());
        assert((a + s).drop_last() =~= a + s.drop_last());
        assert((b + s).drop_last() =~= b + s.drop_last());
        assert((a + s).last() == s.last());
        assert((b + s).last() == s.last());
    }
}

/// An `Events` line that fails to parse is dropped, not fatal: it leaves
/// the scan state untouched, and the whole decode proceeds exactly as if
/// the line were absent. The decoded events are therefore only the
/// section's parsable lines, fewer than the lines the section holds.
#[verifier::rlimit(100)]
pub proof fn lemma_bad_event_line_dropped(sel: BeatmapDecoder, lines: Seq<Seq<char>>, i: int)
    requires
        0 <= i < lines.len(),
        scan(sel, lines.take(i)) is Ok,
        (scan(sel, lines.take(i))->Ok_0).section == "Events"@,
        is_data_line(lines[i]),
        spec_parse_event(lines[i]) is Err,
    ensures
        scan(sel, lines.take(i + 1)) == scan(sel, lines.take(i)),
        scan(sel, lines) == scan(sel, lines.take(i) + lines.skip(i + 1)),
{
    lemma_section_names_distinct();
    let st = scan(sel, lines.take(i))->Ok_0;
    let line = lines[i];
    assert(scan_line(st, line) == Ok::<ScanState, Error>(st));
    assert(lines.take(i + 1).drop_last() =~= lines.take(i));
    assert(lines.take(i + 1).last() == line);
    lemma_scan_extend_equal(sel, lines.take(i + 1), lines.take(i), lines.skip(i + 1));
    assert(lines.take(i + 1) + lines.skip(i + 1) =~= lines);
}

/// Decoding is a pure function of the line stream and the selection: any
/// two beatmaps that the decoder's contract allows for the same scan
/// result are structurally equal, so two independent decodes of
/// byte-identical input cannot differ.
pub proof fn lemma_decode_deterministic(st: ScanState, b1: BeatmapV, b2: BeatmapV)
    requires
        b1 == beatmap_of(st),
        b2 == beatmap_of(st),
    ensures
        b1 == b2,
{
}

} // verus!
