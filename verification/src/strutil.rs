//! Character-sequence utilities shared by the section parsers.
//!
//! Every executable helper is specified against a spec function over
//! `Seq<char>`, so the section parsers can state their contracts purely
//! over the views of their string inputs.

use vstd::prelude::*;

verus! {

/// Whitespace stripped by [`trim`]: the Unicode white-space characters, as
/// the standard library's trimming removes them.
pub open spec fn is_space(c: char) -> bool {
    ||| c == ' '
    ||| c == '\t'
    ||| c == '\n'
    ||| c == '\u{b}'
    ||| c == '\u{c}'
    ||| c == '\r'
    ||| c == '\u{85}'
    ||| c == '\u{a0}'
    ||| c == '\u{1680}'
    ||| ('\u{2000}' <= c && c <= '\u{200a}')
    ||| c == '\u{2028}'
    ||| c == '\u{2029}'
    ||| c == '\u{202f}'
    ||| c == '\u{205f}'
    ||| c == '\u{3000}'
}

/// The sequence with leading whitespace removed.
pub open spec fn trim_front(s: Seq<char>) -> Seq<char>
    decreases s.len(),
{
    if s.len() > 0 && is_space(s[0]) {
        trim_front(s.skip(1))
    } else {
        s
    }
}

/// The sequence with trailing whitespace removed.
pub open spec fn trim_back(s: Seq<char>) -> Seq<char>
    decreases s.len(),
{
    if s.len() > 0 && is_space(s[s.len() - 1]) {
        trim_back(s.take(s.len() - 1))
    } else {
        s
    }
}

/// The sequence with leading and trailing whitespace removed.
pub open spec fn spec_trim(s: Seq<char>) -> Seq<char> {
    trim_back(trim_front(s))
}

/// `prefix` is an initial segment of `s`.
pub open spec fn starts_with(s: Seq<char>, prefix: Seq<char>) -> bool {
    s.len() >= prefix.len() && s.take(prefix.len() as int) == prefix
}

/// Position of the first occurrence of `sep` in `s`, if any.
pub open spec fn find_char(s: Seq<char>, sep: char) -> Option<int>
    decreases s.len(),
{
    if s.len() == 0 {
        None
    } else if s[0] == sep {
        Some(0int)
    } else {
        match find_char(s.skip(1), sep) {
            None => None,
            Some(i) => Some(i + 1),
        }
    }
}

/// What [`find_char`] returns: the first position holding `sep`, with no
/// earlier occurrence, or `None` when `sep` does not occur at all.
pub proof fn lemma_find_char(s: Seq<char>, sep: char)
    ensures
        match find_char(s, sep) {
            Some(i) => 0 <= i < s.len() && s[i] == sep && forall|j: int| 0 <= j < i ==> s[j] != sep,
            None => forall|j: int| 0 <= j < s.len() ==> s[j] != sep,
        },
    decreases s.len(),
{
    if s.len() > 0 && s[0] != sep {
        lemma_find_char(s.skip(1), sep);
        match find_char(s.skip(1), sep) {
            Some(i) => {
                assert(s[i + 1] == s.skip(1)[i]);
                assert forall|j: int| 0 <= j < i + 1 implies s[j] != sep by {
                    if j > 0 {
                        assert(s[j] == s.skip(1)[j - 1]);
                    }
                }
            },
            None => {
                assert forall|j: int| 0 <= j < s.len() implies s[j] != sep by {
                    if j > 0 {
                        assert(s[j] == s.skip(1)[j - 1]);
                    }
                }
            },
        }
    }
}

/// [`find_char`] computed from a scan that stopped at position `i`.
pub proof fn lemma_find_char_at(s: Seq<char>, sep: char, i: int)
    requires
        0 <= i <= s.len(),
        forall|j: int| 0 <= j < i ==> s[j] != sep,
        i == s.len() || s[i] == sep,
    ensures
        i < s.len() ==> find_char(s, sep) == Some(i),
        i == s.len() ==> find_char(s, sep) is None,
    decreases i,
{
    if s.len() == 0 {
    } else if i == 0 {
    } else {
        assert(s[0] != sep);
        assert forall|j: int| 0 <= j < i - 1 implies s.skip(1)[j] != sep by {
            assert(s.skip(1)[j] == s[j + 1]);
        }
        assert(i - 1 == s.skip(1).len() || s.skip(1)[i - 1] == sep);
        lemma_find_char_at(s.skip(1), sep, i - 1);
    }
}

/// The pieces of `s` between occurrences of `sep`, in order. A sequence
/// without `sep` is one piece; each separator ends a piece, so `n`
/// separators give `n + 1` pieces.
pub open spec fn spec_split(s: Seq<char>, sep: char) -> Seq<Seq<char>>
    decreases s.len(),
    via spec_split_decreases
{
    match find_char(s, sep) {
        None => seq![s],
        Some(i) => seq![s.take(i)] + spec_split(s.skip(i + 1), sep),
    }
}

#[via_fn]
proof fn spec_split_decreases(s: Seq<char>, sep: char) {
    lemma_find_char(s, sep);
}

/// The text before and after the first occurrence of `sep`, if `sep` occurs.
pub open spec fn spec_split_once(s: Seq<char>, sep: char) -> Option<(Seq<char>, Seq<char>)> {
    match find_char(s, sep) {
        None => None,
        Some(i) => Some((s.take(i), s.skip(i + 1))),
    }
}

/// The views of a sequence of borrowed string slices.
pub open spec fn views_of(ss: Seq<&str>) -> Seq<Seq<char>> {
    ss.map_values(|t: &str| t@)
}

/// The pieces of `s` between occurrences of `sep`, each trimmed.
pub open spec fn trimmed_parts(s: Seq<char>, sep: char) -> Seq<Seq<char>> {
    spec_split(s, sep).map_values(|p: Seq<char>| spec_trim(p))
}

/// The views of a sequence of owned strings.
pub open spec fn string_views(ss: Seq<String>) -> Seq<Seq<char>> {
    ss.map_values(|t: String| t@)
}

/// Whether two string slices hold the same characters.
pub fn str_eq(a: &str, b: &str) -> (r: bool)
    ensures
        r == (a@ == b@),
{
    let alen = a.unicode_len();
    let blen = b.unicode_len();
    if alen != blen {
        return false;
    }
    let mut i: usize = 0;
    while i < alen
        invariant
            0 <= i <= alen,
            alen == a@.len(),
            alen == b@.len(),
            forall|j: int| 0 <= j < i ==> a@[j] == b@[j],
        decreases alen - i,
    {
        if a.get_char(i) != b.get_char(i) {
            return false;
        }
        i += 1;
    }
    proof {
        assert(a@ =~= b@);
    }
    true
}

/// Whether `s` begins with the characters of `prefix`.
pub fn has_prefix(s: &str, prefix: &str) -> (r: bool)
    ensures
        r == starts_with(s@, prefix@),
{
    let slen = s.unicode_len();
    let plen = prefix.unicode_len();
    if plen > slen {
        return false;
    }
    let mut i: usize = 0;
    while i < plen
        invariant
            0 <= i <= plen,
            plen <= slen,
            slen == s@.len(),
            plen == prefix@.len(),
            forall|j: int| 0 <= j < i ==> s@[j] == prefix@[j],
        decreases plen - i,
    {
        if s.get_char(i) != prefix.get_char(i) {
            proof {
                assert(s@.take(plen as int)[i as int] != prefix@[i as int]);
            }
            return false;
        }
        i += 1;
    }
    proof {
        assert(s@.take(plen as int) =~= prefix@);
    }
    true
}

/// [`trim_front`] removes exactly the leading run of whitespace.
proof fn lemma_trim_front_at(s: Seq<char>, a: int)
    requires
        0 <= a <= s.len(),
        forall|j: int| 0 <= j < a ==> is_space(s[j]),
        a == s.len() || !is_space(s[a]),
    ensures
        trim_front(s) == s.skip(a),
    decreases a,
{
    if a == 0 {
        assert(s.skip(0) =~= s);
    } else {
        assert(is_space(s[0]));
        assert forall|j: int| 0 <= j < a - 1 implies is_space(s.skip(1)[j]) by {
            assert(s.skip(1)[j] == s[j + 1]);
        }
        assert(a - 1 == s.skip(1).len() || !is_space(s.skip(1)[a - 1]));
        lemma_trim_front_at(s.skip(1), a - 1);
        assert(s.skip(1).skip(a - 1) =~= s.skip(a));
    }
}

/// [`trim_back`] removes exactly the trailing run of whitespace; `b` is the
/// position of the last character kept, `-1` when nothing is kept.
proof fn lemma_trim_back_at(s: Seq<char>, b: int)
    requires
        -1 <= b < s.len(),
        forall|j: int| b < j < s.len() ==> is_space(s[j]),
        b == -1 || !is_space(s[b]),
    ensures
        trim_back(s) == s.take(b + 1),
    decreases s.len(),
{
    if b == s.len() - 1 {
        assert(s.take(s.len() as int) =~= s);
    } else {
        assert(is_space(s[s.len() - 1]));
        let t = s.take(s.len() - 1);
        assert forall|j: int| b < j < t.len() implies is_space(t[j]) by {}
        lemma_trim_back_at(t, b);
        assert(t.take(b + 1) =~= s.take(b + 1));
    }
}

/// The slice of `s` with leading and trailing whitespace removed.
pub fn trim(s: &str) -> (r: &str)
    ensures
        r@ == spec_trim(s@),
{
    let len = s.unicode_len();
    let mut a: usize = 0;
    while a < len && is_space_char(s.get_char(a))
        invariant
            0 <= a <= len,
            len == s@.len(),
            forall|j: int| 0 <= j < a ==> is_space(s@[j]),
        decreases len - a,
    {
        a += 1;
    }
    proof {
        lemma_trim_front_at(s@, a as int);
    }
    if a == len {
        proof {
            assert(s@.skip(len as int) =~= Seq::<char>::empty());
        }
        let r = s.substring_char(len, len);
        proof {
            assert(r@ =~= spec_trim(s@));
        }
        return r;
    }
    let mut b: usize = len - 1;
    while b > a && is_space_char(s.get_char(b))
        invariant
            a <= b < len,
            len == s@.len(),
            forall|j: int| b < j < len ==> is_space(s@[j]),
        decreases b,
    {
        b -= 1;
    }
    let r = s.substring_char(a, b + 1);
    proof {
        let t = s@.skip(a as int);
        assert forall|j: int| b - a < j < t.len() implies is_space(t[j]) by {
            assert(t[j] == s@[j + a]);
        }
        assert(t[b - a] == s@[b as int]);
        assert(!is_space(s@[b as int]));
        lemma_trim_back_at(t, b - a);
        assert(t.take(b - a + 1) =~= s@.subrange(a as int, b + 1));
    }
    r
}

/// Executable test for the whitespace class of [`is_space`].
pub fn is_space_char(c: char) -> (r: bool)
    ensures
        r == is_space(c),
{
    c == ' ' || c == '\t' || c == '\n' || c == '\u{b}' || c == '\u{c}' || c == '\r' || c
        == '\u{85}' || c == '\u{a0}' || c == '\u{1680}' || ('\u{2000}' <= c && c <= '\u{200a}')
        || c == '\u{2028}' || c == '\u{2029}' || c == '\u{202f}' || c == '\u{205f}' || c
        == '\u{3000}'
}

/// The pieces of `s` between occurrences of `sep`, as slices of `s`.
pub fn split_char<'a>(s: &'a str, sep: char) -> (parts: Vec<&'a str>)
    ensures
        views_of(parts@) == spec_split(s@, sep),
{
    let len = s.unicode_len();
    let mut parts: Vec<&str> = Vec::new();
    let mut start: usize = 0;
    let mut i: usize = 0;
    proof {
        assert(s@.skip(0) =~= s@);
        assert(views_of(parts@) + spec_split(s@.skip(0), sep) =~= spec_split(s@, sep));
    }
    while i < len
        invariant
            0 <= start <= i <= len,
            len == s@.len(),
            forall|j: int| start <= j < i ==> s@[j] != sep,
            spec_split(s@, sep) == views_of(parts@) + spec_split(s@.skip(start as int), sep),
        decreases len - i,
    {
        if s.get_char(i) == sep {
            let piece = s.substring_char(start, i);
            proof {
                let t = s@.skip(start as int);
                assert forall|j: int| 0 <= j < i - start implies t[j] != sep by {
                    assert(t[j] == s@[j + start]);
                }
                assert(t[i - start] == s@[i as int]);
                lemma_find_char_at(t, sep, i - start);
                assert(t.take(i - start) =~= s@.subrange(start as int, i as int));
                assert(t.skip(i - start + 1) =~= s@.skip(i + 1));
                assert(views_of(parts@.push(piece)) =~= views_of(parts@).push(piece@));
                assert(views_of(parts@) + spec_split(s@.skip(start as int), sep) =~= views_of(
                    parts@.push(piece),
                ) + spec_split(s@.skip(i + 1), sep));
            }
            parts.push(piece);
            start = i + 1;
        }
        i += 1;
    }
    let piece = s.substring_char(start, len);
    proof {
        let t = s@.skip(start as int);
        assert forall|j: int| 0 <= j < t.len() implies t[j] != sep by {
            assert(t[j] == s@[j + start]);
        }
        lemma_find_char_at(t, sep, t.len() as int);
        assert(piece@ =~= t);
        assert(views_of(parts@.push(piece)) =~= views_of(parts@).push(piece@));
        assert(views_of(parts@.push(piece)) =~= views_of(parts@) + seq![t]);
    }
    parts.push(piece);
    parts
}

/// The pieces of `s` between occurrences of `sep`, each trimmed, as slices
/// of `s`. There is always at least one piece.
pub fn split_trimmed<'a>(s: &'a str, sep: char) -> (parts: Vec<&'a str>)
    ensures
        views_of(parts@) == trimmed_parts(s@, sep),
        parts@.len() > 0,
{
    let raw = split_char(s, sep);
    let mut parts: Vec<&str> = Vec::new();
    let n = raw.len();
    let mut i: usize = 0;
    while i < n
        invariant
            0 <= i <= n,
            n == raw@.len(),
            views_of(raw@) == spec_split(s@, sep),
            parts@.len() == i,
            forall|j: int|
                0 <= j < i ==> #[trigger] views_of(parts@)[j] == trimmed_parts(s@, sep)[j],
        decreases n - i,
    {
        let t = trim(raw[i]);
        proof {
            assert(views_of(raw@)[i as int] == raw@[i as int]@);
            assert(trimmed_parts(s@, sep)[i as int] == spec_trim(spec_split(s@, sep)[i as int]));
        }
        let ghost old_parts = parts@;
        parts.push(t);
        proof {
            assert forall|j: int| 0 <= j < i + 1 implies #[trigger] views_of(parts@)[j]
                == trimmed_parts(s@, sep)[j] by {
                assert(views_of(parts@)[j] == parts@[j]@);
                if j < i {
                    assert(parts@[j] == old_parts[j]);
                    assert(views_of(old_parts)[j] == old_parts[j]@);
                }
            }
        }
        i += 1;
    }
    proof {
        assert(views_of(parts@) =~= trimmed_parts(s@, sep));
    }
    parts
}

/// The text before and after the first occurrence of `sep`, as slices of `s`.
pub fn split_once_char<'a>(s: &'a str, sep: char) -> (r: Option<(&'a str, &'a str)>)
    ensures
        match r {
            Some((before, after)) => spec_split_once(s@, sep) == Some((before@, after@)),
            None => spec_split_once(s@, sep) is None,
        },
{
    let len = s.unicode_len();
    let mut i: usize = 0;
    while i < len
        invariant
            0 <= i <= len,
            len == s@.len(),
            forall|j: int| 0 <= j < i ==> s@[j] != sep,
        decreases len - i,
    {
        if s.get_char(i) == sep {
            proof {
                lemma_find_char_at(s@, sep, i as int);
            }
            let before = s.substring_char(0, i);
            let after = s.substring_char(i + 1, len);
            proof {
                assert(before@ =~= s@.take(i as int));
                assert(after@ =~= s@.skip(i + 1));
            }
            return Some((before, after));
        }
        i += 1;
    }
    proof {
        lemma_find_char_at(s@, sep, len as int);
    }
    None
}

} // verus!
