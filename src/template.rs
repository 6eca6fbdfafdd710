//! Message templates: literal text with `{field}` substitutions; `{{` and
//! `}}` stand for literal braces.

use vstd::prelude::*;

verus! {

/// A parsed piece of a template.
pub enum Part {
    Text(Seq<char>),
    Field(Seq<char>),
}

pub open spec fn is_brace(c: char) -> bool {
    c == '{' || c == '}'
}

/// Characters allowed in a substituted field name.
pub open spec fn is_ident_char(c: char) -> bool {
    ('a' <= c && c <= 'z') || ('A' <= c && c <= 'Z') || ('0' <= c && c <= '9') || c == '_'
}

/// The end of the run of non-brace characters starting at `i`.
pub open spec fn text_end(s: Seq<char>, i: int) -> int
    decreases s.len() - i,
{
    if i < 0 || i >= s.len() || is_brace(s[i]) {
        i
    } else {
        text_end(s, i + 1)
    }
}

/// The end of the run of identifier characters starting at `i`.
pub open spec fn ident_end(s: Seq<char>, i: int) -> int
    decreases s.len() - i,
{
    if i < 0 || i >= s.len() || !is_ident_char(s[i]) {
        i
    } else {
        ident_end(s, i + 1)
    }
}

/// The parts of `s` from position `i` on, or `None` when the text is not a
/// well-formed template there.
pub open spec fn parts_from(s: Seq<char>, i: int) -> Option<Seq<Part>>
    decreases s.len() - i, 0int,
{
    if i < 0 || i >= s.len() {
        Some(Seq::empty())
    } else if !is_brace(s[i]) {
        let j = text_end(s, i + 1);
        if j <= i || j > s.len() {
            None
        } else {
            prepend(Part::Text(s.subrange(i, j)), parts_from(s, j))
        }
    } else if i + 1 < s.len() && s[i + 1] == s[i] {
        prepend(Part::Text(seq![s[i]]), parts_from(s, i + 2))
    } else if s[i] == '}' {
        None
    } else {
        let j = ident_end(s, i + 1);
        if i + 1 < j && j < s.len() && s[j] == '}' {
            prepend(Part::Field(s.subrange(i + 1, j)), parts_from(s, j + 1))
        } else {
            None
        }
    }
}

pub open spec fn prepend(p: Part, rest: Option<Seq<Part>>) -> Option<Seq<Part>> {
    match rest {
        Some(r) => Some(seq![p] + r),
        None => None,
    }
}

/// The parts of a template, or `None` when it is not well formed.
pub open spec fn template_parts(s: Seq<char>) -> Option<Seq<Part>> {
    parts_from(s, 0)
}

pub open spec fn concat_opt(a: Seq<Part>, rest: Option<Seq<Part>>) -> Option<Seq<Part>> {
    match rest {
        Some(r) => Some(a + r),
        None => None,
    }
}

/// Whether `s` holds a brace, which makes a message text a template.
pub open spec fn has_brace(s: Seq<char>) -> bool {
    exists|k: int| 0 <= k < s.len() && is_brace(#[trigger] s[k])
}

proof fn lemma_text_end_scans(s: Seq<char>, i: int)
    requires
        0 <= i <= s.len(),
    ensures
        i <= text_end(s, i) <= s.len(),
        forall|k: int| i <= k < text_end(s, i) ==> !is_brace(#[trigger] s[k]),
        text_end(s, i) < s.len() ==> is_brace(s[text_end(s, i)]),
    decreases s.len() - i,
{
    if i < s.len() && !is_brace(s[i]) {
        lemma_text_end_scans(s, i + 1);
    }
}

/// A piece of a parsed template.
#[derive(Debug, Clone, PartialEq)]
pub enum Segment {
    Text(String),
    Field(String),
}

impl View for Segment {
    type V = Part;

    open spec fn view(&self) -> Part {
        match self {
            Segment::Text(t) => Part::Text(t@),
            Segment::Field(f) => Part::Field(f@),
        }
    }
}

pub open spec fn segments_view(v: Seq<Segment>) -> Seq<Part> {
    v.map_values(|g: Segment| g@)
}

fn char_is_brace(c: char) -> (r: bool)
    ensures
        r == is_brace(c),
{
    c == '{' || c == '}'
}

fn char_is_ident(c: char) -> (r: bool)
    ensures
        r == is_ident_char(c),
{
    ('a' <= c && c <= 'z') || ('A' <= c && c <= 'Z') || ('0' <= c && c <= '9') || c == '_'
}

/// Scans the run of non-brace characters from `i`.
fn scan_text(s: &str, i: usize, n: usize) -> (r: usize)
    requires
        n == s@.len(),
        i <= n,
    ensures
        r == text_end(s@, i as int),
        i <= r <= n,
{
    let mut j = i;
    while j < n && !char_is_brace(s.get_char(j))
        invariant
            n == s@.len(),
            i <= j <= n,
            text_end(s@, j as int) == text_end(s@, i as int),
        decreases n - j,
    {
        j = j + 1;
    }
    j
}

/// Scans the run of identifier characters from `i`.
fn scan_ident(s: &str, i: usize, n: usize) -> (r: usize)
    requires
        n == s@.len(),
        i <= n,
    ensures
        r == ident_end(s@, i as int),
        i <= r <= n,
{
    let mut j = i;
    while j < n && char_is_ident(s.get_char(j))
        invariant
            n == s@.len(),
            i <= j <= n,
            ident_end(s@, j as int) == ident_end(s@, i as int),
        decreases n - j,
    {
        j = j + 1;
    }
    j
}

/// Whether the text holds a brace.
pub fn contains_brace(s: &str) -> (r: bool)
    ensures
        r == has_brace(s@),
{
    let n = s.unicode_len();
    let j = scan_text(s, 0, n);
    proof {
        lemma_text_end_scans(s@, 0);
        if j < n {
            assert(is_brace(s@[j as int]));
        }
    }
    j < n
}

/// Parses a message template into literal text and field substitutions;
/// `None` when a brace is unmatched or a substitution is not a name.
pub fn parse_template(s: &str) -> (r: Option<Vec<Segment>>)
    ensures
        match r {
            Some(v) => template_parts(s@) == Some(segments_view(v@)),
            None => template_parts(s@) is None,
        },
{
    let n = s.unicode_len();
    let mut out: Vec<Segment> = Vec::new();
    let mut i: usize = 0;
    while i < n
        invariant
            n == s@.len(),
            i <= n,
            template_parts(s@) == concat_opt(segments_view(out@), parts_from(s@, i as int)),
        decreases n - i,
    {
        let ghost before = segments_view(out@);
        let c = s.get_char(i);
        if !char_is_brace(c) {
            let j = scan_text(s, i + 1, n);
            let t = s.substring_char(i, j).to_string();
            out.push(Segment::Text(t));
            proof {
                assert(segments_view(out@) =~= before + seq![Part::Text(s@.subrange(i as int, j as int))]);
                assert(parts_from(s@, i as int) == prepend(Part::Text(s@.subrange(i as int, j as int)), parts_from(s@, j as int)));
                match parts_from(s@, j as int) {
                    Some(rest) => {
                        assert(before + (seq![Part::Text(s@.subrange(i as int, j as int))] + rest)
                            =~= segments_view(out@) + rest);
                    },
                    None => {},
                }
            }
            i = j;
        } else if i + 1 < n && s.get_char(i + 1) == c {
            let t = s.substring_char(i, i + 1).to_string();
            proof {
                assert(s@.subrange(i as int, i + 1) =~= seq![s@[i as int]]);
            }
            out.push(Segment::Text(t));
            proof {
                assert(segments_view(out@) =~= before + seq![Part::Text(seq![s@[i as int]])]);
                match parts_from(s@, i + 2) {
                    Some(rest) => {
                        assert(before + (seq![Part::Text(seq![s@[i as int]])] + rest)
                            =~= segments_view(out@) + rest);
                    },
                    None => {},
                }
            }
            i = i + 2;
        } else if c == '}' {
            return None;
        } else {
            let j = scan_ident(s, i + 1, n);
            if i + 1 < j && j < n && s.get_char(j) == '}' {
                let f = s.substring_char(i + 1, j).to_string();
                out.push(Segment::Field(f));
                proof {
                    let p = Part::Field(s@.subrange(i + 1, j as int));
                    assert(segments_view(out@) =~= before + seq![p]);
                    match parts_from(s@, j + 1) {
                        Some(rest) => {
                            assert(before + (seq![p] + rest) =~= segments_view(out@) + rest);
                        },
                        None => {},
                    }
                }
                i = j + 1;
            } else {
                return None;
            }
        }
    }
    proof {
        assert(segments_view(out@) + Seq::<Part>::empty() =~= segments_view(out@));
    }
    Some(out)
}

} // verus!
