//! Syntax colouring of the YAML editor: the text is cut into spans of
//! comments, quoted strings, numbers, keys and plain text, each span cut
//! again where the search text occurs. Spans are byte ranges of the text.
use crate::codec::utf8_of;
use crate::log_analysis::{
    compile_pattern, compile_search, literal_compiles, pattern_find, regex_compiles, regex_find,
    Pattern,
};
use vstd::prelude::*;
use vstd::utf8::is_char_boundary;

verus! {

/// Pattern of a comment: from `#` to the end of the line.
pub const COMMENT_PATTERN: &'static str = "#.*";

/// Pattern of a quoted string, in double or single quotes.
pub const STRING_PATTERN: &'static str = r#""[^"]*"|'[^']*'"#;

/// Pattern of a number, whole or with a fraction.
pub const NUMBER_PATTERN: &'static str = r"\b\d+(\.\d+)?\b";

/// Pattern of a mapping key with its colon.
pub const KEY_PATTERN: &'static str = r"(\s*)([^:\n#]+):\s*";

/// How a span is coloured.
#[derive(PartialEq, Eq, Structural, Clone, Copy, Debug)]
pub enum Style {
    Normal,
    Comment,
    Quoted,
    Number,
    Key,
}

/// A coloured part of the text: bytes `start..end`, its style, and whether
/// it is an occurrence of the search text.
#[derive(PartialEq, Eq, Structural, Clone, Copy, Debug)]
pub struct Span {
    pub start: usize,
    pub end: usize,
    pub style: Style,
    pub found: bool,
}

/// The source of the pattern of a style.
pub open spec fn style_source(st: Style) -> Seq<char> {
    match st {
        Style::Comment => COMMENT_PATTERN@,
        Style::Quoted => STRING_PATTERN@,
        Style::Number => NUMBER_PATTERN@,
        Style::Key => KEY_PATTERN@,
        Style::Normal => Seq::<char>::empty(),
    }
}

/// The first match of a style's pattern in `text[from..to]`; none when
/// the pattern does not compile.
pub open spec fn token_find(st: Style, text: Seq<char>, from: int, to: int) -> Option<(int, int)> {
    if regex_compiles(style_source(st)) {
        regex_find(style_source(st), false, text, from, to)
    } else {
        None
    }
}

/// Keeps the earlier of the best match so far and a new one; on a tie the
/// earlier pattern wins.
pub open spec fn pick(best: Option<(int, int, Style)>, m: Option<(int, int)>, st: Style) -> Option<(int, int, Style)> {
    match m {
        Some(x) => if best is None || x.0 < (best->0).0 {
            Some((x.0, x.1, st))
        } else {
            best
        },
        None => best,
    }
}

/// The earliest token in `text[from..to]`: comments, then quoted strings,
/// numbers and keys, the earlier pattern winning a tie.
pub open spec fn earliest(text: Seq<char>, from: int, to: int) -> Option<(int, int, Style)> {
    pick(
        pick(
            pick(pick(None, token_find(Style::Comment, text, from, to), Style::Comment), token_find(Style::Quoted, text, from, to), Style::Quoted),
            token_find(Style::Number, text, from, to),
            Style::Number,
        ),
        token_find(Style::Key, text, from, to),
        Style::Key,
    )
}

/// The search matches used for highlighting: the case-insensitive literal
/// search text, when it is not empty and compiles.
pub open spec fn search_on(search: Seq<char>) -> bool {
    search.len() > 0 && literal_compiles(search)
}

/// A span as a tuple.
pub open spec fn span_of(s: Span) -> (int, int, Style, bool) {
    (s.start as int, s.end as int, s.style, s.found)
}

/// The spans of `text[from..to]` in style `st`, cut where the search text
/// occurs. (A match of no length ends the cutting; a literal search never
/// has one.)
pub open spec fn search_split(text: Seq<char>, search: Seq<char>, from: int, to: int, st: Style) -> Seq<(int, int, Style, bool)>
    decreases to - from,
{
    if from >= to {
        seq![]
    } else if !search_on(search) {
        seq![(from, to, st, false)]
    } else {
        match regex_find(search, true, text, from, to) {
            Some(m) => if 0 <= m.0 < m.1 && from + m.1 <= to {
                (if m.0 > 0 {
                    seq![(from, from + m.0, st, false)]
                } else {
                    seq![]
                }) + seq![(from + m.0, from + m.1, st, true)] + search_split(text, search, from + m.1, to, st)
            } else {
                seq![(from, to, st, false)]
            },
            None => seq![(from, to, st, false)],
        }
    }
}

/// The spans of `text` from byte `from` to its end `len`: plain text up to
/// the earliest token, the token, and so on. (A token of no length ends
/// the cutting; none of the patterns has one.)
pub open spec fn segments(text: Seq<char>, search: Seq<char>, from: int, len: int) -> Seq<(int, int, Style, bool)>
    decreases len - from,
{
    if from >= len {
        seq![]
    } else {
        match earliest(text, from, len) {
            Some(m) => if 0 <= m.0 <= m.1 && 0 < m.1 && from + m.1 <= len {
                (if m.0 > 0 {
                    search_split(text, search, from, from + m.0, Style::Normal)
                } else {
                    seq![]
                }) + search_split(text, search, from + m.0, from + m.1, m.2) + segments(
                    text,
                    search,
                    from + m.1,
                    len,
                )
            } else {
                search_split(text, search, from, len, Style::Normal)
            },
            None => search_split(text, search, from, len, Style::Normal),
        }
    }
}

/// The compiled patterns of the editor's colouring, and its search.
pub struct YamlPatterns {
    comment: Option<Pattern>,
    quoted: Option<Pattern>,
    number: Option<Pattern>,
    key: Option<Pattern>,
    search: Option<Pattern>,
    search_text: String,
}

impl YamlPatterns {
    /// The search text the patterns highlight.
    pub closed spec fn search_text(&self) -> Seq<char> {
        self.search_text@
    }

    /// Each pattern is the one its style names, compiled when it compiles;
    /// the search is the literal search text, when it is on.
    pub closed spec fn wf(&self) -> bool {
        &&& (self.comment is Some <==> regex_compiles(COMMENT_PATTERN@))
        &&& (self.comment matches Some(p) ==> p.source() == COMMENT_PATTERN@ && !p.is_literal())
        &&& (self.quoted is Some <==> regex_compiles(STRING_PATTERN@))
        &&& (self.quoted matches Some(p) ==> p.source() == STRING_PATTERN@ && !p.is_literal())
        &&& (self.number is Some <==> regex_compiles(NUMBER_PATTERN@))
        &&& (self.number matches Some(p) ==> p.source() == NUMBER_PATTERN@ && !p.is_literal())
        &&& (self.key is Some <==> regex_compiles(KEY_PATTERN@))
        &&& (self.key matches Some(p) ==> p.source() == KEY_PATTERN@ && !p.is_literal())
        &&& (self.search is Some <==> search_on(self.search_text()))
        &&& (self.search matches Some(p) ==> p.source() == self.search_text() && p.is_literal())
    }
}

/// The spans as tuples.
pub open spec fn spans_of(v: Seq<Span>) -> Seq<(int, int, Style, bool)> {
    v.map_values(|s: Span| span_of(s))
}

/// Compiles the colouring patterns and the search for `search`.
pub fn yaml_patterns(search: &str) -> (r: YamlPatterns)
    ensures
        r.wf(),
        r.search_text() == search@,
{
    let s = if search.is_empty() {
        None
    } else {
        compile_search(search)
    };
    YamlPatterns {
        comment: compile_pattern(COMMENT_PATTERN),
        quoted: compile_pattern(STRING_PATTERN),
        number: compile_pattern(NUMBER_PATTERN),
        key: compile_pattern(KEY_PATTERN),
        search: s,
        search_text: crate::text::string_of(&crate::text::chars_of(search)),
    }
}

fn find_with(p: &Option<Pattern>, text: &str, from: usize, to: usize, Ghost(st): Ghost<Style>) -> (r: Option<(usize, usize)>)
    requires
        from <= to <= utf8_of(text@).len(),
        is_char_boundary(utf8_of(text@), from as int),
        is_char_boundary(utf8_of(text@), to as int),
        p is Some <==> regex_compiles(style_source(st)),
        *p matches Some(q) ==> q.source() == style_source(st) && !q.is_literal(),
    ensures
        match r {
            Some(m) => token_find(st, text@, from as int, to as int) == Some((m.0 as int, m.1 as int))
                && m.0 <= m.1 <= to - from && is_char_boundary(utf8_of(text@), from + m.0)
                && is_char_boundary(utf8_of(text@), from + m.1),
            None => token_find(st, text@, from as int, to as int) is None,
        },
{
    match p {
        Some(q) => pattern_find(q, text, from, to),
        None => None,
    }
}

impl YamlPatterns {
    fn earliest_token(&self, text: &str, from: usize, to: usize) -> (r: Option<(usize, usize, Style)>)
        requires
            self.wf(),
            from <= to <= utf8_of(text@).len(),
            is_char_boundary(utf8_of(text@), from as int),
            is_char_boundary(utf8_of(text@), to as int),
        ensures
            match r {
                Some(m) => earliest(text@, from as int, to as int) == Some((m.0 as int, m.1 as int, m.2))
                    && m.0 <= m.1 <= to - from && is_char_boundary(utf8_of(text@), from + m.0)
                    && is_char_boundary(utf8_of(text@), from + m.1),
                None => earliest(text@, from as int, to as int) is None,
            },
    {
        let mut best: Option<(usize, usize, Style)> = None;
        let c = find_with(&self.comment, text, from, to, Ghost(Style::Comment));
        match c {
            Some((s, e)) => {
                best = Some((s, e, Style::Comment));
            },
            None => {},
        }
        let q = find_with(&self.quoted, text, from, to, Ghost(Style::Quoted));
        match q {
            Some((s, e)) => {
                let earlier = match best {
                    Some(b) => s < b.0,
                    None => true,
                };
                if earlier {
                    best = Some((s, e, Style::Quoted));
                }
            },
            None => {},
        }
        let n = find_with(&self.number, text, from, to, Ghost(Style::Number));
        match n {
            Some((s, e)) => {
                let earlier = match best {
                    Some(b) => s < b.0,
                    None => true,
                };
                if earlier {
                    best = Some((s, e, Style::Number));
                }
            },
            None => {},
        }
        let k = find_with(&self.key, text, from, to, Ghost(Style::Key));
        match k {
            Some((s, e)) => {
                let earlier = match best {
                    Some(b) => s < b.0,
                    None => true,
                };
                if earlier {
                    best = Some((s, e, Style::Key));
                }
            },
            None => {},
        }
        best
    }

    fn push_search_split(&self, out: &mut Vec<Span>, text: &str, from: usize, to: usize, st: Style)
        requires
            self.wf(),
            from <= to <= utf8_of(text@).len(),
            is_char_boundary(utf8_of(text@), from as int),
            is_char_boundary(utf8_of(text@), to as int),
        ensures
            spans_of(final(out)@) == spans_of(old(out)@) + search_split(text@, self.search_text(), from as int, to as int, st),
        decreases to - from,
    {
        let ghost before = spans_of(out@);
        if from >= to {
            assert(spans_of(out@) =~= before + search_split(text@, self.search_text(), from as int, to as int, st));
            return;
        }
        match &self.search {
            None => {
                out.push(Span { start: from, end: to, style: st, found: false });
                assert(spans_of(out@) =~= before + search_split(text@, self.search_text(), from as int, to as int, st));
            },
            Some(p) => {
                match pattern_find(p, text, from, to) {
                    Some((s, e)) => {
                        if s < e {
                            if s > 0 {
                                out.push(Span { start: from, end: from + s, style: st, found: false });
                            }
                            out.push(Span { start: from + s, end: from + e, style: st, found: true });
                            let ghost mid = spans_of(out@);
                            assert(mid =~= before + ((if s > 0 {
                                seq![(from as int, from + s, st, false)]
                            } else {
                                Seq::<(int, int, Style, bool)>::empty()
                            }) + seq![(from + s, from + e, st, true)]));
                            self.push_search_split(out, text, from + e, to, st);
                            assert(spans_of(out@) =~= before + search_split(text@, self.search_text(), from as int, to as int, st));
                        } else {
                            out.push(Span { start: from, end: to, style: st, found: false });
                            assert(spans_of(out@) =~= before + search_split(text@, self.search_text(), from as int, to as int, st));
                        }
                    },
                    None => {
                        out.push(Span { start: from, end: to, style: st, found: false });
                        assert(spans_of(out@) =~= before + search_split(text@, self.search_text(), from as int, to as int, st));
                    },
                }
            },
        }
    }

    /// The coloured spans of `text`, in order, covering it from its first
    /// byte to its last.
    pub fn yaml_spans(&self, text: &str) -> (r: Vec<Span>)
        requires
            self.wf(),
        ensures
            spans_of(r@) == segments(text@, self.search_text(), 0, utf8_of(text@).len() as int),
            tiles(spans_of(r@), 0, utf8_of(text@).len() as int),
    {
        broadcast use vstd::utf8::is_char_boundary_start_end_of_seq, vstd::utf8::encode_utf8_valid_utf8;

        let len = text.as_bytes().len();
        let mut out: Vec<Span> = Vec::new();
        let mut pos: usize = 0;
        assert(spans_of(out@) =~= Seq::<(int, int, Style, bool)>::empty());
        while pos < len
            invariant
                self.wf(),
                len == utf8_of(text@).len(),
                pos <= len,
                is_char_boundary(utf8_of(text@), pos as int),
                is_char_boundary(utf8_of(text@), len as int),
                spans_of(out@) + segments(text@, self.search_text(), pos as int, len as int) == segments(
                    text@,
                    self.search_text(),
                    0,
                    len as int,
                ),
            decreases len - pos,
        {
            let ghost before = spans_of(out@);
            match self.earliest_token(text, pos, len) {
                Some((s, e, st)) => {
                    if 0 < e {
                        if s > 0 {
                            self.push_search_split(&mut out, text, pos, pos + s, Style::Normal);
                        }
                        self.push_search_split(&mut out, text, pos + s, pos + e, st);
                        assert(spans_of(out@) =~= before + ((if s > 0 {
                            search_split(text@, self.search_text(), pos as int, pos + s, Style::Normal)
                        } else {
                            Seq::<(int, int, Style, bool)>::empty()
                        }) + search_split(text@, self.search_text(), pos + s, pos + e, st)));
                        pos = pos + e;
                    } else {
                        self.push_search_split(&mut out, text, pos, len, Style::Normal);
                        pos = len;
                        assert(segments(text@, self.search_text(), pos as int, len as int) =~= Seq::<(int, int, Style, bool)>::empty());
                    }
                },
                None => {
                    self.push_search_split(&mut out, text, pos, len, Style::Normal);
                    pos = len;
                    assert(segments(text@, self.search_text(), pos as int, len as int) =~= Seq::<(int, int, Style, bool)>::empty());
                },
            }
        }
        assert(segments(text@, self.search_text(), pos as int, len as int) =~= Seq::<(int, int, Style, bool)>::empty());
        proof {
            lemma_segments_tile(text@, self.search_text(), 0, len as int);
        }
        out
    }
}

/// `spans` cut the byte range `from..to` into consecutive non-empty parts.
pub open spec fn tiles(spans: Seq<(int, int, Style, bool)>, from: int, to: int) -> bool
    decreases spans.len(),
{
    if spans.len() == 0 {
        from == to
    } else {
        spans[0].0 == from && spans[0].0 < spans[0].1 && tiles(spans.drop_first(), spans[0].1, to)
    }
}

/// Two tilings of adjacent ranges make a tiling of their union.
pub proof fn lemma_tiles_concat(a: Seq<(int, int, Style, bool)>, b: Seq<(int, int, Style, bool)>, x: int, y: int, z: int)
    requires
        tiles(a, x, y),
        tiles(b, y, z),
    ensures
        tiles(a + b, x, z),
    decreases a.len(),
{
    if a.len() > 0 {
        lemma_tiles_concat(a.drop_first(), b, a[0].1, y, z);
        assert((a + b).drop_first() == a.drop_first() + b);
    } else {
        assert(a + b == b);
    }
}

/// The spans of a piece cut at search matches tile the piece.
pub proof fn lemma_search_split_tiles(text: Seq<char>, search: Seq<char>, from: int, to: int, st: Style)
    requires
        from <= to,
    ensures
        tiles(search_split(text, search, from, to, st), from, to),
    decreases to - from,
{
    reveal_with_fuel(tiles, 2);
    if from < to && search_on(search) {
        match regex_find(search, true, text, from, to) {
            Some(m) => {
                if 0 <= m.0 < m.1 && from + m.1 <= to {
                    lemma_search_split_tiles(text, search, from + m.1, to, st);
                    let rest = search_split(text, search, from + m.1, to, st);
                    let mid = seq![(from + m.0, from + m.1, st, true)];
                    assert(tiles(mid, from + m.0, from + m.1)) by {
                        assert(mid.drop_first() == Seq::<(int, int, Style, bool)>::empty());
                    }
                    lemma_tiles_concat(mid, rest, from + m.0, from + m.1, to);
                    if m.0 > 0 {
                        let head = seq![(from, from + m.0, st, false)];
                        assert(tiles(head, from, from + m.0)) by {
                            assert(head.drop_first() == Seq::<(int, int, Style, bool)>::empty());
                        }
                        lemma_tiles_concat(head, mid + rest, from, from + m.0, to);
                        assert(head + (mid + rest) == head + mid + rest);
                    } else {
                        assert(Seq::<(int, int, Style, bool)>::empty() + mid + rest == mid + rest);
                    }
                } else {
                    let one = seq![(from, to, st, false)];
                    assert(one.drop_first() == Seq::<(int, int, Style, bool)>::empty());
                }
            },
            None => {
                let one = seq![(from, to, st, false)];
                assert(one.drop_first() == Seq::<(int, int, Style, bool)>::empty());
            },
        }
    } else if from < to {
        let one = seq![(from, to, st, false)];
        assert(one.drop_first() == Seq::<(int, int, Style, bool)>::empty());
    }
}

/// The coloured spans of a text cover it from `from` to its end, in order,
/// without gaps or overlaps, each span holding at least one byte.
pub proof fn lemma_segments_tile(text: Seq<char>, search: Seq<char>, from: int, len: int)
    requires
        from <= len,
    ensures
        tiles(segments(text, search, from, len), from, len),
    decreases len - from,
{
    if from < len {
        match earliest(text, from, len) {
            Some(m) => {
                if 0 <= m.0 <= m.1 && 0 < m.1 && from + m.1 <= len {
                    lemma_segments_tile(text, search, from + m.1, len);
                    lemma_search_split_tiles(text, search, from + m.0, from + m.1, m.2);
                    let tok = search_split(text, search, from + m.0, from + m.1, m.2);
                    let rest = segments(text, search, from + m.1, len);
                    lemma_tiles_concat(tok, rest, from + m.0, from + m.1, len);
                    if m.0 > 0 {
                        lemma_search_split_tiles(text, search, from, from + m.0, Style::Normal);
                        let head = search_split(text, search, from, from + m.0, Style::Normal);
                        lemma_tiles_concat(head, tok + rest, from, from + m.0, len);
                        assert(head + (tok + rest) == head + tok + rest);
                    } else {
                        assert(Seq::<(int, int, Style, bool)>::empty() + tok + rest == tok + rest);
                    }
                } else {
                    lemma_search_split_tiles(text, search, from, len, Style::Normal);
                }
            },
            None => {
                lemma_search_split_tiles(text, search, from, len, Style::Normal);
            },
        }
    }
}

} // verus!
