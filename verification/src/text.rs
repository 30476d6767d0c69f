//! Character-level text utilities shared by the rest of the library.
//!
//! Strings are handled as sequences of Unicode scalar values (`Seq<char>`),
//! which is how Verus views both `&str` and `String`.
use vstd::prelude::*;

verus! {

/// Unicode `White_Space`, as used by `char::is_whitespace` and `str::trim`.
pub open spec fn is_ws(c: char) -> bool {
    let u = c as u32;
    ||| (0x09 <= u && u <= 0x0d)
    ||| u == 0x20
    ||| u == 0x85
    ||| u == 0xa0
    ||| u == 0x1680
    ||| (0x2000 <= u && u <= 0x200a)
    ||| u == 0x2028
    ||| u == 0x2029
    ||| u == 0x202f
    ||| u == 0x205f
    ||| u == 0x3000
}

/// `s` with leading white space removed.
pub open spec fn trim_start(s: Seq<char>) -> Seq<char>
    decreases s.len(),
{
    if s.len() > 0 && is_ws(s[0]) {
        trim_start(s.drop_first())
    } else {
        s
    }
}

/// `s` with trailing white space removed.
pub open spec fn trim_end(s: Seq<char>) -> Seq<char>
    decreases s.len(),
{
    if s.len() > 0 && is_ws(s.last()) {
        trim_end(s.drop_last())
    } else {
        s
    }
}

/// `s` with white space removed at both ends (`str::trim`).
pub open spec fn trim(s: Seq<char>) -> Seq<char> {
    trim_end(trim_start(s))
}

/// Trimming leaves text without white space unchanged.
pub proof fn lemma_trim_plain(s: Seq<char>)
    requires
        forall|i: int| 0 <= i < s.len() ==> !is_ws(#[trigger] s[i]),
    ensures
        trim(s) == s,
{
    if s.len() > 0 {
        assert(!is_ws(s[0]));
        assert(!is_ws(s[s.len() - 1]));
    }
}

/// Index of the first occurrence of `c` in `s`, or `-1` when there is none.
pub open spec fn find_char(s: Seq<char>, c: char) -> int
    decreases s.len(),
{
    if s.len() == 0 {
        -1
    } else if s[0] == c {
        0
    } else {
        let r = find_char(s.drop_first(), c);
        if r < 0 {
            -1
        } else {
            r + 1
        }
    }
}

/// The pieces of `s` between occurrences of `sep` (`str::split` with a char).
pub open spec fn split(s: Seq<char>, sep: char) -> Seq<Seq<char>>
    decreases s.len(),
{
    let i = find_char(s, sep);
    if i < 0 {
        seq![s]
    } else {
        proof {
            lemma_find_char_range(s, sep);
        }
        seq![s.take(i)] + split(s.skip(i + 1), sep)
    }
}

/// The pieces of `s` joined with `sep` between consecutive pieces.
pub open spec fn join(parts: Seq<Seq<char>>, sep: Seq<char>) -> Seq<char>
    decreases parts.len(),
{
    if parts.len() == 0 {
        seq![]
    } else if parts.len() == 1 {
        parts[0]
    } else {
        join(parts.drop_last(), sep) + sep + parts.last()
    }
}

pub proof fn lemma_find_char_range(s: Seq<char>, c: char)
    ensures
        -1 <= find_char(s, c) < s.len(),
        find_char(s, c) >= 0 ==> s[find_char(s, c)] == c,
        find_char(s, c) >= 0 ==> forall|j: int| 0 <= j < find_char(s, c) ==> s[j] != c,
        find_char(s, c) < 0 ==> forall|j: int| 0 <= j < s.len() ==> s[j] != c,
    decreases s.len(),
{
    if s.len() > 0 && s[0] != c {
        lemma_find_char_range(s.drop_first(), c);
        let r = find_char(s.drop_first(), c);
        assert forall|j: int| 0 < j < s.len() implies s[j] == s.drop_first()[j - 1] by {}
        if r < 0 {
            assert forall|j: int| 0 <= j < s.len() implies s[j] != c by {
                if j > 0 {
                    assert(s.drop_first()[j - 1] != c);
                }
            }
        } else {
            assert forall|j: int| 0 <= j < r + 1 implies s[j] != c by {
                if j > 0 {
                    assert(s.drop_first()[j - 1] != c);
                }
            }
        }
    }
}

/// `find_char` is characterised by the position it reports.
pub proof fn lemma_find_char_unique(s: Seq<char>, c: char, i: int)
    requires
        -1 <= i < s.len(),
        i >= 0 ==> s[i] == c,
        forall|j: int| 0 <= j < s.len() && (i < 0 || j < i) ==> s[j] != c,
    ensures
        find_char(s, c) == i,
{
    lemma_find_char_range(s, c);
    let f = find_char(s, c);
    if f >= 0 && i >= 0 {
        if f < i {
            assert(s[f] != c);
        } else if i < f {
            assert(s[i] != c);
        }
    } else if f >= 0 {
        assert(s[f] != c);
    } else if i >= 0 {
        assert(s[i] != c);
    }
}

/// `c` is a white-space character.
pub fn is_whitespace_char(c: char) -> (r: bool)
    ensures
        r == is_ws(c),
{
    let u = c as u32;
    (0x09 <= u && u <= 0x0d) || u == 0x20 || u == 0x85 || u == 0xa0 || u == 0x1680 || (0x2000
        <= u && u <= 0x200a) || u == 0x2028 || u == 0x2029 || u == 0x202f || u == 0x205f || u
        == 0x3000
}

/// The characters of `s`, in order.
pub fn chars_of(s: &str) -> (r: Vec<char>)
    ensures
        r@ == s@,
{
    let mut r: Vec<char> = Vec::new();
    for c in it: s.chars()
        invariant
            r@ == it.seq().take(it.index() as int),
    {
        r.push(c);
        assert(r@ == it.seq().take(it.index() as int + 1));
    }
    r
}


/// Appends one character to `s` (`String::push`).
#[verifier::external_body]
pub(crate) fn push_char(s: &mut String, c: char)
    ensures
        final(s)@ == old(s)@.push(c),
{
    s.push(c);
}

/// A `String` holding exactly the characters `v`.
pub fn string_of(v: &Vec<char>) -> (r: String)
    ensures
        r@ == v@,
{
    let mut r = String::new();
    let mut i: usize = 0;
    while i < v.len()
        invariant
            i <= v.len(),
            r@ == v@.take(i as int),
        decreases v.len() - i,
    {
        push_char(&mut r, v[i]);
        assert(r@ == v@.take(i as int + 1));
        i = i + 1;
    }
    assert(v@.take(v.len() as int) == v@);
    r
}

/// Characters `v[from..to]`.
pub fn slice_chars(v: &Vec<char>, from: usize, to: usize) -> (r: Vec<char>)
    requires
        from <= to <= v.len(),
    ensures
        r@ == v@.subrange(from as int, to as int),
{
    let mut r: Vec<char> = Vec::new();
    let mut i: usize = from;
    while i < to
        invariant
            from <= i <= to <= v.len(),
            r@ == v@.subrange(from as int, i as int),
        decreases to - i,
    {
        r.push(v[i]);
        assert(r@ == v@.subrange(from as int, i as int + 1));
        i = i + 1;
    }
    r
}

/// Position of the first `c` in `v`, if any.
pub fn find_char_exec(v: &Vec<char>, c: char) -> (r: Option<usize>)
    ensures
        r matches Some(i) ==> find_char(v@, c) == i,
        r is None ==> find_char(v@, c) == -1,
{
    let mut i: usize = 0;
    while i < v.len()
        invariant
            i <= v.len(),
            forall|j: int| 0 <= j < i ==> v@[j] != c,
        decreases v.len() - i,
    {
        if v[i] == c {
            proof {
                lemma_find_char_unique(v@, c, i as int);
            }
            return Some(i);
        }
        i = i + 1;
    }
    proof {
        lemma_find_char_unique(v@, c, -1);
    }
    None
}

/// `v` with surrounding white space removed (`str::trim`).
pub fn trim_chars(v: &Vec<char>) -> (r: Vec<char>)
    ensures
        r@ == trim(v@),
{
    let mut lo: usize = 0;
    assert(v@.skip(0) == v@);
    while lo < v.len() && is_whitespace_char(v[lo])
        invariant
            lo <= v.len(),
            trim_start(v@) == trim_start(v@.skip(lo as int)),
        decreases v.len() - lo,
    {
        assert(v@.skip(lo as int).drop_first() == v@.skip(lo as int + 1));
        lo = lo + 1;
    }
    assert(trim_start(v@) == v@.skip(lo as int));
    assert(v@.skip(lo as int) == v@.subrange(lo as int, v.len() as int));
    let mut hi: usize = v.len();
    while hi > lo && is_whitespace_char(v[hi - 1])
        invariant
            lo <= hi <= v.len(),
            trim(v@) == trim_end(v@.subrange(lo as int, hi as int)),
        decreases hi,
    {
        assert(v@.subrange(lo as int, hi as int).drop_last() == v@.subrange(lo as int, hi - 1));
        hi = hi - 1;
    }
    assert(trim(v@) == v@.subrange(lo as int, hi as int));
    slice_chars(v, lo, hi)
}


/// The character sequences held by a vector of character vectors.
pub open spec fn views(v: Seq<Vec<char>>) -> Seq<Seq<char>> {
    v.map_values(|f: Vec<char>| f@)
}

/// One step of `split`: the first piece ends at the first separator.
pub proof fn lemma_split_step(s: Seq<char>, sep: char, st: int, i: int)
    requires
        0 <= st <= i < s.len(),
        s[i] == sep,
        forall|j: int| st <= j < i ==> s[j] != sep,
    ensures
        split(s.skip(st), sep) == seq![s.subrange(st, i)] + split(s.skip(i + 1), sep),
{
    let t = s.skip(st);
    lemma_find_char_unique(t, sep, i - st);
    assert(t.take(i - st) == s.subrange(st, i));
    assert(t.skip(i - st + 1) == s.skip(i + 1));
}

/// Cutting `a`, a separator and `b` gives the pieces of `a` followed by
/// those of `b`.
pub proof fn lemma_split_concat(a: Seq<char>, b: Seq<char>, sep: char)
    ensures
        split(a + seq![sep] + b, sep) == split(a, sep) + split(b, sep),
    decreases a.len(),
{
    let s = a + seq![sep] + b;
    lemma_find_char_range(a, sep);
    let i = find_char(a, sep);
    if i >= 0 {
        assert forall|j: int| 0 <= j < i implies s[j] != sep by {
            assert(s[j] == a[j]);
        }
        assert(s[i] == a[i]);
        lemma_find_char_unique(s, sep, i);
        assert(s.take(i) == a.take(i));
        assert(s.skip(i + 1) == a.skip(i + 1) + seq![sep] + b);
        lemma_split_concat(a.skip(i + 1), b, sep);
        assert(split(a, sep) == seq![a.take(i)] + split(a.skip(i + 1), sep));
    } else {
        assert forall|j: int| 0 <= j < a.len() implies s[j] != sep by {
            assert(s[j] == a[j]);
            lemma_find_char_unique(a, sep, -1);
        }
        assert(s[a.len() as int] == sep);
        lemma_find_char_unique(s, sep, a.len() as int);
        assert(s.take(a.len() as int) == a);
        assert(s.skip(a.len() as int + 1) == b);
        assert(split(a, sep) == seq![a]);
    }
}

/// The last piece of `split`: no separator remains.
pub proof fn lemma_split_last(s: Seq<char>, sep: char)
    requires
        forall|j: int| 0 <= j < s.len() ==> s[j] != sep,
    ensures
        split(s, sep) == seq![s],
{
    lemma_find_char_unique(s, sep, -1);
}

/// `v` cut at every `sep` (`str::split` collected into a vector).
pub fn split_chars(v: &Vec<char>, sep: char) -> (r: Vec<Vec<char>>)
    ensures
        views(r@) == split(v@, sep),
{
    let mut out: Vec<Vec<char>> = Vec::new();
    let mut st: usize = 0;
    let mut i: usize = 0;
    assert(v@.skip(0) == v@);
    while i < v.len()
        invariant
            st <= i <= v.len(),
            forall|j: int| st <= j < i ==> v@[j] != sep,
            views(out@) + split(v@.skip(st as int), sep) == split(v@, sep),
        decreases v.len() - i,
    {
        if v[i] == sep {
            proof {
                lemma_split_step(v@, sep, st as int, i as int);
            }
            let piece = slice_chars(v, st, i);
            let ghost before = out@;
            out.push(piece);
            assert(views(out@) == views(before) + seq![v@.subrange(st as int, i as int)]);
            st = i + 1;
        }
        i = i + 1;
    }
    proof {
        assert forall|j: int| 0 <= j < v@.skip(st as int).len() implies v@.skip(st as int)[j]
            != sep by {
            assert(v@.skip(st as int)[j] == v@[st + j]);
        }
        lemma_split_last(v@.skip(st as int), sep);
    }
    let last = slice_chars(v, st, v.len());
    assert(last@ == v@.skip(st as int));
    let ghost before = out@;
    out.push(last);
    assert(views(out@) == views(before) + seq![v@.skip(st as int)]);
    out
}


/// An ASCII decimal digit.
pub open spec fn is_digit(c: char) -> bool {
    '0' <= c && c <= '9'
}

/// Numeric value of a decimal digit.
pub open spec fn digit_val(c: char) -> int {
    c as int - '0' as int
}

/// Every character of `s` is a decimal digit.
pub open spec fn all_digits(s: Seq<char>) -> bool {
    forall|i: int| 0 <= i < s.len() ==> is_digit(#[trigger] s[i])
}

/// The number written by the decimal digits `s` (most significant first).
pub open spec fn digits_value(s: Seq<char>) -> nat
    decreases s.len(),
{
    if s.len() == 0 {
        0
    } else {
        (digits_value(s.drop_last()) * 10 + digit_val(s.last())) as nat
    }
}

/// What `str::parse::<u32>` accepts and returns: an optional `+`, then one
/// or more ASCII digits whose value fits in a `u32`.
pub open spec fn parse_u32(s: Seq<char>) -> Option<u32> {
    let d = if s.len() > 0 && s[0] == '+' {
        s.drop_first()
    } else {
        s
    };
    if d.len() > 0 && all_digits(d) && digits_value(d) <= u32::MAX {
        Some(digits_value(d) as u32)
    } else {
        None
    }
}

/// The character of the decimal digit `d`.
pub open spec fn digit_char(d: nat) -> char {
    (d + 48) as char
}

/// Decimal representation of `n`, without sign or leading zeros.
pub open spec fn decimal(n: nat) -> Seq<char>
    decreases n,
{
    if n < 10 {
        seq![digit_char(n)]
    } else {
        decimal(n / 10).push(digit_char(n % 10))
    }
}

/// Decimal representation of a signed integer, as `{}` formats it.
pub open spec fn signed_decimal(n: int) -> Seq<char> {
    if n < 0 {
        seq!['-'] + decimal((-n) as nat)
    } else {
        decimal(n as nat)
    }
}

/// `str::parse::<u32>` over the characters `v`.
pub fn parse_u32_chars(v: &Vec<char>) -> (r: Option<u32>)
    ensures
        r == parse_u32(v@),
{
    let start: usize = if v.len() > 0 && v[0] == '+' {
        1
    } else {
        0
    };
    let ghost d = v@.skip(start as int);
    assert(d == (if v@.len() > 0 && v@[0] == '+' {
        v@.drop_first()
    } else {
        v@
    }));
    if start >= v.len() {
        return None;
    }
    let cap: u64 = 0x1_0000_0000;
    let mut acc: u64 = 0;
    let mut i: usize = start;
    while i < v.len()
        invariant
            start <= i <= v.len(),
            start < v.len(),
            d == v@.skip(start as int),
            d == (if v@.len() > 0 && v@[0] == '+' {
                v@.drop_first()
            } else {
                v@
            }),
            cap == 0x1_0000_0000,
            all_digits(v@.subrange(start as int, i as int)),
            acc == if digits_value(v@.subrange(start as int, i as int)) < cap {
                digits_value(v@.subrange(start as int, i as int)) as int
            } else {
                cap as int
            },
        decreases v.len() - i,
    {
        let c = v[i];
        if !('0' <= c && c <= '9') {
            assert(!all_digits(d)) by {
                assert(d[i - start] == c);
                assert(!is_digit(d[i - start]));
            }
            return None;
        }
        let dv: u64 = (c as u32 - '0' as u32) as u64;
        let ghost pre = v@.subrange(start as int, i as int);
        let ghost next = v@.subrange(start as int, i + 1);
        assert(next.drop_last() == pre);
        assert(next.last() == c);
        assert(all_digits(next)) by {
            assert forall|k: int| 0 <= k < next.len() implies is_digit(#[trigger] next[k]) by {
                if k < pre.len() {
                    assert(next[k] == pre[k]);
                }
            }
        }
        let t = acc * 10 + dv;
        acc = if t < cap {
            t
        } else {
            cap
        };
        i = i + 1;
    }
    assert(v@.subrange(start as int, v.len() as int) == d);
    if acc < cap {
        Some(acc as u32)
    } else {
        None
    }
}

/// Character of the decimal digit `d`.
pub fn digit_to_char(d: u64) -> (c: char)
    requires
        d < 10,
    ensures
        c == digit_char(d as nat),
{
    let b: u8 = 48 + d as u8;
    b as char
}

/// Decimal representation of `n` (`n.to_string()`).
pub fn decimal_chars(n: u64) -> (r: Vec<char>)
    ensures
        r@ == decimal(n as nat),
    decreases n,
{
    if n < 10 {
        let mut r: Vec<char> = Vec::new();
        r.push(digit_to_char(n));
        assert(r@ == seq![digit_char(n as nat)]);
        r
    } else {
        let mut r = decimal_chars(n / 10);
        r.push(digit_to_char(n % 10));
        r
    }
}

/// Decimal representation of a signed integer, as `{}` formats it.
pub fn signed_decimal_chars(n: i64) -> (r: Vec<char>)
    ensures
        r@ == signed_decimal(n as int),
{
    if n < 0 {
        let m: u64 = ((-(n + 1)) as u64) + 1;
        let d = decimal_chars(m);
        let mut r: Vec<char> = Vec::new();
        r.push('-');
        append_chars(&mut r, &d);
        r
    } else {
        decimal_chars(n as u64)
    }
}

/// Appends `w` to `v`.
pub fn append_chars(v: &mut Vec<char>, w: &Vec<char>)
    ensures
        final(v)@ == old(v)@ + w@,
{
    let mut i: usize = 0;
    while i < w.len()
        invariant
            i <= w.len(),
            v@ == old(v)@ + w@.take(i as int),
        decreases w.len() - i,
    {
        v.push(w[i]);
        assert(w@.take(i as int + 1) == w@.take(i as int).push(w@[i as int]));
        i = i + 1;
    }
    assert(w@.take(w.len() as int) == w@);
}

/// Appends the characters of `s` to `v`.
pub fn append_str(v: &mut Vec<char>, s: &str)
    ensures
        final(v)@ == old(v)@ + s@,
{
    let w = chars_of(s);
    append_chars(v, &w);
}


/// `a` and `b` hold the same characters.
pub fn chars_eq(a: &Vec<char>, b: &Vec<char>) -> (r: bool)
    ensures
        r == (a@ == b@),
{
    if a.len() != b.len() {
        return false;
    }
    let mut i: usize = 0;
    while i < a.len()
        invariant
            a.len() == b.len(),
            i <= a.len(),
            forall|j: int| 0 <= j < i ==> a@[j] == b@[j],
        decreases a.len() - i,
    {
        if a[i] != b[i] {
            return false;
        }
        i = i + 1;
    }
    assert(a@ =~= b@);
    true
}

/// The characters `v` are exactly those of `s`.
pub fn chars_eq_str(v: &Vec<char>, s: &str) -> (r: bool)
    ensures
        r == (v@ == s@),
{
    let w = chars_of(s);
    chars_eq(v, &w)
}

/// The characters of `s` form a piece of `t` starting at `i`.
pub open spec fn occurs_at(t: Seq<char>, s: Seq<char>, i: int) -> bool {
    0 <= i && i + s.len() <= t.len() && t.subrange(i, i + s.len()) == s
}

/// `s` occurs somewhere in `t` (`str::contains`).
pub open spec fn contains_seq(t: Seq<char>, s: Seq<char>) -> bool {
    exists|i: int| occurs_at(t, s, i)
}

/// Whether `s` occurs in `t` (`str::contains`).
pub fn contains_chars(t: &Vec<char>, s: &Vec<char>) -> (r: bool)
    ensures
        r == contains_seq(t@, s@),
{
    if s.len() > t.len() {
        assert forall|i: int| !occurs_at(t@, s@, i) by {}
        return false;
    }
    let mut i: usize = 0;
    let last: usize = t.len() - s.len();
    while i <= last
        invariant
            s.len() <= t.len(),
            last == t.len() - s.len(),
            i <= last + 1,
            forall|k: int| 0 <= k < i ==> !occurs_at(t@, s@, k),
        decreases t.len() - i,
    {
        let mut j: usize = 0;
        let mut same = true;
        while j < s.len()
            invariant
                i + s.len() <= t.len(),
                j <= s.len(),
                same == forall|m: int| 0 <= m < j ==> t@[i + m] == s@[m],
            decreases s.len() - j,
        {
            if t[i + j] != s[j] {
                same = false;
            }
            j = j + 1;
        }
        if same {
            assert(t@.subrange(i as int, i + s.len()) =~= s@);
            assert(occurs_at(t@, s@, i as int));
            return true;
        }
        assert(!occurs_at(t@, s@, i as int)) by {
            let m = choose|m: int| 0 <= m < s.len() && t@[i + m] != s@[m];
            assert(t@.subrange(i as int, i + s.len())[m] == t@[i + m]);
        }
        i = i + 1;
    }
    assert forall|k: int| !occurs_at(t@, s@, k) by {
        if 0 <= k && k + s.len() <= t.len() {
            assert(k < i);
        }
    }
    false
}


/// A line ended by `\n` loses a final `\r` too.
pub open spec fn strip_cr(l: Seq<char>) -> Seq<char> {
    if l.len() > 0 && l.last() == '\r' {
        l.drop_last()
    } else {
        l
    }
}

/// The lines of `s` (`str::lines`): pieces between `\n`s, each without a
/// `\r` before its `\n`; an empty piece after a final `\n` is no line.
pub open spec fn lines(s: Seq<char>) -> Seq<Seq<char>> {
    let p = split(s, '\n');
    let ended = Seq::new((p.len() - 1) as nat, |i: int| strip_cr(p[i]));
    if p.last().len() == 0 {
        ended
    } else {
        ended.push(p.last())
    }
}

/// `split` yields at least one piece and at most one more than there are
/// characters.
pub proof fn lemma_split_len(s: Seq<char>, sep: char)
    ensures
        1 <= split(s, sep).len() <= s.len() + 1,
    decreases s.len(),
{
    let i = find_char(s, sep);
    lemma_find_char_range(s, sep);
    if i >= 0 {
        lemma_split_len(s.skip(i + 1), sep);
    }
}

/// The lines of `v` (`str::lines`).
pub fn lines_of(v: &Vec<char>) -> (r: Vec<Vec<char>>)
    ensures
        views(r@) == lines(v@),
        r@.len() <= v@.len() + 1,
{
    let parts = split_chars(v, '\n');
    proof {
        lemma_split_len(v@, '\n');
    }
    let n = parts.len();
    let mut out: Vec<Vec<char>> = Vec::new();
    let mut i: usize = 0;
    while i + 1 < n
        invariant
            n == parts.len(),
            views(parts@) == split(v@, '\n'),
            1 <= n,
            i <= n - 1,
            out@.len() == i,
            forall|k: int| 0 <= k < i ==> #[trigger] out@[k]@ == strip_cr(parts@[k]@),
        decreases n - i,
    {
        let l = &parts[i];
        let piece = if l.len() > 0 && l[l.len() - 1] == '\r' {
            slice_chars(l, 0, l.len() - 1)
        } else {
            slice_chars(l, 0, l.len())
        };
        assert(l@.subrange(0, l@.len() as int) == l@);
        assert(l@.len() > 0 ==> l@.subrange(0, l@.len() - 1) == l@.drop_last());
        out.push(piece);
        i = i + 1;
    }
    let ghost p = split(v@, '\n');
    assert(views(parts@)[n - 1] == parts@[n - 1]@);
    let last = &parts[n - 1];
    if last.len() > 0 {
        out.push(slice_chars(last, 0, last.len()));
        assert(last@.subrange(0, last@.len() as int) == last@);
    }
    proof {
        let ended = Seq::new((p.len() - 1) as nat, |k: int| strip_cr(p[k]));
        assert forall|k: int| 0 <= k < n - 1 implies #[trigger] views(out@)[k] == ended[k] by {
            assert(views(parts@)[k] == parts@[k]@);
        }
        if last@.len() == 0 {
            assert(views(out@) =~= ended);
        } else {
            assert(views(out@) =~= ended.push(p.last()));
        }
    }
    out
}


/// Two pieces joined by one separator split back into the two pieces.
pub proof fn lemma_split_pair(a: Seq<char>, b: Seq<char>, sep: char)
    requires
        forall|i: int| 0 <= i < a.len() ==> #[trigger] a[i] != sep,
        forall|i: int| 0 <= i < b.len() ==> #[trigger] b[i] != sep,
    ensures
        split(a + seq![sep] + b, sep) == seq![a, b],
{
    let s = a + seq![sep] + b;
    assert forall|j: int| 0 <= j < a.len() implies s[j] != sep by {
        assert(s[j] == a[j]);
    }
    lemma_split_step(s, sep, 0, a.len() as int);
    assert(s.skip(0) == s);
    assert(s.subrange(0, a.len() as int) == a);
    assert(s.skip(a.len() as int + 1) == b);
    lemma_split_last(b, sep);
}

/// Three pieces joined by separators split back into the three pieces.
pub proof fn lemma_split_triple(a: Seq<char>, b: Seq<char>, c: Seq<char>, sep: char)
    requires
        forall|i: int| 0 <= i < a.len() ==> #[trigger] a[i] != sep,
        forall|i: int| 0 <= i < b.len() ==> #[trigger] b[i] != sep,
        forall|i: int| 0 <= i < c.len() ==> #[trigger] c[i] != sep,
    ensures
        split(a + seq![sep] + b + seq![sep] + c, sep) == seq![a, b, c],
{
    let s = a + seq![sep] + b + seq![sep] + c;
    assert forall|j: int| 0 <= j < a.len() implies s[j] != sep by {
        assert(s[j] == a[j]);
    }
    lemma_split_step(s, sep, 0, a.len() as int);
    assert(s.skip(0) == s);
    assert(s.subrange(0, a.len() as int) == a);
    assert(s.skip(a.len() as int + 1) == b + seq![sep] + c);
    lemma_split_pair(b, c, sep);
}

} // verus!
