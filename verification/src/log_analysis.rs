//! The log parser: rules from plugins, each with regular-expression
//! patterns, are matched against the lines of a container log, from the last
//! line to the first; matches are counted per rule and a few example lines
//! are kept.
use crate::text::{
    append_chars, append_str, chars_eq, chars_of, decimal, decimal_chars, lines, lines_of,
    string_of, views,
};
use crate::details::{
    opt_field, opt_view as field_view, push_field, push_heading, push_line, push_opt_field, shown_all,
    texts, Line, Shown, Tone,
};
use crate::overview::{item_color, item_color_of, ItemColor};
use vstd::prelude::*;

verus! {

/// How many example lines a rule keeps when it does not say.
pub const DEFAULT_CONTEXT_LINES: usize = 3;

/// A rule of a plugin.
pub struct RuleSpec {
    pub id: String,
    pub title: Option<String>,
    pub patterns: Vec<String>,
    pub level: Option<String>,
    pub message: Option<String>,
    pub recommendation: Option<String>,
    /// Fewer matches than this are not reported.
    pub threshold: Option<u32>,
    /// How many example lines to keep.
    pub context_lines: Option<usize>,
}

/// A plugin: a named set of rules.
pub struct Plugin {
    pub name: String,
    pub rules: Vec<RuleSpec>,
}

/// What a rule found in a log.
pub struct RuleStats {
    pub plugin: String,
    pub id: String,
    pub title: Option<String>,
    pub level: Option<String>,
    pub matches: u64,
    pub examples: Vec<String>,
    pub message: Option<String>,
    pub recommendation: Option<String>,
}

/// The window that shows what the log parser found.
pub struct LogParserWindow {
    pub show: bool,
    pub filtered: Vec<RuleStats>,
}

impl LogParserWindow {
    /// A hidden window with no findings.
    pub fn new() -> (r: Self)
        ensures
            !r.show,
            r.filtered@.len() == 0,
    {
        LogParserWindow { show: false, filtered: Vec::new() }
    }

    /// Shows the findings of an analysis.
    pub fn show_findings(&mut self, found: Vec<RuleStats>)
        ensures
            final(self).show,
            final(self).filtered@ == found@,
    {
        self.filtered = found;
        self.show = true;
    }
}

/// The characters of an optional string.
pub open spec fn opt_view(o: Option<String>) -> Option<Seq<char>> {
    match o {
        Some(s) => Some(s@),
        None => None,
    }
}

/// A copy of an optional string.
pub fn clone_opt(o: &Option<String>) -> (r: Option<String>)
    ensures
        opt_view(r) == opt_view(*o),
{
    match o {
        Some(s) => Some(s.clone()),
        None => None,
    }
}

/// The abstract content of a `RuleStats`.
pub struct StatsModel {
    pub plugin: Seq<char>,
    pub id: Seq<char>,
    pub title: Option<Seq<char>>,
    pub level: Option<Seq<char>>,
    pub matches: nat,
    pub examples: Seq<Seq<char>>,
    pub message: Option<Seq<char>>,
    pub recommendation: Option<Seq<char>>,
}

/// The abstract content of a `RuleStats`.
pub open spec fn stats_model(s: RuleStats) -> StatsModel {
    StatsModel {
        plugin: s.plugin@,
        id: s.id@,
        title: opt_view(s.title),
        level: opt_view(s.level),
        matches: s.matches as nat,
        examples: s.examples@.map_values(|e: String| e@),
        message: opt_view(s.message),
        recommendation: opt_view(s.recommendation),
    }
}

/// The abstract contents of a sequence of `RuleStats`.
pub open spec fn stats_models(s: Seq<RuleStats>) -> Seq<StatsModel> {
    s.map_values(|x: RuleStats| stats_model(x))
}

// ---------------------------------------------------------------------
// Patterns

/// Whether `pattern` is accepted by `regex::Regex::new`.
pub uninterp spec fn regex_compiles(pattern: Seq<char>) -> bool;

/// Whether the expression compiled from `pattern` matches somewhere in
/// `haystack` (`regex::Regex::is_match`): the regular expression `pattern`
/// itself, or, when `literal` holds, the case-insensitive search for the
/// escaped text (`regex::escape`, then `RegexBuilder::case_insensitive`).
pub uninterp spec fn regex_matches(pattern: Seq<char>, literal: bool, haystack: Seq<char>) -> bool;

#[verifier::external_type_specification]
#[verifier::external_body]
pub struct ExRegex(regex::Regex);

/// A compiled regular expression together with its source text.
pub struct Pattern {
    text: String,
    literal: bool,
    re: regex::Regex,
}

impl Pattern {
    /// The source text the expression was compiled from.
    pub closed spec fn source(&self) -> Seq<char> {
        self.text@
    }

    /// The expression matches its source text literally, ignoring case.
    pub closed spec fn is_literal(&self) -> bool {
        self.literal
    }
}

/// Compiles `text` with `regex::Regex::new`.
///
/// Trusted: the result is present exactly when the crate accepts the
/// pattern, and it remembers the text it was compiled from.
#[verifier::external_body]
pub(crate) fn compile_pattern(text: &str) -> (r: Option<Pattern>)
    ensures
        r is Some <==> regex_compiles(text@),
        r matches Some(p) ==> p.source() == text@ && !p.is_literal(),
{
    match regex::Regex::new(text) {
        Ok(re) => Some(Pattern { text: text.to_string(), literal: false, re }),
        Err(_) => None,
    }
}

/// Whether the literal text `text`, escaped by `regex::escape`, is
/// accepted by `regex::RegexBuilder` with case-insensitive matching.
pub uninterp spec fn literal_compiles(text: Seq<char>) -> bool;

/// Compiles a case-insensitive search for the literal text `text`
/// (`regex::escape`, then `RegexBuilder::new(..).case_insensitive(true)
/// .build()`).
///
/// Trusted: the result is present exactly when the builder accepts the
/// escaped text (it refuses only expressions over its size limit), and it
/// remembers the text and that it is a literal search.
#[verifier::external_body]
pub(crate) fn compile_search(text: &str) -> (r: Option<Pattern>)
    ensures
        r is Some <==> literal_compiles(text@),
        r matches Some(p) ==> p.source() == text@ && p.is_literal(),
{
    match regex::RegexBuilder::new(&regex::escape(text)).case_insensitive(true).build() {
        Ok(re) => Some(Pattern { text: text.to_string(), literal: true, re }),
        Err(_) => None,
    }
}

/// The first match (leftmost-first) of an expression in the part of
/// `text` between byte offsets `from` and `to`, as byte offsets into that
/// part (`regex::Regex::find` on the slice).
pub uninterp spec fn regex_find(
    source: Seq<char>,
    literal: bool,
    text: Seq<char>,
    from: int,
    to: int,
) -> Option<(int, int)>;

/// The first match of the pattern in `text[from..to]`
/// (`regex::Regex::find`, then `Match::start` and `Match::end`).
///
/// Trusted: the offsets are `regex_find` of the pattern and arguments, a
/// named result; as the crate documents, a match lies within the searched
/// text, starts no later than it ends, and both offsets fall on character
/// boundaries.
#[verifier::external_body]
pub(crate) fn pattern_find(p: &Pattern, text: &str, from: usize, to: usize) -> (r: Option<(usize, usize)>)
    requires
        from <= to <= crate::codec::utf8_of(text@).len(),
        vstd::utf8::is_char_boundary(crate::codec::utf8_of(text@), from as int),
        vstd::utf8::is_char_boundary(crate::codec::utf8_of(text@), to as int),
    ensures
        match r {
            Some(m) => regex_find(p.source(), p.is_literal(), text@, from as int, to as int) == Some(
                (m.0 as int, m.1 as int),
            ) && m.0 <= m.1 <= to - from && vstd::utf8::is_char_boundary(
                crate::codec::utf8_of(text@),
                from + m.0,
            ) && vstd::utf8::is_char_boundary(crate::codec::utf8_of(text@), from + m.1),
            None => regex_find(p.source(), p.is_literal(), text@, from as int, to as int) is None,
        },
{
    p.re.find(&text[from..to]).map(|m| (m.start(), m.end()))
}

/// Whether the pattern matches somewhere in `line`
/// (`regex::Regex::is_match`).
///
/// Trusted: the answer is `regex_matches` of the pattern's source text and
/// kind, which `compile_pattern` and `compile_search` tie to the compiled
/// expression.
#[verifier::external_body]
fn pattern_is_match(p: &Pattern, line: &str) -> (r: bool)
    ensures
        r == regex_matches(p.source(), p.is_literal(), line@),
{
    p.re.is_match(line)
}

// ---------------------------------------------------------------------
// Compiling the rules

/// A pattern of rule `rule` of plugin `plugin` that compiled.
pub struct CompiledRule {
    pub plugin: usize,
    pub rule: usize,
    pub pattern: Pattern,
}

/// A compiled rule as plugin index, rule index, pattern text and whether
/// the pattern is a literal search.
pub open spec fn compiled_key(c: CompiledRule) -> (int, int, Seq<char>, bool) {
    (c.plugin as int, c.rule as int, c.pattern.source(), c.pattern.is_literal())
}

/// The compiling patterns of rule `r` of plugin `p`, in order, each a
/// regular expression (not a literal search).
pub open spec fn patterns_of(p: int, r: int, pats: Seq<String>) -> Seq<(int, int, Seq<char>, bool)>
    decreases pats.len(),
{
    if pats.len() == 0 {
        seq![]
    } else {
        let rest = patterns_of(p, r, pats.drop_last());
        if regex_compiles(pats.last()@) {
            rest.push((p, r, pats.last()@, false))
        } else {
            rest
        }
    }
}

/// The compiling patterns of the rules of plugin `p`, rule by rule.
pub open spec fn rules_of(p: int, rules: Seq<RuleSpec>) -> Seq<(int, int, Seq<char>, bool)>
    decreases rules.len(),
{
    if rules.len() == 0 {
        seq![]
    } else {
        rules_of(p, rules.drop_last()) + patterns_of(
            p,
            rules.len() - 1,
            rules.last().patterns@,
        )
    }
}

/// The compiling patterns of all plugins, plugin by plugin.
pub open spec fn compiled_of(plugins: Seq<Plugin>) -> Seq<(int, int, Seq<char>, bool)>
    decreases plugins.len(),
{
    if plugins.len() == 0 {
        seq![]
    } else {
        compiled_of(plugins.drop_last()) + rules_of(
            plugins.len() - 1,
            plugins.last().rules@,
        )
    }
}

/// Number of patterns in the rules `rules`.
pub open spec fn rule_pattern_count(rules: Seq<RuleSpec>) -> nat
    decreases rules.len(),
{
    if rules.len() == 0 {
        0
    } else {
        rule_pattern_count(rules.drop_last()) + rules.last().patterns@.len()
    }
}

/// Number of patterns in all plugins.
pub open spec fn pattern_count(plugins: Seq<Plugin>) -> nat
    decreases plugins.len(),
{
    if plugins.len() == 0 {
        0
    } else {
        pattern_count(plugins.drop_last()) + rule_pattern_count(plugins.last().rules@)
    }
}

proof fn lemma_patterns_of_len(p: int, r: int, pats: Seq<String>)
    ensures
        patterns_of(p, r, pats).len() <= pats.len(),
        forall|k: int|
            0 <= k < patterns_of(p, r, pats).len() ==> (#[trigger] patterns_of(p, r, pats)[k]).0
                == p && patterns_of(p, r, pats)[k].1 == r,
    decreases pats.len(),
{
    if pats.len() > 0 {
        lemma_patterns_of_len(p, r, pats.drop_last());
    }
}

proof fn lemma_rules_of_len(p: int, rules: Seq<RuleSpec>)
    ensures
        rules_of(p, rules).len() <= rule_pattern_count(rules),
        forall|k: int|
            0 <= k < rules_of(p, rules).len() ==> (#[trigger] rules_of(p, rules)[k]).0 == p && 0
                <= rules_of(p, rules)[k].1 < rules.len(),
    decreases rules.len(),
{
    if rules.len() > 0 {
        let pre = rules_of(p, rules.drop_last());
        let last = patterns_of(p, rules.len() - 1, rules.last().patterns@);
        lemma_rules_of_len(p, rules.drop_last());
        lemma_patterns_of_len(p, rules.len() - 1, rules.last().patterns@);
        assert forall|k: int| 0 <= k < rules_of(p, rules).len() implies (#[trigger] rules_of(
            p,
            rules,
        )[k]).0 == p && 0 <= rules_of(p, rules)[k].1 < rules.len() by {
            if k < pre.len() {
                assert(rules_of(p, rules)[k] == pre[k]);
            } else {
                assert(rules_of(p, rules)[k] == last[k - pre.len()]);
            }
        }
    }
}

/// Every compiled entry points at an existing rule, and there are no more
/// entries than patterns.
pub proof fn lemma_compiled_of_bounds(plugins: Seq<Plugin>)
    ensures
        compiled_of(plugins).len() <= pattern_count(plugins),
        forall|k: int|
            0 <= k < compiled_of(plugins).len() ==> 0 <= (#[trigger] compiled_of(plugins)[k]).0
                < plugins.len() && 0 <= compiled_of(plugins)[k].1 < plugins[compiled_of(
                plugins,
            )[k].0].rules@.len(),
    decreases plugins.len(),
{
    if plugins.len() > 0 {
        let q = plugins.drop_last();
        let pre = compiled_of(q);
        let p = plugins.len() - 1;
        let last = rules_of(p, plugins.last().rules@);
        lemma_compiled_of_bounds(q);
        lemma_rules_of_len(p, plugins.last().rules@);
        assert forall|k: int| 0 <= k < compiled_of(plugins).len() implies 0 <= (
        #[trigger] compiled_of(plugins)[k]).0 < plugins.len() && 0 <= compiled_of(plugins)[k].1
            < plugins[compiled_of(plugins)[k].0].rules@.len() by {
            if k < pre.len() {
                assert(compiled_of(plugins)[k] == pre[k]);
                assert(plugins[pre[k].0] == q[pre[k].0]);
            } else {
                assert(compiled_of(plugins)[k] == last[k - pre.len()]);
            }
        }
    }
}

/// Compiles every pattern of every rule, in order, leaving out those that
/// do not compile.
pub fn compile_rules(plugins: &Vec<Plugin>) -> (r: Vec<CompiledRule>)
    ensures
        r@.map_values(|c: CompiledRule| compiled_key(c)) == compiled_of(plugins@),
{
    let mut out: Vec<CompiledRule> = Vec::new();
    let mut p: usize = 0;
    while p < plugins.len()
        invariant
            p <= plugins.len(),
            out@.map_values(|c: CompiledRule| compiled_key(c)) == compiled_of(
                plugins@.take(p as int),
            ),
        decreases plugins.len() - p,
    {
        let rules = &plugins[p].rules;
        let ghost base = compiled_of(plugins@.take(p as int));
        let mut r: usize = 0;
        while r < rules.len()
            invariant
                p < plugins.len(),
                rules == &plugins@[p as int].rules,
                r <= rules.len(),
                out@.map_values(|c: CompiledRule| compiled_key(c)) == base + rules_of(
                    p as int,
                    rules@.take(r as int),
                ),
            decreases rules.len() - r,
        {
            let pats = &rules[r].patterns;
            let ghost mid = base + rules_of(p as int, rules@.take(r as int));
            let mut k: usize = 0;
            while k < pats.len()
                invariant
                    r < rules.len(),
                    pats == &rules@[r as int].patterns,
                    k <= pats.len(),
                    out@.map_values(|c: CompiledRule| compiled_key(c)) == mid + patterns_of(
                        p as int,
                        r as int,
                        pats@.take(k as int),
                    ),
                decreases pats.len() - k,
            {
                let ghost before = out@;
                assert(pats@.take(k + 1).drop_last() == pats@.take(k as int));
                assert(pats@.take(k + 1).last() == pats@[k as int]);
                match compile_pattern(pats[k].as_str()) {
                    Some(pat) => {
                        out.push(CompiledRule { plugin: p, rule: r, pattern: pat });
                        assert(out@.map_values(|c: CompiledRule| compiled_key(c)) =~= before.map_values(
                            |c: CompiledRule| compiled_key(c),
                        ).push((p as int, r as int, pats@[k as int]@, false)));
                    },
                    None => {},
                }
                k = k + 1;
            }
            assert(pats@.take(pats.len() as int) == pats@);
            assert(rules@.take(r + 1).drop_last() == rules@.take(r as int));
            assert(rules@.take(r + 1).last() == rules@[r as int]);
            r = r + 1;
        }
        assert(rules@.take(rules.len() as int) == rules@);
        assert(plugins@.take(p + 1).drop_last() == plugins@.take(p as int));
        assert(plugins@.take(p + 1).last() == plugins@[p as int]);
        p = p + 1;
    }
    assert(plugins@.take(plugins.len() as int) == plugins@);
    out
}

// ---------------------------------------------------------------------
// Scanning the log

/// Index of the entry for plugin `p` and rule id `id`, or `-1`.
pub open spec fn find_stats(st: Seq<StatsModel>, p: Seq<char>, id: Seq<char>) -> int
    decreases st.len(),
{
    if st.len() == 0 {
        -1
    } else {
        let r = find_stats(st.drop_last(), p, id);
        if r >= 0 {
            r
        } else if st.last().plugin == p && st.last().id == id {
            st.len() - 1
        } else {
            -1
        }
    }
}

/// A fresh entry for a rule: no matches, no examples.
pub open spec fn fresh_stats(plugin: Seq<char>, rule: RuleSpec) -> StatsModel {
    StatsModel {
        plugin,
        id: rule.id@,
        title: opt_view(rule.title),
        level: opt_view(rule.level),
        matches: 0,
        examples: seq![],
        message: opt_view(rule.message),
        recommendation: opt_view(rule.recommendation),
    }
}

/// How an example line is shown: its 1-based number, `: `, the line.
pub open spec fn example_text(idx: int, line: Seq<char>) -> Seq<char> {
    decimal((idx + 1) as nat) + ": "@ + line
}

/// How many examples a rule keeps.
pub open spec fn example_limit(rule: RuleSpec) -> int {
    match rule.context_lines {
        Some(n) => n as int,
        None => DEFAULT_CONTEXT_LINES as int,
    }
}

/// The findings after the compiled pattern `c` is tried on line `idx`.
pub open spec fn scan_step(
    st: Seq<StatsModel>,
    plugins: Seq<Plugin>,
    idx: int,
    line: Seq<char>,
    c: (int, int, Seq<char>, bool),
) -> Seq<StatsModel> {
    if !regex_matches(c.2, c.3, line) {
        st
    } else {
        let rule = plugins[c.0].rules@[c.1];
        let pname = plugins[c.0].name@;
        let f = find_stats(st, pname, rule.id@);
        let st1 = if f < 0 {
            st.push(fresh_stats(pname, rule))
        } else {
            st
        };
        let q = if f < 0 {
            st.len() as int
        } else {
            f
        };
        let e = st1[q];
        let ex = if e.examples.len() < example_limit(rule) {
            e.examples.push(example_text(idx, line))
        } else {
            e.examples
        };
        st1.update(q, StatsModel { matches: e.matches + 1, examples: ex, ..e })
    }
}

/// The findings after the compiled patterns `cs` are tried, in order, on
/// line `idx`.
pub open spec fn scan_line(
    st: Seq<StatsModel>,
    plugins: Seq<Plugin>,
    idx: int,
    line: Seq<char>,
    cs: Seq<(int, int, Seq<char>, bool)>,
) -> Seq<StatsModel>
    decreases cs.len(),
{
    if cs.len() == 0 {
        st
    } else {
        scan_step(scan_line(st, plugins, idx, line, cs.drop_last()), plugins, idx, line, cs.last())
    }
}

/// The findings after the last `k` lines were scanned, last line first.
pub open spec fn scan_lines(
    plugins: Seq<Plugin>,
    ls: Seq<Seq<char>>,
    cs: Seq<(int, int, Seq<char>, bool)>,
    k: nat,
) -> Seq<StatsModel>
    decreases k,
{
    if k == 0 || k > ls.len() {
        seq![]
    } else {
        let idx = ls.len() - k;
        scan_line(scan_lines(plugins, ls, cs, (k - 1) as nat), plugins, idx, ls[idx], cs)
    }
}

/// The rule a finding belongs to: the first plugin of that name, and in it
/// the first rule of that id.
pub open spec fn rule_threshold(plugins: Seq<Plugin>, p: Seq<char>, id: Seq<char>) -> Option<u32> {
    if exists|i: int| 0 <= i < plugins.len() && plugins[i].name@ == p {
        let i = choose|i: int|
            0 <= i < plugins.len() && plugins[i].name@ == p && forall|j: int|
                0 <= j < i ==> plugins[j].name@ != p;
        let rules = plugins[i].rules@;
        if exists|k: int| 0 <= k < rules.len() && rules[k].id@ == id {
            let k = choose|k: int|
                0 <= k < rules.len() && rules[k].id@ == id && forall|j: int|
                    0 <= j < k ==> rules[j].id@ != id;
            rules[k].threshold
        } else {
            None
        }
    } else {
        None
    }
}

/// A finding is reported when its rule sets no threshold, or when it reached
/// it. A finding whose rule cannot be found is reported.
pub open spec fn reported(plugins: Seq<Plugin>, s: StatsModel) -> bool {
    match rule_threshold(plugins, s.plugin, s.id) {
        Some(th) => s.matches >= th,
        None => true,
    }
}

/// The reported findings, in order.
pub open spec fn keep_reported(plugins: Seq<Plugin>, st: Seq<StatsModel>) -> Seq<StatsModel>
    decreases st.len(),
{
    if st.len() == 0 {
        seq![]
    } else if reported(plugins, st.last()) {
        keep_reported(plugins, st.drop_last()).push(st.last())
    } else {
        keep_reported(plugins, st.drop_last())
    }
}

/// Everything the log parser reports for `log`.
pub open spec fn analysis(plugins: Seq<Plugin>, log: Seq<char>) -> Seq<StatsModel> {
    let ls = lines(log);
    keep_reported(plugins, scan_lines(plugins, ls, compiled_of(plugins), ls.len()))
}


// ---------------------------------------------------------------------
// Counting matches

/// The finding a compiled pattern counts towards: its plugin's name and
/// its rule's id.
pub open spec fn key_of(plugins: Seq<Plugin>, c: (int, int, Seq<char>, bool)) -> (Seq<char>, Seq<char>) {
    (plugins[c.0].name@, plugins[c.0].rules@[c.1].id@)
}

/// How often the finding for plugin `p` and rule `id` has matched: its
/// count, or 0 when there is no such finding.
pub open spec fn count_of(st: Seq<StatsModel>, p: Seq<char>, id: Seq<char>) -> int {
    let f = find_stats(st, p, id);
    if f >= 0 {
        st[f].matches as int
    } else {
        0
    }
}

/// How many of the patterns `cs` that count towards `(p, id)` match `line`.
pub open spec fn line_hits(
    plugins: Seq<Plugin>,
    line: Seq<char>,
    cs: Seq<(int, int, Seq<char>, bool)>,
    p: Seq<char>,
    id: Seq<char>,
) -> int
    decreases cs.len(),
{
    if cs.len() == 0 {
        0
    } else {
        line_hits(plugins, line, cs.drop_last(), p, id) + if key_of(plugins, cs.last()) == (p, id)
            && regex_matches(cs.last().2, cs.last().3, line) {
            1int
        } else {
            0int
        }
    }
}

/// How many (line, pattern) pairs counting towards `(p, id)` match, over
/// the last `k` lines.
pub open spec fn log_hits(
    plugins: Seq<Plugin>,
    ls: Seq<Seq<char>>,
    cs: Seq<(int, int, Seq<char>, bool)>,
    k: nat,
    p: Seq<char>,
    id: Seq<char>,
) -> int
    decreases k,
{
    if k == 0 || k > ls.len() {
        0
    } else {
        log_hits(plugins, ls, cs, (k - 1) as nat, p, id) + line_hits(plugins, ls[ls.len() - k], cs, p, id)
    }
}

proof fn lemma_find_push(st: Seq<StatsModel>, x: StatsModel, p: Seq<char>, id: Seq<char>)
    ensures
        find_stats(st.push(x), p, id) == (if find_stats(st, p, id) >= 0 {
            find_stats(st, p, id)
        } else if x.plugin == p && x.id == id {
            st.len() as int
        } else {
            -1
        }),
{
    assert(st.push(x).drop_last() =~= st);
}

proof fn lemma_find_update(st: Seq<StatsModel>, q: int, x: StatsModel, p: Seq<char>, id: Seq<char>)
    requires
        0 <= q < st.len(),
        x.plugin == st[q].plugin,
        x.id == st[q].id,
    ensures
        find_stats(st.update(q, x), p, id) == find_stats(st, p, id),
    decreases st.len(),
{
    let u = st.update(q, x);
    if q == st.len() - 1 {
        assert(u.drop_last() =~= st.drop_last());
    } else {
        assert(u.drop_last() =~= st.drop_last().update(q, x));
        lemma_find_update(st.drop_last(), q, x, p, id);
    }
}

proof fn lemma_step_count(
    st: Seq<StatsModel>,
    plugins: Seq<Plugin>,
    idx: int,
    line: Seq<char>,
    c: (int, int, Seq<char>, bool),
    p: Seq<char>,
    id: Seq<char>,
)
    requires
        0 <= c.0 < plugins.len(),
        0 <= c.1 < plugins[c.0].rules@.len(),
    ensures
        count_of(scan_step(st, plugins, idx, line, c), p, id) == count_of(st, p, id) + if key_of(
            plugins,
            c,
        ) == (p, id) && regex_matches(c.2, c.3, line) {
            1int
        } else {
            0int
        },
{
    if regex_matches(c.2, c.3, line) {
        let rule = plugins[c.0].rules@[c.1];
        let pname = plugins[c.0].name@;
        let f = find_stats(st, pname, rule.id@);
        lemma_find_stats_range(st, pname, rule.id@);
        lemma_find_stats_range(st, p, id);
        let fresh = fresh_stats(pname, rule);
        let st1 = if f < 0 {
            st.push(fresh)
        } else {
            st
        };
        let q = if f < 0 {
            st.len() as int
        } else {
            f
        };
        lemma_find_push(st, fresh, p, id);
        lemma_find_push(st, fresh, pname, rule.id@);
        let e = st1[q];
        let ex = if e.examples.len() < example_limit(rule) {
            e.examples.push(example_text(idx, line))
        } else {
            e.examples
        };
        let x = StatsModel { matches: e.matches + 1, examples: ex, ..e };
        lemma_find_update(st1, q, x, p, id);
        lemma_find_stats_range(st1, p, id);
        assert(scan_step(st, plugins, idx, line, c) == st1.update(q, x));
    }
}

proof fn lemma_line_count(
    st: Seq<StatsModel>,
    plugins: Seq<Plugin>,
    idx: int,
    line: Seq<char>,
    cs: Seq<(int, int, Seq<char>, bool)>,
    p: Seq<char>,
    id: Seq<char>,
)
    requires
        forall|k: int|
            0 <= k < cs.len() ==> 0 <= (#[trigger] cs[k]).0 < plugins.len() && 0 <= cs[k].1
                < plugins[cs[k].0].rules@.len(),
    ensures
        count_of(scan_line(st, plugins, idx, line, cs), p, id) == count_of(st, p, id) + line_hits(
            plugins,
            line,
            cs,
            p,
            id,
        ),
    decreases cs.len(),
{
    if cs.len() > 0 {
        let q = cs.drop_last();
        assert forall|k: int| 0 <= k < q.len() implies 0 <= (#[trigger] q[k]).0 < plugins.len() && 0
            <= q[k].1 < plugins[q[k].0].rules@.len() by {
            assert(q[k] == cs[k]);
        }
        lemma_line_count(st, plugins, idx, line, q, p, id);
        assert(cs.last() == cs[cs.len() - 1]);
        lemma_step_count(scan_line(st, plugins, idx, line, q), plugins, idx, line, cs.last(), p, id);
    }
}

proof fn lemma_lines_count(
    plugins: Seq<Plugin>,
    ls: Seq<Seq<char>>,
    cs: Seq<(int, int, Seq<char>, bool)>,
    k: nat,
    p: Seq<char>,
    id: Seq<char>,
)
    requires
        forall|j: int|
            0 <= j < cs.len() ==> 0 <= (#[trigger] cs[j]).0 < plugins.len() && 0 <= cs[j].1
                < plugins[cs[j].0].rules@.len(),
    ensures
        count_of(scan_lines(plugins, ls, cs, k), p, id) == log_hits(plugins, ls, cs, k, p, id),
    decreases k,
{
    if k == 0 || k > ls.len() {
        assert(find_stats(Seq::<StatsModel>::empty(), p, id) == -1);
    } else {
        lemma_lines_count(plugins, ls, cs, (k - 1) as nat, p, id);
        let idx = ls.len() - k;
        lemma_line_count(scan_lines(plugins, ls, cs, (k - 1) as nat), plugins, idx, ls[idx], cs, p, id);
    }
}

/// Law: before the thresholds are applied, the count of the finding for
/// plugin `p` and rule `id` is the number of (line, pattern) pairs in which
/// a compiling pattern of that rule matches the line (0 when there is no
/// such finding).
pub proof fn lemma_log_counts(plugins: Seq<Plugin>, log: Seq<char>, p: Seq<char>, id: Seq<char>)
    ensures
        count_of(
            scan_lines(plugins, lines(log), compiled_of(plugins), lines(log).len()),
            p,
            id,
        ) == log_hits(plugins, lines(log), compiled_of(plugins), lines(log).len(), p, id),
{
    lemma_compiled_of_bounds(plugins);
    lemma_lines_count(plugins, lines(log), compiled_of(plugins), lines(log).len(), p, id);
}

/// The findings are well kept: each has matched at least once, and no two
/// are for the same plugin and rule.
pub open spec fn findings_ok(st: Seq<StatsModel>) -> bool {
    &&& forall|i: int| 0 <= i < st.len() ==> (#[trigger] st[i]).matches >= 1
    &&& forall|i: int, j: int|
        0 <= i < j < st.len() ==> !(#[trigger] st[i].plugin == #[trigger] st[j].plugin && st[i].id
            == st[j].id)
}

proof fn lemma_find_of_ok(st: Seq<StatsModel>, j: int)
    requires
        findings_ok(st),
        0 <= j < st.len(),
    ensures
        find_stats(st, st[j].plugin, st[j].id) == j,
{
    assert forall|k: int| 0 <= k < st.len() && (j < 0 || k < j) implies !(st[k].plugin == st[j].plugin
        && st[k].id == st[j].id) by {
        if k < j {
            assert(!(st[k].plugin == st[j].plugin && st[k].id == st[j].id));
        }
    }
    lemma_find_stats_unique(st, st[j].plugin, st[j].id, j);
}

proof fn lemma_step_ok(
    st: Seq<StatsModel>,
    plugins: Seq<Plugin>,
    idx: int,
    line: Seq<char>,
    c: (int, int, Seq<char>, bool),
)
    requires
        findings_ok(st),
        0 <= c.0 < plugins.len(),
        0 <= c.1 < plugins[c.0].rules@.len(),
    ensures
        findings_ok(scan_step(st, plugins, idx, line, c)),
{
    if regex_matches(c.2, c.3, line) {
        let rule = plugins[c.0].rules@[c.1];
        let pname = plugins[c.0].name@;
        let f = find_stats(st, pname, rule.id@);
        lemma_find_stats_range(st, pname, rule.id@);
        let fresh = fresh_stats(pname, rule);
        let st1 = if f < 0 {
            st.push(fresh)
        } else {
            st
        };
        let q = if f < 0 {
            st.len() as int
        } else {
            f
        };
        if f < 0 {
            assert forall|i: int| 0 <= i < st.len() implies !(st[i].plugin == pname && st[i].id
                == rule.id@) by {
                if st[i].plugin == pname && st[i].id == rule.id@ {
                    lemma_find_of_ok(st, i);
                }
            }
            assert forall|i: int, j: int| 0 <= i < j < st1.len() implies !(#[trigger] st1[i].plugin
                == #[trigger] st1[j].plugin && st1[i].id == st1[j].id) by {
                if j == st.len() {
                    assert(st1[i] == st[i]);
                } else {
                    assert(st1[i] == st[i] && st1[j] == st[j]);
                }
            }
        }
        let e = st1[q];
        let ex = if e.examples.len() < example_limit(rule) {
            e.examples.push(example_text(idx, line))
        } else {
            e.examples
        };
        let x = StatsModel { matches: e.matches + 1, examples: ex, ..e };
        let r = st1.update(q, x);
        assert(scan_step(st, plugins, idx, line, c) == r);
        assert forall|i: int| 0 <= i < r.len() implies (#[trigger] r[i]).matches >= 1 by {
            if i != q {
                assert(r[i] == st1[i]);
                if i < st.len() {
                    assert(st1[i] == st[i]);
                }
            }
        }
        assert forall|i: int, j: int| 0 <= i < j < r.len() implies !(#[trigger] r[i].plugin
            == #[trigger] r[j].plugin && r[i].id == r[j].id) by {
            assert(r[i].plugin == st1[i].plugin && r[i].id == st1[i].id);
            assert(r[j].plugin == st1[j].plugin && r[j].id == st1[j].id);
            if f >= 0 {
                assert(!(st[i].plugin == st[j].plugin && st[i].id == st[j].id));
            } else if j < st.len() {
                assert(st1[i] == st[i] && st1[j] == st[j]);
                assert(!(st[i].plugin == st[j].plugin && st[i].id == st[j].id));
            } else {
                assert(!(st1[i].plugin == st1[j].plugin && st1[i].id == st1[j].id));
            }
        }
    }
}

proof fn lemma_line_ok(
    st: Seq<StatsModel>,
    plugins: Seq<Plugin>,
    idx: int,
    line: Seq<char>,
    cs: Seq<(int, int, Seq<char>, bool)>,
)
    requires
        findings_ok(st),
        forall|k: int|
            0 <= k < cs.len() ==> 0 <= (#[trigger] cs[k]).0 < plugins.len() && 0 <= cs[k].1
                < plugins[cs[k].0].rules@.len(),
    ensures
        findings_ok(scan_line(st, plugins, idx, line, cs)),
    decreases cs.len(),
{
    if cs.len() > 0 {
        let q = cs.drop_last();
        assert forall|k: int| 0 <= k < q.len() implies 0 <= (#[trigger] q[k]).0 < plugins.len() && 0
            <= q[k].1 < plugins[q[k].0].rules@.len() by {
            assert(q[k] == cs[k]);
        }
        lemma_line_ok(st, plugins, idx, line, q);
        assert(cs.last() == cs[cs.len() - 1]);
        lemma_step_ok(scan_line(st, plugins, idx, line, q), plugins, idx, line, cs.last());
    }
}

proof fn lemma_lines_ok(
    plugins: Seq<Plugin>,
    ls: Seq<Seq<char>>,
    cs: Seq<(int, int, Seq<char>, bool)>,
    k: nat,
)
    requires
        forall|j: int|
            0 <= j < cs.len() ==> 0 <= (#[trigger] cs[j]).0 < plugins.len() && 0 <= cs[j].1
                < plugins[cs[j].0].rules@.len(),
    ensures
        findings_ok(scan_lines(plugins, ls, cs, k)),
    decreases k,
{
    if k > 0 && k <= ls.len() {
        lemma_lines_ok(plugins, ls, cs, (k - 1) as nat);
        let idx = ls.len() - k;
        lemma_line_ok(scan_lines(plugins, ls, cs, (k - 1) as nat), plugins, idx, ls[idx], cs);
    }
}

proof fn lemma_keep_reported_from(plugins: Seq<Plugin>, st: Seq<StatsModel>, i: int)
    requires
        0 <= i < keep_reported(plugins, st).len(),
    ensures
        exists|j: int| 0 <= j < st.len() && keep_reported(plugins, st)[i] == st[j] && reported(plugins, st[j]),
    decreases st.len(),
{
    let q = st.drop_last();
    let kq = keep_reported(plugins, q);
    let last = st[st.len() - 1];
    assert(st.last() == last);
    if reported(plugins, last) {
        assert(keep_reported(plugins, st) == kq.push(last));
        if i < kq.len() {
            lemma_keep_reported_from(plugins, q, i);
            let j = choose|j: int| 0 <= j < q.len() && kq[i] == q[j] && reported(plugins, q[j]);
            assert(st[j] == q[j]);
        } else {
            assert(keep_reported(plugins, st)[i] == st[st.len() - 1]);
        }
    } else {
        assert(keep_reported(plugins, st) == kq);
        lemma_keep_reported_from(plugins, q, i);
        let j = choose|j: int| 0 <= j < q.len() && kq[i] == q[j] && reported(plugins, q[j]);
        assert(st[j] == q[j]);
    }
}

proof fn lemma_keep_reported_to(plugins: Seq<Plugin>, st: Seq<StatsModel>, j: int)
    requires
        0 <= j < st.len(),
        reported(plugins, st[j]),
    ensures
        exists|i: int| 0 <= i < keep_reported(plugins, st).len() && keep_reported(plugins, st)[i] == st[j],
    decreases st.len(),
{
    let q = st.drop_last();
    let kq = keep_reported(plugins, q);
    let last = st[st.len() - 1];
    assert(st.last() == last);
    if j == st.len() - 1 {
        assert(keep_reported(plugins, st) == kq.push(last));
        assert(keep_reported(plugins, st)[kq.len() as int] == st[j]);
    } else {
        assert(st[j] == q[j]);
        lemma_keep_reported_to(plugins, q, j);
        let i = choose|i: int| 0 <= i < kq.len() && kq[i] == q[j];
        if reported(plugins, last) {
            assert(keep_reported(plugins, st) == kq.push(last));
            assert(keep_reported(plugins, st)[i] == kq[i]);
        } else {
            assert(keep_reported(plugins, st) == kq);
        }
    }
}

/// The finding for plugin `p` and rule `id` passes its rule's threshold
/// with `n` matches (a rule without a threshold, or not found, always
/// passes).
pub open spec fn passes_threshold(plugins: Seq<Plugin>, p: Seq<char>, id: Seq<char>, n: int) -> bool {
    match rule_threshold(plugins, p, id) {
        Some(th) => n >= th,
        None => true,
    }
}

/// Law: the parser reports a finding for plugin `p` and rule `id` exactly
/// when some compiling pattern of that rule matched some line and the
/// number of such (line, pattern) matches reaches the rule's threshold;
/// the finding then carries that number.
pub proof fn lemma_reported_counts(plugins: Seq<Plugin>, log: Seq<char>, p: Seq<char>, id: Seq<char>)
    ensures
        ({
            let a = analysis(plugins, log);
            let n = log_hits(plugins, lines(log), compiled_of(plugins), lines(log).len(), p, id);
            &&& (exists|i: int| 0 <= i < a.len() && (#[trigger] a[i]).plugin == p && a[i].id == id)
                <==> (n > 0 && passes_threshold(plugins, p, id, n))
            &&& forall|i: int|
                0 <= i < a.len() && (#[trigger] a[i]).plugin == p && a[i].id == id ==> a[i].matches == n
        }),
{
    let ls = lines(log);
    let cs = compiled_of(plugins);
    let st = scan_lines(plugins, ls, cs, ls.len());
    let a = analysis(plugins, log);
    let n = log_hits(plugins, ls, cs, ls.len(), p, id);
    lemma_compiled_of_bounds(plugins);
    lemma_lines_count(plugins, ls, cs, ls.len(), p, id);
    lemma_lines_ok(plugins, ls, cs, ls.len());
    lemma_find_stats_range(st, p, id);
    assert(a == keep_reported(plugins, st));
    assert forall|i: int| 0 <= i < a.len() && (#[trigger] a[i]).plugin == p && a[i].id == id implies a[i].matches
        == n && n > 0 && passes_threshold(plugins, p, id, n) by {
        lemma_keep_reported_from(plugins, st, i);
        let j = choose|j: int| 0 <= j < st.len() && a[i] == st[j] && reported(plugins, st[j]);
        lemma_find_of_ok(st, j);
    }
    if n > 0 && passes_threshold(plugins, p, id, n) {
        let f = find_stats(st, p, id);
        assert(f >= 0);
        assert(reported(plugins, st[f]));
        lemma_keep_reported_to(plugins, st, f);
        let i = choose|i: int| 0 <= i < a.len() && a[i] == st[f];
        assert(a[i].plugin == p && a[i].id == id);
    }
}

/// `s` carries the texts of a rule of its plugin: some plugin of its name
/// has a rule of its id whose title, level, message and recommendation it
/// holds.
spec fn from_rule(plugins: Seq<Plugin>, s: StatsModel) -> bool {
    exists|i: int, k: int|
        0 <= i < plugins.len() && 0 <= k < plugins[i].rules@.len() && plugins[i].name@ == s.plugin
            && (#[trigger] plugins[i].rules@[k]).id@ == s.id && s.title == opt_view(plugins[i].rules@[k].title)
            && s.level == opt_view(plugins[i].rules@[k].level) && s.message == opt_view(
            plugins[i].rules@[k].message,
        ) && s.recommendation == opt_view(plugins[i].rules@[k].recommendation)
}

spec fn all_from_rules(plugins: Seq<Plugin>, st: Seq<StatsModel>) -> bool {
    forall|j: int| 0 <= j < st.len() ==> from_rule(plugins, #[trigger] st[j])
}

proof fn lemma_step_from_rules(
    st: Seq<StatsModel>,
    plugins: Seq<Plugin>,
    idx: int,
    line: Seq<char>,
    c: (int, int, Seq<char>, bool),
)
    requires
        all_from_rules(plugins, st),
        0 <= c.0 < plugins.len(),
        0 <= c.1 < plugins[c.0].rules@.len(),
    ensures
        all_from_rules(plugins, scan_step(st, plugins, idx, line, c)),
{
    if regex_matches(c.2, c.3, line) {
        let rule = plugins[c.0].rules@[c.1];
        let pname = plugins[c.0].name@;
        let f = find_stats(st, pname, rule.id@);
        lemma_find_stats_range(st, pname, rule.id@);
        let fresh = fresh_stats(pname, rule);
        assert(from_rule(plugins, fresh));
        let st1 = if f < 0 {
            st.push(fresh)
        } else {
            st
        };
        let q = if f < 0 {
            st.len() as int
        } else {
            f
        };
        assert(all_from_rules(plugins, st1)) by {
            assert forall|j: int| 0 <= j < st1.len() implies from_rule(plugins, #[trigger] st1[j]) by {
                if j < st.len() {
                    assert(st1[j] == st[j]);
                }
            }
        }
        let e = st1[q];
        let ex = if e.examples.len() < example_limit(rule) {
            e.examples.push(example_text(idx, line))
        } else {
            e.examples
        };
        let x = StatsModel { matches: e.matches + 1, examples: ex, ..e };
        assert(from_rule(plugins, e));
        assert(from_rule(plugins, x));
        let r = st1.update(q, x);
        assert(scan_step(st, plugins, idx, line, c) == r);
        assert forall|j: int| 0 <= j < r.len() implies from_rule(plugins, #[trigger] r[j]) by {
            if j != q {
                assert(r[j] == st1[j]);
            }
        }
    }
}

proof fn lemma_line_from_rules(
    st: Seq<StatsModel>,
    plugins: Seq<Plugin>,
    idx: int,
    line: Seq<char>,
    cs: Seq<(int, int, Seq<char>, bool)>,
)
    requires
        all_from_rules(plugins, st),
        forall|k: int|
            0 <= k < cs.len() ==> 0 <= (#[trigger] cs[k]).0 < plugins.len() && 0 <= cs[k].1
                < plugins[cs[k].0].rules@.len(),
    ensures
        all_from_rules(plugins, scan_line(st, plugins, idx, line, cs)),
    decreases cs.len(),
{
    if cs.len() > 0 {
        let q = cs.drop_last();
        assert forall|k: int| 0 <= k < q.len() implies 0 <= (#[trigger] q[k]).0 < plugins.len() && 0
            <= q[k].1 < plugins[q[k].0].rules@.len() by {
            assert(q[k] == cs[k]);
        }
        lemma_line_from_rules(st, plugins, idx, line, q);
        assert(cs.last() == cs[cs.len() - 1]);
        lemma_step_from_rules(scan_line(st, plugins, idx, line, q), plugins, idx, line, cs.last());
    }
}

proof fn lemma_lines_from_rules(
    plugins: Seq<Plugin>,
    ls: Seq<Seq<char>>,
    cs: Seq<(int, int, Seq<char>, bool)>,
    k: nat,
)
    requires
        forall|j: int|
            0 <= j < cs.len() ==> 0 <= (#[trigger] cs[j]).0 < plugins.len() && 0 <= cs[j].1
                < plugins[cs[j].0].rules@.len(),
    ensures
        all_from_rules(plugins, scan_lines(plugins, ls, cs, k)),
    decreases k,
{
    if k > 0 && k <= ls.len() {
        lemma_lines_from_rules(plugins, ls, cs, (k - 1) as nat);
        let idx = ls.len() - k;
        lemma_line_from_rules(scan_lines(plugins, ls, cs, (k - 1) as nat), plugins, idx, ls[idx], cs);
    }
}

/// Law: every finding the parser reports carries the title, level,
/// message and recommendation of a rule of its id in a plugin of its name,
/// each text in its own place.
pub proof fn lemma_findings_carry_rule_texts(plugins: Seq<Plugin>, log: Seq<char>)
    ensures
        forall|f: int|
            0 <= f < analysis(plugins, log).len() ==> exists|i: int, k: int|
                0 <= i < plugins.len() && 0 <= k < plugins[i].rules@.len() && plugins[i].name@ == (
                #[trigger] analysis(plugins, log)[f]).plugin && plugins[i].rules@[k].id@ == analysis(
                    plugins,
                    log,
                )[f].id && analysis(plugins, log)[f].title == opt_view(plugins[i].rules@[k].title)
                    && analysis(plugins, log)[f].level == opt_view(plugins[i].rules@[k].level) && analysis(
                    plugins,
                    log,
                )[f].message == opt_view(plugins[i].rules@[k].message) && analysis(plugins, log)[f].recommendation
                    == opt_view(plugins[i].rules@[k].recommendation),
{
    let ls = lines(log);
    let cs = compiled_of(plugins);
    let st = scan_lines(plugins, ls, cs, ls.len());
    lemma_compiled_of_bounds(plugins);
    lemma_lines_from_rules(plugins, ls, cs, ls.len());
    assert forall|f: int| 0 <= f < analysis(plugins, log).len() implies from_rule(
        plugins,
        #[trigger] analysis(plugins, log)[f],
    ) by {
        lemma_keep_reported_from(plugins, st, f);
    }
}

/// Where plugin names are distinct and rule ids are distinct within each
/// plugin, a reported finding carries the title, level, message and
/// recommendation of exactly the rule that its plugin name and id select.
pub proof fn lemma_findings_use_selected_rule(
    plugins: Seq<Plugin>,
    log: Seq<char>,
    f: int,
    i: int,
    k: int,
)
    requires
        forall|a: int, b: int|
            0 <= a < b < plugins.len() ==> #[trigger] plugins[a].name@ != #[trigger] plugins[b].name@,
        forall|p: int, a: int, b: int|
            0 <= p < plugins.len() && 0 <= a < b < plugins[p].rules@.len()
                ==> #[trigger] plugins[p].rules@[a].id@ != #[trigger] plugins[p].rules@[b].id@,
        0 <= f < analysis(plugins, log).len(),
        0 <= i < plugins.len(),
        0 <= k < plugins[i].rules@.len(),
        plugins[i].name@ == analysis(plugins, log)[f].plugin,
        plugins[i].rules@[k].id@ == analysis(plugins, log)[f].id,
    ensures
        analysis(plugins, log)[f].title == opt_view(plugins[i].rules@[k].title),
        analysis(plugins, log)[f].level == opt_view(plugins[i].rules@[k].level),
        analysis(plugins, log)[f].message == opt_view(plugins[i].rules@[k].message),
        analysis(plugins, log)[f].recommendation == opt_view(plugins[i].rules@[k].recommendation),
{
    lemma_findings_carry_rule_texts(plugins, log);
    let a = analysis(plugins, log)[f];
    let (i2, k2) = choose|i2: int, k2: int|
        0 <= i2 < plugins.len() && 0 <= k2 < plugins[i2].rules@.len() && plugins[i2].name@ == a.plugin
            && plugins[i2].rules@[k2].id@ == a.id && a.title == opt_view(plugins[i2].rules@[k2].title)
            && a.level == opt_view(plugins[i2].rules@[k2].level) && a.message == opt_view(
            plugins[i2].rules@[k2].message,
        ) && a.recommendation == opt_view(plugins[i2].rules@[k2].recommendation);
    if i2 < i {
        assert(plugins[i2].name@ != plugins[i].name@);
    } else if i < i2 {
        assert(plugins[i].name@ != plugins[i2].name@);
    }
    assert(i2 == i);
    if k2 < k {
        assert(plugins[i].rules@[k2].id@ != plugins[i].rules@[k].id@);
    } else if k < k2 {
        assert(plugins[i].rules@[k].id@ != plugins[i].rules@[k2].id@);
    }
}

// ---------------------------------------------------------------------
// Executable scan

/// `find_stats` reports the first entry with that plugin and id.
proof fn lemma_find_stats_unique(st: Seq<StatsModel>, p: Seq<char>, id: Seq<char>, i: int)
    requires
        -1 <= i < st.len(),
        i >= 0 ==> st[i].plugin == p && st[i].id == id,
        forall|j: int|
            0 <= j < st.len() && (i < 0 || j < i) ==> !(st[j].plugin == p && st[j].id == id),
    ensures
        find_stats(st, p, id) == i,
    decreases st.len(),
{
    if st.len() > 0 {
        let q = st.drop_last();
        if i == st.len() - 1 {
            lemma_find_stats_unique(q, p, id, -1);
        } else {
            assert forall|j: int|
                0 <= j < q.len() && (i < 0 || j < i) implies !(q[j].plugin == p && q[j].id
                == id) by {
                assert(q[j] == st[j]);
            }
            if i >= 0 {
                assert(q[i] == st[i]);
            }
            lemma_find_stats_unique(q, p, id, i);
        }
    }
}

/// `find_stats` reports an existing matching entry, or `-1`.
proof fn lemma_find_stats_range(st: Seq<StatsModel>, p: Seq<char>, id: Seq<char>)
    ensures
        -1 <= find_stats(st, p, id) < st.len(),
        find_stats(st, p, id) >= 0 ==> st[find_stats(st, p, id)].plugin == p && st[find_stats(
            st,
            p,
            id,
        )].id == id,
    decreases st.len(),
{
    if st.len() > 0 {
        lemma_find_stats_range(st.drop_last(), p, id);
    }
}

/// Position of the finding for plugin `p` and rule id `id`.
fn find_stats_exec(stats: &Vec<RuleStats>, p: &String, id: &String) -> (r: Option<usize>)
    ensures
        r matches Some(i) ==> find_stats(stats_models(stats@), p@, id@) == i,
        r is None ==> find_stats(stats_models(stats@), p@, id@) == -1,
{
    let ghost st = stats_models(stats@);
    let mut i: usize = 0;
    while i < stats.len()
        invariant
            i <= stats.len(),
            st == stats_models(stats@),
            forall|j: int| 0 <= j < i ==> !(st[j].plugin == p@ && st[j].id == id@),
        decreases stats.len() - i,
    {
        if stats[i].plugin == *p && stats[i].id == *id {
            proof {
                lemma_find_stats_unique(st, p@, id@, i as int);
            }
            return Some(i);
        }
        i = i + 1;
    }
    proof {
        lemma_find_stats_unique(st, p@, id@, -1);
    }
    None
}

/// A fresh finding for rule `rule` of the plugin named `plugin`.
fn fresh_stats_exec(plugin: &String, rule: &RuleSpec) -> (r: RuleStats)
    ensures
        stats_model(r) == fresh_stats(plugin@, *rule),
{
    let r = RuleStats {
        plugin: plugin.clone(),
        id: rule.id.clone(),
        title: clone_opt(&rule.title),
        level: clone_opt(&rule.level),
        matches: 0,
        examples: Vec::new(),
        message: clone_opt(&rule.message),
        recommendation: clone_opt(&rule.recommendation),
    };
    assert(stats_model(r).examples =~= Seq::<Seq<char>>::empty());
    r
}

/// How example line `idx` is shown.
fn example_text_exec(idx: usize, line: &Vec<char>) -> (r: String)
    requires
        idx + 1 <= u64::MAX,
    ensures
        r@ == example_text(idx as int, line@),
{
    let mut v = decimal_chars(idx as u64 + 1);
    append_str(&mut v, ": ");
    append_chars(&mut v, line);
    string_of(&v)
}

/// The compiled entries as plugin index, rule index and pattern text.
pub open spec fn compiled_keys(cs: Seq<CompiledRule>) -> Seq<(int, int, Seq<char>, bool)> {
    cs.map_values(|c: CompiledRule| compiled_key(c))
}

/// The compiled entries point at existing rules.
pub open spec fn compiled_valid(plugins: Seq<Plugin>, cs: Seq<CompiledRule>) -> bool {
    forall|k: int|
        0 <= k < cs.len() ==> (#[trigger] cs[k]).plugin < plugins.len() && cs[k].rule
            < plugins[cs[k].plugin as int].rules@.len()
}

/// Tries one compiled pattern on line `idx` and records a match.
fn scan_step_exec(
    stats: &mut Vec<RuleStats>,
    plugins: &Vec<Plugin>,
    idx: usize,
    line: &Vec<char>,
    line_str: &String,
    c: &CompiledRule,
    Ghost(bound): Ghost<int>,
)
    requires
        line_str@ == line@,
        idx + 1 <= u64::MAX,
        c.plugin < plugins@.len(),
        c.rule < plugins@[c.plugin as int].rules@.len(),
        0 <= bound < u64::MAX,
        forall|i: int| 0 <= i < old(stats)@.len() ==> (#[trigger] old(stats)@[i]).matches <= bound,
    ensures
        stats_models(final(stats)@) == scan_step(
            stats_models(old(stats)@),
            plugins@,
            idx as int,
            line@,
            compiled_key(*c),
        ),
        forall|i: int|
            0 <= i < final(stats)@.len() ==> (#[trigger] final(stats)@[i]).matches <= bound + 1,
{
    if !pattern_is_match(&c.pattern, line_str.as_str()) {
        return;
    }
    let ghost st = stats_models(stats@);
    let plugin = &plugins[c.plugin];
    let rule = &plugin.rules[c.rule];
    proof {
        lemma_find_stats_range(st, plugin.name@, rule.id@);
    }
    let q = match find_stats_exec(stats, &plugin.name, &rule.id) {
        Some(q) => q,
        None => {
            let f = fresh_stats_exec(&plugin.name, rule);
            let ghost before = stats@;
            stats.push(f);
            assert(stats_models(stats@) =~= st.push(fresh_stats(plugin.name@, *rule)));
            assert forall|i: int| 0 <= i < stats@.len() implies (#[trigger] stats@[i]).matches
                <= bound by {
                if i < before.len() {
                    assert(before == old(stats)@);
                    assert(stats@[i] == before[i]);
                    assert(old(stats)@[i].matches <= bound);
                } else {
                    assert(stats@[i] == f);
                    assert(stats_model(f).matches == 0);
                }
            }
            stats.len() - 1
        },
    };
    let ghost st1 = stats_models(stats@);
    let limit: usize = match rule.context_lines {
        Some(n) => n,
        None => DEFAULT_CONTEXT_LINES,
    };
    let mut cur = RuleStats {
        plugin: String::new(),
        id: String::new(),
        title: None,
        level: None,
        matches: 0,
        examples: Vec::new(),
        message: None,
        recommendation: None,
    };
    let ghost mid = stats@;
    assert(forall|i: int| 0 <= i < mid.len() ==> (#[trigger] mid[i]).matches <= bound);
    assert(mid[q as int].matches <= bound);
    stats.set_and_swap(q, &mut cur);
    let ghost e = stats_model(cur);
    assert(e == st1[q as int]);
    cur.matches = cur.matches + 1;
    if cur.examples.len() < limit {
        let ex = example_text_exec(idx, line);
        cur.examples.push(ex);
        assert(stats_model(cur).examples =~= e.examples.push(example_text(idx as int, line@)));
    }
    stats.set_and_swap(q, &mut cur);
    assert(stats_models(stats@) =~= st1.update(
        q as int,
        StatsModel {
            matches: e.matches + 1,
            examples: if e.examples.len() < example_limit(*rule) {
                e.examples.push(example_text(idx as int, line@))
            } else {
                e.examples
            },
            ..e
        },
    ));
    assert forall|i: int| 0 <= i < stats@.len() implies (#[trigger] stats@[i]).matches <= bound
        + 1 by {
        if i != q {
            assert(stats@[i] == mid[i]);
        }
    }
}

/// The findings of the compiled patterns `compiled` on the lines `ls`,
/// scanned from the last line to the first.
pub fn scan_log(plugins: &Vec<Plugin>, compiled: &Vec<CompiledRule>, ls: &Vec<Vec<char>>) -> (r:
    Vec<RuleStats>)
    requires
        compiled_valid(plugins@, compiled@),
        ls@.len() * compiled@.len() <= u64::MAX,
    ensures
        stats_models(r@) == scan_lines(plugins@, views(ls@), compiled_keys(compiled@), ls@.len()),
{
    let ghost cs = compiled_keys(compiled@);
    let ghost vls = views(ls@);
    let n = ls.len();
    let m = compiled.len();
    let mut stats: Vec<RuleStats> = Vec::new();
    let mut k: usize = 0;
    assert(stats_models(stats@) =~= scan_lines(plugins@, vls, cs, 0));
    while k < n
        invariant
            n == ls@.len(),
            m == compiled@.len(),
            cs == compiled_keys(compiled@),
            vls == views(ls@),
            compiled_valid(plugins@, compiled@),
            n * m <= u64::MAX,
            k <= n,
            stats_models(stats@) == scan_lines(plugins@, vls, cs, k as nat),
            forall|i: int| 0 <= i < stats@.len() ==> (#[trigger] stats@[i]).matches <= k * m,
        decreases n - k,
    {
        let idx = n - k - 1;
        let line = &ls[idx];
        let line_str = string_of(line);
        assert(vls[idx as int] == line@);
        let ghost base = scan_lines(plugins@, vls, cs, k as nat);
        let mut j: usize = 0;
        assert(cs.take(0) =~= Seq::<(int, int, Seq<char>, bool)>::empty());
        while j < m
            invariant
                n == ls@.len(),
                m == compiled@.len(),
                cs == compiled_keys(compiled@),
                compiled_valid(plugins@, compiled@),
                n * m <= u64::MAX,
                k < n,
                idx == n - k - 1,
                line == &ls@[idx as int],
                line_str@ == line@,
                j <= m,
                stats_models(stats@) == scan_line(base, plugins@, idx as int, line@, cs.take(j as int)),
                forall|i: int| 0 <= i < stats@.len() ==> (#[trigger] stats@[i]).matches <= k * m + j,
            decreases m - j,
        {
            assert(k * m + j < n * m) by (nonlinear_arith)
                requires
                    k < n,
                    j < m,
            ;
            let c = &compiled[j];
            assert(compiled_valid(plugins@, compiled@));
            assert(c.plugin < plugins@.len() && c.rule < plugins@[c.plugin as int].rules@.len()) by {
                assert(compiled@[j as int] == *c);
            }
            assert(idx + 1 <= u64::MAX) by {
                assert(idx < n);
            }
            scan_step_exec(&mut stats, plugins, idx, line, &line_str, c, Ghost(k * m + j));
            assert(cs.take(j + 1).drop_last() =~= cs.take(j as int));
            assert(cs.take(j + 1).last() == compiled_key(*c));
            j = j + 1;
        }
        assert(cs.take(m as int) =~= cs);
        assert(k * m + m == (k + 1) * m) by (nonlinear_arith);
        assert((n - (k + 1) as nat) == idx);
        k = k + 1;
    }
    stats
}


/// The threshold of the rule a finding belongs to (see `rule_threshold`).
fn rule_threshold_exec(plugins: &Vec<Plugin>, p: &String, id: &String) -> (r: Option<u32>)
    ensures
        r == rule_threshold(plugins@, p@, id@),
{
    let mut i: usize = 0;
    while i < plugins.len()
        invariant
            i <= plugins.len(),
            forall|j: int| 0 <= j < i ==> plugins@[j].name@ != p@,
        decreases plugins.len() - i,
    {
        if plugins[i].name == *p {
            let ghost pi = choose|x: int|
                0 <= x < plugins@.len() && plugins@[x].name@ == p@ && forall|j: int|
                    0 <= j < x ==> plugins@[j].name@ != p@;
            assert(pi == i) by {
                assert(plugins@[i as int].name@ == p@);
                if pi < i {
                    assert(plugins@[pi].name@ != p@);
                } else if pi > i {
                    assert(plugins@[i as int].name@ != p@);
                }
            }
            let rules = &plugins[i].rules;
            let mut k: usize = 0;
            while k < rules.len()
                invariant
                    i < plugins@.len(),
                    rules == &plugins@[i as int].rules,
                    plugins@[i as int].name@ == p@,
                    forall|j: int| 0 <= j < i ==> plugins@[j].name@ != p@,
                    k <= rules.len(),
                    forall|j: int| 0 <= j < k ==> rules@[j].id@ != id@,
                decreases rules.len() - k,
            {
                if rules[k].id == *id {
                    let ghost kk = choose|x: int|
                        0 <= x < rules@.len() && rules@[x].id@ == id@ && forall|j: int|
                            0 <= j < x ==> rules@[j].id@ != id@;
                    assert(kk == k) by {
                        assert(rules@[k as int].id@ == id@);
                        if kk < k {
                            assert(rules@[kk].id@ != id@);
                        } else if kk > k {
                            assert(rules@[k as int].id@ != id@);
                        }
                    }
                    assert(rules@ == plugins@[i as int].rules@);
                    assert(exists|x: int| 0 <= x < plugins@.len() && plugins@[x].name@ == p@);
                    assert(exists|x: int| 0 <= x < rules@.len() && rules@[x].id@ == id@);
                    return rules[k].threshold;
                }
                k = k + 1;
            }
            assert(rules@ == plugins@[i as int].rules@);
            assert(exists|x: int| 0 <= x < plugins@.len() && plugins@[x].name@ == p@);
            return None;
        }
        i = i + 1;
    }
    None
}

/// The findings that are reported, in order.
pub fn keep_reported_exec(plugins: &Vec<Plugin>, stats: Vec<RuleStats>) -> (r: Vec<RuleStats>)
    ensures
        stats_models(r@) == keep_reported(plugins@, stats_models(stats@)),
{
    let ghost orig = stats@;
    assert(orig.len() == stats.len());
    let mut rest = stats;
    let mut kept: Vec<RuleStats> = Vec::new();
    let mut i: usize = 0;
    assert(orig.take(0) =~= Seq::<RuleStats>::empty());
    assert(stats_models(orig.take(0)) =~= Seq::<StatsModel>::empty());
    while rest.len() > 0
        invariant
            i <= orig.len(),
            orig.len() <= usize::MAX,
            rest@ == orig.skip(i as int),
            stats_models(kept@) == keep_reported(plugins@, stats_models(orig.take(i as int))),
        decreases rest.len(),
    {
        let s = rest.remove(0);
        assert(orig.skip(i as int).drop_first() == orig.skip(i + 1));
        assert(stats_models(orig.take(i + 1)).drop_last() =~= stats_models(orig.take(i as int)));
        assert(stats_models(orig.take(i + 1)).last() == stats_model(s));
        let th = rule_threshold_exec(plugins, &s.plugin, &s.id);
        let keep = match th {
            Some(t) => s.matches >= t as u64,
            None => true,
        };
        if keep {
            let ghost before = kept@;
            kept.push(s);
            assert(stats_models(kept@) =~= stats_models(before).push(stats_model(s)));
        }
        i = i + 1;
    }
    assert(orig.take(orig.len() as int) =~= orig);
    kept
}

/// Law: `compile_rules` keeps no more entries than there are patterns,
/// and each points at an existing rule.
proof fn lemma_compiled_valid(plugins: Seq<Plugin>, cs: Seq<CompiledRule>)
    requires
        cs.map_values(|c: CompiledRule| compiled_key(c)) == compiled_of(plugins),
    ensures
        compiled_valid(plugins, cs),
        cs.len() <= pattern_count(plugins),
{
    lemma_compiled_of_bounds(plugins);
    assert forall|k: int| 0 <= k < cs.len() implies (#[trigger] cs[k]).plugin < plugins.len()
        && cs[k].rule < plugins[cs[k].plugin as int].rules@.len() by {
        assert(cs.map_values(|c: CompiledRule| compiled_key(c))[k] == compiled_key(cs[k]));
    }
}

/// What the log parser reports for `log`: the findings of every compiling
/// pattern of every rule, lines scanned from the last to the first, keeping
/// those that reached their rule's threshold.
pub fn analyze_log(plugins: &Vec<Plugin>, log: &str) -> (r: Vec<RuleStats>)
    requires
        (log@.len() + 1) * pattern_count(plugins@) <= u64::MAX,
    ensures
        stats_models(r@) == analysis(plugins@, log@),
{
    let compiled = compile_rules(plugins);
    proof {
        lemma_compiled_valid(plugins@, compiled@);
    }
    let text = chars_of(log);
    let ls = lines_of(&text);
    assert(ls@.len() * compiled@.len() <= u64::MAX) by (nonlinear_arith)
        requires
            ls@.len() <= log@.len() + 1,
            compiled@.len() <= pattern_count(plugins@),
            (log@.len() + 1) * pattern_count(plugins@) <= u64::MAX,
    ;
    let found = scan_log(plugins, &compiled, &ls);
    assert(compiled_keys(compiled@) == compiled_of(plugins@));
    keep_reported_exec(plugins, found)
}

/// What the parser window says when nothing was found.
pub const NOTHING_FOUND_TEXT: &'static str = "😎 Log parser didn't found anything in the log";

/// The level of a finding, in the colour of the level word, when it has one.
pub open spec fn level_field(level: Option<Seq<char>>) -> Seq<Shown> {
    match level {
        Some(l) => seq![Shown::Field("Level:"@, l, Tone::Status(item_color_of(l)))],
        None => seq![],
    }
}

/// The example lines of a finding under their heading, the most recently
/// kept first; nothing when there are none.
pub open spec fn examples_part(examples: Seq<Seq<char>>) -> Seq<Shown> {
    if examples.len() > 0 {
        seq![Shown::Separator, Shown::Heading("Examples:"@)] + examples.reverse().map_values(
            |e: Seq<char>| Shown::Item(e, Tone::Found),
        )
    } else {
        seq![]
    }
}

/// How the parser window shows one finding.
pub open spec fn finding_lines(f: RuleStats) -> Seq<Shown> {
    level_field(field_view(f.level)) + seq![Shown::Field("Occured:"@, decimal(f.matches as nat), Tone::Detail)]
        + opt_field("Desctiption:"@, field_view(f.message), Tone::Detail) + examples_part(texts(f.examples@))
        + opt_field("Reccomendations:"@, field_view(f.recommendation), Tone::Advice) + seq![Shown::Separator]
}

/// How the parser window shows the findings, in order.
pub open spec fn findings_shown(found: Seq<RuleStats>) -> Seq<Shown>
    decreases found.len(),
{
    if found.len() == 0 {
        seq![]
    } else {
        findings_shown(found.drop_last()) + finding_lines(found.last())
    }
}

/// The content of the parser window: the findings, or a notice that there
/// are none.
pub open spec fn parser_window_shown(found: Seq<RuleStats>) -> Seq<Shown> {
    if found.len() == 0 {
        seq![Shown::Item(NOTHING_FOUND_TEXT@, Tone::Status(ItemColor::Green))]
    } else {
        findings_shown(found)
    }
}

fn push_examples(out: &mut Vec<Line>, examples: &Vec<String>)
    ensures
        shown_all(final(out)@) == shown_all(old(out)@) + examples_part(texts(examples@)),
{
    let ghost before = shown_all(out@);
    let ghost all = texts(examples@);
    if examples.len() == 0 {
        assert(shown_all(out@) =~= before + examples_part(all));
        return;
    }
    push_line(out, Line::Separator);
    push_heading(out, "Examples:");
    let ghost head = shown_all(out@);
    let mut k: usize = examples.len();
    while k > 0
        invariant
            k <= examples@.len(),
            all == texts(examples@),
            shown_all(out@) == head + all.reverse().take(examples@.len() - k).map_values(
                |e: Seq<char>| Shown::Item(e, Tone::Found),
            ),
        decreases k,
    {
        k = k - 1;
        let ghost prev = shown_all(out@);
        push_line(out, Line::Item(examples[k].clone(), Tone::Found));
        assert(all.reverse()[examples@.len() - k - 1] == examples@[k as int]@);
        assert(all.reverse().take(examples@.len() - k).map_values(|e: Seq<char>| Shown::Item(e, Tone::Found))
            =~= all.reverse().take(examples@.len() - k - 1).map_values(|e: Seq<char>| Shown::Item(e, Tone::Found))
            .push(Shown::Item(examples@[k as int]@, Tone::Found)));
    }
    assert(all.reverse().take(examples@.len() as int) =~= all.reverse());
    assert(shown_all(out@) =~= before + examples_part(all));
}

fn push_finding(out: &mut Vec<Line>, f: &RuleStats)
    ensures
        shown_all(final(out)@) == shown_all(old(out)@) + finding_lines(*f),
{
    let ghost before = shown_all(out@);
    match &f.level {
        Some(l) => {
            let c = item_color(l.as_str());
            push_field(out, "Level:", l.clone(), Tone::Status(c));
        },
        None => {},
    }
    assert(shown_all(out@) =~= before + level_field(field_view(f.level)));
    push_field(out, "Occured:", string_of(&decimal_chars(f.matches)), Tone::Detail);
    push_opt_field(out, "Desctiption:", &f.message, Tone::Detail);
    push_examples(out, &f.examples);
    push_opt_field(out, "Reccomendations:", &f.recommendation, Tone::Advice);
    push_line(out, Line::Separator);
    assert(shown_all(out@) =~= before + finding_lines(*f));
}

impl LogParserWindow {
    /// The content of the window: each finding's level, count, description,
    /// examples and recommendation, or a notice when nothing was found.
    pub fn window_lines(&self) -> (r: Vec<Line>)
        ensures
            shown_all(r@) == parser_window_shown(self.filtered@),
    {
        let mut out: Vec<Line> = Vec::new();
        if self.filtered.len() == 0 {
            push_line(&mut out, Line::Item(string_of(&chars_of(NOTHING_FOUND_TEXT)), Tone::Status(ItemColor::Green)));
            assert(shown_all(out@) =~= parser_window_shown(self.filtered@));
            return out;
        }
        assert(shown_all(out@) =~= findings_shown(self.filtered@.take(0)));
        let mut i: usize = 0;
        while i < self.filtered.len()
            invariant
                i <= self.filtered@.len(),
                shown_all(out@) == findings_shown(self.filtered@.take(i as int)),
            decreases self.filtered.len() - i,
        {
            push_finding(&mut out, &self.filtered[i]);
            assert(self.filtered@.take(i as int + 1).drop_last() =~= self.filtered@.take(i as int));
            i = i + 1;
        }
        assert(self.filtered@.take(self.filtered@.len() as int) =~= self.filtered@);
        out
    }
}

} // verus!
