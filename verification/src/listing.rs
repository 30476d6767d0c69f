//! Resource lists: which entries are shown (namespace and text filter,
//! most recent first), and in which order (by name or age, either way,
//! keeping equal entries in list order).
use crate::text::{chars_of, contains_chars, contains_seq};
use vstd::prelude::*;

verus! {

/// The column a list is sorted by.
#[derive(PartialEq, Eq, Structural, Clone, Copy, Debug)]
pub enum SortBy {
    Name,
    Age,
}

/// How a list is sorted: the column, and whether ascending.
#[derive(PartialEq, Eq, Structural, Clone, Copy, Debug)]
pub struct SortState {
    pub by: SortBy,
    pub asc: bool,
}

/// The sorting after a click on a column header: the same column flips
/// the direction, another column becomes the sort column, ascending.
pub open spec fn after_click(state: SortState, column: SortBy) -> SortState {
    if state.by == column {
        SortState { by: column, asc: !state.asc }
    } else {
        SortState { by: column, asc: true }
    }
}

/// Clicking the sort column's header twice gives back the sorting it had.
pub proof fn lemma_double_click_restores(state: SortState)
    ensures
        after_click(after_click(state, state.by), state.by) == state,
{
}

/// Clicking another column twice sorts by it, descending.
pub proof fn lemma_new_column_twice(state: SortState, column: SortBy)
    requires
        state.by != column,
    ensures
        after_click(after_click(state, column), column) == (SortState { by: column, asc: false }),
{
}

/// A click on a column header.
pub fn header_clicked(state: SortState, column: SortBy) -> (r: SortState)
    ensures
        r == after_click(state, column),
{
    if state.by == column {
        SortState { by: column, asc: !state.asc }
    } else {
        SortState { by: column, asc: true }
    }
}

/// What an entry is sorted by: its name, and its creation time (seconds
/// and nanoseconds since the Unix epoch) when known.
pub struct ListKey {
    pub name: String,
    pub created: Option<(i64, u32)>,
}

/// Strict lexicographic order of texts, character by character
/// (the order of `String`'s `Ord`).
pub open spec fn lex_lt(a: Seq<char>, b: Seq<char>) -> bool
    decreases a.len(),
{
    if a.len() == 0 {
        b.len() > 0
    } else if b.len() == 0 {
        false
    } else if a[0] != b[0] {
        (a[0] as int) < (b[0] as int)
    } else {
        lex_lt(a.drop_first(), b.drop_first())
    }
}

/// `lex_lt` is transitive.
pub proof fn lemma_lex_lt_transitive(a: Seq<char>, b: Seq<char>, c: Seq<char>)
    requires
        lex_lt(a, b),
        lex_lt(b, c),
    ensures
        lex_lt(a, c),
    decreases a.len(),
{
    if a.len() > 0 && b.len() > 0 && c.len() > 0 && a[0] == b[0] && b[0] == c[0] {
        lemma_lex_lt_transitive(a.drop_first(), b.drop_first(), c.drop_first());
    }
}

/// Of two texts, one is before the other or they are equal.
pub proof fn lemma_lex_trichotomy(a: Seq<char>, b: Seq<char>)
    ensures
        lex_lt(a, b) || lex_lt(b, a) || a == b,
    decreases a.len(),
{
    if a.len() > 0 && b.len() > 0 {
        if a[0] == b[0] {
            lemma_lex_trichotomy(a.drop_first(), b.drop_first());
            if a.drop_first() == b.drop_first() {
                assert(a =~= seq![a[0]] + a.drop_first());
                assert(b =~= seq![b[0]] + b.drop_first());
            }
        }
    } else if a.len() == 0 && b.len() == 0 {
        assert(a =~= b);
    }
}

/// `lex_lt` is asymmetric.
pub proof fn lemma_lex_asymmetric(a: Seq<char>, b: Seq<char>)
    ensures
        !(lex_lt(a, b) && lex_lt(b, a)),
    decreases a.len(),
{
    if a.len() > 0 && b.len() > 0 && a[0] == b[0] {
        lemma_lex_asymmetric(a.drop_first(), b.drop_first());
    }
}

/// Strict order of optional creation times: unknown first, then by
/// seconds and nanoseconds.
pub open spec fn time_lt(a: Option<(i64, u32)>, b: Option<(i64, u32)>) -> bool {
    match (a, b) {
        (None, Some(_)) => true,
        (Some(x), Some(y)) => x.0 < y.0 || (x.0 == y.0 && x.1 < y.1),
        _ => false,
    }
}

/// Strict order of keys by a column.
pub open spec fn key_lt(a: ListKey, b: ListKey, by: SortBy) -> bool {
    match by {
        SortBy::Name => lex_lt(a.name@, b.name@),
        SortBy::Age => time_lt(a.created, b.created),
    }
}

/// `a` goes strictly before `b` in the chosen direction.
pub open spec fn goes_before(a: ListKey, b: ListKey, s: SortState) -> bool {
    if s.asc {
        key_lt(a, b, s.by)
    } else {
        key_lt(b, a, s.by)
    }
}

proof fn lemma_before_asymmetric(a: ListKey, b: ListKey, s: SortState)
    ensures
        goes_before(a, b, s) ==> !goes_before(b, a, s),
{
    lemma_lex_asymmetric(a.name@, b.name@);
}

/// Not going before is transitive.
proof fn lemma_not_before_transitive(a: ListKey, b: ListKey, c: ListKey, s: SortState)
    requires
        !goes_before(b, a, s),
        !goes_before(c, b, s),
    ensures
        !goes_before(c, a, s),
{
    match s.by {
        SortBy::Name => {
            let (x, y, z) = if s.asc {
                (a.name@, b.name@, c.name@)
            } else {
                (c.name@, b.name@, a.name@)
            };
            // !lt(y, x) && !lt(z, y) ==> !lt(z, x)
            if lex_lt(z, x) {
                lemma_lex_trichotomy(y, x);
                if lex_lt(x, y) {
                    lemma_lex_lt_transitive(z, x, y);
                }
            }
        },
        SortBy::Age => {},
    }
}

/// `order` lists each index below `n` exactly once.
pub open spec fn is_permutation(order: Seq<usize>, n: nat) -> bool {
    &&& order.len() == n
    &&& forall|p: int| 0 <= p < order.len() ==> #[trigger] order[p] < n
    &&& forall|p: int, q: int| 0 <= p < q < order.len() ==> #[trigger] order[p] != #[trigger] order[q]
}

/// The entries `order` lists are in order: none goes before an earlier one.
pub open spec fn is_sorted(keys: Seq<ListKey>, order: Seq<usize>, s: SortState) -> bool {
    forall|p: int, q: int|
        0 <= p < q < order.len() ==> !goes_before(keys[#[trigger] order[q] as int], keys[#[trigger] order[p] as int], s)
}

/// Entries that are equal in the chosen order keep their list order.
pub open spec fn is_stable(keys: Seq<ListKey>, order: Seq<usize>, s: SortState) -> bool {
    forall|p: int, q: int|
        0 <= p < q < order.len() && !goes_before(keys[#[trigger] order[p] as int], keys[#[trigger] order[q] as int], s)
            ==> order[p] < order[q]
}

fn name_lt(a: &String, b: &String) -> (r: bool)
    ensures
        r == lex_lt(a@, b@),
{
    let x = chars_of(a.as_str());
    let y = chars_of(b.as_str());
    let mut i: usize = 0;
    assert(a@.skip(0) == a@);
    assert(b@.skip(0) == b@);
    while i < x.len() && i < y.len() && x[i] == y[i]
        invariant
            i <= x@.len(),
            i <= y@.len(),
            x@ == a@,
            y@ == b@,
            lex_lt(a@, b@) == lex_lt(a@.skip(i as int), b@.skip(i as int)),
        decreases x.len() - i,
    {
        assert(a@.skip(i as int).drop_first() == a@.skip(i as int + 1));
        assert(b@.skip(i as int).drop_first() == b@.skip(i as int + 1));
        i = i + 1;
    }
    if i == x.len() {
        i < y.len()
    } else if i == y.len() {
        false
    } else {
        x[i] < y[i]
    }
}

fn time_less(a: Option<(i64, u32)>, b: Option<(i64, u32)>) -> (r: bool)
    ensures
        r == time_lt(a, b),
{
    match (a, b) {
        (None, Some(_)) => true,
        (Some(x), Some(y)) => x.0 < y.0 || (x.0 == y.0 && x.1 < y.1),
        _ => false,
    }
}

fn before(a: &ListKey, b: &ListKey, s: SortState) -> (r: bool)
    ensures
        r == goes_before(*a, *b, s),
{
    let (x, y) = if s.asc {
        (a, b)
    } else {
        (b, a)
    };
    match s.by {
        SortBy::Name => name_lt(&x.name, &y.name),
        SortBy::Age => time_less(x.created, y.created),
    }
}

/// The order in which a list is shown: a stable sort of its entries by the
/// chosen column and direction, as indices into the list.
pub fn sorted_order(keys: &Vec<ListKey>, s: SortState) -> (r: Vec<usize>)
    ensures
        is_permutation(r@, keys@.len()),
        is_sorted(keys@, r@, s),
        is_stable(keys@, r@, s),
{
    let mut out: Vec<usize> = Vec::new();
    let mut i: usize = 0;
    while i < keys.len()
        invariant
            i <= keys@.len(),
            is_permutation(out@, i as nat),
            is_sorted(keys@, out@, s),
            is_stable(keys@, out@, s),
        decreases keys.len() - i,
    {
        let mut j: usize = out.len();
        while j > 0 && before(&keys[i], &keys[out[j - 1]], s)
            invariant
                i < keys@.len(),
                j <= out@.len(),
                is_permutation(out@, i as nat),
                is_sorted(keys@, out@, s),
                is_stable(keys@, out@, s),
                forall|q: int| j <= q < out@.len() ==> goes_before(keys@[i as int], keys@[#[trigger] out@[q] as int], s),
            decreases j,
        {
            j = j - 1;
        }
        let ghost old_out = out@;
        out.insert(j, i);
        proof {
            let k = keys@[i as int];
            assert(out@ == old_out.insert(j as int, i));
            assert forall|p: int| 0 <= p < out@.len() implies #[trigger] out@[p] < i + 1 by {
                if p < j {
                    assert(out@[p] == old_out[p]);
                } else if p > j {
                    assert(out@[p] == old_out[p - 1]);
                }
            }
            assert forall|p: int, q: int| 0 <= p < q < out@.len() implies #[trigger] out@[p] != #[trigger] out@[q] by {
                if p < j && q < j {
                    assert(out@[p] == old_out[p] && out@[q] == old_out[q]);
                } else if p < j && q > j {
                    assert(out@[p] == old_out[p] && out@[q] == old_out[q - 1]);
                } else if p > j && q > j {
                    assert(out@[p] == old_out[p - 1] && out@[q] == old_out[q - 1]);
                } else if p == j {
                    assert(out@[q] == old_out[q - 1]);
                } else {
                    assert(out@[p] == old_out[p]);
                }
            }
            assert forall|p: int, q: int| 0 <= p < q < out@.len() implies !goes_before(
                keys@[#[trigger] out@[q] as int],
                keys@[#[trigger] out@[p] as int],
                s,
            ) by {
                if p < j && q < j {
                    assert(out@[p] == old_out[p] && out@[q] == old_out[q]);
                } else if p < j && q > j {
                    assert(out@[p] == old_out[p] && out@[q] == old_out[q - 1]);
                } else if p > j && q > j {
                    assert(out@[p] == old_out[p - 1] && out@[q] == old_out[q - 1]);
                } else if p == j {
                    assert(out@[q] == old_out[q - 1]);
                    lemma_before_asymmetric(k, keys@[old_out[q - 1] as int], s);
                } else {
                    assert(q == j);
                    assert(out@[p] == old_out[p]);
                    let prev = keys@[old_out[j - 1] as int];
                    if p < j - 1 {
                        assert(!goes_before(prev, keys@[old_out[p] as int], s));
                    } else {
                        lemma_before_asymmetric(prev, prev, s);
                    }
                    lemma_not_before_transitive(keys@[old_out[p] as int], prev, k, s);
                }
            }
            assert forall|p: int, q: int|
                0 <= p < q < out@.len() && !goes_before(keys@[#[trigger] out@[p] as int], keys@[#[trigger] out@[q] as int], s)
                implies out@[p] < out@[q] by {
                if p < j && q < j {
                    assert(out@[p] == old_out[p] && out@[q] == old_out[q]);
                } else if p < j && q > j {
                    assert(out@[p] == old_out[p] && out@[q] == old_out[q - 1]);
                } else if p > j && q > j {
                    assert(out@[p] == old_out[p - 1] && out@[q] == old_out[q - 1]);
                } else if p == j {
                    assert(out@[q] == old_out[q - 1]);
                } else {
                    assert(out@[p] == old_out[p]);
                }
            }
        }
        i = i + 1;
    }
    out
}

/// The indices of the entries in the selected namespace, in list order;
/// all of them when no namespace is selected.
pub open spec fn in_namespace(namespaces: Seq<Option<String>>, selected: Option<Seq<char>>) -> Seq<usize>
    decreases namespaces.len(),
{
    if namespaces.len() == 0 {
        seq![]
    } else {
        let i = (namespaces.len() - 1) as usize;
        in_namespace(namespaces.drop_last(), selected) + if selected is None || (match namespaces.last() {
            Some(n) => Some(n@) == selected,
            None => false,
        }) {
            seq![i]
        } else {
            seq![]
        }
    }
}

/// The entries of a namespaced list that are shown for the selected
/// namespace (all of them when none is selected), as indices in list order.
pub fn visible_in_namespace(namespaces: &Vec<Option<String>>, selected: &Option<String>) -> (r: Vec<usize>)
    ensures
        r@ == in_namespace(namespaces@, crate::details::opt_view(*selected)),
{
    let ghost sel = crate::details::opt_view(*selected);
    let mut out: Vec<usize> = Vec::new();
    let mut i: usize = 0;
    while i < namespaces.len()
        invariant
            i <= namespaces@.len(),
            sel == crate::details::opt_view(*selected),
            out@ == in_namespace(namespaces@.take(i as int), sel),
        decreases namespaces.len() - i,
    {
        proof {
            assert(namespaces@.take(i as int + 1).drop_last() == namespaces@.take(i as int));
        }
        let keep = match selected {
            None => true,
            Some(s) => match &namespaces[i] {
                Some(n) => crate::text::chars_eq(&chars_of(n.as_str()), &chars_of(s.as_str())),
                None => false,
            },
        };
        if keep {
            out.push(i);
        }
        i = i + 1;
    }
    assert(namespaces@.take(namespaces@.len() as int) == namespaces@);
    out
}

/// An entry passes the text filter when the filter is empty or occurs in
/// its name.
pub open spec fn passes_filter(name: Seq<char>, filter: Seq<char>) -> bool {
    filter.len() == 0 || contains_seq(name, filter)
}

/// Whether an entry passes the text filter.
pub fn matches_filter(name: &str, filter: &str) -> (r: bool)
    ensures
        r == passes_filter(name@, filter@),
{
    let f = chars_of(filter);
    f.len() == 0 || contains_chars(&chars_of(name), &f)
}

/// `s` in lower case (`str::to_lowercase`).
pub uninterp spec fn lowercase(s: Seq<char>) -> Seq<char>;

/// The filter text as it is kept: in lower case (`str::to_lowercase`).
///
/// Trusted: the text is `lowercase` of the input, a named result of the
/// standard library's Unicode lower-casing.
#[verifier::external_body]
fn lowercase_filter(s: &str) -> (r: String)
    ensures
        r@ == lowercase(s@),
{
    s.to_lowercase()
}

/// The positions of `order` whose entry passes the filter, in order.
pub open spec fn filtered(names: Seq<String>, order: Seq<usize>, filter: Seq<char>) -> Seq<usize>
    decreases order.len(),
{
    if order.len() == 0 {
        seq![]
    } else {
        let i = order.last();
        filtered(names, order.drop_last(), filter) + if 0 <= i < names.len() && passes_filter(
            names[i as int]@,
            filter,
        ) {
            seq![i]
        } else {
            seq![]
        }
    }
}

/// The entries shown, in the given order: those whose name contains the
/// filter text typed by the user, taken in lower case (all of them when
/// the filter is empty).
pub fn shown_entries(names: &Vec<String>, order: &Vec<usize>, typed_filter: &str) -> (r: Vec<usize>)
    ensures
        r@ == filtered(names@, order@, lowercase(typed_filter@)),
{
    let f = lowercase_filter(typed_filter);
    let mut out: Vec<usize> = Vec::new();
    let mut k: usize = 0;
    while k < order.len()
        invariant
            k <= order@.len(),
            f@ == lowercase(typed_filter@),
            out@ == filtered(names@, order@.take(k as int), f@),
        decreases order.len() - k,
    {
        proof {
            assert(order@.take(k as int + 1).drop_last() == order@.take(k as int));
        }
        let i = order[k];
        if i < names.len() && matches_filter(names[i].as_str(), f.as_str()) {
            out.push(i);
        }
        k = k + 1;
    }
    assert(order@.take(order@.len() as int) == order@);
    out
}

/// Positions shown by lists that show their most recent entries first: the
/// last `limit` positions, from the last one back.
pub open spec fn recent_first(n: nat, limit: nat) -> Seq<usize> {
    Seq::new(if n < limit { n } else { limit }, |k: int| (n - 1 - k) as usize)
}

/// Positions of the at most `limit` last entries, newest first.
pub fn recent_positions(n: usize, limit: usize) -> (r: Vec<usize>)
    ensures
        r@ == recent_first(n as nat, limit as nat),
{
    let count = if n < limit {
        n
    } else {
        limit
    };
    let mut out: Vec<usize> = Vec::new();
    let mut k: usize = 0;
    while k < count
        invariant
            k <= count,
            count <= n,
            count == (if n < limit { n } else { limit }),
            out@ =~= Seq::new(k as nat, |j: int| (n - 1 - j) as usize),
        decreases count - k,
    {
        out.push(n - 1 - k);
        k = k + 1;
    }
    out
}

/// How each sortable list was last sorted.
#[derive(PartialEq, Eq, Structural, Clone, Copy, Debug)]
pub struct SortPreferences {
    pub nodes: SortState,
    pub pods: SortState,
    pub pvs: SortState,
    pub pvcs: SortState,
    pub namespaces: SortState,
}

/// The sorting used when no settings were saved: nodes by name ascending,
/// namespaces by name descending, the other lists newest first.
pub fn default_sort_preferences() -> (r: SortPreferences)
    ensures
        r.nodes == (SortState { by: SortBy::Name, asc: true }),
        r.pods == (SortState { by: SortBy::Age, asc: false }),
        r.pvs == (SortState { by: SortBy::Age, asc: false }),
        r.pvcs == (SortState { by: SortBy::Age, asc: false }),
        r.namespaces == (SortState { by: SortBy::Name, asc: false }),
{
    SortPreferences {
        nodes: SortState { by: SortBy::Name, asc: true },
        pods: SortState { by: SortBy::Age, asc: false },
        pvs: SortState { by: SortBy::Age, asc: false },
        pvcs: SortState { by: SortBy::Age, asc: false },
        namespaces: SortState { by: SortBy::Name, asc: false },
    }
}

} // verus!
