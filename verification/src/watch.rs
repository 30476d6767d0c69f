//! The local copy of a watched list of cluster objects.
//!
//! A watch first lists the objects, then follows a stream of events: a
//! re-listing (`Init`, one `InitApply` per object, `InitDone`), changes
//! (`Apply`) and removals (`Delete`). Objects are known by name.
use vstd::prelude::*;

verus! {

/// A listed object together with the name it is known by.
pub struct Entry<T> {
    pub name: String,
    pub item: T,
}

/// One event of the watch stream, already converted to entries.
///
/// An object that could not be converted arrives as `None`; a deleted object
/// without a name arrives as `Delete(None)`.
pub enum WatchEvent<T> {
    Init,
    InitApply(Option<Entry<T>>),
    InitDone,
    Apply(Option<Entry<T>>),
    Delete(Option<String>),
}

/// Index of the first entry named `n`, or `-1` when there is none.
pub open spec fn first_named<T>(s: Seq<Entry<T>>, n: Seq<char>) -> int
    decreases s.len(),
{
    if s.len() == 0 {
        -1
    } else if s[0].name@ == n {
        0
    } else {
        let r = first_named(s.drop_first(), n);
        if r < 0 {
            -1
        } else {
            r + 1
        }
    }
}

/// `s` after an object `e` was added or changed: the first entry with the
/// same name is replaced by `e`, or `e` is appended when there is none.
pub open spec fn upsert<T>(s: Seq<Entry<T>>, e: Entry<T>) -> Seq<Entry<T>> {
    let p = first_named(s, e.name@);
    if p < 0 {
        s.push(e)
    } else {
        s.update(p, e)
    }
}

/// `s` without the entries named `n`, the others in their order.
pub open spec fn without_named<T>(s: Seq<Entry<T>>, n: Seq<char>) -> Seq<Entry<T>>
    decreases s.len(),
{
    if s.len() == 0 {
        s
    } else if s.last().name@ == n {
        without_named(s.drop_last(), n)
    } else {
        without_named(s.drop_last(), n).push(s.last())
    }
}

/// The names of the entries of `s`, in order.
pub open spec fn names<T>(s: Seq<Entry<T>>) -> Seq<Seq<char>> {
    s.map_values(|e: Entry<T>| e.name@)
}

/// No two entries of `s` share a name.
pub open spec fn unique_names<T>(s: Seq<Entry<T>>) -> bool {
    forall|i: int, j: int| 0 <= i < j < s.len() ==> s[i].name@ != s[j].name@
}

/// Some entry of `s` is named `n`.
pub open spec fn has_name<T>(s: Seq<Entry<T>>, n: Seq<char>) -> bool {
    exists|i: int| 0 <= i < s.len() && s[i].name@ == n
}

/// `b` is `a` entry by entry, names kept and items cloned.
pub open spec fn cloned_entries<T: Clone>(a: Seq<Entry<T>>, b: Seq<Entry<T>>) -> bool {
    &&& a.len() == b.len()
    &&& forall|i: int|
        0 <= i < a.len() ==> #[trigger] b[i].name@ == a[i].name@ && cloned(a[i].item, b[i].item)
}

pub proof fn lemma_first_named_range<T>(s: Seq<Entry<T>>, n: Seq<char>)
    ensures
        -1 <= first_named(s, n) < s.len(),
        first_named(s, n) >= 0 ==> s[first_named(s, n)].name@ == n,
        first_named(s, n) >= 0 ==> forall|j: int|
            0 <= j < first_named(s, n) ==> s[j].name@ != n,
        first_named(s, n) < 0 ==> forall|j: int| 0 <= j < s.len() ==> s[j].name@ != n,
    decreases s.len(),
{
    if s.len() > 0 && s[0].name@ != n {
        lemma_first_named_range(s.drop_first(), n);
        assert forall|j: int| 0 < j < s.len() implies s[j] == s.drop_first()[j - 1] by {}
    }
}

pub proof fn lemma_first_named_unique<T>(s: Seq<Entry<T>>, n: Seq<char>, i: int)
    requires
        -1 <= i < s.len(),
        i >= 0 ==> s[i].name@ == n,
        forall|j: int| 0 <= j < s.len() && (i < 0 || j < i) ==> s[j].name@ != n,
    ensures
        first_named(s, n) == i,
{
    lemma_first_named_range(s, n);
    let f = first_named(s, n);
    if f >= 0 && i >= 0 {
        if f < i {
            assert(s[f].name@ != n);
        } else if i < f {
            assert(s[i].name@ != n);
        }
    } else if f >= 0 {
        assert(s[f].name@ != n);
    } else if i >= 0 {
        assert(s[i].name@ != n);
    }
}

/// What `without_named` keeps: exactly the entries of other names.
pub proof fn lemma_without_named_members<T>(s: Seq<Entry<T>>, n: Seq<char>)
    ensures
        forall|k: int|
            0 <= k < without_named(s, n).len() ==> #[trigger] without_named(s, n)[k].name@ != n,
        forall|k: int|
            0 <= k < without_named(s, n).len() ==> s.contains(#[trigger] without_named(s, n)[k]),
        forall|i: int|
            0 <= i < s.len() && s[i].name@ != n ==> without_named(s, n).contains(#[trigger] s[i]),
        without_named(s, n).len() <= s.len(),
    decreases s.len(),
{
    if s.len() > 0 {
        let p = s.drop_last();
        lemma_without_named_members(p, n);
        let w = without_named(p, n);
        assert forall|k: int| 0 <= k < w.len() implies s.contains(#[trigger] w[k]) by {
            let j = choose|j: int| 0 <= j < p.len() && p[j] == w[k];
            assert(s[j] == w[k]);
        }
        assert forall|i: int|
            0 <= i < s.len() && s[i].name@ != n implies without_named(s, n).contains(
            #[trigger] s[i],
        ) by {
            if i < s.len() - 1 {
                assert(p[i] == s[i]);
                let k = choose|k: int| 0 <= k < w.len() && w[k] == p[i];
                if s.last().name@ != n {
                    assert(without_named(s, n)[k] == w[k]);
                }
            } else {
                assert(without_named(s, n)[w.len() as int] == s.last());
            }
        }
        if s.last().name@ != n {
            assert forall|k: int| 0 <= k < without_named(s, n).len() implies s.contains(
                #[trigger] without_named(s, n)[k],
            ) by {
                if k < w.len() {
                    assert(without_named(s, n)[k] == w[k]);
                } else {
                    assert(s[s.len() - 1] == s.last());
                }
            }
        }
    }
}

/// Removing the entries of one name keeps the names unique.
pub proof fn lemma_without_named_unique<T>(s: Seq<Entry<T>>, n: Seq<char>)
    requires
        unique_names(s),
    ensures
        unique_names(without_named(s, n)),
    decreases s.len(),
{
    if s.len() > 0 {
        let p = s.drop_last();
        assert(unique_names(p)) by {
            assert forall|i: int, j: int| 0 <= i < j < p.len() implies p[i].name@ != p[j].name@ by {
                assert(p[i] == s[i] && p[j] == s[j]);
            }
        }
        lemma_without_named_unique(p, n);
        lemma_without_named_members(p, n);
        let w = without_named(p, n);
        if s.last().name@ != n {
            let r = without_named(s, n);
            assert forall|i: int, j: int| 0 <= i < j < r.len() implies r[i].name@ != r[j].name@ by {
                if j == r.len() - 1 {
                    assert(r[i] == w[i]);
                    assert(p.contains(w[i]));
                    let k = choose|k: int| 0 <= k < p.len() && p[k] == w[i];
                    assert(s[k] == p[k]);
                    assert(s[k].name@ != s[s.len() - 1].name@);
                } else {
                    assert(r[i] == w[i] && r[j] == w[j]);
                }
            }
        }
    }
}

/// Law: a change keeps the names unique, and afterwards exactly one entry
/// carries the changed object's name; it is that object.
pub proof fn lemma_upsert_unique<T>(s: Seq<Entry<T>>, e: Entry<T>)
    requires
        unique_names(s),
    ensures
        unique_names(upsert(s, e)),
        has_name(upsert(s, e), e.name@),
        forall|i: int|
            0 <= i < upsert(s, e).len() && #[trigger] upsert(s, e)[i].name@ == e.name@ ==> upsert(
                s,
                e,
            )[i] == e,
{
    lemma_first_named_range(s, e.name@);
    let p = first_named(s, e.name@);
    let r = upsert(s, e);
    if p < 0 {
        assert(r[s.len() as int] == e);
    } else {
        assert(r[p] == e);
        assert forall|i: int| 0 <= i < r.len() && r[i].name@ == e.name@ implies r[i] == e by {
            if i != p {
                assert(r[i] == s[i]);
            }
        }
    }
}

/// Law: after a removal no entry carries the removed name, and every entry
/// of another name is still there.
pub proof fn lemma_delete_removes<T>(s: Seq<Entry<T>>, n: Seq<char>)
    ensures
        !has_name(without_named(s, n), n),
        forall|i: int|
            0 <= i < s.len() && s[i].name@ != n ==> without_named(s, n).contains(#[trigger] s[i]),
{
    lemma_without_named_members(s, n);
}

/// The local copy of a watched list.
pub struct WatchCache<T> {
    initialized: bool,
    init_data: Vec<Entry<T>>,
    list: Vec<Entry<T>>,
}

impl<T: Clone> WatchCache<T> {
    /// The entries shown to the user.
    pub closed spec fn current(&self) -> Seq<Entry<T>> {
        self.list@
    }

    /// The entries collected since the last re-listing began.
    pub closed spec fn pending(&self) -> Seq<Entry<T>> {
        self.init_data@
    }

    /// A re-listing has completed at least once.
    pub closed spec fn is_initialized(&self) -> bool {
        self.initialized
    }

    /// An empty cache that has not seen a completed re-listing.
    pub fn new() -> (r: Self)
        ensures
            r.current() == Seq::<Entry<T>>::empty(),
            r.pending() == Seq::<Entry<T>>::empty(),
            !r.is_initialized(),
    {
        WatchCache { initialized: false, init_data: Vec::new(), list: Vec::new() }
    }

    /// The entries shown to the user.
    pub fn entries(&self) -> (r: &Vec<Entry<T>>)
        ensures
            r@ == self.current(),
    {
        &self.list
    }

    /// Replaces the shown entries by the result of the first listing.
    pub fn set_initial(&mut self, items: Vec<Entry<T>>)
        ensures
            final(self).current() == items@,
            final(self).pending() == old(self).pending(),
            final(self).is_initialized() == old(self).is_initialized(),
    {
        self.list = items;
    }

    /// Copies of `v`: names kept, items cloned.
    fn clone_entries(v: &Vec<Entry<T>>) -> (r: Vec<Entry<T>>)
        ensures
            cloned_entries(v@, r@),
    {
        let mut r: Vec<Entry<T>> = Vec::new();
        let mut i: usize = 0;
        while i < v.len()
            invariant
                i <= v.len(),
                r@.len() == i,
                forall|k: int|
                    0 <= k < i ==> #[trigger] r@[k].name@ == v@[k].name@ && cloned(
                        v@[k].item,
                        r@[k].item,
                    ),
            decreases v.len() - i,
        {
            let e = &v[i];
            let c = Entry { name: e.name.clone(), item: e.item.clone() };
            r.push(c);
            i = i + 1;
        }
        r
    }

    /// Position of the first shown entry named like `name`.
    fn position_of(&self, name: &String) -> (r: Option<usize>)
        ensures
            r matches Some(p) ==> first_named(self.current(), name@) == p,
            r is None ==> first_named(self.current(), name@) == -1,
    {
        let mut i: usize = 0;
        while i < self.list.len()
            invariant
                i <= self.list.len(),
                forall|j: int| 0 <= j < i ==> self.list@[j].name@ != name@,
            decreases self.list.len() - i,
        {
            if self.list[i].name == *name {
                proof {
                    lemma_first_named_unique(self.list@, name@, i as int);
                }
                return Some(i);
            }
            i = i + 1;
        }
        proof {
            lemma_first_named_unique(self.list@, name@, -1);
        }
        None
    }

    /// Removes the shown entries named like `name`.
    fn remove_named(&mut self, name: &String)
        ensures
            final(self).current() == without_named(old(self).current(), name@),
            final(self).pending() == old(self).pending(),
            final(self).is_initialized() == old(self).is_initialized(),
    {
        let mut rest: Vec<Entry<T>> = Vec::new();
        std::mem::swap(&mut rest, &mut self.list);
        let ghost orig = rest@;
        assert(orig.len() == rest.len());
        let mut kept: Vec<Entry<T>> = Vec::new();
        let mut i: usize = 0;
        assert(orig.take(0) == Seq::<Entry<T>>::empty());
        while rest.len() > 0
            invariant
                i <= orig.len(),
                orig.len() <= usize::MAX,
                rest@ == orig.skip(i as int),
                kept@ == without_named(orig.take(i as int), name@),
                self.list@ == Seq::<Entry<T>>::empty(),
            decreases rest.len(),
        {
            let e = rest.remove(0);
            assert(orig.take(i + 1).drop_last() == orig.take(i as int));
            assert(orig.take(i + 1).last() == orig[i as int]);
            assert(orig.skip(i as int).drop_first() == orig.skip(i + 1));
            if e.name != *name {
                kept.push(e);
            }
            i = i + 1;
        }
        assert(orig.take(orig.len() as int) == orig);
        self.list = kept;
    }

    /// Takes in one event of the watch stream.
    pub fn handle(&mut self, ev: WatchEvent<T>)
        ensures
            match ev {
                WatchEvent::Init => {
                    &&& final(self).pending() == Seq::<Entry<T>>::empty()
                    &&& final(self).current() == old(self).current()
                    &&& final(self).is_initialized() == old(self).is_initialized()
                },
                WatchEvent::InitApply(Some(e)) => {
                    &&& final(self).pending() == old(self).pending().push(e)
                    &&& final(self).current() == old(self).current()
                    &&& final(self).is_initialized() == old(self).is_initialized()
                },
                WatchEvent::InitDone => {
                    &&& cloned_entries(old(self).pending(), final(self).current())
                    &&& final(self).pending() == old(self).pending()
                    &&& final(self).is_initialized()
                },
                WatchEvent::Apply(Some(e)) => {
                    &&& final(self).current() == if old(self).is_initialized() {
                        upsert(old(self).current(), e)
                    } else {
                        old(self).current()
                    }
                    &&& final(self).pending() == old(self).pending()
                    &&& final(self).is_initialized() == old(self).is_initialized()
                },
                WatchEvent::Delete(Some(n)) => {
                    &&& final(self).current() == without_named(old(self).current(), n@)
                    &&& final(self).pending() == old(self).pending()
                    &&& final(self).is_initialized() == old(self).is_initialized()
                },
                _ => {
                    &&& final(self).current() == old(self).current()
                    &&& final(self).pending() == old(self).pending()
                    &&& final(self).is_initialized() == old(self).is_initialized()
                },
            },
    {
        match ev {
            WatchEvent::Init => {
                self.init_data = Vec::new();
            },
            WatchEvent::InitApply(Some(e)) => {
                self.init_data.push(e);
            },
            WatchEvent::InitApply(None) => {},
            WatchEvent::InitDone => {
                let copy = Self::clone_entries(&self.init_data);
                self.list = copy;
                self.initialized = true;
            },
            WatchEvent::Apply(Some(e)) => {
                if self.initialized {
                    match self.position_of(&e.name) {
                        Some(p) => {
                            proof {
                                lemma_first_named_range(self.list@, e.name@);
                            }
                            self.list.set(p, e);
                        },
                        None => {
                            self.list.push(e);
                        },
                    }
                }
            },
            WatchEvent::Apply(None) => {},
            WatchEvent::Delete(Some(n)) => {
                self.remove_named(&n);
            },
            WatchEvent::Delete(None) => {},
        }
    }
}

} // verus!
