//! Actions on workloads and nodes: scaling, confirmed deletion, draining,
//! resource patches, and reading Helm release records.
use crate::text::{
    append_chars, append_str, chars_eq_str, chars_of, contains_chars, contains_seq, find_char,
    find_char_exec, lines, lines_of, signed_decimal, signed_decimal_chars, slice_chars, split,
    split_chars, string_of, views,
};
use vstd::prelude::*;

verus! {

/// The kinds of workload whose replica count can be changed.
#[derive(PartialEq, Eq, Structural, Clone, Copy, Debug)]
pub enum ScaleTarget {
    Deployment,
    StatefulSet,
    ReplicaSet,
}

/// A scaling the user confirmed: what to patch, and to how many replicas.
pub struct ScaleRequest {
    pub name: String,
    pub namespace: String,
    pub replicas: i32,
    pub kind: ScaleTarget,
}

/// The scale dialog.
pub struct ScaleWindow {
    pub name: Option<String>,
    pub namespace: Option<String>,
    pub cur_replicas: i32,
    pub desired_replicas: i32,
    pub show: bool,
    pub resource_kind: Option<ScaleTarget>,
}

/// The optional text of an optional string.
pub open spec fn opt_view(o: Option<String>) -> Option<Seq<char>> {
    match o {
        Some(s) => Some(s@),
        None => None,
    }
}

impl ScaleWindow {
    /// A closed dialog about no workload.
    pub fn new() -> (r: Self)
        ensures
            r.name is None,
            r.namespace is None,
            r.cur_replicas == 0,
            r.desired_replicas == 0,
            !r.show,
            r.resource_kind is None,
    {
        ScaleWindow {
            name: None,
            namespace: None,
            cur_replicas: 0,
            desired_replicas: 0,
            show: false,
            resource_kind: None,
        }
    }

    /// Opens the dialog for a workload, proposing `desired` replicas.
    pub fn open(
        &mut self,
        name: String,
        namespace: Option<String>,
        current: i32,
        desired: i32,
        kind: ScaleTarget,
    )
        ensures
            final(self).show,
            opt_view(final(self).name) == Some(name@),
            opt_view(final(self).namespace) == opt_view(namespace),
            final(self).cur_replicas == current,
            final(self).desired_replicas == desired,
            final(self).resource_kind == Some(kind),
    {
        self.show = true;
        self.name = Some(name);
        self.namespace = namespace;
        self.cur_replicas = current;
        self.desired_replicas = desired;
        self.resource_kind = Some(kind);
    }

    /// The dialog's title, `Scale <name>`.
    pub fn title(&self) -> (r: String)
        requires
            self.name is Some,
        ensures
            r@ == "Scale "@ + self.name->0@,
    {
        let mut v = chars_of("Scale ");
        match &self.name {
            Some(n) => append_str(&mut v, n.as_str()),
            None => {},
        }
        string_of(&v)
    }

    /// The line reporting the current scale.
    pub fn current_line(&self) -> (r: String)
        ensures
            r@ == "Current replicas scale: "@ + signed_decimal(self.cur_replicas as int),
    {
        let mut v = chars_of("Current replicas scale: ");
        append_chars(&mut v, &signed_decimal_chars(self.cur_replicas as i64));
        string_of(&v)
    }

    /// Cancel: the dialog closes and nothing is scaled.
    pub fn cancel(&mut self)
        ensures
            !final(self).show,
            opt_view(final(self).name) == opt_view(old(self).name),
            opt_view(final(self).namespace) == opt_view(old(self).namespace),
            final(self).cur_replicas == old(self).cur_replicas,
            final(self).desired_replicas == old(self).desired_replicas,
            final(self).resource_kind == old(self).resource_kind,
    {
        self.show = false;
    }

    /// Scale: the dialog closes and hands out the scaling to perform.
    pub fn confirm(&mut self) -> (r: ScaleRequest)
        requires
            old(self).name is Some,
            old(self).namespace is Some,
            old(self).resource_kind is Some,
        ensures
            !final(self).show,
            r.name@ == old(self).name->0@,
            r.namespace@ == old(self).namespace->0@,
            r.replicas == old(self).desired_replicas,
            r.kind == old(self).resource_kind->0,
            opt_view(final(self).name) == opt_view(old(self).name),
            opt_view(final(self).namespace) == opt_view(old(self).namespace),
            final(self).cur_replicas == old(self).cur_replicas,
            final(self).desired_replicas == old(self).desired_replicas,
            final(self).resource_kind == old(self).resource_kind,
    {
        let name = match &self.name {
            Some(n) => n.clone(),
            None => String::new(),
        };
        let namespace = match &self.namespace {
            Some(n) => n.clone(),
            None => String::new(),
        };
        let kind = match self.resource_kind {
            Some(k) => k,
            None => ScaleTarget::Deployment,
        };
        self.show = false;
        ScaleRequest { name, namespace, replicas: self.desired_replicas, kind }
    }
}

/// The merge patch that sets a workload's replica count.
pub open spec fn scale_patch_text(replicas: int) -> Seq<char> {
    "{\"spec\":{\"replicas\":"@ + signed_decimal(replicas) + "}}"@
}

/// The merge patch that sets a workload's replica count, as JSON text.
pub fn scale_patch(replicas: i32) -> (r: String)
    ensures
        r@ == scale_patch_text(replicas as int),
{
    let mut v = chars_of("{\"spec\":{\"replicas\":");
    append_chars(&mut v, &signed_decimal_chars(replicas as i64));
    append_str(&mut v, "}}");
    string_of(&v)
}

/// The merge patch that marks a node (un)schedulable, as JSON text.
pub fn cordon_patch(cordoned: bool) -> (r: String)
    ensures
        r@ == "{\"spec\":{\"unschedulable\":"@ + (if cordoned {
            "true"@
        } else {
            "false"@
        }) + "}}"@,
{
    let mut v = chars_of("{\"spec\":{\"unschedulable\":");
    if cordoned {
        append_str(&mut v, "true");
    } else {
        append_str(&mut v, "false");
    }
    append_str(&mut v, "}}");
    string_of(&v)
}

/// A deletion waiting for the user's answer; `A` is what to do on "yes".
pub struct DeleteConfirmation<A> {
    pub show: bool,
    pub resource_name: Option<String>,
    pub namespace: Option<String>,
    pub on_confirm: Option<A>,
}

impl<A> DeleteConfirmation<A> {
    /// No deletion pending.
    pub fn new() -> (r: Self)
        ensures
            !r.show,
            r.resource_name is None,
            r.namespace is None,
            r.on_confirm is None,
    {
        DeleteConfirmation { show: false, resource_name: None, namespace: None, on_confirm: None }
    }

    /// Asks the user to confirm deleting `resource_name`; `on_confirm` is
    /// what will be done if they do.
    pub fn request(&mut self, resource_name: String, namespace: Option<String>, on_confirm: A)
        ensures
            final(self).show,
            opt_view(final(self).resource_name) == Some(resource_name@),
            opt_view(final(self).namespace) == opt_view(namespace),
            final(self).on_confirm == Some(on_confirm),
    {
        self.show = true;
        self.resource_name = Some(resource_name);
        self.namespace = namespace;
        self.on_confirm = Some(on_confirm);
    }

    /// The question put to the user.
    pub fn prompt(&self) -> (r: String)
        ensures
            r@ == "Are you sure you want to delete \""@ + (match self.resource_name {
                Some(n) => n@,
                None => Seq::<char>::empty(),
            }) + "\"?"@,
    {
        let mut v = chars_of("Are you sure you want to delete \"");
        match &self.resource_name {
            Some(n) => append_str(&mut v, n.as_str()),
            None => {},
        }
        append_str(&mut v, "\"?");
        string_of(&v)
    }

    /// "Yes, delete": the dialog closes and hands out the pending action,
    /// once; a second answer finds none.
    pub fn confirm(&mut self) -> (r: Option<A>)
        ensures
            !final(self).show,
            r == old(self).on_confirm,
            final(self).on_confirm is None,
            opt_view(final(self).resource_name) == opt_view(old(self).resource_name),
            opt_view(final(self).namespace) == opt_view(old(self).namespace),
    {
        let r = self.on_confirm.take();
        self.show = false;
        r
    }

    /// "Cancel": the dialog closes; the pending action is kept but not run.
    pub fn cancel(&mut self)
        ensures
            !final(self).show,
            final(self).on_confirm == old(self).on_confirm,
            opt_view(final(self).resource_name) == opt_view(old(self).resource_name),
            opt_view(final(self).namespace) == opt_view(old(self).namespace),
    {
        self.show = false;
    }
}

/// The namespace a namespaced call goes to: the given one, or `default`.
pub fn namespace_or_default(namespace: Option<&str>) -> (r: String)
    ensures
        r@ == (match namespace {
            Some(n) => n@,
            None => "default"@,
        }),
{
    match namespace {
        Some(n) => string_of(&chars_of(n)),
        None => string_of(&chars_of("default")),
    }
}

/// Grace period (seconds) and background propagation of a pod deletion:
/// a forced one is immediate and lets dependents go in the background.
pub fn pod_delete_options(force: bool) -> (r: (Option<i64>, bool))
    ensures
        force ==> r == (Some(0i64), true),
        !force ==> r == (None::<i64>, false),
{
    if force {
        (Some(0), true)
    } else {
        (None, false)
    }
}

/// Grace period, in seconds, given to each pod evicted by a drain.
pub const EVICTION_GRACE_SECONDS: i64 = 30;

/// What a drain needs to know of a pod on the node.
pub struct PodPlacement {
    pub name: Option<String>,
    pub annotation_keys: Vec<String>,
    pub owner_kinds: Vec<String>,
}

/// A drain leaves a pod alone when it is a static (mirror) pod or belongs
/// to a daemon set.
pub open spec fn kept_on_drain(p: PodPlacement) -> bool {
    ||| exists|i: int|
        0 <= i < p.annotation_keys@.len() && #[trigger] p.annotation_keys@[i]@
            == "kubernetes.io/config.mirror"@
    ||| exists|i: int| 0 <= i < p.owner_kinds@.len() && #[trigger] p.owner_kinds@[i]@ == "DaemonSet"@
}

/// The names of the pods a drain evicts, in order.
pub open spec fn evicted(pods: Seq<PodPlacement>) -> Seq<Seq<char>>
    decreases pods.len(),
{
    if pods.len() == 0 {
        seq![]
    } else {
        let p = pods.last();
        evicted(pods.drop_last()) + if !kept_on_drain(p) && p.name is Some {
            seq![p.name->0@]
        } else {
            seq![]
        }
    }
}

/// Law: a name is among those a drain evicts exactly when some pod of that
/// name carries no `kubernetes.io/config.mirror` annotation (at any
/// position of its annotation keys) and has no `DaemonSet` owner.
pub proof fn lemma_evicted_names(pods: Seq<PodPlacement>, n: Seq<char>)
    ensures
        evicted(pods).contains(n) <==> exists|j: int|
            0 <= j < pods.len() && (#[trigger] pods[j]).name is Some && pods[j].name->0@ == n && (forall|i: int|
                0 <= i < pods[j].annotation_keys@.len() ==> pods[j].annotation_keys@[i]@
                    != "kubernetes.io/config.mirror"@) && (forall|i: int|
                0 <= i < pods[j].owner_kinds@.len() ==> pods[j].owner_kinds@[i]@ != "DaemonSet"@),
    decreases pods.len(),
{
    if pods.len() > 0 {
        let q = pods.drop_last();
        lemma_evicted_names(q, n);
        let last = pods[pods.len() - 1];
        assert(pods.last() == last);
        let tail = if !kept_on_drain(last) && last.name is Some {
            seq![last.name->0@]
        } else {
            Seq::<Seq<char>>::empty()
        };
        assert(evicted(pods) == evicted(q) + tail);
        if evicted(pods).contains(n) {
            let k = choose|k: int| 0 <= k < evicted(pods).len() && evicted(pods)[k] == n;
            if k < evicted(q).len() {
                assert(evicted(q)[k] == n);
                let j = choose|j: int|
                    0 <= j < q.len() && (#[trigger] q[j]).name is Some && q[j].name->0@ == n && (forall|i: int|
                        0 <= i < q[j].annotation_keys@.len() ==> q[j].annotation_keys@[i]@
                            != "kubernetes.io/config.mirror"@) && (forall|i: int|
                        0 <= i < q[j].owner_kinds@.len() ==> q[j].owner_kinds@[i]@ != "DaemonSet"@);
                assert(pods[j] == q[j]);
            } else {
                let j = pods.len() - 1;
                assert(pods[j] == last);
                assert forall|i: int| 0 <= i < last.annotation_keys@.len() implies last.annotation_keys@[i]@
                    != "kubernetes.io/config.mirror"@ by {
                    if last.annotation_keys@[i]@ == "kubernetes.io/config.mirror"@ {
                        assert(kept_on_drain(last));
                    }
                }
                assert forall|i: int| 0 <= i < last.owner_kinds@.len() implies last.owner_kinds@[i]@
                    != "DaemonSet"@ by {
                    if last.owner_kinds@[i]@ == "DaemonSet"@ {
                        assert(kept_on_drain(last));
                    }
                }
            }
        }
        if exists|j: int|
            0 <= j < pods.len() && (#[trigger] pods[j]).name is Some && pods[j].name->0@ == n && (forall|i: int|
                0 <= i < pods[j].annotation_keys@.len() ==> pods[j].annotation_keys@[i]@
                    != "kubernetes.io/config.mirror"@) && (forall|i: int|
                0 <= i < pods[j].owner_kinds@.len() ==> pods[j].owner_kinds@[i]@ != "DaemonSet"@) {
            let j = choose|j: int|
                0 <= j < pods.len() && (#[trigger] pods[j]).name is Some && pods[j].name->0@ == n && (forall|i: int|
                    0 <= i < pods[j].annotation_keys@.len() ==> pods[j].annotation_keys@[i]@
                        != "kubernetes.io/config.mirror"@) && (forall|i: int|
                    0 <= i < pods[j].owner_kinds@.len() ==> pods[j].owner_kinds@[i]@ != "DaemonSet"@);
            if j < q.len() {
                assert(q[j] == pods[j]);
                let k = choose|k: int| 0 <= k < evicted(q).len() && evicted(q)[k] == n;
                assert(evicted(pods)[k] == n);
            } else {
                assert(pods[j] == last);
                assert(!kept_on_drain(last));
                assert(evicted(pods)[evicted(q).len() as int] == n);
            }
        }
    }
}

fn has_entry(v: &Vec<String>, s: &str) -> (r: bool)
    ensures
        r == exists|i: int| 0 <= i < v@.len() && #[trigger] v@[i]@ == s@,
{
    let mut i: usize = 0;
    while i < v.len()
        invariant
            i <= v@.len(),
            forall|j: int| 0 <= j < i ==> #[trigger] v@[j]@ != s@,
        decreases v.len() - i,
    {
        if chars_eq_str(&chars_of(v[i].as_str()), s) {
            return true;
        }
        i = i + 1;
    }
    false
}

/// The names of the pods on a node that draining it evicts: all but
/// mirror pods, daemon-set pods and pods without a name.
pub fn pods_to_evict(pods: &Vec<PodPlacement>) -> (r: Vec<String>)
    ensures
        r@.len() == evicted(pods@).len(),
        forall|i: int| 0 <= i < r@.len() ==> #[trigger] r@[i]@ == evicted(pods@)[i],
        forall|n: Seq<char>|
            #[trigger] crate::details::texts(r@).contains(n) <==> exists|j: int|
                0 <= j < pods@.len() && (#[trigger] pods@[j]).name is Some && pods@[j].name->0@ == n && (
                forall|i: int|
                    0 <= i < pods@[j].annotation_keys@.len() ==> pods@[j].annotation_keys@[i]@
                        != "kubernetes.io/config.mirror"@) && (forall|i: int|
                    0 <= i < pods@[j].owner_kinds@.len() ==> pods@[j].owner_kinds@[i]@ != "DaemonSet"@),
{
    let mut out: Vec<String> = Vec::new();
    let mut i: usize = 0;
    while i < pods.len()
        invariant
            i <= pods@.len(),
            out@.len() == evicted(pods@.take(i as int)).len(),
            forall|k: int| 0 <= k < out@.len() ==> #[trigger] out@[k]@ == evicted(pods@.take(i as int))[k],
        decreases pods.len() - i,
    {
        proof {
            assert(pods@.take(i as int + 1).drop_last() == pods@.take(i as int));
            assert(pods@.take(i as int + 1).last() == pods@[i as int]);
        }
        let p = &pods[i];
        let keep = has_entry(&p.annotation_keys, "kubernetes.io/config.mirror") || has_entry(
            &p.owner_kinds,
            "DaemonSet",
        );
        if !keep {
            match &p.name {
                Some(n) => {
                    out.push(n.clone());
                },
                None => {},
            }
        }
        i = i + 1;
    }
    assert(pods@.take(pods@.len() as int) == pods@);
    assert(crate::details::texts(out@) =~= evicted(pods@));
    proof {
        assert forall|n: Seq<char>|
            #[trigger] crate::details::texts(out@).contains(n) <==> exists|j: int|
                0 <= j < pods@.len() && (#[trigger] pods@[j]).name is Some && pods@[j].name->0@ == n && (
                forall|i: int|
                    0 <= i < pods@[j].annotation_keys@.len() ==> pods@[j].annotation_keys@[i]@
                        != "kubernetes.io/config.mirror"@) && (forall|i: int|
                    0 <= i < pods@[j].owner_kinds@.len() ==> pods@[j].owner_kinds@[i]@ != "DaemonSet"@) by {
            lemma_evicted_names(pods@, n);
        }
    }
    out
}

/// The field selector listing the pods on a node.
pub fn node_pods_selector(node_name: &str) -> (r: String)
    ensures
        r@ == "spec.nodeName="@ + node_name@,
{
    let mut v = chars_of("spec.nodeName=");
    append_str(&mut v, node_name);
    string_of(&v)
}

/// The field selector listing the events about one object.
pub fn events_selector(kind: &str, name: &str) -> (r: String)
    ensures
        r@ == "involvedObject.kind="@ + kind@ + ",involvedObject.name="@ + name@,
{
    let mut v = chars_of("involvedObject.kind=");
    append_str(&mut v, kind);
    append_str(&mut v, ",involvedObject.name=");
    append_str(&mut v, name);
    string_of(&v)
}

/// The group and version of an `apiVersion`: split at the first `/`, or
/// the core group (empty) with the whole text as version.
pub open spec fn group_version_of(api_version: Seq<char>) -> (Seq<char>, Seq<char>) {
    let i = find_char(api_version, '/');
    if i < 0 {
        (Seq::<char>::empty(), api_version)
    } else {
        (api_version.take(i), api_version.skip(i + 1))
    }
}

/// The group and version of an `apiVersion` such as `apps/v1` or `v1`.
pub fn group_version(api_version: &str) -> (r: (String, String))
    ensures
        (r.0@, r.1@) == group_version_of(api_version@),
{
    let v = chars_of(api_version);
    proof {
        crate::text::lemma_find_char_range(v@, '/');
    }
    match find_char_exec(&v, '/') {
        Some(i) => {
            let g = slice_chars(&v, 0, i);
            let ver = slice_chars(&v, i + 1, v.len());
            assert(g@ == v@.take(i as int));
            assert(ver@ == v@.skip(i as int + 1));
            (string_of(&g), string_of(&ver))
        },
        None => (String::new(), string_of(&v)),
    }
}

/// The first line mentioning `chart`, if any.
pub open spec fn first_chart_line(ls: Seq<Seq<char>>) -> Option<Seq<char>>
    decreases ls.len(),
{
    if ls.len() == 0 {
        None
    } else if contains_seq(ls[0], "chart"@) {
        Some(ls[0])
    } else {
        first_chart_line(ls.drop_first())
    }
}

/// The chart of a Helm release record: the text between the first two
/// double quotes of its first line mentioning `chart`.
pub open spec fn release_chart(record: Seq<char>) -> Option<Seq<char>> {
    match first_chart_line(lines(record)) {
        Some(l) => if split(l, '"').len() > 1 {
            Some(split(l, '"')[1])
        } else {
            None
        },
        None => None,
    }
}

/// Chart name and version of a Helm release record: the chart's text up to
/// its first `-`, and after its last one.
pub open spec fn release_chart_parts(record: Seq<char>) -> (Option<Seq<char>>, Option<Seq<char>>) {
    match release_chart(record) {
        Some(c) => (Some(split(c, '-')[0]), Some(split(c, '-').last())),
        None => (None, None),
    }
}

/// Chart name and version read from a Helm release record.
pub fn chart_of_release(record: &str) -> (r: (Option<String>, Option<String>))
    ensures
        (opt_view(r.0), opt_view(r.1)) == release_chart_parts(record@),
{
    let v = chars_of(record);
    let ls = lines_of(&v);
    let key = chars_of("chart");
    let mut i: usize = 0;
    let ghost all = views(ls@);
    proof {
        assert(all.skip(0) == all);
    }
    while i < ls.len()
        invariant
            i <= ls@.len(),
            all == views(ls@),
            all == lines(v@),
            v@ == record@,
            key@ == "chart"@,
            first_chart_line(all) == first_chart_line(all.skip(i as int)),
        decreases ls.len() - i,
    {
        assert(all.skip(i as int)[0] == ls@[i as int]@);
        if contains_chars(&ls[i], &key) {
            let parts = split_chars(&ls[i], '"');
            proof {
                assert(contains_seq(all.skip(i as int)[0], "chart"@));
                assert(first_chart_line(all) == Some(ls@[i as int]@));
                assert(release_chart(record@) == (if split(ls@[i as int]@, '"').len() > 1 {
                    Some(split(ls@[i as int]@, '"')[1])
                } else {
                    None
                }));
            }
            if parts.len() > 1 {
                assert(parts@[1]@ == views(parts@)[1]);
                let chart = &parts[1];
                let pieces = split_chars(chart, '-');
                proof {
                    crate::text::lemma_split_len(chart@, '-');
                }
                assert(pieces@[0]@ == views(pieces@)[0]);
                let last = pieces.len() - 1;
                assert(pieces@[last as int]@ == views(pieces@)[last as int]);
                return (Some(string_of(&pieces[0])), Some(string_of(&pieces[last])));
            }
            return (None, None);
        }
        proof {
            assert(all.skip(i as int).drop_first() == all.skip(i as int + 1));
        }
        i = i + 1;
    }
    (None, None)
}

} // verus!
