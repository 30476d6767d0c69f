//! Detail data of cluster resources other than pods, and the content of
//! their detail windows.
use crate::details::{
    creation_field, events_part, item_lines, items_section, opt_field, opt_view, or_empty,
    pair_lines, pair_texts, pairs_section, push_events, push_field, push_heading, push_items,
    push_items_section, push_line, push_opt_field, push_pairs, push_pairs_section, shown,
    shown_all, text_or_empty, texts, valid_instant, EventDetails, Line, Shown, Tone,
};
use crate::overview::{item_color, item_color_of};
use crate::pods::{opt_pairs, PodItem};
use crate::text::{append_str, chars_eq, chars_eq_str, chars_of, string_of};
use vstd::prelude::*;

verus! {

/// Something a resource list holds, found by name and, for namespaced
/// resources, namespace.
pub trait Listed {
    spec fn listed_name(&self) -> Seq<char>;

    spec fn listed_namespace(&self) -> Option<Seq<char>>;

    fn name_text(&self) -> (r: &String)
        ensures
            r@ == self.listed_name(),
    ;

    fn namespace_text(&self) -> (r: &Option<String>)
        ensures
            opt_view(*r) == self.listed_namespace(),
    ;
}

/// `item` is what the details are about: same name and, when a namespace
/// is asked for, same namespace.
pub open spec fn is_about<T: Listed>(item: T, name: Seq<char>, ns: Option<Option<Seq<char>>>) -> bool {
    item.listed_name() == name && match ns {
        Some(n) => item.listed_namespace() == n,
        None => true,
    }
}

/// Index of the first item the details are about, or `-1`.
pub open spec fn first_about<T: Listed>(items: Seq<T>, name: Seq<char>, ns: Option<Option<Seq<char>>>) -> int {
    if exists|i: int| 0 <= i < items.len() && is_about(items[i], name, ns) {
        choose|i: int|
            0 <= i < items.len() && is_about(items[i], name, ns) && forall|j: int|
                0 <= j < i ==> !is_about(#[trigger] items[j], name, ns)
    } else {
        -1
    }
}

fn opt_eq(a: &Option<String>, b: &Option<String>) -> (r: bool)
    ensures
        r == (opt_view(*a) == opt_view(*b)),
{
    match (a, b) {
        (Some(x), Some(y)) => chars_eq(&chars_of(x.as_str()), &chars_of(y.as_str())),
        (None, None) => true,
        _ => false,
    }
}

/// Finds the first item the details are about.
pub fn find_listed<T: Listed>(items: &Vec<T>, name: &String, ns: Option<&Option<String>>) -> (r: Option<usize>)
    ensures
        match r {
            Some(k) => k == first_about(items@, name@, match ns {
                Some(n) => Some(opt_view(*n)),
                None => None,
            }) && k < items@.len(),
            None => first_about(items@, name@, match ns {
                Some(n) => Some(opt_view(*n)),
                None => None,
            }) == -1,
        },
{
    let ghost wanted = match ns {
        Some(n) => Some(opt_view(*n)),
        None => None,
    };
    let n = chars_of(name.as_str());
    let mut i: usize = 0;
    while i < items.len()
        invariant
            i <= items@.len(),
            n@ == name@,
            wanted == (match ns {
                Some(n) => Some(opt_view(*n)),
                None => None,
            }),
            forall|j: int| 0 <= j < i ==> !is_about(#[trigger] items@[j], name@, wanted),
        decreases items.len() - i,
    {
        let same = chars_eq(&chars_of(items[i].name_text().as_str()), &n) && match ns {
            Some(x) => opt_eq(items[i].namespace_text(), x),
            None => true,
        };
        if same {
            proof {
                assert(is_about(items@[i as int], name@, wanted));
                let k = first_about(items@, name@, wanted);
                assert(0 <= k < items@.len() && is_about(items@[k], name@, wanted));
                if k < i {
                } else if k > i {
                }
            }
            return Some(i);
        }
        i = i + 1;
    }
    None
}

/// A node as the node list holds it.
#[derive(Clone)]
pub struct NodeItem {
    pub name: String,
    /// `Ready`, `NotReady` or `Unknown`.
    pub status: String,
    pub roles: Vec<String>,
    pub scheduling_disabled: bool,
    pub storage: Option<String>,
    pub creation_timestamp: Option<(i64, u32)>,
}

impl Listed for NodeItem {
    open spec fn listed_name(&self) -> Seq<char> {
        self.name@
    }

    open spec fn listed_namespace(&self) -> Option<Seq<char>> {
        None
    }

    fn name_text(&self) -> (r: &String) {
        &self.name
    }

    fn namespace_text(&self) -> (r: &Option<String>) {
        &NO_NAMESPACE
    }
}

/// No namespace: cluster-wide resources have none.
pub const NO_NAMESPACE: Option<String> = None;

/// The detailed data of a node.
pub struct NodeDetails {
    pub name: Option<String>,
    pub labels: Option<Vec<(String, String)>>,
    pub annotations: Option<Vec<(String, String)>>,
    pub taints: Vec<String>,
    pub kubelet_version: Option<String>,
    pub addresses: Vec<(String, String)>,
    pub os: Option<String>,
    pub os_image: Option<String>,
    pub kernel_version: Option<String>,
    pub container_runtime: Option<String>,
}

impl NodeDetails {
    /// Details of no node yet.
    pub fn new() -> (r: Self)
        ensures
            r.name is None,
            r.labels is None,
            r.annotations is None,
            r.taints@.len() == 0,
            r.kubelet_version is None,
            r.addresses@.len() == 0,
            r.os is None,
            r.os_image is None,
            r.kernel_version is None,
            r.container_runtime is None,
    {
        NodeDetails {
            name: None,
            kubelet_version: None,
            taints: Vec::new(),
            labels: None,
            annotations: None,
            addresses: Vec::new(),
            os: None,
            os_image: None,
            kernel_version: None,
            container_runtime: None,
        }
    }
}

/// A taint as the node details list it: `key=value:effect`.
pub fn taint_text(key: &str, value: &Option<String>, effect: &str) -> (r: String)
    ensures
        r@ == key@ + "="@ + or_empty(*value) + ":"@ + effect@,
{
    let mut v = chars_of(key);
    append_str(&mut v, "=");
    append_str(&mut v, text_or_empty(value).as_str());
    append_str(&mut v, ":");
    append_str(&mut v, effect);
    string_of(&v)
}

/// A node's system as the node details list it: `os (architecture)`.
pub fn os_text(os: &str, architecture: &str) -> (r: String)
    ensures
        r@ == os@ + " ("@ + architecture@ + ")"@,
{
    let mut v = chars_of(os);
    append_str(&mut v, " (");
    append_str(&mut v, architecture);
    append_str(&mut v, ")");
    string_of(&v)
}

/// A section under a heading (no rule before it), shown when there are
/// entries.
pub open spec fn titled_pairs(heading: Seq<char>, p: Seq<(Seq<char>, Seq<char>)>) -> Seq<Shown> {
    if p.len() == 0 {
        seq![]
    } else {
        seq![Shown::Heading(heading)] + pair_lines(p)
    }
}

/// A section under a heading (no rule before it), shown when present.
pub open spec fn titled_opt_pairs(heading: Seq<char>, p: Option<Seq<(Seq<char>, Seq<char>)>>) -> Seq<Shown> {
    match p {
        Some(x) => seq![Shown::Heading(heading)] + pair_lines(x),
        None => seq![],
    }
}

/// The row of a pod running on a node: name, namespace and phase.
pub open spec fn node_pod_row(p: PodItem) -> Shown {
    Shown::Row(p.name@, or_empty(p.namespace), or_empty(p.phase), item_color_of(or_empty(p.phase)))
}

/// The rows of the pods of the list that run on the node named `node`, in
/// order.
pub open spec fn node_pod_rows(pods: Seq<PodItem>, node: Seq<char>) -> Seq<Shown>
    decreases pods.len(),
{
    if pods.len() == 0 {
        seq![]
    } else {
        node_pod_rows(pods.drop_last(), node) + if opt_view(pods.last().node_name) == Some(node) {
            seq![node_pod_row(pods.last())]
        } else {
            seq![]
        }
    }
}

/// The content of the node details window.
pub open spec fn node_lines(item: Option<NodeItem>, d: NodeDetails, rows: Seq<Shown>, now: (i64, u32)) -> Seq<Shown> {
    seq![Shown::Field("Node name:"@, or_empty(d.name), Tone::Detail)] + match item {
        Some(n) => seq![Shown::Field("Status:"@, n.status@, Tone::Detail)] + creation_field(
            n.creation_timestamp,
            now,
        ),
        None => seq![],
    } + opt_field("OS Type:"@, opt_view(d.os), Tone::Detail) + opt_field(
        "OS Image:"@,
        opt_view(d.os_image),
        Tone::Detail,
    ) + opt_field("Kernel version:"@, opt_view(d.kernel_version), Tone::Detail) + opt_field(
        "Container runtime:"@,
        opt_view(d.container_runtime),
        Tone::Detail,
    ) + opt_field("Kubelet version:"@, opt_view(d.kubelet_version), Tone::Detail) + titled_pairs(
        "Adresses:"@,
        pair_texts(d.addresses@),
    ) + titled_opt_pairs("Labels:"@, opt_pairs(d.labels)) + titled_opt_pairs(
        "Annotations:"@,
        opt_pairs(d.annotations),
    ) + (if d.taints@.len() == 0 {
        Seq::<Shown>::empty()
    } else {
        seq![Shown::Heading("Taints:"@)] + item_lines(texts(d.taints@))
    }) + pods_section(rows)
}

/// The pods table, shown when some pod runs on the node.
pub open spec fn pods_section(rows: Seq<Shown>) -> Seq<Shown> {
    if rows.len() == 0 {
        seq![]
    } else {
        seq![Shown::Heading("Pods:"@), Shown::Cells(seq!["Pod name"@, "Namespace"@, "Status"@])] + rows
    }
}

fn push_titled_pairs(out: &mut Vec<Line>, heading: &str, p: &Vec<(String, String)>)
    ensures
        shown_all(final(out)@) == shown_all(old(out)@) + titled_pairs(heading@, pair_texts(p@)),
{
    let ghost before = shown_all(out@);
    if p.len() > 0 {
        push_heading(out, heading);
        push_pairs(out, p);
    }
    assert(shown_all(out@) =~= before + titled_pairs(heading@, pair_texts(p@)));
}

fn push_titled_opt_pairs(out: &mut Vec<Line>, heading: &str, p: &Option<Vec<(String, String)>>)
    ensures
        shown_all(final(out)@) == shown_all(old(out)@) + titled_opt_pairs(heading@, opt_pairs(*p)),
{
    let ghost before = shown_all(out@);
    match p {
        Some(v) => {
            push_heading(out, heading);
            push_pairs(out, v);
        },
        None => {},
    }
    assert(shown_all(out@) =~= before + titled_opt_pairs(heading@, opt_pairs(*p)));
}

fn push_creation(out: &mut Vec<Line>, created: &Option<(i64, u32)>, now: (i64, u32))
    requires
        *created matches Some(c) ==> valid_instant(c),
        valid_instant(now),
    ensures
        shown_all(final(out)@) == shown_all(old(out)@) + creation_field(*created, now),
{
    match created {
        Some(c) => push_field(out, "Creation time:", crate::details::creation_time_text(*c, now), Tone::Detail),
        None => {
            assert(shown_all(out@) =~= shown_all(out@) + creation_field(*created, now));
        },
    }
}

fn node_pod_lines(pods: &Vec<PodItem>, node: &String) -> (r: Vec<Line>)
    ensures
        shown_all(r@) == node_pod_rows(pods@, node@),
{
    let mut out: Vec<Line> = Vec::new();
    let mut i: usize = 0;
    let n = chars_of(node.as_str());
    assert(shown_all(out@) =~= node_pod_rows(pods@.take(0), node@));
    while i < pods.len()
        invariant
            i <= pods@.len(),
            n@ == node@,
            shown_all(out@) == node_pod_rows(pods@.take(i as int), node@),
        decreases pods.len() - i,
    {
        proof {
            assert(pods@.take(i as int + 1).drop_last() == pods@.take(i as int));
        }
        let p = &pods[i];
        let on = match &p.node_name {
            Some(x) => chars_eq(&chars_of(x.as_str()), &n),
            None => false,
        };
        if on {
            let phase = text_or_empty(&p.phase);
            let color = item_color(phase.as_str());
            push_line(&mut out, Line::Row(p.name.clone(), text_or_empty(&p.namespace), phase, color));
        }
        assert(shown_all(out@) =~= node_pod_rows(pods@.take(i as int + 1), node@));
        i = i + 1;
    }
    assert(pods@.take(pods@.len() as int) == pods@);
    out
}

fn append_lines(out: &mut Vec<Line>, rows: Vec<Line>)
    ensures
        shown_all(final(out)@) == shown_all(old(out)@) + shown_all(rows@),
{
    let ghost before = shown_all(out@);
    let ghost all = rows@;
    let mut rest = rows;
    assert(all.len() == rest.len());
    let mut i: usize = 0;
    assert(all.skip(0) == all);
    assert(shown_all(out@) =~= before + shown_all(all.take(0)));
    while rest.len() > 0
        invariant
            i <= all.len(),
            all.len() <= usize::MAX,
            rest@ == all.skip(i as int),
            shown_all(out@) == before + shown_all(all.take(i as int)),
        decreases rest.len(),
    {
        let l = rest.remove(0);
        assert(l == all[i as int]);
        push_line(out, l);
        assert(all.take(i as int + 1) == all.take(i as int).push(all[i as int]));
        assert(shown_all(out@) =~= before + shown_all(all.take(i as int + 1)));
        assert(rest@ =~= all.skip(i as int + 1));
        i = i + 1;
    }
    assert(all.take(i as int) == all);
}

fn push_pods_section(out: &mut Vec<Line>, rows: Vec<Line>)
    ensures
        shown_all(final(out)@) == shown_all(old(out)@) + pods_section(shown_all(rows@)),
{
    let ghost before = shown_all(out@);
    if rows.len() == 0 {
        assert(shown_all(out@) =~= before + pods_section(shown_all(rows@)));
        return;
    }
    push_heading(out, "Pods:");
    let head = vec![
        string_of(&chars_of("Pod name")),
        string_of(&chars_of("Namespace")),
        string_of(&chars_of("Status")),
    ];
    assert(texts(head@) =~= seq!["Pod name"@, "Namespace"@, "Status"@]);
    push_line(out, Line::Cells(head));
    let ghost r = shown_all(rows@);
    append_lines(out, rows);
    assert(shown_all(out@) =~= before + pods_section(r));
}

/// The content of the node details window at `now`, when the details name
/// a node: its fields from the node list (the first node of that name),
/// its details, and the pods of the list that run on it.
pub fn node_window_lines(nodes: &Vec<NodeItem>, pods: &Vec<PodItem>, d: &NodeDetails, now: (i64, u32)) -> (r: Option<Vec<Line>>)
    requires
        valid_instant(now),
        forall|i: int| 0 <= i < nodes@.len() ==> ((#[trigger] nodes@[i]).creation_timestamp matches Some(c) ==> valid_instant(c)),
    ensures
        d.name is None <==> r is None,
        r matches Some(lines) ==> {
            let k = first_about(nodes@, d.name->0@, None);
            shown_all(lines@) == node_lines(
                if k >= 0 { Some(nodes@[k]) } else { None },
                *d,
                node_pod_rows(pods@, d.name->0@),
                now,
            )
        },
{
    let name = match &d.name {
        Some(n) => n,
        None => {
            return None;
        },
    };
    let found = find_listed(nodes, name, None);
    let rows = node_pod_lines(pods, name);
    let mut out: Vec<Line> = Vec::new();
    push_field(&mut out, "Node name:", name.clone(), Tone::Detail);
    assert(shown_all(out@) =~= seq![Shown::Field("Node name:"@, or_empty(d.name), Tone::Detail)]);
    let ghost first = shown_all(out@);
    match found {
        Some(k) => {
            let n = &nodes[k];
            push_field(&mut out, "Status:", n.status.clone(), Tone::Detail);
            push_creation(&mut out, &n.creation_timestamp, now);
        },
        None => {},
    }
    let ghost second = shown_all(out@);
    push_opt_field(&mut out, "OS Type:", &d.os, Tone::Detail);
    push_opt_field(&mut out, "OS Image:", &d.os_image, Tone::Detail);
    push_opt_field(&mut out, "Kernel version:", &d.kernel_version, Tone::Detail);
    push_opt_field(&mut out, "Container runtime:", &d.container_runtime, Tone::Detail);
    push_opt_field(&mut out, "Kubelet version:", &d.kubelet_version, Tone::Detail);
    push_titled_pairs(&mut out, "Adresses:", &d.addresses);
    push_titled_opt_pairs(&mut out, "Labels:", &d.labels);
    push_titled_opt_pairs(&mut out, "Annotations:", &d.annotations);
    let ghost third = shown_all(out@);
    if d.taints.len() > 0 {
        push_heading(&mut out, "Taints:");
        push_items(&mut out, &d.taints);
    }
    let ghost fourth = shown_all(out@);
    push_pods_section(&mut out, rows);
    proof {
        let k = first_about(nodes@, name@, None);
        let item = if k >= 0 { Some(nodes@[k]) } else { None::<NodeItem> };
        assert(second == first + match item {
            Some(n) => seq![Shown::Field("Status:"@, n.status@, Tone::Detail)] + creation_field(n.creation_timestamp, now),
            None => Seq::<Shown>::empty(),
        });
        assert(fourth == third + (if d.taints@.len() == 0 {
            Seq::<Shown>::empty()
        } else {
            seq![Shown::Heading("Taints:"@)] + item_lines(texts(d.taints@))
        }));
    }
    Some(out)
}

/// Adds a status-coloured field.
fn push_status(out: &mut Vec<Line>, label: &str, value: &String)
    ensures
        shown_all(final(out)@) == shown_all(old(out)@) + seq![
            Shown::Field(label@, value@, Tone::Status(item_color_of(value@))),
        ],
{
    let c = item_color(value.as_str());
    push_field(out, label, value.clone(), Tone::Status(c));
}

/// A storage class as the list holds it.
pub struct StorageClassItem {
    pub name: String,
    pub provisioner: String,
    pub reclaim_policy: String,
    pub volume_binding_mode: String,
    pub is_default: String,
    pub creation_timestamp: Option<(i64, u32)>,
}

impl Listed for StorageClassItem {
    open spec fn listed_name(&self) -> Seq<char> {
        self.name@
    }

    open spec fn listed_namespace(&self) -> Option<Seq<char>> {
        None
    }

    fn name_text(&self) -> (r: &String) {
        &self.name
    }

    fn namespace_text(&self) -> (r: &Option<String>) {
        &NO_NAMESPACE
    }
}

/// The detailed data of a storage class.
pub struct ScDetails {
    pub name: Option<String>,
    pub labels: Option<Vec<(String, String)>>,
    pub annotations: Option<Vec<(String, String)>>,
    pub finalizers: Option<Vec<String>>,
    pub mount_options: Option<Vec<String>>,
    pub parameters: Option<Vec<(String, String)>>,
    pub events: Vec<EventDetails>,
}

/// Optional strings as texts.
pub open spec fn opt_texts(v: Option<Vec<String>>) -> Option<Seq<Seq<char>>> {
    match v {
        Some(x) => Some(texts(x@)),
        None => None,
    }
}

/// The content of the storage class details window.
pub open spec fn sc_lines(c: StorageClassItem, d: ScDetails, now: (i64, u32)) -> Seq<Shown> {
    seq![Shown::Field("Name:"@, or_empty(d.name), Tone::Detail)] + creation_field(c.creation_timestamp, now)
        + seq![
        Shown::Field("Provisioner:"@, c.provisioner@, Tone::Detail),
        Shown::Field("Reclaim policy:"@, c.reclaim_policy@, Tone::Status(item_color_of(c.reclaim_policy@))),
        Shown::Field("Volume binding mode:"@, c.volume_binding_mode@, Tone::Detail),
        Shown::Field("Default class:"@, c.is_default@, Tone::Detail),
    ] + items_section("Mount options:"@, opt_texts(d.mount_options)) + pairs_section(
        "Parameters:"@,
        opt_pairs(d.parameters),
    ) + items_section("Finalizers:"@, opt_texts(d.finalizers)) + pairs_section("Labels:"@, opt_pairs(d.labels))
        + pairs_section("Annotations:"@, opt_pairs(d.annotations)) + events_part(d.events@)
}

/// The content of the storage class details window at `now`: shown when
/// the details name a class the list holds (the first of that name).
pub fn sc_window_lines(items: &Vec<StorageClassItem>, d: &ScDetails, now: (i64, u32)) -> (r: Option<Vec<Line>>)
    requires
        valid_instant(now),
        forall|i: int| 0 <= i < items@.len() ==> ((#[trigger] items@[i]).creation_timestamp matches Some(c) ==> valid_instant(c)),
    ensures
        d.name is None ==> r is None,
        d.name is Some ==> (r is Some <==> first_about(items@, d.name->0@, None) >= 0),
        r matches Some(lines) ==> shown_all(lines@) == sc_lines(
            items@[first_about(items@, d.name->0@, None)],
            *d,
            now,
        ),
{
    let name = match &d.name {
        Some(n) => n,
        None => {
            return None;
        },
    };
    let k = match find_listed(items, name, None) {
        Some(k) => k,
        None => {
            return None;
        },
    };
    let c = &items[k];
    let mut out: Vec<Line> = Vec::new();
    push_field(&mut out, "Name:", name.clone(), Tone::Detail);
    assert(shown_all(out@) =~= seq![Shown::Field("Name:"@, or_empty(d.name), Tone::Detail)]);
    push_creation(&mut out, &c.creation_timestamp, now);
    let ghost a = shown_all(out@);
    push_field(&mut out, "Provisioner:", c.provisioner.clone(), Tone::Detail);
    push_status(&mut out, "Reclaim policy:", &c.reclaim_policy);
    push_field(&mut out, "Volume binding mode:", c.volume_binding_mode.clone(), Tone::Detail);
    push_field(&mut out, "Default class:", c.is_default.clone(), Tone::Detail);
    assert(shown_all(out@) =~= a + seq![
        Shown::Field("Provisioner:"@, c.provisioner@, Tone::Detail),
        Shown::Field("Reclaim policy:"@, c.reclaim_policy@, Tone::Status(item_color_of(c.reclaim_policy@))),
        Shown::Field("Volume binding mode:"@, c.volume_binding_mode@, Tone::Detail),
        Shown::Field("Default class:"@, c.is_default@, Tone::Detail),
    ]);
    push_items_section(&mut out, "Mount options:", &d.mount_options);
    push_pairs_section(&mut out, "Parameters:", &d.parameters);
    push_items_section(&mut out, "Finalizers:", &d.finalizers);
    push_pairs_section(&mut out, "Labels:", &d.labels);
    push_pairs_section(&mut out, "Annotations:", &d.annotations);
    push_events(&mut out, &d.events);
    Some(out)
}

/// A persistent volume as the list holds it.
pub struct PvItem {
    pub name: String,
    pub storage_class: String,
    pub capacity: String,
    pub claim: String,
    pub status: String,
    pub reclaim_policy: String,
    pub creation_timestamp: Option<(i64, u32)>,
}

impl Listed for PvItem {
    open spec fn listed_name(&self) -> Seq<char> {
        self.name@
    }

    open spec fn listed_namespace(&self) -> Option<Seq<char>> {
        None
    }

    fn name_text(&self) -> (r: &String) {
        &self.name
    }

    fn namespace_text(&self) -> (r: &Option<String>) {
        &NO_NAMESPACE
    }
}

/// The detailed data of a persistent volume.
pub struct PvDetails {
    pub name: Option<String>,
    pub reclaim_policy: Option<String>,
    pub labels: Option<Vec<(String, String)>>,
    pub annotations: Option<Vec<(String, String)>>,
    pub finalizers: Option<Vec<String>>,
    pub access_modes: Option<Vec<String>>,
    pub events: Vec<EventDetails>,
}

/// The content of the persistent volume details window.
pub open spec fn pv_lines(v: PvItem, d: PvDetails, now: (i64, u32)) -> Seq<Shown> {
    seq![Shown::Field("Pv name:"@, or_empty(d.name), Tone::Detail)] + creation_field(v.creation_timestamp, now)
        + seq![
        Shown::Field("Storage class:"@, v.storage_class@, Tone::Detail),
        Shown::Field("Status:"@, v.status@, Tone::Status(item_color_of(v.status@))),
        Shown::Field("Capacity:"@, v.capacity@, Tone::Detail),
        Shown::Field("Claim:"@, v.claim@, Tone::Detail),
        Shown::Field("Reclaim policy:"@, v.reclaim_policy@, Tone::Status(item_color_of(v.reclaim_policy@))),
    ] + items_section("Finalizers:"@, opt_texts(d.finalizers)) + items_section(
        "Access modes:"@,
        opt_texts(d.access_modes),
    ) + pairs_section("Labels:"@, opt_pairs(d.labels)) + pairs_section("Annotations:"@, opt_pairs(d.annotations))
        + events_part(d.events@)
}

/// The content of the persistent volume details window at `now`: shown
/// when the details name a volume the list holds (the first of that name).
pub fn pv_window_lines(items: &Vec<PvItem>, d: &PvDetails, now: (i64, u32)) -> (r: Option<Vec<Line>>)
    requires
        valid_instant(now),
        forall|i: int| 0 <= i < items@.len() ==> ((#[trigger] items@[i]).creation_timestamp matches Some(c) ==> valid_instant(c)),
    ensures
        d.name is None ==> r is None,
        d.name is Some ==> (r is Some <==> first_about(items@, d.name->0@, None) >= 0),
        r matches Some(lines) ==> shown_all(lines@) == pv_lines(
            items@[first_about(items@, d.name->0@, None)],
            *d,
            now,
        ),
{
    let name = match &d.name {
        Some(n) => n,
        None => {
            return None;
        },
    };
    let k = match find_listed(items, name, None) {
        Some(k) => k,
        None => {
            return None;
        },
    };
    let v = &items[k];
    let mut out: Vec<Line> = Vec::new();
    push_field(&mut out, "Pv name:", name.clone(), Tone::Detail);
    assert(shown_all(out@) =~= seq![Shown::Field("Pv name:"@, or_empty(d.name), Tone::Detail)]);
    push_creation(&mut out, &v.creation_timestamp, now);
    let ghost a = shown_all(out@);
    push_field(&mut out, "Storage class:", v.storage_class.clone(), Tone::Detail);
    push_status(&mut out, "Status:", &v.status);
    push_field(&mut out, "Capacity:", v.capacity.clone(), Tone::Detail);
    push_field(&mut out, "Claim:", v.claim.clone(), Tone::Detail);
    push_status(&mut out, "Reclaim policy:", &v.reclaim_policy);
    assert(shown_all(out@) =~= a + seq![
        Shown::Field("Storage class:"@, v.storage_class@, Tone::Detail),
        Shown::Field("Status:"@, v.status@, Tone::Status(item_color_of(v.status@))),
        Shown::Field("Capacity:"@, v.capacity@, Tone::Detail),
        Shown::Field("Claim:"@, v.claim@, Tone::Detail),
        Shown::Field("Reclaim policy:"@, v.reclaim_policy@, Tone::Status(item_color_of(v.reclaim_policy@))),
    ]);
    push_items_section(&mut out, "Finalizers:", &d.finalizers);
    push_items_section(&mut out, "Access modes:", &d.access_modes);
    push_pairs_section(&mut out, "Labels:", &d.labels);
    push_pairs_section(&mut out, "Annotations:", &d.annotations);
    push_events(&mut out, &d.events);
    Some(out)
}

/// A secret as the list holds it.
pub struct SecretItem {
    pub name: String,
    pub labels: String,
    pub keys: String,
    pub type_: String,
    pub creation_timestamp: Option<(i64, u32)>,
    pub namespace: Option<String>,
}

impl Listed for SecretItem {
    open spec fn listed_name(&self) -> Seq<char> {
        self.name@
    }

    open spec fn listed_namespace(&self) -> Option<Seq<char>> {
        opt_view(self.namespace)
    }

    fn name_text(&self) -> (r: &String) {
        &self.name
    }

    fn namespace_text(&self) -> (r: &Option<String>) {
        &self.namespace
    }
}

/// The detailed data of a secret.
pub struct SecretDetails {
    pub name: Option<String>,
    pub namespace: Option<String>,
    pub labels: Option<Vec<(String, String)>>,
    pub annotations: Option<Vec<(String, String)>>,
    pub events: Vec<EventDetails>,
}

/// The content of the secret details window.
pub open spec fn secret_lines(s: SecretItem, d: SecretDetails, now: (i64, u32)) -> Seq<Shown> {
    seq![Shown::Field("Secret name:"@, or_empty(d.name), Tone::Detail)] + creation_field(s.creation_timestamp, now)
        + opt_field("Namespace:"@, opt_view(s.namespace), Tone::Detail) + pairs_section(
        "Labels:"@,
        opt_pairs(d.labels),
    ) + pairs_section("Annotations:"@, opt_pairs(d.annotations)) + events_part(d.events@)
}

/// The content of the secret details window at `now`: shown when the
/// details name a secret the list holds in the same namespace (the first
/// such).
pub fn secret_window_lines(items: &Vec<SecretItem>, d: &SecretDetails, now: (i64, u32)) -> (r: Option<Vec<Line>>)
    requires
        valid_instant(now),
        forall|i: int| 0 <= i < items@.len() ==> ((#[trigger] items@[i]).creation_timestamp matches Some(c) ==> valid_instant(c)),
    ensures
        d.name is None ==> r is None,
        d.name is Some ==> (r is Some <==> first_about(items@, d.name->0@, Some(opt_view(d.namespace))) >= 0),
        r matches Some(lines) ==> shown_all(lines@) == secret_lines(
            items@[first_about(items@, d.name->0@, Some(opt_view(d.namespace)))],
            *d,
            now,
        ),
{
    let name = match &d.name {
        Some(n) => n,
        None => {
            return None;
        },
    };
    let k = match find_listed(items, name, Some(&d.namespace)) {
        Some(k) => k,
        None => {
            return None;
        },
    };
    let s = &items[k];
    let mut out: Vec<Line> = Vec::new();
    push_field(&mut out, "Secret name:", name.clone(), Tone::Detail);
    assert(shown_all(out@) =~= seq![Shown::Field("Secret name:"@, or_empty(d.name), Tone::Detail)]);
    push_creation(&mut out, &s.creation_timestamp, now);
    push_opt_field(&mut out, "Namespace:", &s.namespace, Tone::Detail);
    push_pairs_section(&mut out, "Labels:", &d.labels);
    push_pairs_section(&mut out, "Annotations:", &d.annotations);
    push_events(&mut out, &d.events);
    Some(out)
}

/// A custom resource definition as the list holds it.
pub struct CRDItem {
    pub name: String,
    pub group: String,
    pub version: String,
    pub scope: String,
    pub kind: String,
    pub creation_timestamp: Option<(i64, u32)>,
}

impl Listed for CRDItem {
    open spec fn listed_name(&self) -> Seq<char> {
        self.name@
    }

    open spec fn listed_namespace(&self) -> Option<Seq<char>> {
        None
    }

    fn name_text(&self) -> (r: &String) {
        &self.name
    }

    fn namespace_text(&self) -> (r: &Option<String>) {
        &NO_NAMESPACE
    }
}

/// The detailed data of a custom resource definition.
pub struct CrdDetails {
    pub name: Option<String>,
    pub labels: Option<Vec<(String, String)>>,
    pub annotations: Option<Vec<(String, String)>>,
}

/// The content of the custom resource definition details window.
pub open spec fn crd_lines(c: CRDItem, d: CrdDetails, now: (i64, u32)) -> Seq<Shown> {
    seq![Shown::Field("Crd name:"@, or_empty(d.name), Tone::Detail)] + creation_field(c.creation_timestamp, now)
        + pairs_section("Labels:"@, opt_pairs(d.labels)) + pairs_section("Annotations:"@, opt_pairs(d.annotations))
}

/// The content of the custom resource definition details window at
/// `now`: shown when the details name a definition the list holds.
pub fn crd_window_lines(items: &Vec<CRDItem>, d: &CrdDetails, now: (i64, u32)) -> (r: Option<Vec<Line>>)
    requires
        valid_instant(now),
        forall|i: int| 0 <= i < items@.len() ==> ((#[trigger] items@[i]).creation_timestamp matches Some(c) ==> valid_instant(c)),
    ensures
        d.name is None ==> r is None,
        d.name is Some ==> (r is Some <==> first_about(items@, d.name->0@, None) >= 0),
        r matches Some(lines) ==> shown_all(lines@) == crd_lines(
            items@[first_about(items@, d.name->0@, None)],
            *d,
            now,
        ),
{
    let name = match &d.name {
        Some(n) => n,
        None => {
            return None;
        },
    };
    let k = match find_listed(items, name, None) {
        Some(k) => k,
        None => {
            return None;
        },
    };
    let c = &items[k];
    let mut out: Vec<Line> = Vec::new();
    push_field(&mut out, "Crd name:", name.clone(), Tone::Detail);
    assert(shown_all(out@) =~= seq![Shown::Field("Crd name:"@, or_empty(d.name), Tone::Detail)]);
    push_creation(&mut out, &c.creation_timestamp, now);
    push_pairs_section(&mut out, "Labels:", &d.labels);
    push_pairs_section(&mut out, "Annotations:", &d.annotations);
    Some(out)
}

/// A deployment as the list holds it.
pub struct DeploymentItem {
    pub name: String,
    pub ready_replicas: i32,
    pub available_replicas: i32,
    pub updated_replicas: i32,
    pub unavailable_replicas: i32,
    pub replicas: i32,
    pub creation_timestamp: Option<(i64, u32)>,
    pub namespace: Option<String>,
}

impl Listed for DeploymentItem {
    open spec fn listed_name(&self) -> Seq<char> {
        self.name@
    }

    open spec fn listed_namespace(&self) -> Option<Seq<char>> {
        opt_view(self.namespace)
    }

    fn name_text(&self) -> (r: &String) {
        &self.name
    }

    fn namespace_text(&self) -> (r: &Option<String>) {
        &self.namespace
    }
}

/// The detailed data of a deployment.
pub struct DeploymentDetails {
    pub name: Option<String>,
    pub labels: Option<Vec<(String, String)>>,
    pub namespace: Option<String>,
}

impl DeploymentDetails {
    /// Details of no deployment yet.
    pub fn new() -> (r: Self)
        ensures
            r.name is None,
            r.labels is None,
            r.namespace is None,
    {
        DeploymentDetails { name: None, labels: None, namespace: None }
    }
}

/// The replica counts of a deployment, in one line.
pub open spec fn replicas_text(d: DeploymentItem) -> Seq<char> {
    crate::text::signed_decimal(d.replicas as int) + " desired, "@ + crate::text::signed_decimal(
        d.updated_replicas as int,
    ) + " updated, "@ + crate::text::signed_decimal(d.available_replicas as int) + " available, "@
        + crate::text::signed_decimal(d.ready_replicas as int) + " ready, "@ + crate::text::signed_decimal(
        d.unavailable_replicas as int,
    ) + " unavailable"@
}

fn replicas_line(d: &DeploymentItem) -> (r: String)
    ensures
        r@ == replicas_text(*d),
{
    let mut v = crate::text::signed_decimal_chars(d.replicas as i64);
    append_str(&mut v, " desired, ");
    crate::text::append_chars(&mut v, &crate::text::signed_decimal_chars(d.updated_replicas as i64));
    append_str(&mut v, " updated, ");
    crate::text::append_chars(&mut v, &crate::text::signed_decimal_chars(d.available_replicas as i64));
    append_str(&mut v, " available, ");
    crate::text::append_chars(&mut v, &crate::text::signed_decimal_chars(d.ready_replicas as i64));
    append_str(&mut v, " ready, ");
    crate::text::append_chars(&mut v, &crate::text::signed_decimal_chars(d.unavailable_replicas as i64));
    append_str(&mut v, " unavailable");
    string_of(&v)
}

/// The content of the deployment details window.
pub open spec fn deployment_lines(x: DeploymentItem, d: DeploymentDetails, now: (i64, u32)) -> Seq<Shown> {
    seq![Shown::Field("Deployment name:"@, or_empty(d.name), Tone::Detail)] + creation_field(
        x.creation_timestamp,
        now,
    ) + opt_field("Namespace:"@, opt_view(x.namespace), Tone::Detail) + seq![
        Shown::Field("Replicas status:"@, replicas_text(x), Tone::Detail),
    ] + pairs_section("Labels:"@, opt_pairs(d.labels))
}

/// The content of the deployment details window at `now`: shown when the
/// details name a deployment the list holds in the same namespace.
pub fn deployment_window_lines(items: &Vec<DeploymentItem>, d: &DeploymentDetails, now: (i64, u32)) -> (r: Option<Vec<Line>>)
    requires
        valid_instant(now),
        forall|i: int| 0 <= i < items@.len() ==> ((#[trigger] items@[i]).creation_timestamp matches Some(c) ==> valid_instant(c)),
    ensures
        d.name is None ==> r is None,
        d.name is Some ==> (r is Some <==> first_about(items@, d.name->0@, Some(opt_view(d.namespace))) >= 0),
        r matches Some(lines) ==> shown_all(lines@) == deployment_lines(
            items@[first_about(items@, d.name->0@, Some(opt_view(d.namespace)))],
            *d,
            now,
        ),
{
    let name = match &d.name {
        Some(n) => n,
        None => {
            return None;
        },
    };
    let k = match find_listed(items, name, Some(&d.namespace)) {
        Some(k) => k,
        None => {
            return None;
        },
    };
    let x = &items[k];
    let mut out: Vec<Line> = Vec::new();
    push_field(&mut out, "Deployment name:", name.clone(), Tone::Detail);
    assert(shown_all(out@) =~= seq![Shown::Field("Deployment name:"@, or_empty(d.name), Tone::Detail)]);
    push_creation(&mut out, &x.creation_timestamp, now);
    push_opt_field(&mut out, "Namespace:", &x.namespace, Tone::Detail);
    push_field(&mut out, "Replicas status:", replicas_line(x), Tone::Detail);
    push_pairs_section(&mut out, "Labels:", &d.labels);
    Some(out)
}

/// A replica set as the list holds it.
pub struct ReplicaSetItem {
    pub name: String,
    pub labels: Vec<(String, String)>,
    pub desired: i32,
    pub current: i32,
    pub ready: i32,
    pub creation_timestamp: Option<(i64, u32)>,
    pub namespace: Option<String>,
}

impl Listed for ReplicaSetItem {
    open spec fn listed_name(&self) -> Seq<char> {
        self.name@
    }

    open spec fn listed_namespace(&self) -> Option<Seq<char>> {
        opt_view(self.namespace)
    }

    fn name_text(&self) -> (r: &String) {
        &self.name
    }

    fn namespace_text(&self) -> (r: &Option<String>) {
        &self.namespace
    }
}

/// The detailed data of a replica set.
pub struct ReplicaSetDetails {
    pub name: Option<String>,
    pub namespace: Option<String>,
    pub labels: Option<Vec<(String, String)>>,
    pub annotations: Option<Vec<(String, String)>>,
    pub events: Vec<EventDetails>,
}

/// The replica counts of a replica set, in one line.
pub open spec fn replica_set_status_text(x: ReplicaSetItem) -> Seq<char> {
    crate::text::signed_decimal(x.desired as int) + " desired, "@ + crate::text::signed_decimal(x.current as int)
        + " current, "@ + crate::text::signed_decimal(x.ready as int) + " ready"@
}

fn replica_set_status_line(x: &ReplicaSetItem) -> (r: String)
    ensures
        r@ == replica_set_status_text(*x),
{
    let mut v = crate::text::signed_decimal_chars(x.desired as i64);
    append_str(&mut v, " desired, ");
    crate::text::append_chars(&mut v, &crate::text::signed_decimal_chars(x.current as i64));
    append_str(&mut v, " current, ");
    crate::text::append_chars(&mut v, &crate::text::signed_decimal_chars(x.ready as i64));
    append_str(&mut v, " ready");
    string_of(&v)
}

/// The content of the replica set details window.
pub open spec fn replica_set_lines(x: ReplicaSetItem, d: ReplicaSetDetails, now: (i64, u32)) -> Seq<Shown> {
    seq![Shown::Field("ReplicaSet name:"@, or_empty(d.name), Tone::Detail)] + creation_field(x.creation_timestamp, now)
        + opt_field("Namespace:"@, opt_view(x.namespace), Tone::Detail) + seq![
        Shown::Field("Replicas status:"@, replica_set_status_text(x), Tone::Detail),
    ] + pairs_section("Labels:"@, opt_pairs(d.labels)) + pairs_section("Annotations:"@, opt_pairs(d.annotations))
        + events_part(d.events@)
}

/// The content of the replica set details window at `now`: shown when the
/// details name a replica set the list holds in the same namespace (the
/// first such).
pub fn replica_set_window_lines(items: &Vec<ReplicaSetItem>, d: &ReplicaSetDetails, now: (i64, u32)) -> (r: Option<Vec<Line>>)
    requires
        valid_instant(now),
        forall|i: int| 0 <= i < items@.len() ==> ((#[trigger] items@[i]).creation_timestamp matches Some(c) ==> valid_instant(c)),
    ensures
        d.name is None ==> r is None,
        d.name is Some ==> (r is Some <==> first_about(items@, d.name->0@, Some(opt_view(d.namespace))) >= 0),
        r matches Some(lines) ==> shown_all(lines@) == replica_set_lines(
            items@[first_about(items@, d.name->0@, Some(opt_view(d.namespace)))],
            *d,
            now,
        ),
{
    let name = match &d.name {
        Some(n) => n,
        None => {
            return None;
        },
    };
    let k = match find_listed(items, name, Some(&d.namespace)) {
        Some(k) => k,
        None => {
            return None;
        },
    };
    let x = &items[k];
    let mut out: Vec<Line> = Vec::new();
    push_field(&mut out, "ReplicaSet name:", name.clone(), Tone::Detail);
    assert(shown_all(out@) =~= seq![Shown::Field("ReplicaSet name:"@, or_empty(d.name), Tone::Detail)]);
    push_creation(&mut out, &x.creation_timestamp, now);
    push_opt_field(&mut out, "Namespace:", &x.namespace, Tone::Detail);
    push_field(&mut out, "Replicas status:", replica_set_status_line(x), Tone::Detail);
    push_pairs_section(&mut out, "Labels:", &d.labels);
    push_pairs_section(&mut out, "Annotations:", &d.annotations);
    push_events(&mut out, &d.events);
    Some(out)
}

/// A service as the list holds it.
pub struct ServiceItem {
    pub name: String,
    pub svc_type: String,
    pub cluster_ip: String,
    pub ports: String,
    pub external_ip: String,
    pub selector: String,
    pub creation_timestamp: Option<(i64, u32)>,
    pub status: String,
    pub namespace: Option<String>,
}

impl Listed for ServiceItem {
    open spec fn listed_name(&self) -> Seq<char> {
        self.name@
    }

    open spec fn listed_namespace(&self) -> Option<Seq<char>> {
        opt_view(self.namespace)
    }

    fn name_text(&self) -> (r: &String) {
        &self.name
    }

    fn namespace_text(&self) -> (r: &Option<String>) {
        &self.namespace
    }
}

/// The detailed data of a service.
pub struct ServiceDetails {
    pub name: Option<String>,
    pub namespace: Option<String>,
    pub labels: Option<Vec<(String, String)>>,
    pub selector: Option<Vec<(String, String)>>,
    pub annotations: Option<Vec<(String, String)>>,
    pub events: Vec<EventDetails>,
}

/// An address field, left out when the address is `None`.
pub open spec fn address_field(label: Seq<char>, address: Seq<char>) -> Seq<Shown> {
    if address == "None"@ {
        seq![]
    } else {
        seq![Shown::Field(label, address, Tone::Detail)]
    }
}

fn push_address(out: &mut Vec<Line>, label: &str, address: &String)
    ensures
        shown_all(final(out)@) == shown_all(old(out)@) + address_field(label@, address@),
{
    if chars_eq_str(&chars_of(address.as_str()), "None") {
        assert(shown_all(out@) =~= shown_all(out@) + address_field(label@, address@));
    } else {
        push_field(out, label, address.clone(), Tone::Detail);
    }
}

/// The type, addresses and ports of a service.
pub open spec fn service_summary(x: ServiceItem) -> Seq<Shown> {
    seq![Shown::Field("Type:"@, x.svc_type@, Tone::Detail)] + address_field("Internal IP:"@, x.cluster_ip@)
        + address_field("External IP:"@, x.external_ip@) + seq![
        Shown::Separator,
        Shown::Field("Ports:"@, x.ports@, Tone::Detail),
    ]
}

fn push_service_summary(out: &mut Vec<Line>, x: &ServiceItem)
    ensures
        shown_all(final(out)@) == shown_all(old(out)@) + service_summary(*x),
{
    let ghost before = shown_all(out@);
    push_field(out, "Type:", x.svc_type.clone(), Tone::Detail);
    push_address(out, "Internal IP:", &x.cluster_ip);
    push_address(out, "External IP:", &x.external_ip);
    push_line(out, Line::Separator);
    push_field(out, "Ports:", x.ports.clone(), Tone::Detail);
    assert(shown_all(out@) =~= before + service_summary(*x));
}

/// The content of the service details window.
pub open spec fn service_lines(x: ServiceItem, d: ServiceDetails, now: (i64, u32)) -> Seq<Shown> {
    seq![Shown::Field("Service name:"@, or_empty(d.name), Tone::Detail)] + creation_field(x.creation_timestamp, now)
        + opt_field("Namespace:"@, opt_view(x.namespace), Tone::Detail) + service_summary(x) + pairs_section(
        "Labels:"@,
        opt_pairs(d.labels),
    ) + pairs_section("Selector:"@, opt_pairs(d.selector)) + pairs_section("Annotations:"@, opt_pairs(d.annotations))
        + events_part(d.events@)
}

/// The content of the service details window at `now`: shown when the
/// details name a service the list holds in the same namespace (the first
/// such).
pub fn service_window_lines(items: &Vec<ServiceItem>, d: &ServiceDetails, now: (i64, u32)) -> (r: Option<Vec<Line>>)
    requires
        valid_instant(now),
        forall|i: int| 0 <= i < items@.len() ==> ((#[trigger] items@[i]).creation_timestamp matches Some(c) ==> valid_instant(c)),
    ensures
        d.name is None ==> r is None,
        d.name is Some ==> (r is Some <==> first_about(items@, d.name->0@, Some(opt_view(d.namespace))) >= 0),
        r matches Some(lines) ==> shown_all(lines@) == service_lines(
            items@[first_about(items@, d.name->0@, Some(opt_view(d.namespace)))],
            *d,
            now,
        ),
{
    let name = match &d.name {
        Some(n) => n,
        None => {
            return None;
        },
    };
    let k = match find_listed(items, name, Some(&d.namespace)) {
        Some(k) => k,
        None => {
            return None;
        },
    };
    let x = &items[k];
    let mut out: Vec<Line> = Vec::new();
    push_field(&mut out, "Service name:", name.clone(), Tone::Detail);
    assert(shown_all(out@) =~= seq![Shown::Field("Service name:"@, or_empty(d.name), Tone::Detail)]);
    push_creation(&mut out, &x.creation_timestamp, now);
    push_opt_field(&mut out, "Namespace:", &x.namespace, Tone::Detail);
    push_service_summary(&mut out, x);
    push_pairs_section(&mut out, "Labels:", &d.labels);
    push_pairs_section(&mut out, "Selector:", &d.selector);
    push_pairs_section(&mut out, "Annotations:", &d.annotations);
    push_events(&mut out, &d.events);
    Some(out)
}

/// The detailed data of a cluster role.
pub struct ClusterRoleDetails {
    pub name: Option<String>,
    pub labels: Option<Vec<(String, String)>>,
    pub annotations: Option<Vec<(String, String)>>,
    pub events: Vec<EventDetails>,
}

/// The detailed data of a cron job.
pub struct CronJobDetails {
    pub name: Option<String>,
    pub namespace: Option<String>,
    pub labels: Option<Vec<(String, String)>>,
    pub annotations: Option<Vec<(String, String)>>,
    pub events: Vec<EventDetails>,
}

/// The detailed data of a lease.
pub struct LeaseDetails {
    pub name: Option<String>,
    pub namespace: Option<String>,
    pub events: Vec<EventDetails>,
}

/// An instance of a custom resource.
pub struct CustomResourceDetails {
    pub name: String,
}

/// Where an instance of a custom resource is looked up: in its namespace
/// (or `default`) when the resource is namespaced, cluster-wide otherwise.
pub fn custom_resource_namespace(scope: &str, namespace: &Option<String>) -> (r: Option<String>)
    ensures
        scope@ == "Namespaced"@ ==> opt_view(r) == Some(
            match *namespace {
                Some(n) => n@,
                None => "default"@,
            },
        ),
        scope@ != "Namespaced"@ ==> r is None,
{
    if chars_eq_str(&chars_of(scope), "Namespaced") {
        match namespace {
            Some(n) => Some(n.clone()),
            None => Some(string_of(&chars_of("default"))),
        }
    } else {
        None
    }
}

/// The pod details window.
pub struct PodDetailsWindow {
    pub show: bool,
}

/// The node details window.
pub struct NodeDetailsWindow {
    pub show: bool,
}

/// The deployment details window.
pub struct DeploymentDetailsWindow {
    pub show: bool,
}

/// The storage class details window.
pub struct ScDetailsWindow {
    pub show: bool,
}

/// The persistent volume details window.
pub struct PvDetailsWindow {
    pub show: bool,
}

/// The secret details window.
pub struct SecretDetailsWindow {
    pub show: bool,
}

/// The custom resource definition details window.
pub struct CrdDetailsWindow {
    pub show: bool,
}

/// The replica set details window.
pub struct ReplicaSetDetailsWindow {
    pub show: bool,
}

/// The service details window.
pub struct ServiceDetailsWindow {
    pub show: bool,
}

impl PodDetailsWindow {
    /// A closed window.
    pub fn new() -> (r: Self)
        ensures
            !r.show,
    {
        PodDetailsWindow { show: false }
    }
}

impl NodeDetailsWindow {
    /// A closed window.
    pub fn new() -> (r: Self)
        ensures
            !r.show,
    {
        NodeDetailsWindow { show: false }
    }
}

impl DeploymentDetailsWindow {
    /// A closed window.
    pub fn new() -> (r: Self)
        ensures
            !r.show,
    {
        DeploymentDetailsWindow { show: false }
    }
}

impl ScDetailsWindow {
    /// A closed window.
    pub fn new() -> (r: Self)
        ensures
            !r.show,
    {
        ScDetailsWindow { show: false }
    }
}

impl PvDetailsWindow {
    /// A closed window.
    pub fn new() -> (r: Self)
        ensures
            !r.show,
    {
        PvDetailsWindow { show: false }
    }
}

impl SecretDetailsWindow {
    /// A closed window.
    pub fn new() -> (r: Self)
        ensures
            !r.show,
    {
        SecretDetailsWindow { show: false }
    }
}

impl CrdDetailsWindow {
    /// A closed window.
    pub fn new() -> (r: Self)
        ensures
            !r.show,
    {
        CrdDetailsWindow { show: false }
    }
}

impl ReplicaSetDetailsWindow {
    /// A closed window.
    pub fn new() -> (r: Self)
        ensures
            !r.show,
    {
        ReplicaSetDetailsWindow { show: false }
    }
}

impl ServiceDetailsWindow {
    /// A closed window.
    pub fn new() -> (r: Self)
        ensures
            !r.show,
    {
        ServiceDetailsWindow { show: false }
    }
}

} // verus!
