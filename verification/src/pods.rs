//! Pods: the per-container details read from a pod's spec and status, and
//! the content of the pod details window.
use crate::details::{
    creation_field, creation_time_text, opt_field, opt_view, or_empty, pair_texts, pairs_section,
    push_field, push_heading, push_line, push_opt_field, push_pairs_section, shown, shown_all,
    text_or_empty, texts, valid_instant, Line, Shown, Tone,
};
use crate::logs::ContainerStatusItem;
use crate::overview::{item_color, item_color_of, ItemColor};
use crate::text::{append_str, chars_eq, chars_eq_str, chars_of, signed_decimal, signed_decimal_chars, string_of};
use vstd::prelude::*;

verus! {

/// A container of a pod, as the details window shows it.
pub struct ContainerDetails {
    pub name: String,
    pub image: Option<String>,
    /// For instance `Running`, `Terminated` or `Waiting`.
    pub state: Option<String>,
    pub message: Option<String>,
    pub cpu_request: Option<String>,
    pub mem_request: Option<String>,
    pub cpu_limit: Option<String>,
    pub mem_limit: Option<String>,
}

/// Requested and limited CPU and memory of a container, as quantities.
pub struct ResourceQuantities {
    pub cpu_request: Option<String>,
    pub mem_request: Option<String>,
    pub cpu_limit: Option<String>,
    pub mem_limit: Option<String>,
}

/// A container of the pod's spec: its name and declared resources.
pub struct ContainerSpec {
    pub name: String,
    pub resources: Option<ResourceQuantities>,
}

/// The state a container status reports: which of running, waiting and
/// terminated is set, with the message of the latter two.
pub struct ContainerStateInfo {
    pub running: bool,
    pub waiting: Option<Option<String>>,
    pub terminated: Option<Option<String>>,
}

/// A container status of the pod.
pub struct ContainerStatus {
    pub name: String,
    pub image: String,
    pub state: Option<ContainerStateInfo>,
}

/// The state word of a container status.
pub open spec fn state_word(s: Option<ContainerStateInfo>) -> Option<Seq<char>> {
    match s {
        Some(st) => if st.running {
            Some("Running"@)
        } else if st.waiting is Some {
            Some("Waiting"@)
        } else if st.terminated is Some {
            Some("Terminated"@)
        } else {
            None
        },
        None => None,
    }
}

/// The message of a container status: a waiting container's, else a
/// terminated one's.
pub open spec fn state_message(s: Option<ContainerStateInfo>) -> Option<Seq<char>> {
    match s {
        Some(st) => match st.waiting {
            Some(m) => opt_view(m),
            None => match st.terminated {
                Some(m) => opt_view(m),
                None => None,
            },
        },
        None => None,
    }
}

/// Index of the first spec container named `name`, or `-1`.
pub open spec fn spec_index(specs: Seq<ContainerSpec>, name: Seq<char>) -> int
    decreases specs.len(),
{
    if specs.len() == 0 {
        -1
    } else if specs[0].name@ == name {
        0
    } else {
        let r = spec_index(specs.drop_first(), name);
        if r < 0 {
            -1
        } else {
            r + 1
        }
    }
}

proof fn lemma_spec_index(specs: Seq<ContainerSpec>, name: Seq<char>, i: int)
    requires
        -1 <= i <= specs.len(),
        i >= 0 ==> i < specs.len() && specs[i].name@ == name,
        forall|j: int| 0 <= j < (if i < 0 { specs.len() as int } else { i }) ==> #[trigger] specs[j].name@ != name,
    ensures
        spec_index(specs, name) == i,
    decreases specs.len(),
{
    if specs.len() > 0 && specs[0].name@ != name {
        let t = specs.drop_first();
        assert forall|j: int| 0 <= j < (if i < 0 { t.len() as int } else { i - 1 }) implies #[trigger] t[j].name@ != name by {
            assert(t[j] == specs[j + 1]);
        }
        lemma_spec_index(t, name, if i < 0 { -1 } else { i - 1 });
    }
}

/// The resources declared for a status's container: those of the first
/// spec container of the same name, when it declares any.
pub open spec fn declared(specs: Seq<ContainerSpec>, name: Seq<char>) -> (Option<Seq<char>>, Option<Seq<char>>, Option<Seq<char>>, Option<Seq<char>>) {
    let i = spec_index(specs, name);
    if i < 0 {
        (None, None, None, None)
    } else {
        match specs[i].resources {
            Some(r) => (opt_view(r.cpu_request), opt_view(r.mem_request), opt_view(r.cpu_limit), opt_view(r.mem_limit)),
            None => (None, None, None, None),
        }
    }
}

/// The details shown for one container status.
pub open spec fn details_match(d: ContainerDetails, s: ContainerStatus, specs: Seq<ContainerSpec>) -> bool {
    let res = declared(specs, s.name@);
    &&& d.name@ == s.name@
    &&& opt_view(d.image) == Some(s.image@)
    &&& opt_view(d.state) == state_word(s.state)
    &&& opt_view(d.message) == state_message(s.state)
    &&& opt_view(d.cpu_request) == res.0
    &&& opt_view(d.mem_request) == res.1
    &&& opt_view(d.cpu_limit) == res.2
    &&& opt_view(d.mem_limit) == res.3
}

fn clone_opt(o: &Option<String>) -> (r: Option<String>)
    ensures
        opt_view(r) == opt_view(*o),
{
    match o {
        Some(s) => Some(s.clone()),
        None => None,
    }
}

fn find_spec(specs: &Vec<ContainerSpec>, name: &String) -> (r: Option<usize>)
    ensures
        r matches Some(k) ==> k < specs@.len() && specs@[k as int].name@ == name@ && forall|j: int|
            0 <= j < k ==> #[trigger] specs@[j].name@ != name@,
        r is None ==> forall|j: int| 0 <= j < specs@.len() ==> #[trigger] specs@[j].name@ != name@,
{
    let n = chars_of(name.as_str());
    let mut i: usize = 0;
    while i < specs.len()
        invariant
            i <= specs@.len(),
            n@ == name@,
            forall|j: int| 0 <= j < i ==> #[trigger] specs@[j].name@ != name@,
        decreases specs.len() - i,
    {
        if chars_eq(&chars_of(specs[i].name.as_str()), &n) {
            return Some(i);
        }
        i = i + 1;
    }
    None
}

/// The details of one container status, with the resources its spec
/// container declares.
fn container_detail(s: &ContainerStatus, specs: &Vec<ContainerSpec>) -> (r: ContainerDetails)
    ensures
        details_match(r, *s, specs@),
{
    let found = find_spec(specs, &s.name);
    proof {
        match found {
            Some(k) => lemma_spec_index(specs@, s.name@, k as int),
            None => lemma_spec_index(specs@, s.name@, -1),
        }
    }
    let (cpu_request, mem_request, cpu_limit, mem_limit) = match found {
        Some(k) => match &specs[k].resources {
            Some(r) => (clone_opt(&r.cpu_request), clone_opt(&r.mem_request), clone_opt(&r.cpu_limit), clone_opt(&r.mem_limit)),
            None => (None, None, None, None),
        },
        None => (None, None, None, None),
    };
    let state = match &s.state {
        Some(st) => if st.running {
            Some(string_of(&chars_of("Running")))
        } else if st.waiting.is_some() {
            Some(string_of(&chars_of("Waiting")))
        } else if st.terminated.is_some() {
            Some(string_of(&chars_of("Terminated")))
        } else {
            None
        },
        None => None,
    };
    let message = match &s.state {
        Some(st) => match &st.waiting {
            Some(m) => clone_opt(m),
            None => match &st.terminated {
                Some(m) => clone_opt(m),
                None => None,
            },
        },
        None => None,
    };
    ContainerDetails {
        name: s.name.clone(),
        image: Some(s.image.clone()),
        state,
        message,
        cpu_request,
        mem_request,
        cpu_limit,
        mem_limit,
    }
}

/// The container details of a pod: one per container status, in order,
/// with the resources of the spec container of the same name.
pub fn container_details(statuses: &Vec<ContainerStatus>, specs: &Vec<ContainerSpec>) -> (r: Vec<ContainerDetails>)
    ensures
        r@.len() == statuses@.len(),
        forall|i: int| 0 <= i < r@.len() ==> details_match(#[trigger] r@[i], statuses@[i], specs@),
{
    let mut out: Vec<ContainerDetails> = Vec::new();
    let mut i: usize = 0;
    while i < statuses.len()
        invariant
            i <= statuses@.len(),
            out@.len() == i,
            forall|k: int| 0 <= k < i ==> details_match(#[trigger] out@[k], statuses@[k], specs@),
        decreases statuses.len() - i,
    {
        out.push(container_detail(&statuses[i], specs));
        i = i + 1;
    }
    out
}

/// A toleration of a pod.
pub struct TolerationInfo {
    pub key: Option<String>,
    pub operator: Option<String>,
    pub value: Option<String>,
    pub effect: Option<String>,
    pub toleration_seconds: Option<i64>,
}

/// A condition of a pod.
pub struct ConditionInfo {
    pub type_: String,
    pub status: String,
    pub reason: Option<String>,
    pub message: Option<String>,
}

/// The detailed data of a pod.
pub struct PodDetails {
    pub name: Option<String>,
    pub uid: Option<String>,
    pub annotations: Option<Vec<(String, String)>>,
    pub labels: Option<Vec<(String, String)>>,
    pub service_account: Option<String>,
    pub pod_ip: Option<String>,
    pub namespace: Option<String>,
    pub host_ip: Option<String>,
    pub tolerations: Vec<TolerationInfo>,
    pub node_selector: Option<Vec<(String, String)>>,
    pub conditions: Vec<ConditionInfo>,
    pub containers: Vec<ContainerDetails>,
}

impl PodDetails {
    /// Details of no pod yet.
    pub fn new() -> (r: Self)
        ensures
            r.name is None,
            r.namespace is None,
            r.uid is None,
            r.annotations is None,
            r.labels is None,
            r.service_account is None,
            r.pod_ip is None,
            r.host_ip is None,
            r.tolerations@.len() == 0,
            r.node_selector is None,
            r.conditions@.len() == 0,
            r.containers@.len() == 0,
    {
        PodDetails {
            name: None,
            namespace: None,
            uid: None,
            annotations: None,
            labels: None,
            service_account: None,
            pod_ip: None,
            host_ip: None,
            tolerations: Vec::new(),
            node_selector: None,
            conditions: Vec::new(),
            containers: Vec::new(),
        }
    }
}

/// A pod as the pod list holds it.
#[derive(Clone)]
pub struct PodItem {
    pub name: String,
    pub phase: Option<String>,
    pub ready_containers: u32,
    pub total_containers: u32,
    pub containers: Vec<ContainerStatusItem>,
    pub restart_count: i32,
    pub node_name: Option<String>,
    pub pod_has_crashloop: bool,
    pub creation_timestamp: Option<(i64, u32)>,
    pub terminating: bool,
    pub controller: Option<String>,
    pub namespace: Option<String>,
    pub qos_class: Option<String>,
}

/// A status-coloured field, shown when present.
pub open spec fn opt_status(label: Seq<char>, v: Option<Seq<char>>) -> Seq<Shown> {
    match v {
        Some(x) => seq![Shown::Field(label, x, Tone::Status(item_color_of(x)))],
        None => seq![],
    }
}

/// The fields the pod list contributes.
pub open spec fn pod_item_part(p: PodItem, now: (i64, u32)) -> Seq<Shown> {
    creation_field(p.creation_timestamp, now) + opt_field("Namespace:"@, opt_view(p.namespace), Tone::Detail)
        + opt_field("Running on:"@, opt_view(p.node_name), Tone::Detail) + opt_status(
        "Status:"@,
        opt_view(p.phase),
    ) + opt_status("QoS:"@, opt_view(p.qos_class)) + opt_field(
        "Controlled by:"@,
        opt_view(p.controller),
        Tone::Detail,
    ) + seq![Shown::Field("Restarts count:"@, signed_decimal(p.restart_count as int), Tone::Warning)]
}

/// The cells of a toleration row; missing parts are empty.
pub open spec fn toleration_cells(t: TolerationInfo) -> Seq<Seq<char>> {
    seq![
        or_empty(t.key),
        or_empty(t.operator),
        or_empty(t.value),
        or_empty(t.effect),
        match t.toleration_seconds {
            Some(n) => signed_decimal(n as int),
            None => Seq::<char>::empty(),
        },
    ]
}

/// The tolerations table, shown when there are tolerations.
pub open spec fn tolerations_part(ts: Seq<TolerationInfo>) -> Seq<Shown> {
    if ts.len() == 0 {
        seq![]
    } else {
        seq![
            Shown::Separator,
            Shown::Heading("Tolerations:"@),
            Shown::Cells(seq!["Key"@, "Operator"@, "Value"@, "Effect"@, "Seconds"@]),
        ] + ts.map_values(|t: TolerationInfo| Shown::Cells(toleration_cells(t)))
    }
}

/// The status shown for a condition: with its reason and message in
/// brackets when either is given.
pub open spec fn condition_status(c: ConditionInfo) -> Seq<char> {
    let reason = or_empty(c.reason);
    let message = or_empty(c.message);
    if reason.len() > 0 || message.len() > 0 {
        c.status@ + " ("@ + reason + " - "@ + message + ")"@
    } else {
        c.status@
    }
}

/// The conditions section, shown when there are conditions.
pub open spec fn conditions_part(cs: Seq<ConditionInfo>) -> Seq<Shown> {
    if cs.len() == 0 {
        seq![]
    } else {
        seq![Shown::Separator, Shown::Heading("Conditions:"@)] + cs.map_values(
            |c: ConditionInfo| Shown::Pair(c.type_@, condition_status(c)),
        )
    }
}

/// The lines of one container.
pub open spec fn container_lines(c: ContainerDetails) -> Seq<Shown> {
    let state = or_empty(c.state);
    seq![
        Shown::Separator,
        Shown::Marker(c.name@, item_color_of(state)),
        Shown::Field("Status:"@, state + " "@ + or_empty(c.message), Tone::Detail),
        Shown::Field(
            "Image:"@,
            match c.image {
                Some(i) => i@,
                None => "Undefined"@,
            },
            Tone::Detail,
        ),
    ] + opt_field("Memory request:"@, opt_view(c.mem_request), Tone::Detail) + opt_field(
        "Memory limit:"@,
        opt_view(c.mem_limit),
        Tone::Detail,
    ) + opt_field("CPU request:"@, opt_view(c.cpu_request), Tone::Detail) + opt_field(
        "CPU limit:"@,
        opt_view(c.cpu_limit),
        Tone::Detail,
    )
}

/// The lines of all containers, in order.
pub open spec fn containers_part(cs: Seq<ContainerDetails>) -> Seq<Shown>
    decreases cs.len(),
{
    if cs.len() == 0 {
        seq![]
    } else {
        containers_part(cs.drop_last()) + container_lines(cs.last())
    }
}

/// Optional pairs as texts.
pub open spec fn opt_pairs(p: Option<Vec<(String, String)>>) -> Option<Seq<(Seq<char>, Seq<char>)>> {
    match p {
        Some(v) => Some(pair_texts(v@)),
        None => None,
    }
}

/// The first part of the pod details window: the pod's fields.
pub open spec fn pod_head(p: PodItem, d: PodDetails, now: (i64, u32)) -> Seq<Shown> {
    seq![Shown::Field("Pod name:"@, or_empty(d.name), Tone::Detail)] + pod_item_part(p, now) + opt_field(
        "UID:"@,
        opt_view(d.uid),
        Tone::Detail,
    ) + opt_field("Service account:"@, opt_view(d.service_account), Tone::Detail) + opt_field(
        "Pod IP:"@,
        opt_view(d.pod_ip),
        Tone::Detail,
    ) + opt_field("Host IP:"@, opt_view(d.host_ip), Tone::Detail)
}

/// The second part of the pod details window: its sections and containers.
pub open spec fn pod_tail(d: PodDetails) -> Seq<Shown> {
    pairs_section("Labels:"@, opt_pairs(d.labels)) + pairs_section("Annotations:"@, opt_pairs(d.annotations))
        + tolerations_part(d.tolerations@) + pairs_section("Node selector:"@, opt_pairs(d.node_selector))
        + conditions_part(d.conditions@) + seq![Shown::Separator, Shown::Heading("Containers:"@)]
        + containers_part(d.containers@)
}

/// The content of the pod details window for a pod found in the list.
pub open spec fn pod_lines(p: PodItem, d: PodDetails, now: (i64, u32)) -> Seq<Shown> {
    pod_head(p, d, now) + pod_tail(d)
}

/// The pod of the list that the details are about: same name and
/// namespace; the first such.
pub open spec fn is_first_match(pods: Seq<PodItem>, d: PodDetails, i: int) -> bool {
    &&& 0 <= i < pods.len()
    &&& Some(pods[i].name@) == opt_view(d.name)
    &&& opt_view(pods[i].namespace) == opt_view(d.namespace)
    &&& forall|j: int| 0 <= j < i ==> !(Some(#[trigger] pods[j].name@) == opt_view(d.name)
        && opt_view(pods[j].namespace) == opt_view(d.namespace))
}

/// No pod of the list matches the details.
pub open spec fn no_match(pods: Seq<PodItem>, d: PodDetails) -> bool {
    forall|j: int| 0 <= j < pods.len() ==> !(Some(#[trigger] pods[j].name@) == opt_view(d.name)
        && opt_view(pods[j].namespace) == opt_view(d.namespace))
}

fn opt_eq(a: &Option<String>, b: &Option<String>) -> (r: bool)
    ensures
        r == (opt_view(*a) == opt_view(*b)),
{
    match (a, b) {
        (Some(x), Some(y)) => chars_eq(&chars_of(x.as_str()), &chars_of(y.as_str())),
        (None, None) => true,
        _ => false,
    }
}

/// Adds a status-coloured field when present.
fn push_opt_status(out: &mut Vec<Line>, label: &str, value: &Option<String>)
    ensures
        shown_all(final(out)@) == shown_all(old(out)@) + opt_status(label@, opt_view(*value)),
{
    match value {
        Some(v) => {
            let c = item_color(v.as_str());
            push_field(out, label, v.clone(), Tone::Status(c));
        },
        None => {
            assert(shown_all(out@) =~= shown_all(out@) + opt_status(label@, opt_view(*value)));
        },
    }
}

/// Adds the creation-time field when the time is known.
fn push_creation(out: &mut Vec<Line>, created: &Option<(i64, u32)>, now: (i64, u32))
    requires
        *created matches Some(c) ==> valid_instant(c),
        valid_instant(now),
    ensures
        shown_all(final(out)@) == shown_all(old(out)@) + creation_field(*created, now),
{
    match created {
        Some(c) => push_field(out, "Creation time:", creation_time_text(*c, now), Tone::Detail),
        None => {
            assert(shown_all(out@) =~= shown_all(out@) + creation_field(*created, now));
        },
    }
}

fn opt_text_or(o: &Option<String>, fallback: &str) -> (r: String)
    ensures
        r@ == (match *o {
            Some(s) => s@,
            None => fallback@,
        }),
{
    match o {
        Some(s) => s.clone(),
        None => string_of(&chars_of(fallback)),
    }
}

fn push_container(out: &mut Vec<Line>, c: &ContainerDetails)
    ensures
        shown_all(final(out)@) == shown_all(old(out)@) + container_lines(*c),
{
    let ghost before = shown_all(out@);
    let state = text_or_empty(&c.state);
    push_line(out, Line::Separator);
    let color = item_color(state.as_str());
    push_line(out, Line::Marker(c.name.clone(), color));
    let mut status = chars_of(state.as_str());
    append_str(&mut status, " ");
    append_str(&mut status, text_or_empty(&c.message).as_str());
    push_field(out, "Status:", string_of(&status), Tone::Detail);
    push_field(out, "Image:", opt_text_or(&c.image, "Undefined"), Tone::Detail);
    push_opt_field(out, "Memory request:", &c.mem_request, Tone::Detail);
    push_opt_field(out, "Memory limit:", &c.mem_limit, Tone::Detail);
    push_opt_field(out, "CPU request:", &c.cpu_request, Tone::Detail);
    push_opt_field(out, "CPU limit:", &c.cpu_limit, Tone::Detail);
    assert(shown_all(out@) =~= before + container_lines(*c));
}

fn push_tolerations(out: &mut Vec<Line>, ts: &Vec<TolerationInfo>)
    ensures
        shown_all(final(out)@) == shown_all(old(out)@) + tolerations_part(ts@),
{
    if ts.len() == 0 {
        assert(shown_all(out@) =~= shown_all(out@) + tolerations_part(ts@));
        return;
    }
    let ghost before = shown_all(out@);
    push_line(out, Line::Separator);
    push_heading(out, "Tolerations:");
    let head = vec![
        string_of(&chars_of("Key")),
        string_of(&chars_of("Operator")),
        string_of(&chars_of("Value")),
        string_of(&chars_of("Effect")),
        string_of(&chars_of("Seconds")),
    ];
    assert(texts(head@) =~= seq!["Key"@, "Operator"@, "Value"@, "Effect"@, "Seconds"@]);
    push_line(out, Line::Cells(head));
    let ghost start = shown_all(out@);
    let mut i: usize = 0;
    while i < ts.len()
        invariant
            i <= ts@.len(),
            shown_all(out@) == start + ts@.take(i as int).map_values(
                |t: TolerationInfo| Shown::Cells(toleration_cells(t)),
            ),
        decreases ts.len() - i,
    {
        let t = &ts[i];
        let secs = match t.toleration_seconds {
            Some(n) => string_of(&signed_decimal_chars(n)),
            None => String::new(),
        };
        let cells = vec![
            text_or_empty(&t.key),
            text_or_empty(&t.operator),
            text_or_empty(&t.value),
            text_or_empty(&t.effect),
            secs,
        ];
        assert(texts(cells@) =~= toleration_cells(*t));
        push_line(out, Line::Cells(cells));
        assert(ts@.take(i as int + 1).map_values(|t: TolerationInfo| Shown::Cells(toleration_cells(t)))
            =~= ts@.take(i as int).map_values(|t: TolerationInfo| Shown::Cells(toleration_cells(t)))
            + seq![Shown::Cells(toleration_cells(ts@[i as int]))]);
        i = i + 1;
    }
    assert(ts@.take(ts@.len() as int) == ts@);
    assert(shown_all(out@) =~= before + tolerations_part(ts@));
}

fn condition_text(c: &ConditionInfo) -> (r: String)
    ensures
        r@ == condition_status(*c),
{
    let reason = text_or_empty(&c.reason);
    let message = text_or_empty(&c.message);
    if !reason.as_str().is_empty() || !message.as_str().is_empty() {
        let mut v = chars_of(c.status.as_str());
        append_str(&mut v, " (");
        append_str(&mut v, reason.as_str());
        append_str(&mut v, " - ");
        append_str(&mut v, message.as_str());
        append_str(&mut v, ")");
        string_of(&v)
    } else {
        c.status.clone()
    }
}

fn push_conditions(out: &mut Vec<Line>, cs: &Vec<ConditionInfo>)
    ensures
        shown_all(final(out)@) == shown_all(old(out)@) + conditions_part(cs@),
{
    if cs.len() == 0 {
        assert(shown_all(out@) =~= shown_all(out@) + conditions_part(cs@));
        return;
    }
    let ghost before = shown_all(out@);
    push_line(out, Line::Separator);
    push_heading(out, "Conditions:");
    let ghost start = shown_all(out@);
    let mut i: usize = 0;
    while i < cs.len()
        invariant
            i <= cs@.len(),
            shown_all(out@) == start + cs@.take(i as int).map_values(
                |c: ConditionInfo| Shown::Pair(c.type_@, condition_status(c)),
            ),
        decreases cs.len() - i,
    {
        push_line(out, Line::Pair(cs[i].type_.clone(), condition_text(&cs[i])));
        assert(cs@.take(i as int + 1).map_values(|c: ConditionInfo| Shown::Pair(c.type_@, condition_status(c)))
            =~= cs@.take(i as int).map_values(|c: ConditionInfo| Shown::Pair(c.type_@, condition_status(c)))
            + seq![Shown::Pair(cs@[i as int].type_@, condition_status(cs@[i as int]))]);
        i = i + 1;
    }
    assert(cs@.take(cs@.len() as int) == cs@);
    assert(shown_all(out@) =~= before + conditions_part(cs@));
}

fn push_containers(out: &mut Vec<Line>, cs: &Vec<ContainerDetails>)
    ensures
        shown_all(final(out)@) == shown_all(old(out)@) + containers_part(cs@),
{
    let ghost start = shown_all(out@);
    let mut i: usize = 0;
    while i < cs.len()
        invariant
            i <= cs@.len(),
            shown_all(out@) == start + containers_part(cs@.take(i as int)),
        decreases cs.len() - i,
    {
        push_container(out, &cs[i]);
        assert(cs@.take(i as int + 1).drop_last() == cs@.take(i as int));
        assert(shown_all(out@) =~= start + containers_part(cs@.take(i as int + 1)));
        i = i + 1;
    }
    assert(cs@.take(cs@.len() as int) == cs@);
}

fn push_pod_head(out: &mut Vec<Line>, p: &PodItem, d: &PodDetails, now: (i64, u32))
    requires
        old(out)@.len() == 0,
        valid_instant(now),
        p.creation_timestamp matches Some(c) ==> valid_instant(c),
    ensures
        shown_all(final(out)@) == pod_head(*p, *d, now),
{
    push_field(out, "Pod name:", text_or_empty(&d.name), Tone::Detail);
    assert(shown_all(out@) =~= seq![Shown::Field("Pod name:"@, or_empty(d.name), Tone::Detail)]);
    let ghost first = shown_all(out@);
    push_creation(out, &p.creation_timestamp, now);
    push_opt_field(out, "Namespace:", &p.namespace, Tone::Detail);
    push_opt_field(out, "Running on:", &p.node_name, Tone::Detail);
    push_opt_status(out, "Status:", &p.phase);
    push_opt_status(out, "QoS:", &p.qos_class);
    push_opt_field(out, "Controlled by:", &p.controller, Tone::Detail);
    push_field(out, "Restarts count:", string_of(&signed_decimal_chars(p.restart_count as i64)), Tone::Warning);
    assert(shown_all(out@) =~= first + pod_item_part(*p, now));
    push_opt_field(out, "UID:", &d.uid, Tone::Detail);
    push_opt_field(out, "Service account:", &d.service_account, Tone::Detail);
    push_opt_field(out, "Pod IP:", &d.pod_ip, Tone::Detail);
    push_opt_field(out, "Host IP:", &d.host_ip, Tone::Detail);
}

fn push_pod_tail(out: &mut Vec<Line>, d: &PodDetails)
    ensures
        shown_all(final(out)@) == shown_all(old(out)@) + pod_tail(*d),
{
    let ghost before = shown_all(out@);
    push_pairs_section(out, "Labels:", &d.labels);
    push_pairs_section(out, "Annotations:", &d.annotations);
    push_tolerations(out, &d.tolerations);
    push_pairs_section(out, "Node selector:", &d.node_selector);
    push_conditions(out, &d.conditions);
    push_line(out, Line::Separator);
    push_heading(out, "Containers:");
    push_containers(out, &d.containers);
    assert(shown_all(out@) =~= before + pod_tail(*d));
}

fn find_pod(pods: &Vec<PodItem>, d: &PodDetails) -> (r: Option<usize>)
    requires
        d.name is Some,
    ensures
        r matches Some(k) ==> is_first_match(pods@, *d, k as int),
        r is None ==> no_match(pods@, *d),
{
    let mut i: usize = 0;
    while i < pods.len()
        invariant
            i <= pods@.len(),
            d.name is Some,
            forall|j: int| 0 <= j < i ==> !(Some(#[trigger] pods@[j].name@) == opt_view(d.name)
                && opt_view(pods@[j].namespace) == opt_view(d.namespace)),
        decreases pods.len() - i,
    {
        let same_name = match &d.name {
            Some(n) => chars_eq(&chars_of(pods[i].name.as_str()), &chars_of(n.as_str())),
            None => false,
        };
        if same_name && opt_eq(&pods[i].namespace, &d.namespace) {
            return Some(i);
        }
        i = i + 1;
    }
    None
}

/// The content of the pod details window at `now`: shown only when the
/// details name a pod and the list holds a pod of that name and namespace
/// (the first such is used).
pub fn pod_window_lines(pods: &Vec<PodItem>, d: &PodDetails, now: (i64, u32)) -> (r: Option<Vec<Line>>)
    requires
        valid_instant(now),
        forall|i: int| 0 <= i < pods@.len() ==> ((#[trigger] pods@[i]).creation_timestamp matches Some(c) ==> valid_instant(c)),
    ensures
        d.name is None ==> r is None,
        d.name is Some && no_match(pods@, *d) ==> r is None,
        r matches Some(lines) ==> exists|i: int| is_first_match(pods@, *d, i) && shown_all(lines@) == pod_lines(pods@[i], *d, now),
        d.name is Some && !no_match(pods@, *d) ==> r is Some,
{
    if d.name.is_none() {
        return None;
    }
    let found = find_pod(pods, d);
    let k = match found {
        Some(k) => k,
        None => {
            return None;
        },
    };
    let p = &pods[k];
    assert(is_first_match(pods@, *d, k as int));
    let mut out: Vec<Line> = Vec::new();
    push_pod_head(&mut out, p, d, now);
    let ghost head = shown_all(out@);
    push_pod_tail(&mut out, d);
    assert(shown_all(out@) == head + pod_tail(*d));
    Some(out)
}

/// The phase a pod's row goes by: `CrashLoopBackOff` when a container
/// crash-loops, `Terminating` while the pod is deleted, else its phase.
pub open spec fn row_phase(p: PodItem) -> Seq<char> {
    if p.pod_has_crashloop {
        "CrashLoopBackOff"@
    } else if p.terminating {
        "Terminating"@
    } else {
        match p.phase {
            Some(ph) => ph@,
            None => seq![],
        }
    }
}

/// The status cell of a phase: its label, and the status word whose colour
/// it is drawn in.
pub open spec fn status_cell(phase: Seq<char>) -> (Seq<char>, Seq<char>) {
    if phase == "Running"@ {
        ("✅ Running"@, "Running"@)
    } else if phase == "Terminating"@ {
        ("🗑 Terminating"@, "Terminating"@)
    } else if phase == "Pending"@ {
        ("⏳ Pending"@, "Pending"@)
    } else if phase == "Succeeded"@ {
        ("✅ Completed"@, "Completed"@)
    } else if phase == "Failed"@ {
        ("❌ Failed"@, "Failed"@)
    } else if phase == "CrashLoopBackOff"@ {
        ("💥 CrashLoop"@, "CrashLoop"@)
    } else if phase == "Cancelled"@ {
        ("🚫 Cancelled"@, "Cancelled"@)
    } else {
        ("❓ Unknown"@, "Unknown"@)
    }
}

/// The colour of the ready count: green when all containers are ready,
/// red when none is (grey for a pod that completed), orange otherwise.
pub open spec fn ready_color(p: PodItem) -> ItemColor {
    if p.ready_containers == p.total_containers {
        ItemColor::Rgb(100, 255, 100)
    } else if p.ready_containers == 0 {
        if row_phase(p) != "Succeeded"@ {
            ItemColor::Rgb(255, 100, 100)
        } else {
            ItemColor::Gray
        }
    } else {
        ItemColor::Rgb(255, 165, 0)
    }
}

/// The cells of a pod's row in the pod list (besides its name and age).
pub struct PodRow {
    pub status: String,
    pub status_color: ItemColor,
    pub ready: String,
    pub ready_color: ItemColor,
    pub restarts: String,
    pub restarts_color: ItemColor,
    pub controller: String,
    pub qos: String,
    pub qos_color: ItemColor,
    pub node: String,
}

/// The text of an optional field, `-` when it is missing.
pub open spec fn or_dash_text(o: Option<String>) -> Seq<char> {
    match o {
        Some(s) => s@,
        None => "-"@,
    }
}

fn dash_or(o: &Option<String>) -> (r: String)
    ensures
        r@ == or_dash_text(*o),
{
    match o {
        Some(s) => s.clone(),
        None => string_of(&chars_of("-")),
    }
}

fn phase_of_row(p: &PodItem) -> (r: Vec<char>)
    requires
        p.pod_has_crashloop || p.terminating || p.phase is Some,
    ensures
        r@ == row_phase(*p),
{
    if p.pod_has_crashloop {
        chars_of("CrashLoopBackOff")
    } else if p.terminating {
        chars_of("Terminating")
    } else {
        match &p.phase {
            Some(ph) => chars_of(ph.as_str()),
            None => Vec::new(),
        }
    }
}

fn status_of_phase(phase: &Vec<char>) -> (r: (String, ItemColor))
    ensures
        r.0@ == status_cell(phase@).0,
        r.1 == item_color_of(status_cell(phase@).1),
{
    let (label, word) = if chars_eq_str(phase, "Running") {
        ("✅ Running", "Running")
    } else if chars_eq_str(phase, "Terminating") {
        ("🗑 Terminating", "Terminating")
    } else if chars_eq_str(phase, "Pending") {
        ("⏳ Pending", "Pending")
    } else if chars_eq_str(phase, "Succeeded") {
        ("✅ Completed", "Completed")
    } else if chars_eq_str(phase, "Failed") {
        ("❌ Failed", "Failed")
    } else if chars_eq_str(phase, "CrashLoopBackOff") {
        ("💥 CrashLoop", "CrashLoop")
    } else if chars_eq_str(phase, "Cancelled") {
        ("🚫 Cancelled", "Cancelled")
    } else {
        ("❓ Unknown", "Unknown")
    };
    (string_of(&chars_of(label)), item_color(word))
}

impl PodItem {
    /// The cells of the pod's row: status label and colour by the row's
    /// phase; ready count `ready/total` and its colour; restarts (orange) or
    /// `Never` (grey); controller (empty when none); QoS class (`-` when
    /// none) in its status colour; node (`-` when none). A pod that neither
    /// crash-loops nor terminates has a phase.
    pub fn row(&self) -> (r: PodRow)
        requires
            self.pod_has_crashloop || self.terminating || self.phase is Some,
        ensures
            r.status@ == status_cell(row_phase(*self)).0,
            r.status_color == item_color_of(status_cell(row_phase(*self)).1),
            r.ready@ == crate::text::decimal(self.ready_containers as nat) + "/"@ + crate::text::decimal(
                self.total_containers as nat,
            ),
            r.ready_color == ready_color(*self),
            self.restart_count > 0 ==> r.restarts@ == signed_decimal(self.restart_count as int)
                && r.restarts_color == ItemColor::Orange,
            self.restart_count <= 0 ==> r.restarts@ == "Never"@ && r.restarts_color == ItemColor::Gray,
            r.controller@ == or_empty(self.controller),
            r.qos@ == or_dash_text(self.qos_class),
            r.qos_color == item_color_of(or_dash_text(self.qos_class)),
            r.node@ == or_dash_text(self.node_name),
    {
        let phase = phase_of_row(self);
        let (status, status_color) = status_of_phase(&phase);
        let mut ready = crate::text::decimal_chars(self.ready_containers as u64);
        append_str(&mut ready, "/");
        crate::text::append_chars(&mut ready, &crate::text::decimal_chars(self.total_containers as u64));
        let rc = if self.ready_containers == self.total_containers {
            ItemColor::Rgb(100, 255, 100)
        } else if self.ready_containers == 0 {
            if !chars_eq_str(&phase, "Succeeded") {
                ItemColor::Rgb(255, 100, 100)
            } else {
                ItemColor::Gray
            }
        } else {
            ItemColor::Rgb(255, 165, 0)
        };
        let (restarts, restarts_color) = if self.restart_count > 0 {
            (string_of(&signed_decimal_chars(self.restart_count as i64)), ItemColor::Orange)
        } else {
            (string_of(&chars_of("Never")), ItemColor::Gray)
        };
        let qos = dash_or(&self.qos_class);
        let qos_color = item_color(qos.as_str());
        PodRow {
            status,
            status_color,
            ready: string_of(&ready),
            ready_color: rc,
            restarts,
            restarts_color,
            controller: text_or_empty(&self.controller),
            qos,
            qos_color,
            node: dash_or(&self.node_name),
        }
    }
}

} // verus!
