//! The cluster overview: workload counts, ages, status colours and the
//! meaning of container exit codes.
use crate::text::{
    append_chars, append_str, chars_eq_str, chars_of, decimal, decimal_chars, signed_decimal,
    signed_decimal_chars, string_of,
};
use vstd::prelude::*;

verus! {

/// Readiness of one pod: ready containers out of all containers.
pub struct PodState {
    pub ready_containers: u32,
    pub total_containers: u32,
}

/// A deployment, by the number of its replicas that are unavailable.
pub struct DeploymentState {
    pub unavailable_replicas: i32,
}

/// A replicated workload (daemon set, stateful set, replica set): ready
/// replicas out of desired ones.
pub struct ReplicaState {
    pub ready: i32,
    pub desired: i32,
}

/// Running and pending counts per kind of workload.
pub struct OverviewCounts {
    pub pods_running: usize,
    pub pods_pending: usize,
    pub deployments_running: usize,
    pub deployments_pending: usize,
    pub daemonsets_running: usize,
    pub daemonsets_pending: usize,
    pub statefulsets_running: usize,
    pub statefulsets_pending: usize,
    pub replicasets_running: usize,
    pub replicasets_pending: usize,
}

/// Number of pods whose containers are not all ready.
pub open spec fn pods_behind(s: Seq<PodState>) -> nat
    decreases s.len(),
{
    if s.len() == 0 {
        0
    } else {
        pods_behind(s.drop_last()) + if s.last().ready_containers < s.last().total_containers {
            1nat
        } else {
            0nat
        }
    }
}

/// Number of workloads with fewer ready replicas than desired.
pub open spec fn replicas_behind(s: Seq<ReplicaState>) -> nat
    decreases s.len(),
{
    if s.len() == 0 {
        0
    } else {
        replicas_behind(s.drop_last()) + if s.last().ready < s.last().desired {
            1nat
        } else {
            0nat
        }
    }
}

/// Total of unavailable replicas over the deployments.
pub open spec fn unavailable_total(s: Seq<DeploymentState>) -> int
    decreases s.len(),
{
    if s.len() == 0 {
        0
    } else {
        unavailable_total(s.drop_last()) + s.last().unavailable_replicas
    }
}

proof fn lemma_pods_behind_bound(s: Seq<PodState>)
    ensures
        pods_behind(s) <= s.len(),
    decreases s.len(),
{
    if s.len() > 0 {
        lemma_pods_behind_bound(s.drop_last());
    }
}

proof fn lemma_replicas_behind_bound(s: Seq<ReplicaState>)
    ensures
        replicas_behind(s) <= s.len(),
    decreases s.len(),
{
    if s.len() > 0 {
        lemma_replicas_behind_bound(s.drop_last());
    }
}

/// Law: the pods counted as behind are exactly those with fewer ready
/// containers than containers.
pub proof fn lemma_pods_behind_counts(s: Seq<PodState>)
    ensures
        pods_behind(s) == s.filter(|p: PodState| p.ready_containers < p.total_containers).len(),
    decreases s.len(),
{
    reveal(Seq::filter);
    if s.len() > 0 {
        lemma_pods_behind_counts(s.drop_last());
    }
}

/// Law: the workloads counted as behind are exactly those with fewer ready
/// replicas than desired.
pub proof fn lemma_replicas_behind_counts(s: Seq<ReplicaState>)
    ensures
        replicas_behind(s) == s.filter(|w: ReplicaState| w.ready < w.desired).len(),
    decreases s.len(),
{
    reveal(Seq::filter);
    if s.len() > 0 {
        lemma_replicas_behind_counts(s.drop_last());
    }
}

proof fn lemma_unavailable_prefix(s: Seq<DeploymentState>, i: int)
    requires
        0 <= i <= s.len(),
        forall|j: int| 0 <= j < s.len() ==> #[trigger] s[j].unavailable_replicas >= 0,
    ensures
        0 <= unavailable_total(s.take(i)) <= unavailable_total(s),
    decreases s.len() - i,
{
    if i < s.len() {
        lemma_unavailable_prefix(s, i + 1);
        assert(s.take(i + 1).drop_last() == s.take(i));
    } else {
        assert(s.take(i) == s);
    }
    if i > 0 {
        lemma_unavailable_prefix_nonneg(s.take(i));
    }
}

proof fn lemma_unavailable_prefix_nonneg(s: Seq<DeploymentState>)
    requires
        forall|j: int| 0 <= j < s.len() ==> #[trigger] s[j].unavailable_replicas >= 0,
    ensures
        unavailable_total(s) >= 0,
    decreases s.len(),
{
    if s.len() > 0 {
        lemma_unavailable_prefix_nonneg(s.drop_last());
    }
}

/// Counts running and pending workloads.
///
/// A pod is pending while some of its containers are not ready. A daemon
/// set with fewer ready pods than desired is counted as a pending pod (the
/// daemon-set pending count stays zero). Deployments count their
/// unavailable replicas as pending, and the rest of the deployments as
/// running.
pub fn compute_overview_stats(
    pods: &Vec<PodState>,
    deployments: &Vec<DeploymentState>,
    daemonsets: &Vec<ReplicaState>,
    statefulsets: &Vec<ReplicaState>,
    replicasets: &Vec<ReplicaState>,
) -> (r: OverviewCounts)
    requires
        pods@.len() + daemonsets@.len() <= usize::MAX,
        forall|j: int| 0 <= j < deployments@.len() ==> #[trigger] deployments@[j].unavailable_replicas >= 0,
        unavailable_total(deployments@) <= deployments@.len(),
    ensures
        r.pods_pending == pods_behind(pods@) + replicas_behind(daemonsets@),
        r.pods_running == pods@.len() - pods_behind(pods@),
        r.deployments_pending == unavailable_total(deployments@),
        r.deployments_running == deployments@.len() - unavailable_total(deployments@),
        r.daemonsets_running == daemonsets@.len() - replicas_behind(daemonsets@),
        r.daemonsets_pending == 0,
        r.statefulsets_pending == replicas_behind(statefulsets@),
        r.statefulsets_running == statefulsets@.len() - replicas_behind(statefulsets@),
        r.replicasets_pending == replicas_behind(replicasets@),
        r.replicasets_running == replicasets@.len() - replicas_behind(replicasets@),
        r.pods_running + r.pods_pending == pods@.len() + replicas_behind(daemonsets@),
        r.deployments_running + r.deployments_pending == deployments@.len(),
        r.statefulsets_running + r.statefulsets_pending == statefulsets@.len(),
        r.replicasets_running + r.replicasets_pending == replicasets@.len(),
        r.daemonsets_running + replicas_behind(daemonsets@) == daemonsets@.len(),
        r.pods_pending == pods@.filter(|p: PodState| p.ready_containers < p.total_containers).len()
            + daemonsets@.filter(|w: ReplicaState| w.ready < w.desired).len(),
        r.pods_running == pods@.len() - pods@.filter(
            |p: PodState| p.ready_containers < p.total_containers,
        ).len(),
        r.statefulsets_pending == statefulsets@.filter(|w: ReplicaState| w.ready < w.desired).len(),
        r.replicasets_pending == replicasets@.filter(|w: ReplicaState| w.ready < w.desired).len(),
        r.daemonsets_running == daemonsets@.len() - daemonsets@.filter(
            |w: ReplicaState| w.ready < w.desired,
        ).len(),
{
    proof {
        lemma_pods_behind_counts(pods@);
        lemma_replicas_behind_counts(daemonsets@);
        lemma_replicas_behind_counts(statefulsets@);
        lemma_replicas_behind_counts(replicasets@);
    }
    let mut pods_running: usize = 0;
    let mut pods_pending: usize = 0;
    let mut i: usize = 0;
    while i < pods.len()
        invariant
            i <= pods@.len(),
            pods_pending == pods_behind(pods@.take(i as int)),
            pods_running == i - pods_behind(pods@.take(i as int)),
        decreases pods.len() - i,
    {
        proof {
            assert(pods@.take(i as int + 1).drop_last() == pods@.take(i as int));
            lemma_pods_behind_bound(pods@.take(i as int));
        }
        if pods[i].ready_containers < pods[i].total_containers {
            pods_pending = pods_pending + 1;
        } else {
            pods_running = pods_running + 1;
        }
        i = i + 1;
    }
    assert(pods@.take(pods@.len() as int) == pods@);
    proof {
        lemma_pods_behind_bound(pods@);
    }
    let mut deployments_pending: usize = 0;
    let mut k: usize = 0;
    while k < deployments.len()
        invariant
            k <= deployments@.len(),
            deployments_pending == unavailable_total(deployments@.take(k as int)),
            forall|j: int| 0 <= j < deployments@.len() ==> #[trigger] deployments@[j].unavailable_replicas >= 0,
            unavailable_total(deployments@) <= deployments@.len(),
        decreases deployments.len() - k,
    {
        proof {
            assert(deployments@.take(k as int + 1).drop_last() == deployments@.take(k as int));
            lemma_unavailable_prefix(deployments@, k as int + 1);
        }
        let u = deployments[k].unavailable_replicas;
        deployments_pending = deployments_pending + u as usize;
        k = k + 1;
    }
    assert(deployments@.take(deployments@.len() as int) == deployments@);
    let deployments_running = deployments.len() - deployments_pending;
    let mut daemonsets_running: usize = 0;
    let mut d: usize = 0;
    while d < daemonsets.len()
        invariant
            d <= daemonsets@.len(),
            pods@.len() + daemonsets@.len() <= usize::MAX,
            pods_pending == pods_behind(pods@) + replicas_behind(daemonsets@.take(d as int)),
            pods_behind(pods@) <= pods@.len(),
            daemonsets_running == d - replicas_behind(daemonsets@.take(d as int)),
        decreases daemonsets.len() - d,
    {
        proof {
            assert(daemonsets@.take(d as int + 1).drop_last() == daemonsets@.take(d as int));
            lemma_replicas_behind_bound(daemonsets@.take(d as int));
        }
        if daemonsets[d].ready < daemonsets[d].desired {
            pods_pending = pods_pending + 1;
        } else {
            daemonsets_running = daemonsets_running + 1;
        }
        d = d + 1;
    }
    assert(daemonsets@.take(daemonsets@.len() as int) == daemonsets@);
    let (statefulsets_running, statefulsets_pending) = split_ready(statefulsets);
    let (replicasets_running, replicasets_pending) = split_ready(replicasets);
    OverviewCounts {
        pods_running,
        pods_pending,
        deployments_running,
        deployments_pending,
        daemonsets_running,
        daemonsets_pending: 0,
        statefulsets_running,
        statefulsets_pending,
        replicasets_running,
        replicasets_pending,
    }
}

/// Ready and behind counts of replicated workloads.
fn split_ready(items: &Vec<ReplicaState>) -> (r: (usize, usize))
    ensures
        r.1 == replicas_behind(items@),
        r.0 == items@.len() - replicas_behind(items@),
{
    let mut running: usize = 0;
    let mut pending: usize = 0;
    let mut i: usize = 0;
    while i < items.len()
        invariant
            i <= items@.len(),
            pending == replicas_behind(items@.take(i as int)),
            running == i - replicas_behind(items@.take(i as int)),
        decreases items.len() - i,
    {
        proof {
            assert(items@.take(i as int + 1).drop_last() == items@.take(i as int));
            lemma_replicas_behind_bound(items@.take(i as int));
        }
        if items[i].ready < items[i].desired {
            pending = pending + 1;
        } else {
            running = running + 1;
        }
        i = i + 1;
    }
    assert(items@.take(items@.len() as int) == items@);
    (running, pending)
}

/// The value measured now, or the previous one when none was measured.
pub fn keep_or_previous<T: Copy>(current: Option<T>, previous: Option<T>) -> (r: Option<T>)
    ensures
        r == (if current is Some {
            current
        } else {
            previous
        }),
{
    match current {
        Some(v) => Some(v),
        None => previous,
    }
}

/// The colour a status word is drawn in: a named colour of the palette, or
/// an RGB triple.
#[derive(PartialEq, Eq, Structural, Clone, Copy, Debug)]
pub enum ItemColor {
    Green,
    Red,
    Yellow,
    LightBlue,
    LightGreen,
    Gray,
    Orange,
    LightRed,
    LightGray,
    Rgb(u8, u8, u8),
}

/// The colour of a status word; words not listed are light gray.
pub open spec fn item_color_of(item: Seq<char>) -> ItemColor {
    if item == "Ready"@ {
        ItemColor::Green
    } else if item == "Burstable"@ {
        ItemColor::Rgb(137, 90, 9)
    } else if item == "Guaranteed"@ {
        ItemColor::Rgb(6, 140, 0)
    } else if item == "BestEffort"@ {
        ItemColor::Rgb(112, 135, 9)
    } else if item == "Cancelled"@ {
        ItemColor::Rgb(116, 116, 116)
    } else if item == "RW"@ {
        ItemColor::Rgb(137, 90, 9)
    } else if item == "RO"@ {
        ItemColor::Rgb(6, 140, 0)
    } else if item == "CrashLoop"@ || item == "NotReady"@ {
        ItemColor::Red
    } else if item == "Running"@ {
        ItemColor::Green
    } else if item == "Waiting"@ {
        ItemColor::Yellow
    } else if item == "Terminated"@ {
        ItemColor::Red
    } else if item == "Complete"@ || item == "Completed"@ || item == "Succeeded"@ {
        ItemColor::Green
    } else if item == "Failed"@ {
        ItemColor::Red
    } else if item == "Bound"@ {
        ItemColor::Green
    } else if item == "Progressing"@ {
        ItemColor::LightBlue
    } else if item == "Available"@ {
        ItemColor::LightGreen
    } else if item == "Released"@ {
        ItemColor::Gray
    } else if item == "Pending"@ || item == "SchedulingDisabled"@ {
        ItemColor::Orange
    } else if item == "Lost"@ {
        ItemColor::LightRed
    } else if item == "Active"@ {
        ItemColor::Green
    } else if item == "Terminating"@ {
        ItemColor::Red
    } else if item == "Warning"@ {
        ItemColor::Orange
    } else if item == "Normal"@ {
        ItemColor::Green
    } else {
        ItemColor::LightGray
    }
}

/// The colour a status word is drawn in.
pub fn item_color(item: &str) -> (r: ItemColor)
    ensures
        r == item_color_of(item@),
{
    let v = chars_of(item);
    if chars_eq_str(&v, "Ready") {
        ItemColor::Green
    } else if chars_eq_str(&v, "Burstable") {
        ItemColor::Rgb(137, 90, 9)
    } else if chars_eq_str(&v, "Guaranteed") {
        ItemColor::Rgb(6, 140, 0)
    } else if chars_eq_str(&v, "BestEffort") {
        ItemColor::Rgb(112, 135, 9)
    } else if chars_eq_str(&v, "Cancelled") {
        ItemColor::Rgb(116, 116, 116)
    } else if chars_eq_str(&v, "RW") {
        ItemColor::Rgb(137, 90, 9)
    } else if chars_eq_str(&v, "RO") {
        ItemColor::Rgb(6, 140, 0)
    } else if chars_eq_str(&v, "CrashLoop") || chars_eq_str(&v, "NotReady") {
        ItemColor::Red
    } else if chars_eq_str(&v, "Running") {
        ItemColor::Green
    } else if chars_eq_str(&v, "Waiting") {
        ItemColor::Yellow
    } else if chars_eq_str(&v, "Terminated") {
        ItemColor::Red
    } else if chars_eq_str(&v, "Complete") || chars_eq_str(&v, "Completed") || chars_eq_str(
        &v,
        "Succeeded",
    ) {
        ItemColor::Green
    } else if chars_eq_str(&v, "Failed") {
        ItemColor::Red
    } else if chars_eq_str(&v, "Bound") {
        ItemColor::Green
    } else if chars_eq_str(&v, "Progressing") {
        ItemColor::LightBlue
    } else if chars_eq_str(&v, "Available") {
        ItemColor::LightGreen
    } else if chars_eq_str(&v, "Released") {
        ItemColor::Gray
    } else if chars_eq_str(&v, "Pending") || chars_eq_str(&v, "SchedulingDisabled") {
        ItemColor::Orange
    } else if chars_eq_str(&v, "Lost") {
        ItemColor::LightRed
    } else if chars_eq_str(&v, "Active") {
        ItemColor::Green
    } else if chars_eq_str(&v, "Terminating") {
        ItemColor::Red
    } else if chars_eq_str(&v, "Warning") {
        ItemColor::Orange
    } else if chars_eq_str(&v, "Normal") {
        ItemColor::Green
    } else {
        ItemColor::LightGray
    }
}

/// How serious a container's last exit code is.
#[derive(PartialEq, Eq, Structural, Clone, Copy, Debug)]
pub enum ExitTone {
    Normal,
    Warning,
    Error,
}

/// The meaning given to a container exit code.
pub open spec fn exit_meaning(code: int) -> (Seq<char>, ExitTone) {
    if code == 0 {
        ("Succes"@, ExitTone::Normal)
    } else if code == 1 {
        ("Command line error"@, ExitTone::Error)
    } else if code == 2 {
        ("Misuse of Shell Builtins"@, ExitTone::Error)
    } else if code == 124 {
        ("Timeout"@, ExitTone::Error)
    } else if code == 125 {
        ("The docker run command did not execute successfully"@, ExitTone::Error)
    } else if code == 126 {
        ("A command specified in the image specification could not be invoked"@, ExitTone::Error)
    } else if code == 127 {
        ("Command Not Found"@, ExitTone::Error)
    } else if code == 128 {
        ("Invalid argument"@, ExitTone::Error)
    } else if code == 134 {
        ("Abnormal termination"@, ExitTone::Error)
    } else if code == 137 {
        ("Killed by OOM"@, ExitTone::Error)
    } else if code == 139 {
        ("Segmentation Fault"@, ExitTone::Error)
    } else if code == 143 {
        ("Terminated by Signal"@, ExitTone::Warning)
    } else {
        ("Unknown exit code"@, ExitTone::Warning)
    }
}

/// The line shown for a container's last exit code (`<code> - <meaning>`)
/// and its tone.
pub fn exit_code_text(code: i32) -> (r: (String, ExitTone))
    ensures
        r.0@ == signed_decimal(code as int) + " - "@ + exit_meaning(code as int).0,
        r.1 == exit_meaning(code as int).1,
{
    let (meaning, tone) = if code == 0 {
        ("Succes", ExitTone::Normal)
    } else if code == 1 {
        ("Command line error", ExitTone::Error)
    } else if code == 2 {
        ("Misuse of Shell Builtins", ExitTone::Error)
    } else if code == 124 {
        ("Timeout", ExitTone::Error)
    } else if code == 125 {
        ("The docker run command did not execute successfully", ExitTone::Error)
    } else if code == 126 {
        ("A command specified in the image specification could not be invoked", ExitTone::Error)
    } else if code == 127 {
        ("Command Not Found", ExitTone::Error)
    } else if code == 128 {
        ("Invalid argument", ExitTone::Error)
    } else if code == 134 {
        ("Abnormal termination", ExitTone::Error)
    } else if code == 137 {
        ("Killed by OOM", ExitTone::Error)
    } else if code == 139 {
        ("Segmentation Fault", ExitTone::Error)
    } else if code == 143 {
        ("Terminated by Signal", ExitTone::Warning)
    } else {
        ("Unknown exit code", ExitTone::Warning)
    };
    let mut v = signed_decimal_chars(code as i64);
    append_str(&mut v, " - ");
    append_str(&mut v, meaning);
    (string_of(&v), tone)
}

/// An age of `t` seconds in its two largest units, a year being 365 days.
pub open spec fn age_of(t: int) -> Seq<char> {
    if t < 60 {
        signed_decimal(t) + "s"@
    } else if t < 3600 {
        decimal((t / 60) as nat) + "m "@ + decimal((t % 60) as nat) + "s"@
    } else if t < 86400 {
        decimal((t / 3600) as nat) + "h "@ + decimal(((t % 3600) / 60) as nat) + "m"@
    } else if t < 31536000 {
        decimal((t / 86400) as nat) + "d "@ + decimal(((t % 86400) / 3600) as nat) + "h"@
    } else {
        decimal((t / 31536000) as nat) + "y "@ + decimal(((t % 31536000) / 86400) as nat) + "d"@
    }
}

/// `text` shows `t` as a count `a` of the larger unit (`big` seconds) and a
/// count `b` of the smaller one (`small` seconds): the two counts are the
/// whole units `t` holds, the smaller count below `limit`.
pub open spec fn in_two_units(
    text: Seq<char>,
    t: int,
    big: int,
    big_label: Seq<char>,
    small: int,
    small_label: Seq<char>,
    limit: int,
) -> bool {
    exists|a: nat, b: nat|
        text == decimal(a) + big_label + decimal(b) + small_label && a * big + b * small <= t < a * big + (b
            + 1) * small && b < limit
}

proof fn lemma_units(t: int, big: int, small: int, limit: int)
    requires
        t >= 0,
        small > 0,
        limit > 0,
        big == limit * small,
    ensures
        t / big >= 0,
        (t % big) / small >= 0,
        (t / big) * big + ((t % big) / small) * small <= t < (t / big) * big + ((t % big) / small + 1)
            * small,
        (t % big) / small < limit,
{
    let a = t / big;
    let m = t % big;
    let b = m / small;
    assert(big > 0) by (nonlinear_arith)
        requires
            big == limit * small,
            small > 0,
            limit > 0,
    ;
    vstd::arithmetic::div_mod::lemma_fundamental_div_mod(t, big);
    vstd::arithmetic::div_mod::lemma_mod_pos_bound(t, big);
    vstd::arithmetic::div_mod::lemma_fundamental_div_mod(m, small);
    vstd::arithmetic::div_mod::lemma_mod_pos_bound(m, small);
    assert(a >= 0) by (nonlinear_arith)
        requires
            t >= 0,
            big > 0,
            a == t / big,
    ;
    assert(b >= 0) by (nonlinear_arith)
        requires
            m >= 0,
            small > 0,
            b == m / small,
    ;
    assert(b < limit) by (nonlinear_arith)
        requires
            m == small * b + m % small,
            0 <= m % small,
            m < big,
            big == limit * small,
            small > 0,
    ;
    assert(a * big + b * small <= t < a * big + (b + 1) * small) by (nonlinear_arith)
        requires
            t == big * a + m,
            m == small * b + m % small,
            0 <= m % small < small,
    ;
}

/// Law: an age is shown in its two largest units, each the whole number of
/// such units the time holds: seconds below a minute; minutes and seconds
/// (below 60) below an hour; hours and minutes (below 60) below a day; days
/// and hours (below 24) below a year of 365 days; years and days (below
/// 365) from a year on.
pub proof fn lemma_age_units(t: int)
    ensures
        t < 60 ==> age_of(t) == signed_decimal(t) + "s"@,
        60 <= t < 3600 ==> in_two_units(age_of(t), t, 60, "m "@, 1, "s"@, 60),
        3600 <= t < 86400 ==> in_two_units(age_of(t), t, 3600, "h "@, 60, "m"@, 60),
        86400 <= t < 31536000 ==> in_two_units(age_of(t), t, 86400, "d "@, 3600, "h"@, 24),
        t >= 31536000 ==> in_two_units(age_of(t), t, 31536000, "y "@, 86400, "d"@, 365),
{
    if t >= 60 {
        let (big, bl, small, sl, limit) = if t < 3600 {
            (60int, "m "@, 1int, "s"@, 60int)
        } else if t < 86400 {
            (3600int, "h "@, 60int, "m"@, 60int)
        } else if t < 31536000 {
            (86400int, "d "@, 3600int, "h"@, 24int)
        } else {
            (31536000int, "y "@, 86400int, "d"@, 365int)
        };
        lemma_units(t, big, small, limit);
        let a = (t / big) as nat;
        let b = ((t % big) / small) as nat;
        if t < 3600 {
            assert((t % 60) / 1 == t % 60);
        }
        assert(age_of(t) == decimal(a) + bl + decimal(b) + sl);
        assert(in_two_units(age_of(t), t, big, bl, small, sl, limit));
    }
}

/// An age of `t` whole seconds in its two largest units
/// (`42s`, `5m 3s`, `2h 10m`, `3d 4h`, `1y 12d`).
pub fn age_text(t: i64) -> (r: String)
    ensures
        r@ == age_of(t as int),
        t < 60 ==> r@ == signed_decimal(t as int) + "s"@,
        60 <= t < 3600 ==> in_two_units(r@, t as int, 60, "m "@, 1, "s"@, 60),
        3600 <= t < 86400 ==> in_two_units(r@, t as int, 3600, "h "@, 60, "m"@, 60),
        86400 <= t < 31536000 ==> in_two_units(r@, t as int, 86400, "d "@, 3600, "h"@, 24),
        t >= 31536000 ==> in_two_units(r@, t as int, 31536000, "y "@, 86400, "d"@, 365),
{
    proof {
        lemma_age_units(t as int);
    }
    let mut v: Vec<char>;
    if t < 60 {
        v = signed_decimal_chars(t);
        append_str(&mut v, "s");
    } else {
        let u = t as u64;
        let (big, small, unit_big, unit_small) = if t < 3600 {
            (u / 60, u % 60, "m ", "s")
        } else if t < 86400 {
            (u / 3600, (u % 3600) / 60, "h ", "m")
        } else if t < 31536000 {
            (u / 86400, (u % 86400) / 3600, "d ", "h")
        } else {
            (u / 31536000, (u % 31536000) / 86400, "y ", "d")
        };
        v = decimal_chars(big);
        append_str(&mut v, unit_big);
        let w = decimal_chars(small);
        append_chars(&mut v, &w);
        append_str(&mut v, unit_small);
    }
    string_of(&v)
}

/// The greatest timestamp (seconds since the Unix epoch) a `chrono`
/// date-time can hold: the last second of `NaiveDate::MAX`, 262142-12-31.
pub open spec fn max_timestamp() -> int {
    8_210_266_876_799
}

/// The least timestamp a `chrono` date-time can hold: the first second of
/// `NaiveDate::MIN`, -262143-01-01.
pub open spec fn min_timestamp() -> int {
    -8_334_601_228_800
}

/// Whole seconds from `(created_s, created_ns)` to `(now_s, now_ns)`,
/// rounded toward zero (`TimeDelta::num_seconds`).
pub open spec fn whole_seconds(created_s: int, created_ns: int, now_s: int, now_ns: int) -> int {
    let d = (now_s - created_s) * 1_000_000_000 + (now_ns - created_ns);
    if d >= 0 {
        d / 1_000_000_000
    } else {
        -((-d) / 1_000_000_000)
    }
}

#[verifier::external_type_specification]
#[verifier::external_body]
pub struct ExSystemTime(std::time::SystemTime);

/// The system clock's current reading (`SystemTime::now`).
///
/// Trusted: nothing is claimed of the reading, which depends on the clock.
#[verifier::external_body]
fn system_now() -> std::time::SystemTime {
    std::time::SystemTime::now()
}

/// How far `t` lies from the Unix epoch (`SystemTime::duration_since`
/// with `UNIX_EPOCH`): `Ok` with whole seconds and nanoseconds after it,
/// `Err` with those before it (`SystemTimeError::duration`).
///
/// Trusted: the distance depends on the clock, so only its shape is
/// stated: a `Duration`'s sub-second part is below one second.
#[verifier::external_body]
fn since_epoch(t: &std::time::SystemTime) -> (r: Result<(u64, u32), (u64, u32)>)
    ensures
        match r {
            Ok(d) => d.1 < 1_000_000_000,
            Err(d) => d.1 < 1_000_000_000,
        },
{
    match t.duration_since(std::time::UNIX_EPOCH) {
        Ok(d) => Ok((d.as_secs(), d.subsec_nanos())),
        Err(e) => Err((e.duration().as_secs(), e.duration().subsec_nanos())),
    }
}

/// The current time as seconds since the Unix epoch (negative before it)
/// and nanoseconds past them. A reading beyond what a date-time can hold is
/// taken as the nearest instant it can hold.
fn now_timestamp() -> (r: (i64, u32))
    ensures
        min_timestamp() <= r.0 <= max_timestamp(),
        r.1 < 1_000_000_000,
{
    match since_epoch(&system_now()) {
        Ok((s, n)) => {
            if s > 8_210_266_876_799u64 {
                (8_210_266_876_799i64, 0u32)
            } else {
                (s as i64, n)
            }
        },
        Err((s, n)) => {
            if s >= 8_334_601_228_800u64 {
                (-8_334_601_228_800i64, 0u32)
            } else if n == 0 {
                (-(s as i64), 0u32)
            } else {
                (-(s as i64) - 1, 1_000_000_000 - n)
            }
        },
    }
}

/// Whole seconds between two instants, each as seconds and nanoseconds.
pub fn seconds_between(created_s: i64, created_ns: u32, now_s: i64, now_ns: u32) -> (r: i64)
    requires
        min_timestamp() <= created_s <= max_timestamp(),
        min_timestamp() <= now_s <= max_timestamp(),
    ensures
        r == whole_seconds(created_s as int, created_ns as int, now_s as int, now_ns as int),
{
    let d: i128 = (now_s as i128 - created_s as i128) * 1_000_000_000 + (now_ns as i128
        - created_ns as i128);
    let q: i128 = if d >= 0 {
        d / 1_000_000_000
    } else {
        -((-d) / 1_000_000_000)
    };
    assert(-20_000_000_000_000 <= q <= 20_000_000_000_000) by (nonlinear_arith)
        requires
            d == (now_s as i128 - created_s as i128) * 1_000_000_000 + (now_ns as i128 - created_ns as i128),
            q == (if d >= 0 { d / 1_000_000_000 } else { -((-d) / 1_000_000_000) }),
            min_timestamp() <= created_s <= max_timestamp(),
            min_timestamp() <= now_s <= max_timestamp(),
            0 <= now_ns <= u32::MAX,
            0 <= created_ns <= u32::MAX,
    ;
    q as i64
}

/// How long ago the instant `(created_s, created_ns)` was, as `age_text`
/// writes it. The present moment is read from the clock, so the text is
/// that of some moment a date-time can hold.
pub fn format_age(created_s: i64, created_ns: u32) -> (r: String)
    requires
        min_timestamp() <= created_s <= max_timestamp(),
    ensures
        exists|now_s: int, now_ns: int|
            min_timestamp() <= now_s <= max_timestamp() && 0 <= now_ns < 1_000_000_000 && r@ == age_of(
                whole_seconds(created_s as int, created_ns as int, now_s, now_ns),
            ),
{
    let (now_s, now_ns) = now_timestamp();
    let secs = seconds_between(created_s, created_ns, now_s, now_ns);
    let r = age_text(secs);
    assert(r@ == age_of(whole_seconds(created_s as int, created_ns as int, now_s as int, now_ns as int)));
    r
}

} // verus!
