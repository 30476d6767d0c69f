use rustlens::details::{creation_time_text, event_details, EventDetails, Line};
use rustlens::overview::ItemColor;
use rustlens::logs::ContainerStatusItem;
use rustlens::pods::{
    container_details, pod_window_lines, ConditionInfo, ContainerDetails, ContainerSpec,
    ContainerStateInfo, ContainerStatus, PodDetails, PodItem, ResourceQuantities, TolerationInfo,
};
use rustlens::resources::{
    crd_window_lines, custom_resource_namespace, deployment_window_lines, node_window_lines,
    os_text, pv_window_lines, sc_window_lines, secret_window_lines, taint_text, CRDItem, CrdDetails,
    DeploymentDetails, DeploymentItem, NodeDetails, NodeDetailsWindow, NodeItem, PodDetailsWindow,
    PvDetails, PvItem, ReplicaSetDetails, ReplicaSetItem, ScDetails, SecretDetails, SecretItem,
    ServiceDetails, ServiceItem, StorageClassItem, replica_set_window_lines, service_window_lines,
};

const CREATED: (i64, u32) = (1704164645, 0);
const NOW: (i64, u32) = (1704164735, 0);
const CREATED_TEXT: &str = "2024-01-02 03:04:05 UTC, 1m 30s ago";

fn line_text(l: &Line) -> String {
    match l {
        Line::Field(a, b, t) => format!("F|{}|{}|{:?}", a, b, t),
        Line::Heading(a) => format!("H|{}", a),
        Line::Pair(a, b) => format!("P|{}|{}", a, b),
        Line::Item(a, t) => format!("I|{}|{:?}", a, t),
        Line::Cells(c) => format!("C|{}", c.join("|")),
        Line::Row(a, b, c, k) => format!("R|{}|{}|{}|{:?}", a, b, c, k),
        Line::Marker(a, k) => format!("M|{}|{:?}", a, k),
        Line::Separator => "-".to_string(),
    }
}

fn texts(lines: &Vec<Line>) -> Vec<String> {
    lines.iter().map(line_text).collect()
}

fn s(x: &str) -> String {
    x.to_string()
}

fn pod_item(name: &str, ns: &str) -> PodItem {
    PodItem {
        name: s(name),
        phase: Some(s("Running")),
        ready_containers: 1,
        total_containers: 1,
        containers: vec![ContainerStatusItem { name: s("app"), state: Some(s("Running")), message: None }],
        restart_count: 2,
        node_name: Some(s("node-1")),
        pod_has_crashloop: false,
        creation_timestamp: Some(CREATED),
        terminating: false,
        controller: None,
        namespace: Some(s(ns)),
        qos_class: Some(s("Burstable")),
    }
}

#[test]
fn creation_time_with_age() {
    assert_eq!(creation_time_text(CREATED, NOW), CREATED_TEXT);
}

#[test]
fn events_keep_rfc3339_time() {
    let e = event_details(Some(s("Pulled")), None, Some(s("Normal")), Some(CREATED));
    assert_eq!(e.timestamp.as_deref(), Some("2024-01-02T03:04:05+00:00"));
    assert_eq!(e.reason.as_deref(), Some("Pulled"));
    assert!(e.message.is_none());
    let f = event_details(None, None, None, None);
    assert!(f.timestamp.is_none());
}

#[test]
fn pod_window_needs_a_listed_pod() {
    let mut d = PodDetails::new();
    assert!(pod_window_lines(&vec![pod_item("web", "default")], &d, NOW).is_none());
    d.name = Some(s("web"));
    d.namespace = Some(s("other"));
    assert!(pod_window_lines(&vec![pod_item("web", "default")], &d, NOW).is_none());
}

#[test]
fn pod_window_content() {
    let mut d = PodDetails::new();
    d.name = Some(s("web"));
    d.namespace = Some(s("default"));
    d.uid = Some(s("u-1"));
    d.labels = Some(vec![(s("app"), s("web"))]);
    d.tolerations = vec![TolerationInfo {
        key: Some(s("k")),
        operator: None,
        value: None,
        effect: Some(s("NoSchedule")),
        toleration_seconds: Some(30),
    }];
    d.conditions = vec![
        ConditionInfo { type_: s("Ready"), status: s("True"), reason: None, message: None },
        ConditionInfo { type_: s("PodScheduled"), status: s("False"), reason: Some(s("Unschedulable")), message: None },
    ];
    d.containers = vec![ContainerDetails {
        name: s("app"),
        image: None,
        state: Some(s("Waiting")),
        message: Some(s("pulling")),
        cpu_request: Some(s("100m")),
        mem_request: None,
        cpu_limit: None,
        mem_limit: Some(s("1Gi")),
    }];
    let pods = vec![pod_item("web", "other"), pod_item("web", "default")];
    let lines = pod_window_lines(&pods, &d, NOW).unwrap();
    let expected: Vec<String> = vec![
        s("F|Pod name:|web|Detail"),
        format!("F|Creation time:|{}|Detail", CREATED_TEXT),
        s("F|Namespace:|default|Detail"),
        s("F|Running on:|node-1|Detail"),
        s("F|Status:|Running|Status(Green)"),
        s("F|QoS:|Burstable|Status(Rgb(137, 90, 9))"),
        s("F|Restarts count:|2|Warning"),
        s("F|UID:|u-1|Detail"),
        s("-"),
        s("H|Labels:"),
        s("P|app|web"),
        s("-"),
        s("H|Tolerations:"),
        s("C|Key|Operator|Value|Effect|Seconds"),
        s("C|k|||NoSchedule|30"),
        s("-"),
        s("H|Conditions:"),
        s("P|Ready|True"),
        s("P|PodScheduled|False (Unschedulable - )"),
        s("-"),
        s("H|Containers:"),
        s("-"),
        s("M|app|Yellow"),
        s("F|Status:|Waiting pulling|Detail"),
        s("F|Image:|Undefined|Detail"),
        s("F|Memory limit:|1Gi|Detail"),
        s("F|CPU request:|100m|Detail"),
    ];
    assert_eq!(texts(&lines), expected);
}

#[test]
fn container_details_from_statuses() {
    let statuses = vec![
        ContainerStatus {
            name: s("app"),
            image: s("nginx"),
            state: Some(ContainerStateInfo { running: false, waiting: None, terminated: Some(Some(s("done"))) }),
        },
        ContainerStatus { name: s("side"), image: s("busybox"), state: None },
    ];
    let specs = vec![
        ContainerSpec { name: s("side"), resources: None },
        ContainerSpec {
            name: s("app"),
            resources: Some(ResourceQuantities {
                cpu_request: Some(s("250m")),
                mem_request: Some(s("64Mi")),
                cpu_limit: None,
                mem_limit: Some(s("128Mi")),
            }),
        },
    ];
    let c = container_details(&statuses, &specs);
    assert_eq!(c.len(), 2);
    assert_eq!(c[0].name, "app");
    assert_eq!(c[0].image.as_deref(), Some("nginx"));
    assert_eq!(c[0].state.as_deref(), Some("Terminated"));
    assert_eq!(c[0].message.as_deref(), Some("done"));
    assert_eq!(c[0].cpu_request.as_deref(), Some("250m"));
    assert_eq!(c[0].mem_limit.as_deref(), Some("128Mi"));
    assert!(c[0].cpu_limit.is_none());
    assert!(c[1].state.is_none() && c[1].message.is_none() && c[1].cpu_request.is_none());
    let running = ContainerStatus {
        name: s("x"),
        image: s("i"),
        state: Some(ContainerStateInfo { running: true, waiting: Some(Some(s("w"))), terminated: None }),
    };
    let d = container_details(&vec![running], &Vec::new());
    assert_eq!(d[0].state.as_deref(), Some("Running"));
    assert_eq!(d[0].message.as_deref(), Some("w"));
}

#[test]
fn node_window_content() {
    let mut d = NodeDetails::new();
    assert!(node_window_lines(&Vec::new(), &Vec::new(), &d, NOW).is_none());
    d.name = Some(s("node-1"));
    d.os = Some(os_text("linux", "amd64"));
    d.taints = vec![taint_text("dedicated", &None, "NoSchedule")];
    d.addresses = vec![(s("InternalIP"), s("10.0.0.5"))];
    let nodes = vec![NodeItem {
        name: s("node-1"),
        status: s("Ready"),
        roles: vec![],
        scheduling_disabled: false,
        storage: None,
        creation_timestamp: None,
    }];
    let pods = vec![pod_item("web", "default"), {
        let mut p = pod_item("db", "data");
        p.node_name = Some(s("node-2"));
        p
    }];
    let lines = node_window_lines(&nodes, &pods, &d, NOW).unwrap();
    let expected: Vec<String> = vec![
        s("F|Node name:|node-1|Detail"),
        s("F|Status:|Ready|Detail"),
        s("F|OS Type:|linux (amd64)|Detail"),
        s("H|Adresses:"),
        s("P|InternalIP|10.0.0.5"),
        s("H|Taints:"),
        s("I|dedicated=:NoSchedule|Detail"),
        s("H|Pods:"),
        s("C|Pod name|Namespace|Status"),
        s("R|web|default|Running|Green"),
    ];
    assert_eq!(texts(&lines), expected);
    assert!(!NodeDetailsWindow::new().show && !PodDetailsWindow::new().show);
}

#[test]
fn storage_class_window_content() {
    let items = vec![StorageClassItem {
        name: s("fast"),
        provisioner: s("csi"),
        reclaim_policy: s("Delete"),
        volume_binding_mode: s("Immediate"),
        is_default: s("true"),
        creation_timestamp: Some(CREATED),
    }];
    let d = ScDetails {
        name: Some(s("fast")),
        labels: None,
        annotations: None,
        finalizers: Some(vec![s("f1")]),
        mount_options: None,
        parameters: Some(vec![(s("type"), s("ssd"))]),
        events: vec![EventDetails {
            reason: Some(s("Made")),
            message: Some(s("ok")),
            event_type: Some(s("Warning")),
            timestamp: None,
        }],
    };
    let lines = sc_window_lines(&items, &d, NOW).unwrap();
    let expected: Vec<String> = vec![
        s("F|Name:|fast|Detail"),
        format!("F|Creation time:|{}|Detail", CREATED_TEXT),
        s("F|Provisioner:|csi|Detail"),
        s("F|Reclaim policy:|Delete|Status(LightGray)"),
        s("F|Volume binding mode:|Immediate|Detail"),
        s("F|Default class:|true|Detail"),
        s("-"),
        s("H|Parameters:"),
        s("P|type|ssd"),
        s("-"),
        s("H|Finalizers:"),
        s("I|f1|Detail"),
        s("-"),
        s("H|Events:"),
        s("R||Made|ok|Orange"),
    ];
    assert_eq!(texts(&lines), expected);
    let mut other = d;
    other.name = Some(s("slow"));
    assert!(sc_window_lines(&items, &other, NOW).is_none());
}

#[test]
fn volume_window_content() {
    let items = vec![PvItem {
        name: s("pv-1"),
        storage_class: s("fast"),
        capacity: s("1Gi"),
        claim: s("ns/claim"),
        status: s("Bound"),
        reclaim_policy: s("Retain"),
        creation_timestamp: None,
    }];
    let d = PvDetails {
        name: Some(s("pv-1")),
        reclaim_policy: None,
        labels: None,
        annotations: Some(vec![]),
        finalizers: None,
        access_modes: Some(vec![s("ReadWriteOnce")]),
        events: vec![],
    };
    let lines = pv_window_lines(&items, &d, NOW).unwrap();
    let expected: Vec<String> = vec![
        s("F|Pv name:|pv-1|Detail"),
        s("F|Storage class:|fast|Detail"),
        s("F|Status:|Bound|Status(Green)"),
        s("F|Capacity:|1Gi|Detail"),
        s("F|Claim:|ns/claim|Detail"),
        s("F|Reclaim policy:|Retain|Status(LightGray)"),
        s("-"),
        s("H|Access modes:"),
        s("I|ReadWriteOnce|Detail"),
        s("-"),
        s("H|Annotations:"),
        s("-"),
        s("H|Events:"),
    ];
    assert_eq!(texts(&lines), expected);
}

#[test]
fn secret_window_matches_namespace() {
    let items = vec![
        SecretItem { name: s("tls"), labels: s(""), keys: s("crt"), type_: s("Opaque"), creation_timestamp: None, namespace: Some(s("a")) },
        SecretItem { name: s("tls"), labels: s(""), keys: s("crt"), type_: s("Opaque"), creation_timestamp: None, namespace: Some(s("b")) },
    ];
    let d = SecretDetails { name: Some(s("tls")), namespace: Some(s("b")), labels: None, annotations: None, events: vec![] };
    let lines = secret_window_lines(&items, &d, NOW).unwrap();
    assert_eq!(texts(&lines), vec![s("F|Secret name:|tls|Detail"), s("F|Namespace:|b|Detail"), s("-"), s("H|Events:")]);
    let none = SecretDetails { name: Some(s("tls")), namespace: None, labels: None, annotations: None, events: vec![] };
    assert!(secret_window_lines(&items, &none, NOW).is_none());
}

#[test]
fn crd_and_deployment_windows() {
    let crds = vec![CRDItem { name: s("x.io"), group: s("io"), version: s("v1"), scope: s("Cluster"), kind: s("X"), creation_timestamp: None }];
    let d = CrdDetails { name: Some(s("x.io")), labels: Some(vec![(s("a"), s("b"))]), annotations: None };
    assert_eq!(texts(&crd_window_lines(&crds, &d, NOW).unwrap()), vec![s("F|Crd name:|x.io|Detail"), s("-"), s("H|Labels:"), s("P|a|b")]);
    let deps = vec![DeploymentItem {
        name: s("api"),
        ready_replicas: 2,
        available_replicas: 2,
        updated_replicas: 3,
        unavailable_replicas: 1,
        replicas: 3,
        creation_timestamp: None,
        namespace: Some(s("prod")),
    }];
    let mut dd = DeploymentDetails::new();
    assert!(deployment_window_lines(&deps, &dd, NOW).is_none());
    dd.name = Some(s("api"));
    dd.namespace = Some(s("prod"));
    assert_eq!(
        texts(&deployment_window_lines(&deps, &dd, NOW).unwrap()),
        vec![
            s("F|Deployment name:|api|Detail"),
            s("F|Namespace:|prod|Detail"),
            s("F|Replicas status:|3 desired, 3 updated, 2 available, 2 ready, 1 unavailable|Detail"),
        ]
    );
}

#[test]
fn custom_resource_scope() {
    assert_eq!(custom_resource_namespace("Namespaced", &None).as_deref(), Some("default"));
    assert_eq!(custom_resource_namespace("Namespaced", &Some(s("a"))).as_deref(), Some("a"));
    assert_eq!(custom_resource_namespace("Cluster", &Some(s("a"))), None);
}

#[test]
fn replica_set_window() {
    let items = vec![ReplicaSetItem {
        name: s("web-5d9"),
        labels: vec![],
        desired: 3,
        current: 3,
        ready: 2,
        creation_timestamp: Some(CREATED),
        namespace: Some(s("prod")),
    }];
    let d = ReplicaSetDetails {
        name: Some(s("web-5d9")),
        namespace: Some(s("prod")),
        labels: Some(vec![(s("app"), s("web"))]),
        annotations: None,
        events: vec![],
    };
    let lines = replica_set_window_lines(&items, &d, NOW).unwrap();
    let expected: Vec<String> = vec![
        s("F|ReplicaSet name:|web-5d9|Detail"),
        format!("F|Creation time:|{}|Detail", CREATED_TEXT),
        s("F|Namespace:|prod|Detail"),
        s("F|Replicas status:|3 desired, 3 current, 2 ready|Detail"),
        s("-"),
        s("H|Labels:"),
        s("P|app|web"),
        s("-"),
        s("H|Events:"),
    ];
    assert_eq!(texts(&lines), expected);
    let elsewhere = ReplicaSetDetails { name: Some(s("web-5d9")), namespace: Some(s("dev")), labels: None, annotations: None, events: vec![] };
    assert!(replica_set_window_lines(&items, &elsewhere, NOW).is_none());
}

#[test]
fn service_window() {
    let items = vec![
        ServiceItem {
            name: s("db"),
            svc_type: s("ClusterIP"),
            cluster_ip: s("None"),
            ports: s("5432/TCP"),
            external_ip: s("None"),
            selector: s("app=db"),
            creation_timestamp: None,
            status: s("Active"),
            namespace: Some(s("a")),
        },
        ServiceItem {
            name: s("web"),
            svc_type: s("LoadBalancer"),
            cluster_ip: s("10.0.0.7"),
            ports: s("80/TCP"),
            external_ip: s("1.2.3.4"),
            selector: s("app=web"),
            creation_timestamp: None,
            status: s("Active"),
            namespace: Some(s("a")),
        },
    ];
    let d = ServiceDetails {
        name: Some(s("web")),
        namespace: Some(s("a")),
        labels: None,
        selector: Some(vec![(s("app"), s("web"))]),
        annotations: None,
        events: vec![EventDetails { reason: Some(s("Synced")), message: Some(s("done")), event_type: Some(s("Normal")), timestamp: None }],
    };
    let lines = service_window_lines(&items, &d, NOW).unwrap();
    let expected: Vec<String> = vec![
        s("F|Service name:|web|Detail"),
        s("F|Namespace:|a|Detail"),
        s("F|Type:|LoadBalancer|Detail"),
        s("F|Internal IP:|10.0.0.7|Detail"),
        s("F|External IP:|1.2.3.4|Detail"),
        s("-"),
        s("F|Ports:|80/TCP|Detail"),
        s("-"),
        s("H|Selector:"),
        s("P|app|web"),
        s("-"),
        s("H|Events:"),
        s("R||Synced|done|Green"),
    ];
    assert_eq!(texts(&lines), expected);
    let headless = ServiceDetails { name: Some(s("db")), namespace: Some(s("a")), labels: None, selector: None, annotations: None, events: vec![] };
    let lines = service_window_lines(&items, &headless, NOW).unwrap();
    assert_eq!(
        texts(&lines),
        vec![s("F|Service name:|db|Detail"), s("F|Namespace:|a|Detail"), s("F|Type:|ClusterIP|Detail"), s("-"), s("F|Ports:|5432/TCP|Detail"), s("-"), s("H|Events:")]
    );
    let nameless = ServiceDetails { name: None, namespace: None, labels: None, selector: None, annotations: None, events: vec![] };
    assert!(service_window_lines(&items, &nameless, NOW).is_none());
}

#[test]
fn creation_time_in_a_leap_second() {
    let text = creation_time_text((1483228799, 1_500_000_000), (1483228900, 0));
    assert!(text.starts_with("2016-12-31 23:59:60.500 UTC, "), "{}", text);
}

#[test]
fn creation_time_at_the_ends_of_the_date_range() {
    let last = creation_time_text((8_210_266_876_799, 0), (8_210_266_876_799, 0));
    assert!(last.starts_with("+262142-12-31 23:59:59 UTC, "), "{}", last);
    let first = creation_time_text((-8_334_601_228_800, 0), (-8_334_601_228_800, 0));
    assert!(first.starts_with("-262143-01-01 00:00:00 UTC, "), "{}", first);
}

#[test]
fn pod_list_row_cells() {
    let p = pod_item("web", "a");
    let r = p.row();
    assert_eq!(r.status, "✅ Running");
    assert_eq!(r.status_color, ItemColor::Green);
    assert_eq!(r.ready, "1/1");
    assert_eq!(r.ready_color, ItemColor::Rgb(100, 255, 100));
    assert_eq!((r.restarts.as_str(), r.restarts_color), ("2", ItemColor::Orange));
    assert_eq!(r.controller, "");
    assert_eq!((r.qos.as_str(), r.qos_color), ("Burstable", ItemColor::Rgb(137, 90, 9)));
    assert_eq!(r.node, "node-1");

    let mut q = pod_item("job", "a");
    q.phase = Some(s("Succeeded"));
    q.ready_containers = 0;
    q.restart_count = 0;
    q.qos_class = None;
    q.node_name = None;
    q.controller = Some(s("Job"));
    let r = q.row();
    assert_eq!(r.status, "✅ Completed");
    assert_eq!(r.ready, "0/1");
    assert_eq!(r.ready_color, ItemColor::Gray);
    assert_eq!((r.restarts.as_str(), r.restarts_color), ("Never", ItemColor::Gray));
    assert_eq!(r.controller, "Job");
    assert_eq!(r.qos, "-");
    assert_eq!(r.node, "-");

    q.pod_has_crashloop = true;
    q.phase = None;
    let r = q.row();
    assert_eq!(r.status, "💥 CrashLoop");
    assert_eq!(r.status_color, ItemColor::Red);
    assert_eq!(r.ready_color, ItemColor::Rgb(255, 100, 100));

    q.pod_has_crashloop = false;
    q.terminating = true;
    assert_eq!(q.row().status, "🗑 Terminating");
    q.terminating = false;
    q.phase = Some(s("Evicted"));
    q.ready_containers = 1;
    q.total_containers = 2;
    let r = q.row();
    assert_eq!(r.status, "❓ Unknown");
    assert_eq!(r.ready_color, ItemColor::Rgb(255, 165, 0));
}
