use rustlens::ai::{
    all_ai_providers, ask_label, failure_answer, gemini_request_url, is_allowed_command,
    plan_tool_call, tool_url, tools_url, AiProvider, AiWindow, ToolAction, ToolError,
};
use rustlens::conversation::{
    bedrock_step, gemini_step, tool_panic_message, BedrockStep, GeminiReply, GeminiStep,
    ReplyBlock, ReplyCandidate, ReplyPart,
};
use rustlens::custom_resources::{
    cluster_secret_store_row, external_secret_row, ip_pool_row, virtual_service_row,
    ExternalSecretFields, IpBlock, IpPoolFields, SecretStoreFields, VirtualServiceFields,
};
use rustlens::editor::{
    apply_step, banner_expired, banner_fading, is_success_message, patch_message, ApplyStep,
    YamlEditorWindow,
};
use rustlens::highlight::{yaml_patterns, Span, Style};
use rustlens::log_analysis::{analyze_log, LogParserWindow, Plugin, RuleSpec, RuleStats};
use rustlens::details::{Line, Tone};
use rustlens::logs::{
    append_log_line, initial_log_buffer, log_view_rows, shown_log_text, ContainerStatusItem, LogWindow,
};
use rustlens::new_resource::{
    resource_type_choices, resource_type_label, NewResourceWindow, ResourceType,
    CLUSTER_ROLE_BINDING_TEMPLATE, CLUSTER_ROLE_TEMPLATE, POD_TEMPLATE, ROLE_BINDING_TEMPLATE,
};
use rustlens::overview::ItemColor;
use rustlens::proxy::{PollOutcome, ProxyAction, ProxyProcess};
use rustlens::res_converter::{clean_value, ResConverterWindow};
use rustlens::version::{parse_k8s_minor, FetchStep, KubernetesVersionFetcher, ReleaseFetch, RETRY_SECS};
use rustlens::watch::{Entry, WatchCache, WatchEvent};
use rustlens::workloads::{
    chart_of_release, cordon_patch, events_selector, group_version, namespace_or_default,
    node_pods_selector, pod_delete_options, pods_to_evict, scale_patch, DeleteConfirmation,
    PodPlacement, ScaleTarget, ScaleWindow,
};

fn s(x: &str) -> String {
    x.to_string()
}

#[test]
fn scale_dialog_flow() {
    let mut w = ScaleWindow::new();
    assert!(!w.show && w.name.is_none() && w.resource_kind.is_none());
    w.open(s("api"), Some(s("prod")), 2, 2, ScaleTarget::Deployment);
    assert_eq!(w.title(), "Scale api");
    assert_eq!(w.current_line(), "Current replicas scale: 2");
    w.desired_replicas = 5;
    let r = w.confirm();
    assert!(!w.show);
    assert_eq!((r.name.as_str(), r.namespace.as_str(), r.replicas, r.kind), ("api", "prod", 5, ScaleTarget::Deployment));
    w.open(s("db"), Some(s("x")), 1, 1, ScaleTarget::StatefulSet);
    w.cancel();
    assert!(!w.show);
}

#[test]
fn patches_and_selectors() {
    assert_eq!(scale_patch(3), "{\"spec\":{\"replicas\":3}}");
    assert_eq!(scale_patch(-1), "{\"spec\":{\"replicas\":-1}}");
    assert_eq!(cordon_patch(true), "{\"spec\":{\"unschedulable\":true}}");
    assert_eq!(cordon_patch(false), "{\"spec\":{\"unschedulable\":false}}");
    assert_eq!(node_pods_selector("n1"), "spec.nodeName=n1");
    assert_eq!(events_selector("Pod", "web"), "involvedObject.kind=Pod,involvedObject.name=web");
    assert_eq!(namespace_or_default(None), "default");
    assert_eq!(namespace_or_default(Some("kube-system")), "kube-system");
    assert_eq!(pod_delete_options(true), (Some(0), true));
    assert_eq!(pod_delete_options(false), (None, false));
}

#[test]
fn delete_confirmation_acts_once() {
    let mut d: DeleteConfirmation<u32> = DeleteConfirmation::new();
    assert!(!d.show && d.on_confirm.is_none());
    d.request(s("web"), Some(s("ns")), 7);
    assert!(d.show);
    assert_eq!(d.prompt(), "Are you sure you want to delete \"web\"?");
    assert_eq!(d.confirm(), Some(7));
    assert!(!d.show);
    assert_eq!(d.confirm(), None);
    d.request(s("x"), None, 9);
    d.cancel();
    assert!(!d.show);
    assert_eq!(d.on_confirm, Some(9));
}

#[test]
fn drain_skips_mirror_and_daemon_pods() {
    let pods = vec![
        PodPlacement { name: Some(s("a")), annotation_keys: vec![], owner_kinds: vec![s("ReplicaSet")] },
        PodPlacement { name: Some(s("b")), annotation_keys: vec![s("kubernetes.io/config.mirror")], owner_kinds: vec![] },
        PodPlacement { name: Some(s("c")), annotation_keys: vec![], owner_kinds: vec![s("DaemonSet")] },
        PodPlacement { name: None, annotation_keys: vec![], owner_kinds: vec![] },
        PodPlacement { name: Some(s("d")), annotation_keys: vec![s("other")], owner_kinds: vec![s("Job")] },
    ];
    assert_eq!(pods_to_evict(&pods), vec![s("a"), s("d")]);
}

#[test]
fn api_version_parts() {
    assert_eq!(group_version("apps/v1"), (s("apps"), s("v1")));
    assert_eq!(group_version("v1"), (s(""), s("v1")));
    assert_eq!(group_version("a/b/c"), (s("a"), s("b/c")));
}

#[test]
fn helm_chart_from_release() {
    let rec = "name: x\nchart: \"nginx-ingress-4.2.1\", more\nchart again";
    assert_eq!(chart_of_release(rec), (Some(s("nginx")), Some(s("4.2.1"))));
    assert_eq!(chart_of_release("nothing here"), (None, None));
    assert_eq!(chart_of_release("chart without quotes"), (None, None));
}

#[test]
fn proxy_switch_flow() {
    let mut p = ProxyProcess::default();
    assert_eq!(p.status_text(), "■ Status: stopped");
    assert_eq!(p.toggled(true), ProxyAction::Spawn);
    p.spawned(Ok(()));
    assert!(p.is_running && p.has_process);
    assert_eq!(p.status_text(), "▶ Status: running");
    p.polled(PollOutcome::Running);
    assert!(p.has_process);
    p.polled(PollOutcome::Exited(s("exit status: 1")));
    assert!(!p.is_running && !p.has_process);
    assert_eq!(p.error_message.as_deref(), Some("Process unexpectially stopped: exit status: 1"));
    assert_eq!(p.toggled(true), ProxyAction::Spawn);
    assert!(p.error_message.is_none());
    p.spawned(Err(s("not found")));
    assert_eq!(p.error_message.as_deref(), Some("Error running kubectl: not found. Make sure 'kubectl' is installed in your system."));
    assert_eq!(p.toggled(false), ProxyAction::Nothing);
    assert_eq!(p.toggled(true), ProxyAction::Spawn);
    p.spawned(Ok(()));
    assert_eq!(p.toggled(false), ProxyAction::Kill);
    p.killed(Err(s("denied")));
    assert_eq!(p.error_message.as_deref(), Some("Error stopping process: denied"));
    let mut q = ProxyProcess::default();
    q.has_process = true;
    q.polled(PollOutcome::Failed(s("io")));
    assert_eq!(q.error_message.as_deref(), Some("Error getting process status: io"));
}

#[test]
fn editor_apply_steps() {
    let e = YamlEditorWindow::new();
    assert!(e.apply_button_enabled && !e.show && e.content.is_empty());
    match apply_step("kind: Pod\n") {
        ApplyStep::Patch(t) => assert_eq!(t, "kind: Pod\n"),
        ApplyStep::Report(_) => panic!("valid YAML was refused"),
    }
    match apply_step("a: [1") {
        ApplyStep::Report(m) => assert!(m.starts_with("❌ YAML Error: ")),
        ApplyStep::Patch(_) => panic!("invalid YAML was sent"),
    }
    assert_eq!(patch_message(&Ok(())), "✅ Applied successfully");
    assert_eq!(patch_message(&Err(s("boom"))), "❌ Error applying YAML: boom");
    assert!(is_success_message("✅ Applied successfully"));
    assert!(!is_success_message("❌ no"));
    assert!(!is_success_message(""));
    assert!(banner_expired(8, 1) && !banner_expired(8, 0) && banner_expired(9, 0));
    assert!(banner_fading(3, 1) && !banner_fading(2, 999_999_999));
}

#[test]
fn new_resource_templates() {
    let mut w = NewResourceWindow::new();
    assert_eq!(w.resource_type, ResourceType::Blank);
    w.fill_if_empty();
    assert_eq!(w.content, "");
    w.resource_type = ResourceType::Pod;
    w.fill_if_empty();
    assert_eq!(w.content, POD_TEMPLATE);
    w.content = s("edited");
    w.fill_if_empty();
    assert_eq!(w.content, "edited");
    w.resource_type = ResourceType::RoleBinding;
    w.content.clear();
    w.fill_if_empty();
    assert_eq!(w.content, CLUSTER_ROLE_BINDING_TEMPLATE);
    w.pick(ResourceType::RoleBinding);
    assert_eq!(w.content, ROLE_BINDING_TEMPLATE);
    w.pick(ResourceType::ClusterRoleBinding);
    assert_eq!(w.content, CLUSTER_ROLE_TEMPLATE);
    w.show = true;
    let (yaml, kind) = w.apply();
    assert_eq!((yaml.as_str(), kind), (CLUSTER_ROLE_TEMPLATE, ResourceType::ClusterRoleBinding));
    assert!(!w.show);
    assert_eq!(resource_type_label(ResourceType::ConfigMap), "Configmap");
    assert_eq!(resource_type_label(ResourceType::PodWithPvc), "Pod with PVC");
    let choices = resource_type_choices();
    assert_eq!(choices[0], ResourceType::NameSpace);
    assert_eq!(choices[17], ResourceType::Blank);
}

#[test]
fn converter_fields_after_edits() {
    let mut w = ResConverterWindow::default();
    assert_eq!(w.requests.cpu_milli, "1000m");
    assert_eq!(w.limits.mem_ki, "2097152Ki");
    w.update_preview();
    assert_eq!(
        w.yaml_preview,
        "resources:\n  requests:\n    cpu: \"1\"\n    memory: \"1Gi\"\n  limits:\n    cpu: \"2\"\n    memory: \"2Gi\"\n"
    );
    w.requests.cpu_cores = s(" 2 ");
    w.requests.cpu_cores_changed(s("2000m"));
    assert_eq!((w.requests.cpu_milli.as_str(), w.requests.cpu.as_str()), ("2000m", "2"));
    w.requests.cpu_milli = s("abc");
    w.requests.cpu_milli_changed(s("invalid"));
    assert_eq!(w.requests.cpu, "0m");
    w.limits.mem_mi = s("512");
    w.limits.mem_mi_changed(s("524288Ki"), s("0.500Gi"));
    assert_eq!((w.limits.mem.as_str(), w.limits.mem_ki.as_str()), ("512Mi", "524288Ki"));
    w.limits.mem_gi = s("");
    w.limits.mem_gi_changed(s("0Ki"), s("0Mi"));
    assert_eq!(w.limits.mem, "0Gi");
    w.requests.mem_ki = s("1024Ki");
    w.requests.mem_ki_changed(s("1.000Mi"), s("0.000977Gi"));
    assert_eq!(w.requests.mem, "1024KiKi");
}

#[test]
fn converter_cleans_numbers() {
    assert_eq!(clean_value(" 512Mi ", "Mi"), "512");
    assert_eq!(clean_value("1Gi2Gi", "Gi"), "12");
    assert_eq!(clean_value("  3 ", ""), "3");
    assert_eq!(clean_value("m", "m"), "");
}

fn spans(text: &str, search: &str) -> Vec<Span> {
    yaml_patterns(search).yaml_spans(text)
}

#[test]
fn yaml_colouring() {
    let v = spans("name: \"x\" # c\n", "");
    let got: Vec<(usize, usize, Style, bool)> = v.iter().map(|s| (s.start, s.end, s.style, s.found)).collect();
    assert_eq!(
        got,
        vec![
            (0, 6, Style::Key, false),
            (6, 9, Style::Quoted, false),
            (9, 10, Style::Normal, false),
            (10, 13, Style::Comment, false),
            (13, 14, Style::Normal, false),
        ]
    );
    let n = spans("- 42", "");
    let got: Vec<(usize, usize, Style)> = n.iter().map(|s| (s.start, s.end, s.style)).collect();
    assert_eq!(got, vec![(0, 2, Style::Normal), (2, 4, Style::Number)]);
    assert!(spans("", "").is_empty());
}

#[test]
fn yaml_search_highlight() {
    let v = spans("a: Bob bob", "BOB");
    let got: Vec<(usize, usize, Style, bool)> = v.iter().map(|s| (s.start, s.end, s.style, s.found)).collect();
    assert_eq!(
        got,
        vec![(0, 3, Style::Key, false), (3, 6, Style::Normal, true), (6, 7, Style::Normal, false), (7, 10, Style::Normal, true)]
    );
}

#[test]
fn gemini_replies() {
    match gemini_step(GeminiReply::ApiError(s("bad key"))) {
        GeminiStep::Fail(m) => assert_eq!(m, "API Error: bad key"),
        _ => panic!("an API error did not fail"),
    }
    let parts = vec![
        ReplyPart { text: Some(s("first")), function_call: None },
        ReplyPart { text: None, function_call: Some(s("ping_host")) },
    ];
    let reply = GeminiReply::Candidates(Some(vec![ReplyCandidate { parts: Some(parts) }]));
    match gemini_step(reply) {
        GeminiStep::CallTool(n) => assert_eq!(n, "ping_host"),
        _ => panic!("the last part's call was not made"),
    }
    let answered = GeminiReply::Candidates(Some(vec![
        ReplyCandidate { parts: None },
        ReplyCandidate { parts: Some(vec![ReplyPart { text: Some(s("42")), function_call: Some(s("x")) }]) },
    ]));
    match gemini_step(answered) {
        GeminiStep::Answer(a) => assert_eq!(a, "42"),
        _ => panic!("the text was not the answer"),
    }
    match gemini_step(GeminiReply::Candidates(Some(vec![ReplyCandidate { parts: Some(vec![]) }]))) {
        GeminiStep::Fail(m) => assert_eq!(m, "No answer or invalid response part"),
        _ => panic!("an empty reply did not fail"),
    }
    match gemini_step(GeminiReply::Candidates(None)) {
        GeminiStep::Fail(m) => assert_eq!(m, "No answer or invalid response part"),
        _ => panic!("a reply without candidates did not fail"),
    }
}

#[test]
fn bedrock_replies() {
    let blocks = vec![ReplyBlock::Text(s("a")), ReplyBlock::Other, ReplyBlock::Text(s("b"))];
    match bedrock_step(&blocks) {
        BedrockStep::Answer(t) => assert_eq!(t, "ab"),
        BedrockStep::RunTools(_) => panic!("no tool was asked for"),
    }
    let tools = vec![ReplyBlock::Text(s("a")), ReplyBlock::ToolUse, ReplyBlock::ToolUse];
    match bedrock_step(&tools) {
        BedrockStep::RunTools(p) => assert_eq!(p, vec![1, 2]),
        BedrockStep::Answer(_) => panic!("the tools were not run"),
    }
    assert_eq!(tool_panic_message("join"), "Tool execution panicked: join");
}

#[test]
fn custom_resource_rows() {
    let now = (1704164735i64, 0u32);
    let f = SecretStoreFields {
        message: Some(s("ok")),
        reason: None,
        condition_type: Some(s("Ready")),
        status: Some(s("True")),
        capabilities: None,
        created: Some(s("2024-01-02T03:04:05Z")),
    };
    let r = cluster_secret_store_row(&s("vault"), &f, now);
    assert_eq!(r.cells, vec![s("vault"), s("ok"), s("-"), s("Ready"), s("True"), s("-"), s("1m 30s")]);
    assert_eq!(r.status_color, ItemColor::Green);
    let e = ExternalSecretFields {
        namespace: Some(s("a")),
        store_type: Some(s("ClusterSecretStore")),
        refresh_interval: None,
        condition_type: None,
        reason: None,
        created: None,
    };
    let r = external_secret_row(&s("sec"), &e, now);
    assert_eq!(&r.cells[..6], &[s("sec"), s("a"), s("ClusterSecretStore"), s("-"), s("-"), s("-")]);
    assert!(r.cells[6].starts_with("54y "));
    assert_eq!(r.status_color, ItemColor::LightGray);
    let v = VirtualServiceFields { namespace: None, gateway: Some(s("gw")), host: Some(s("h")), created: Some(s("2024-01-02T03:04:00Z")) };
    assert_eq!(virtual_service_row(&s("vs"), &v, now), vec![s("vs"), s("-"), s("gw"), s("h"), s("1m 35s")]);
    let p = IpPoolFields {
        created: Some(s("2024-01-02T03:04:05Z")),
        allow_first_last_ips: None,
        blocks: Some(vec![
            IpBlock { cidr: Some(s("10.0.0.0/24")), start: None, stop: None },
            IpBlock { cidr: None, start: Some(s("10.1.0.1")), stop: Some(s("10.1.0.9")) },
            IpBlock { cidr: None, start: Some(s("x")), stop: None },
        ]),
        disabled: true,
    };
    assert_eq!(
        ip_pool_row(&s("pool"), &p, now),
        vec![s("pool"), s("1m 30s"), s("-"), s("10.0.0.0/24, 10.1.0.1 - 10.1.0.9, ?"), s("Yes")]
    );
    let q = IpPoolFields { created: None, allow_first_last_ips: Some(s("No")), blocks: Some(vec![]), disabled: false };
    let row = ip_pool_row(&s("p2"), &q, now);
    assert_eq!((row[2].as_str(), row[3].as_str(), row[4].as_str()), ("No", "-", "No"));
}

#[test]
fn ai_window_and_tools() {
    let mut w = AiWindow::default();
    w.input = s("why?");
    assert_eq!(w.send(), Some(s("why?")));
    assert!(w.loading);
    assert_eq!(w.send(), None);
    w.answered(failure_answer("timeout"));
    assert_eq!(w.response, "Error: timeout");
    assert!(!w.loading);
    w.clear();
    assert!(w.input.is_empty() && w.response.is_empty());
    assert_eq!(ask_label(AiProvider::AmazonBedrock), "Ask Amazon Bedrock:");
    assert_eq!(all_ai_providers(), [AiProvider::Gemini, AiProvider::AmazonBedrock]);
    assert!(is_allowed_command("get") && !is_allowed_command("delete"));
    assert!(matches!(plan_tool_call("get_tool_definitions", None, None), Ok(ToolAction::ListTools)));
    match plan_tool_call("get_kubectl_info", Some(vec![s("delete"), s("pod")]), None) {
        Err(e) => assert_eq!(
            e.message(),
            "Command 'kubectl delete...' not allowed. Only read-only commands allowed: [\"get\", \"describe\", \"logs\", \"top\", \"version\", \"api-resources\", \"cluster-info\"]"
        ),
        Ok(_) => panic!("a write command was allowed"),
    }
    assert!(matches!(plan_tool_call("get_kubectl_info", Some(vec![s("get"), s("-f")]), None), Err(ToolError::FileFlag)));
    assert!(matches!(plan_tool_call("get_kubectl_info", Some(vec![]), None), Err(ToolError::EmptyArgs)));
    assert_eq!(tools_url("http://h:8080//"), "http://h:8080/api/v1/tools");
    assert_eq!(tool_url("http://h", "t"), "http://h/api/v1/tools/t");
    assert_eq!(gemini_request_url("https://g/x", "K"), "https://g/x?key=K");
}

#[test]
fn version_lookup() {
    assert_eq!(parse_k8s_minor(" v1.34.1 "), Some(34));
    assert_eq!(parse_k8s_minor("1"), None);
    let mut f = KubernetesVersionFetcher::new();
    assert_eq!(f.get_version(), None);
    assert_eq!(f.on_fetch(ReleaseFetch::Failed), FetchStep::Retry { wait_secs: RETRY_SECS });
    assert_eq!(f.on_fetch(ReleaseFetch::Found(s("v1.30.2"))), FetchStep::Stop { minor: Some(30) });
    assert_eq!(f.get_version(), Some(s("v1.30.2")));
}

#[test]
fn watch_cache_events() {
    let mut c: WatchCache<u32> = WatchCache::new();
    c.handle(WatchEvent::Apply(Some(Entry { name: s("a"), item: 1 })));
    assert!(c.entries().is_empty());
    c.handle(WatchEvent::Init);
    c.handle(WatchEvent::InitApply(Some(Entry { name: s("a"), item: 1 })));
    c.handle(WatchEvent::InitApply(Some(Entry { name: s("b"), item: 2 })));
    c.handle(WatchEvent::InitDone);
    let names: Vec<&str> = c.entries().iter().map(|e| e.name.as_str()).collect();
    assert_eq!(names, vec!["a", "b"]);
    c.handle(WatchEvent::Apply(Some(Entry { name: s("a"), item: 5 })));
    c.handle(WatchEvent::Delete(Some(s("b"))));
    let now: Vec<(&str, u32)> = c.entries().iter().map(|e| (e.name.as_str(), e.item)).collect();
    assert_eq!(now, vec![("a", 5)]);
}

#[test]
fn log_buffer_and_window() {
    assert_eq!(initial_log_buffer("x"), "x\n");
    assert_eq!(append_log_line("a\nb\n", "c", 2), "b\nc\n");
    assert_eq!(append_log_line("", "c", 5), "c\n");
    assert_eq!(log_view_rows(10), 10);
    assert_eq!(log_view_rows(10_000), 600);
    let mut w = LogWindow::new();
    let first = w.open_for_pod(
        s("web"),
        s("ns"),
        vec![ContainerStatusItem { name: s("app"), state: None, message: None }],
    );
    assert_eq!(first, "app");
    assert!(w.follow_selection());
    assert!(!w.follow_selection());
    assert_eq!(w.export_file_name(), "ns_web_app.log");
}

#[test]
fn log_rules_are_counted() {
    let plugins = vec![Plugin {
        name: s("basic"),
        rules: vec![RuleSpec {
            id: s("oom"),
            title: Some(s("Out of memory")),
            patterns: vec![s("(?i)out of memory"), s("(")],
            level: Some(s("error")),
            message: None,
            recommendation: None,
            threshold: None,
            context_lines: Some(1),
        }],
    }];
    let found = analyze_log(&plugins, "ok\nOut of memory\nfine\nout of MEMORY again\n");
    assert_eq!(found.len(), 1);
    assert_eq!(found[0].matches, 2);
    assert_eq!(found[0].examples, vec![s("4: out of MEMORY again")]);
    let mut w = LogParserWindow::new();
    w.show_findings(found);
    assert!(w.show && w.filtered.len() == 1);
}

#[test]
fn log_export_report_and_notice() {
    let mut w = LogWindow::new();
    let at = std::time::Instant::now();
    w.export_done(Ok(s("\"/tmp/ns_web_app.log\"")), at);
    let (msg, when) = w.export_message.clone().unwrap();
    assert_eq!(msg, "✅ Exported to \"/tmp/ns_web_app.log\"");
    assert_eq!(when, at);
    assert!(is_success_message(&msg));
    w.age_export_message(3, 0);
    assert!(w.export_message.is_some());
    w.age_export_message(3, 1);
    assert!(w.export_message.is_none());
    w.export_done(Err(s("permission denied")), at);
    assert_eq!(w.export_message.clone().unwrap().0, "❌ Failed to export: permission denied");
    assert!(!is_success_message(&w.export_message.clone().unwrap().0));
    assert_eq!(shown_log_text(""), "log not found...");
    assert_eq!(shown_log_text("a\nb\n"), "a\nb\n");
    assert_eq!(shown_log_text("\n"), "\n");
}

#[test]
fn log_parser_window_content() {
    let mut w = LogParserWindow::new();
    match &w.window_lines()[..] {
        [Line::Item(text, Tone::Status(ItemColor::Green))] => {
            assert_eq!(text, "😎 Log parser didn't found anything in the log")
        }
        other => panic!("unexpected lines: {}", other.len()),
    }
    w.show_findings(vec![RuleStats {
        plugin: s("basic"),
        id: s("oom"),
        title: None,
        level: Some(s("Warning")),
        matches: 12,
        examples: vec![s("9: first kept"), s("3: second kept")],
        message: Some(s("Memory ran out")),
        recommendation: Some(s("Raise the limit")),
    }]);
    let lines = w.window_lines();
    assert_eq!(lines.len(), 9);
    assert!(matches!(&lines[0], Line::Field(l, v, Tone::Status(ItemColor::Orange)) if l == "Level:" && v == "Warning"));
    assert!(matches!(&lines[1], Line::Field(l, v, Tone::Detail) if l == "Occured:" && v == "12"));
    assert!(matches!(&lines[2], Line::Field(l, v, Tone::Detail) if l == "Desctiption:" && v == "Memory ran out"));
    assert!(matches!(&lines[3], Line::Separator));
    assert!(matches!(&lines[4], Line::Heading(h) if h == "Examples:"));
    assert!(matches!(&lines[5], Line::Item(e, Tone::Found) if e == "3: second kept"));
    assert!(matches!(&lines[6], Line::Item(e, Tone::Found) if e == "9: first kept"));
    assert!(matches!(&lines[7], Line::Field(l, v, Tone::Advice) if l == "Reccomendations:" && v == "Raise the limit"));
    assert!(matches!(&lines[8], Line::Separator));
}

#[test]
fn log_rule_patterns_are_regular_expressions() {
    let plugins = vec![Plugin {
        name: s("p"),
        rules: vec![RuleSpec {
            id: s("dot"),
            title: None,
            patterns: vec![s("a.")],
            level: None,
            message: None,
            recommendation: None,
            threshold: None,
            context_lines: None,
        }],
    }];
    let found = analyze_log(&plugins, "ab\nxyz\n");
    assert_eq!(found.len(), 1);
    assert_eq!(found[0].matches, 1);
    assert_eq!(found[0].examples, vec![s("1: ab")]);
}

#[test]
fn log_rule_threshold_decides_reporting() {
    let rule = |threshold: Option<u32>| RuleSpec {
        id: s("err"),
        title: None,
        patterns: vec![s("error"), s("ERR")],
        level: None,
        message: None,
        recommendation: None,
        threshold,
        context_lines: Some(0),
    };
    let log = "error one\nok\nERR and error\n";
    let found = analyze_log(&vec![Plugin { name: s("p"), rules: vec![rule(Some(3))] }], log);
    assert_eq!(found.len(), 1);
    assert_eq!(found[0].matches, 3);
    assert!(found[0].examples.is_empty());
    let found = analyze_log(&vec![Plugin { name: s("p"), rules: vec![rule(Some(4))] }], log);
    assert!(found.is_empty());
    let found = analyze_log(&vec![Plugin { name: s("p"), rules: vec![rule(None)] }], "nothing\n");
    assert!(found.is_empty());
}
