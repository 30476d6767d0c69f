use rustlens::listing::{
    default_sort_preferences, header_clicked, matches_filter, recent_positions, shown_entries,
    sorted_order, visible_in_namespace, ListKey, SortBy, SortState,
};
use rustlens::overview::{
    age_text, compute_overview_stats, exit_code_text, format_age, item_color, keep_or_previous,
    seconds_between, DeploymentState, ExitTone, ItemColor, PodState, ReplicaState,
};

fn key(name: &str, created: Option<(i64, u32)>) -> ListKey {
    ListKey { name: name.to_string(), created }
}

#[test]
fn header_click_toggles_and_switches() {
    let s = SortState { by: SortBy::Age, asc: false };
    assert_eq!(header_clicked(s, SortBy::Age), SortState { by: SortBy::Age, asc: true });
    assert_eq!(header_clicked(s, SortBy::Name), SortState { by: SortBy::Name, asc: true });
    let twice = header_clicked(header_clicked(s, SortBy::Age), SortBy::Age);
    assert_eq!(twice, s);
}

#[test]
fn default_sorting() {
    let p = default_sort_preferences();
    assert_eq!(p.nodes, SortState { by: SortBy::Name, asc: true });
    assert_eq!(p.pods, SortState { by: SortBy::Age, asc: false });
    assert_eq!(p.pvs, SortState { by: SortBy::Age, asc: false });
    assert_eq!(p.pvcs, SortState { by: SortBy::Age, asc: false });
    assert_eq!(p.namespaces, SortState { by: SortBy::Name, asc: false });
}

#[test]
fn sort_by_name_both_ways_is_stable() {
    let keys = vec![key("b", None), key("a", None), key("b", None), key("A", None), key("ab", None)];
    let asc = sorted_order(&keys, SortState { by: SortBy::Name, asc: true });
    assert_eq!(asc, vec![3, 1, 4, 0, 2]);
    let desc = sorted_order(&keys, SortState { by: SortBy::Name, asc: false });
    assert_eq!(desc, vec![0, 2, 4, 1, 3]);
}

#[test]
fn sort_by_age_unknown_first() {
    let keys = vec![
        key("x", Some((100, 5))),
        key("y", None),
        key("z", Some((100, 1))),
        key("w", Some((50, 999))),
    ];
    let asc = sorted_order(&keys, SortState { by: SortBy::Age, asc: true });
    assert_eq!(asc, vec![1, 3, 2, 0]);
    let desc = sorted_order(&keys, SortState { by: SortBy::Age, asc: false });
    assert_eq!(desc, vec![0, 2, 3, 1]);
    assert_eq!(sorted_order(&Vec::new(), SortState { by: SortBy::Age, asc: true }), Vec::<usize>::new());
}

#[test]
fn namespace_selection() {
    let ns = vec![Some("a".to_string()), None, Some("b".to_string()), Some("a".to_string())];
    assert_eq!(visible_in_namespace(&ns, &Some("a".to_string())), vec![0, 3]);
    assert_eq!(visible_in_namespace(&ns, &None), vec![0, 1, 2, 3]);
    assert_eq!(visible_in_namespace(&ns, &Some("c".to_string())), Vec::<usize>::new());
}

#[test]
fn text_filter() {
    assert!(matches_filter("nginx-7d", ""));
    assert!(matches_filter("nginx-7d", "x-7"));
    assert!(!matches_filter("nginx-7d", "X-7"));
    let names = vec!["api".to_string(), "web-API".to_string(), "apix".to_string()];
    let order = vec![2, 1, 0];
    assert_eq!(shown_entries(&names, &order, "API"), vec![2, 0]);
    assert_eq!(shown_entries(&names, &order, ""), vec![2, 1, 0]);
    assert_eq!(shown_entries(&names, &vec![7, 0], "a"), vec![0]);
}

#[test]
fn most_recent_first() {
    assert_eq!(recent_positions(5, 3), vec![4, 3, 2]);
    assert_eq!(recent_positions(2, 200), vec![1, 0]);
    assert_eq!(recent_positions(0, 200), Vec::<usize>::new());
}

#[test]
fn overview_counts() {
    let pods = vec![
        PodState { ready_containers: 1, total_containers: 1 },
        PodState { ready_containers: 0, total_containers: 2 },
        PodState { ready_containers: 2, total_containers: 2 },
    ];
    let deployments = vec![DeploymentState { unavailable_replicas: 1 }, DeploymentState { unavailable_replicas: 0 }];
    let daemonsets = vec![ReplicaState { ready: 1, desired: 3 }, ReplicaState { ready: 2, desired: 2 }];
    let statefulsets = vec![ReplicaState { ready: 0, desired: 1 }];
    let replicasets = vec![ReplicaState { ready: 3, desired: 3 }, ReplicaState { ready: 4, desired: 3 }];
    let s = compute_overview_stats(&pods, &deployments, &daemonsets, &statefulsets, &replicasets);
    assert_eq!(s.pods_running, 2);
    assert_eq!(s.pods_pending, 2);
    assert_eq!(s.deployments_pending, 1);
    assert_eq!(s.deployments_running, 1);
    assert_eq!(s.daemonsets_running, 1);
    assert_eq!(s.daemonsets_pending, 0);
    assert_eq!(s.statefulsets_running, 0);
    assert_eq!(s.statefulsets_pending, 1);
    assert_eq!(s.replicasets_running, 2);
    assert_eq!(s.replicasets_pending, 0);
}

#[test]
fn previous_values_are_kept() {
    assert_eq!(keep_or_previous(Some(1.5f32), Some(2.0f32)), Some(1.5f32));
    assert_eq!(keep_or_previous(None, Some(2u32)), Some(2u32));
    assert_eq!(keep_or_previous::<u32>(None, None), None);
}

#[test]
fn ages_in_two_units() {
    assert_eq!(age_text(42), "42s");
    assert_eq!(age_text(-3), "-3s");
    assert_eq!(age_text(60), "1m 0s");
    assert_eq!(age_text(303), "5m 3s");
    assert_eq!(age_text(7800), "2h 10m");
    assert_eq!(age_text(273600), "3d 4h");
    assert_eq!(age_text(31536000 + 12 * 86400 + 5), "1y 12d");
}

#[test]
fn whole_seconds_round_toward_zero() {
    assert_eq!(seconds_between(10, 900_000_000, 15, 100_000_000), 4);
    assert_eq!(seconds_between(15, 100_000_000, 10, 900_000_000), -4);
    assert_eq!(seconds_between(0, 0, 60, 0), 60);
}

#[test]
fn age_of_the_epoch_is_in_years() {
    let a = format_age(0, 0);
    assert!(a.ends_with('d'));
    assert!(a.contains("y "));
}

#[test]
fn status_colours() {
    assert_eq!(item_color("Running"), ItemColor::Green);
    assert_eq!(item_color("Burstable"), ItemColor::Rgb(137, 90, 9));
    assert_eq!(item_color("RO"), ItemColor::Rgb(6, 140, 0));
    assert_eq!(item_color("Waiting"), ItemColor::Yellow);
    assert_eq!(item_color("Progressing"), ItemColor::LightBlue);
    assert_eq!(item_color("Lost"), ItemColor::LightRed);
    assert_eq!(item_color("SchedulingDisabled"), ItemColor::Orange);
    assert_eq!(item_color("Released"), ItemColor::Gray);
    assert_eq!(item_color("Available"), ItemColor::LightGreen);
    assert_eq!(item_color("running"), ItemColor::LightGray);
    assert_eq!(item_color(""), ItemColor::LightGray);
}

#[test]
fn exit_code_meanings() {
    assert_eq!(exit_code_text(0), ("0 - Succes".to_string(), ExitTone::Normal));
    assert_eq!(exit_code_text(137), ("137 - Killed by OOM".to_string(), ExitTone::Error));
    assert_eq!(exit_code_text(143), ("143 - Terminated by Signal".to_string(), ExitTone::Warning));
    assert_eq!(exit_code_text(-1), ("-1 - Unknown exit code".to_string(), ExitTone::Warning));
}
