use infiltrator::describe::number;
use infiltrator::message::Message;
use infiltrator::model::{
    Connection, ConnectionSnapshot, MemoryData, ProxyEntry, ProxyHistory, Route, Rule,
    RuntimeConfig, ToastStatus, TrafficData, VersionInfo,
};
use infiltrator::proxies::sort_by_delay;
use infiltrator::state::AppState;
use infiltrator::view_model::{
    available_targets, connection_host, connection_order, current_global_node, delay_level,
    is_version_installed, matching_rule_indices, member_rows, rule_kind, rules_count_label,
    save_state, split_rule,
    tray_menu_items, DelayLevel, RuleKind, SaveState, TrafficChart,
};
use std::collections::VecDeque;

fn conn(id: &str, host: &str, ip: &str, download: u64) -> Connection {
    Connection {
        id: id.into(),
        network: "tcp".into(),
        host: host.into(),
        source_ip: "10.0.0.2".into(),
        destination_ip: ip.into(),
        destination_port: "443".into(),
        rule: "MATCH".into(),
        rule_payload: "".into(),
        upload: 0,
        download,
    }
}

#[test]
fn split_rule_cuts_at_the_first_two_commas() {
    assert_eq!(
        split_rule("DOMAIN-SUFFIX, google.com ,Proxy"),
        ("DOMAIN-SUFFIX".to_string(), "google.com".to_string(), "Proxy".to_string())
    );
    assert_eq!(
        split_rule("IP-CIDR,1.0.0.0/8,DIRECT,no-resolve"),
        ("IP-CIDR".to_string(), "1.0.0.0/8".to_string(), "DIRECT,no-resolve".to_string())
    );
    assert_eq!(split_rule("MATCH,Proxy"), ("MATCH".to_string(), "Proxy".to_string(), String::new()));
    assert_eq!(split_rule("  lonely  "), ("lonely".to_string(), String::new(), String::new()));
    assert_eq!(split_rule(""), (String::new(), String::new(), String::new()));
}

#[test]
fn delay_levels_at_their_thresholds() {
    assert_eq!(delay_level(0), DelayLevel::Fast);
    assert_eq!(delay_level(199), DelayLevel::Fast);
    assert_eq!(delay_level(200), DelayLevel::Medium);
    assert_eq!(delay_level(499), DelayLevel::Medium);
    assert_eq!(delay_level(500), DelayLevel::Slow);
}

#[test]
fn save_button_states() {
    assert_eq!(save_state(true, true), SaveState::Saving);
    assert_eq!(save_state(false, true), SaveState::Dirty);
    assert_eq!(save_state(false, false), SaveState::Saved);
}

#[test]
fn rule_kinds() {
    assert_eq!(rule_kind("DOMAIN-KEYWORD"), RuleKind::Domain);
    assert_eq!(rule_kind("GEOIP"), RuleKind::Address);
    assert_eq!(rule_kind("MATCH"), RuleKind::Other);
    assert_eq!(rule_kind("domain"), RuleKind::Other);
}

#[test]
fn connections_listed_by_download_largest_first() {
    let conns = vec![conn("a", "", "1.1.1.1", 10), conn("b", "x.com", "2.2.2.2", 30), conn("c", "y", "3.3.3.3", 10), conn("d", "", "4.4.4.4", 40)];
    assert_eq!(connection_order(&conns), vec![3, 1, 0, 2]);
    assert_eq!(connection_host(&conns[0]), "1.1.1.1");
    assert_eq!(connection_host(&conns[1]), "x.com");
}

#[test]
fn members_in_rows_of_three() {
    let members: Vec<String> = (0..7).map(|i| format!("n{}", i)).collect();
    let rows = member_rows(&members);
    assert_eq!(rows.len(), 3);
    assert_eq!(rows[0], vec!["n0", "n1", "n2"]);
    assert_eq!(rows[2], vec!["n6"]);
    assert!(member_rows(&Vec::new()).is_empty());
    assert_eq!(member_rows(&members[..6].to_vec()).len(), 2);
}

#[test]
fn targets_are_sorted_groups_then_direct_and_reject() {
    let ps = vec![
        ProxyEntry::group("Zeta", "Selector", "DIRECT", vec!["DIRECT".into()]),
        ProxyEntry::node("node", "Shadowsocks", Vec::new()),
        ProxyEntry::group("Alpha", "URLTest", "node", vec!["node".into()]),
        ProxyEntry::group("REJECT", "Selector", "node", vec!["node".into()]),
    ];
    assert_eq!(available_targets(&ps), vec!["Alpha", "REJECT", "Zeta", "DIRECT"]);
    assert_eq!(available_targets(&Vec::new()), vec!["DIRECT", "REJECT"]);
}

#[test]
fn global_node_and_installed_versions() {
    let ps = vec![ProxyEntry::group("GLOBAL", "Selector", "HK-1", vec!["HK-1".into()])];
    assert_eq!(current_global_node(&ps), "HK-1");
    assert_eq!(current_global_node(&Vec::new()), "Unknown");
    let kernels = vec![VersionInfo { version: "v1.19.0".into(), path: "/k".into(), is_default: true }];
    assert!(is_version_installed(&kernels, "v1.19.0"));
    assert!(!is_version_installed(&kernels, "v1.19.1"));
}

#[test]
fn rule_search_ignores_case() {
    let rules = vec![
        Rule { rule_type: "DOMAIN".into(), payload: "Google.com".into(), proxy: "Proxy".into(), size: 0 },
        Rule { rule_type: "GEOIP".into(), payload: "CN".into(), proxy: "DIRECT".into(), size: 0 },
    ];
    assert_eq!(matching_rule_indices(&rules, "google"), vec![0]);
    assert_eq!(matching_rule_indices(&rules, "direct"), vec![1]);
    assert_eq!(matching_rule_indices(&rules, ""), vec![0, 1]);
    assert!(matching_rule_indices(&rules, "nothing").is_empty());
}

#[test]
fn sidebar_marks_the_current_page() {
    let (mut state, _) = AppState::with_environment("en-US".into(), false, false, false);
    state.current_route = Route::Dns;
    let items = state.nav_items();
    assert_eq!(items.len(), 8);
    assert_eq!(items[0].route, Route::Overview);
    assert_eq!(items[5].route, Route::Dns);
    assert!(items[5].active);
    assert_eq!(items.iter().filter(|i| i.active).count(), 1);
    let (zh, _) = AppState::with_environment("zh-CN".into(), false, false, false);
    assert_eq!(zh.nav_items()[1].label, "配置管理");
}

#[test]
fn messages_describe_themselves() {
    assert_eq!(Message::StartProxy.describe(), "StartProxy");
    assert_eq!(Message::UpdateWebDavPass("secret".into()).describe(), "UpdateWebDavPass(***)");
    assert_eq!(Message::Navigate(Route::Rules).describe(), "Navigate(Rules)");
    assert_eq!(Message::SetTunEnabled(true).describe(), "SetTunEnabled(true)");
    assert_eq!(Message::RemoveDnsServer(3).describe(), "RemoveDnsServer(3)");
    assert_eq!(Message::ProxyStarted(Ok(())).describe(), "ProxyStarted(Ok)");
    assert_eq!(Message::ProxyStarted(Err("boom".into())).describe(), "ProxyStarted(Err(boom))");
    assert_eq!(Message::ProfilesLoaded(Ok(Vec::new())).describe(), "ProfilesLoaded(Ok(0 profiles))");
    assert_eq!(
        Message::TrafficReceived(TrafficData { up: 1, down: 22 }).describe(),
        "TrafficReceived(up: 1, down: 22)"
    );
    assert_eq!(
        Message::MemoryReceived(MemoryData { in_use: 5, os_limit: 0 }).describe(),
        "MemoryReceived(in_use: 5, os_limit: 0)"
    );
    assert_eq!(
        Message::IpInfoReceived(Ok("1.2.3.4".into()), 7).describe(),
        "IpInfoReceived(Ok(1.2.3.4), taskId: 7)"
    );
    assert_eq!(
        Message::ConnectionsReceived(ConnectionSnapshot { connections: Vec::new() }).describe(),
        "ConnectionsReceived(0 connections)"
    );
    assert_eq!(Message::CoreDownloadProgress(1234).describe(), "CoreDownloadProgress(12.34%)");
    assert_eq!(Message::CoreDownloadProgress(5).describe(), "CoreDownloadProgress(0.05%)");
    assert_eq!(Message::ProxyTested("A".into(), Ok(80)).describe(), "ProxyTested(A, Ok(80ms))");
    assert_eq!(
        Message::ShowToast("hi".into(), ToastStatus::Warning).describe(),
        "ShowToast(hi, Warning)"
    );
    assert_eq!(
        Message::RuntimeConfigFetched(Ok(RuntimeConfig {
            mode: "rule".into(),
            tun_enabled: false,
            dns_nameservers: vec!["1.1.1.1".into()],
            dns_fallback: Vec::new(),
            dns_enhanced_mode: "fake-ip".into(),
            tun_stack: "gvisor".into(),
            tun_auto_route: true,
            tun_strict_route: false,
            sniffer_enabled: true,
        }))
        .describe(),
        "RuntimeConfigFetched(rule, false, 1 DNS, 0 FB, fake-ip, gvisor, true, false, true)"
    );
    assert_eq!(
        Message::UpdateDnsServer(0, "8.8.8.8".into()).describe(),
        "UpdateDnsServer(0, 8.8.8.8)"
    );
}

#[test]
fn numbers_in_decimal() {
    assert_eq!(number(0), "0");
    assert_eq!(number(10), "10");
    assert_eq!(number(u64::MAX), "18446744073709551615");
}

#[test]
fn nodes_without_history_sort_last() {
    let ps = vec![
        ProxyEntry::node("slow", "Vmess", vec![ProxyHistory { time: "t".into(), delay: 900 }]),
        ProxyEntry::node("new", "Vmess", Vec::new()),
        ProxyEntry::node("fast", "Vmess", vec![ProxyHistory { time: "t".into(), delay: 900 }, ProxyHistory { time: "u".into(), delay: 20 }]),
    ];
    let members = vec!["new".to_string(), "slow".to_string(), "fast".to_string(), "gone".to_string()];
    assert_eq!(sort_by_delay(&ps, &members), vec!["fast", "slow", "new", "gone"]);
}

#[test]
fn chart_scale_has_a_floor_and_a_default() {
    assert_eq!(TrafficChart::new(VecDeque::new()).scale(), 1048576);
    let small: VecDeque<(u64, u64)> = vec![(10, 20), (5, 1)].into();
    assert_eq!(TrafficChart::new(small).scale(), 102400);
    let big: VecDeque<(u64, u64)> = vec![(10, 2_000_000), (3_000_000, 1)].into();
    let chart = TrafficChart::new(big);
    assert_eq!(chart.scale(), 3_000_000);
    assert!(chart.can_draw());
    assert!(!TrafficChart::new(vec![(1, 1)].into()).can_draw());
}

#[test]
fn every_tray_item_is_understood() {
    let (mut state, _) = AppState::new();
    let items = tray_menu_items();
    assert_eq!(items.len(), 9);
    assert_eq!(items[0], ("show".to_string(), "显示主界面".to_string()));
    let ids: Vec<&str> = items.iter().map(|(i, _)| i.as_str()).collect();
    assert_eq!(
        ids,
        vec![
            "show", "mode_rule", "mode_global", "mode_direct", "mode_script",
            "toggle_system_proxy", "toggle_tun", "toggle_theme", "quit"
        ]
    );
    for (id, _) in items {
        assert_eq!(state.update(Message::MenuEvent(id)).len(), 1);
    }
}

#[test]
fn split_rule_reads_back_a_custom_rule_line() {
    let (t, p, g) = ("DOMAIN-SUFFIX", "example.com", "Proxy, with comma");
    let line = format!("{},{},{}", t, p, g);
    assert_eq!(split_rule(&line), (t.to_string(), p.to_string(), g.to_string()));
}

#[test]
fn rules_page_counts_shown_rules() {
    assert_eq!(rules_count_label(2, 5), "(2 / 5)");
    assert_eq!(rules_count_label(0, 0), "(0 / 0)");
    assert_eq!(rules_count_label(123, 4567), "(123 / 4567)");
}

#[test]
fn rule_rows_move_within_the_list() {
    assert_eq!(infiltrator::view_model::rule_move_buttons(0, 3), (false, true));
    assert_eq!(infiltrator::view_model::rule_move_buttons(1, 3), (true, true));
    assert_eq!(infiltrator::view_model::rule_move_buttons(2, 3), (true, false));
    assert_eq!(infiltrator::view_model::rule_move_buttons(0, 1), (false, false));
}

#[test]
fn core_states_have_texts() {
    assert_eq!(infiltrator::view_model::status_key(&infiltrator::model::RuntimeStatus::Error("x".into())), "status_error");
    assert_eq!(infiltrator::view_model::status_key(&infiltrator::model::RuntimeStatus::Running), "status_running");
}
