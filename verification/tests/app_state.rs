use infiltrator::locales::{Lang, Localizer};
use infiltrator::message::{Command, ConfigPatch, Message, PatchReply};
use infiltrator::model::{
    Profile, ProxyEntry, ProxyHistory, Route, Rule, RuntimeConfig, ThemeMode, ToastStatus,
    TrafficData, TrayEvent,
};
use infiltrator::proxies::{find_proxy, group_members, sort_by_delay, unique_by_name};
use infiltrator::state::AppState;
use infiltrator::update_core::cancels_background_work;

#[test]
fn test_route_navigation() {
    let (mut state, _) = AppState::new();
    assert_eq!(state.current_route, Route::Overview);

    let _ = state.update(Message::Navigate(Route::Runtime));
    assert_eq!(state.current_route, Route::Runtime);

    let _ = state.update(Message::Navigate(Route::Settings));
    assert_eq!(state.current_route, Route::Settings);
}

#[test]
fn test_proxy_lifecycle_messages() {
    let (mut state, _) = AppState::new();

    // Test Start
    let _ = state.update(Message::StartProxy);
    assert!(state.is_starting());
    assert!(state.error_msg.is_none());

    // Test ProxyStarted Error
    let _ = state.update(Message::ProxyStarted(Err("Failed to bind port".into())));
    assert!(!state.is_starting());
    assert_eq!(state.error_msg.as_ref().unwrap(), "Failed to bind port");

    // Test ProxyStopped cleanup
    state.traffic = Some(TrafficData { up: 100, down: 100 });
    state.proxy_mode = Some("rule".into());
    state.logs.push_back("some log".into());

    let _ = state.update(Message::ProxyStopped);
    assert!(state.traffic.is_none());
    assert!(state.proxy_mode.is_none());
    assert!(state.logs.is_empty());
}

#[test]
fn test_runtime_config_sync() {
    let (mut state, _) = AppState::new();

    // Simulate config fetch
    let _ = state.update(Message::RuntimeConfigFetched(Ok(RuntimeConfig {
        mode: "global".into(),
        tun_enabled: true,
        dns_nameservers: vec!["1.1.1.1".into()],
        dns_fallback: vec!["8.8.8.8".into()],
        dns_enhanced_mode: "fake-ip".into(),
        tun_stack: "gvisor".into(),
        tun_auto_route: true,
        tun_strict_route: false,
        sniffer_enabled: true,
    })));

    assert_eq!(state.proxy_mode.as_ref().unwrap(), "global");
    assert!(state.tun_enabled.unwrap());
    assert_eq!(state.dns_nameservers[0], "1.1.1.1");
}

#[test]
fn test_mode_set_interactions() {
    let (mut state, _) = AppState::new();

    // Success path (should trigger a re-fetch)
    let _task = state.update(Message::ModeSetResult(Ok(())));
    assert!(state.error_msg.is_none());

    // Failure path
    let _ = state.update(Message::ModeSetResult(Err("Core busy".into())));
    assert_eq!(state.error_msg.as_ref().unwrap(), "Core busy");
}

#[test]
fn test_log_buffer_limit_and_queue() {
    let (mut state, _) = AppState::new();
    for i in 0..600 {
        let _ = state.update(Message::LogReceived(format!("log line {}", i)));
    }
    assert_eq!(state.logs.len(), 500);
    assert_eq!(state.logs.front().unwrap(), "log line 100");
}

#[test]
fn test_traffic_throttling_logic() {
    let (mut state, _) = AppState::new();
    let _ = state.update(Message::TrafficReceived(TrafficData { up: 1000, down: 1000 }));
    assert_eq!(state.traffic.as_ref().unwrap().up, 1000);

    // No throttling currently implemented
    let _ = state.update(Message::TrafficReceived(TrafficData { up: 1500, down: 1500 }));
    assert_eq!(state.traffic.as_ref().unwrap().up, 1500);

    // Updated
    let _ = state.update(Message::TrafficReceived(TrafficData { up: 3000, down: 3000 }));
    assert_eq!(state.traffic.as_ref().unwrap().up, 3000);
}

#[test]
fn test_dns_server_list_manipulation() {
    let (mut state, _) = AppState::new();
    state.dns_nameservers = vec!["old".into()];

    let _ = state.update(Message::UpdateDnsServer(0, "new".into()));
    assert_eq!(state.dns_nameservers[0], "new");

    let _ = state.update(Message::AddDnsServer);
    assert_eq!(state.dns_nameservers.len(), 2);

    let _ = state.update(Message::AddDnsServerTemplate("https://1.1.1.1/dns-query".into()));
    assert_eq!(state.dns_nameservers.len(), 3);
    assert_eq!(state.dns_nameservers[2], "https://1.1.1.1/dns-query");

    let _ = state.update(Message::RemoveDnsServer(0));
    assert_eq!(state.dns_nameservers.len(), 2);
    assert_eq!(state.dns_nameservers[0], "");

    // Fallbacks
    let _ = state.update(Message::AddFallbackDnsServer);
    assert_eq!(state.dns_fallback_servers.len(), 1);

    let _ = state.update(Message::UpdateFallbackDnsServer(0, "8.8.8.8".into()));
    assert_eq!(state.dns_fallback_servers[0], "8.8.8.8");

    let _ = state.update(Message::RemoveFallbackDnsServer(0));
    assert_eq!(state.dns_fallback_servers.len(), 0);
}

#[test]
fn test_system_integration_states() {
    let (mut state, _) = AppState::new();

    // System Proxy toggle
    state.switches.system_proxy_enabled = false;
    let _ = state.update(Message::SetSystemProxy(true));
    assert!(state.switches.system_proxy_enabled);

    // Rollback on error
    let _ = state.update(Message::SystemProxySet(Err("Access denied".into())));
    assert!(!state.switches.system_proxy_enabled, "Should rollback on failure");
    assert_eq!(state.error_msg.as_ref().unwrap(), "Access denied");

    // Autostart
    state.switches.autostart_enabled = false;
    let _ = state.update(Message::SetAutostart(true));
    assert!(state.switches.autostart_enabled);

    let _ = state.update(Message::AutostartSet(Err("Registry lock".into())));
    assert!(!state.switches.autostart_enabled, "Should rollback autostart on failure");
}

#[test]
fn test_profiles_and_rules_loading() {
    let (mut state, _) = AppState::new();

    // Profiles loaded
    let _ = state.update(Message::ProfilesLoaded(Ok(vec![Profile::new(
        "test".into(),
        "test.yaml".into(),
        true,
    )])));
    assert_eq!(state.profiles.len(), 1);
    assert!(!state.is_loading_profiles);

    // Rules loaded
    let _ = state.update(Message::RulesLoaded(Ok(vec![Rule {
        rule_type: "Direct".into(),
        payload: "local".into(),
        proxy: "Direct".into(),
        size: 0,
    }])));
    assert_eq!(state.rules.len(), 1);
}

#[test]
fn test_editor_actions() {
    let (mut state, _) = AppState::new();

    // Simulate successful load
    let _ = state.update(Message::ProfileContentLoaded(Ok((
        "config.yaml".into(),
        "proxies: []".into(),
    ))));
    assert_eq!(state.editor_path.as_ref().unwrap(), "config.yaml");
    assert_eq!(state.editor_text, "proxies: []");

    // Editor action (simulating typing an 'a' at the start)
    let typed = format!("a{}", state.editor_text);
    let _ = state.update(Message::EditorTextChanged(typed));
    assert_ne!(state.editor_text, "proxies: []");

    // Save success
    state.current_route = Route::Editor;
    let _ = state.update(Message::ProfileSaved(Ok(())));
    assert_eq!(state.current_route, Route::Editor);
}

#[test]
fn test_tray_and_exit() {
    let (mut state, _) = AppState::new();

    // Tray event shouldn't crash
    let _ = state.update(Message::TrayIconEvent(TrayEvent::Click));

    let _ = state.update(Message::MenuEvent("show".into()));
}

#[test]
fn test_i18n_fallback() {
    let lang = Lang("fr-FR"); // Unsupported
    assert_eq!(
        lang.tr("nav_profiles"),
        "配置管理",
        "Should fallback to ZH for unsupported locales"
    );
}

fn node(name: &str, delay: u32) -> ProxyEntry {
    ProxyEntry::node(
        name,
        "Shadowsocks",
        vec![ProxyHistory { time: "".into(), delay }],
    )
}

#[test]
fn test_proxy_filtering_and_sorting() {
    let (mut state, _) = AppState::new();
    let proxies = vec![
        // Group GLOBAL
        ProxyEntry::group(
            "GLOBAL",
            "Selector",
            "Proxy-A",
            vec!["Proxy-A".into(), "Proxy-B".into(), "Special".into()],
        ),
        // Node A (100ms)
        node("Proxy-A", 100),
        // Node B (50ms)
        node("Proxy-B", 50),
        // Node Special (200ms)
        node("Special", 200),
    ];

    state.proxies = proxies;

    // Test Search
    let _ = state.update(Message::FilterProxies("special".into()));
    assert_eq!(state.proxy_filter, "special");

    // Test Sort Toggle
    let _ = state.update(Message::ToggleProxySort);
    assert!(state.proxy_sort_by_delay);

    // Verification of logic (the filtering and sorting the proxies page uses)
    let global = &state.proxies[find_proxy(&state.proxies, "GLOBAL").unwrap()];
    let all = global.members.clone().unwrap();

    // Apply filter
    let members = group_members(&state.proxies, &all, &state.proxy_filter, false);
    assert_eq!(members.len(), 1);
    assert_eq!(members[0], "Special");

    // Apply sort (on all members)
    let all_members = sort_by_delay(&state.proxies, &all);

    assert_eq!(all_members[0], "Proxy-B"); // 50ms
    assert_eq!(all_members[1], "Proxy-A"); // 100ms
    assert_eq!(all_members[2], "Special"); // 200ms
}

#[test]
fn filtered_groups_follow_filter_and_sort() {
    let (mut state, _) = AppState::new();
    state.proxies = vec![
        node("Proxy-A", 100),
        ProxyEntry::group("Auto", "URLTest", "Proxy-A", vec!["Proxy-A".into()]),
        ProxyEntry::group(
            "GLOBAL",
            "Selector",
            "Proxy-A",
            vec!["Special".into(), "Proxy-A".into(), "Proxy-B".into()],
        ),
        node("Proxy-B", 50),
        node("Special", 200),
    ];
    let _ = state.update(Message::UpdateFilteredGroups);
    assert_eq!(state.filtered_groups.len(), 2);
    assert_eq!(state.filtered_groups[0].0, "GLOBAL");
    assert_eq!(state.filtered_groups[1].0, "Auto");

    let _ = state.update(Message::ToggleProxySort);
    let _ = state.update(Message::UpdateFilteredGroups);
    assert_eq!(state.filtered_groups[0].1, vec!["Proxy-B", "Proxy-A", "Special"]);

    let _ = state.update(Message::FilterProxies("SPEC".into()));
    let _ = state.update(Message::UpdateFilteredGroups);
    assert_eq!(state.filtered_groups.len(), 1);
    assert_eq!(state.filtered_groups[0].1, vec!["Special"]);
}

#[test]
fn starting_the_app_asks_for_settings_profiles_and_cores() {
    let (state, commands) = AppState::with_environment("en-US".into(), true, true, false);
    assert_eq!(commands.len(), 3);
    assert!(matches!(commands[0], Command::LoadSettings));
    assert!(matches!(commands[1], Command::ListProfiles));
    assert!(matches!(commands[2], Command::Dispatch(Message::LoadKernels)));
    assert!(state.is_admin && state.switches.system_proxy_enabled && !state.switches.autostart_enabled);
    assert_eq!(state.log_level, "info");
    assert_eq!(state.tun_stack, "gvisor");
    assert_eq!(state.theme, ThemeMode::Dark);
    assert_eq!(state.title(), "MusicFrog Infiltrator");
}

#[test]
fn log_keeps_the_newest_five_hundred_lines() {
    let (mut state, _) = AppState::new();
    for i in 0..501 {
        let c = state.update(Message::LogReceived(format!("{}", i)));
        assert!(matches!(c[0], Command::ScrollLogsToEnd));
    }
    assert_eq!(state.logs.len(), 500);
    assert_eq!(state.logs.front().unwrap(), "1");
    assert_eq!(state.logs.back().unwrap(), "500");
}

#[test]
fn traffic_history_keeps_sixty_samples() {
    let (mut state, _) = AppState::new();
    for i in 0..70u64 {
        let _ = state.update(Message::TrafficReceived(TrafficData { up: i, down: 2 * i }));
    }
    assert_eq!(state.traffic_history.len(), 60);
    assert_eq!(*state.traffic_history.front().unwrap(), (10, 20));
    assert_eq!(*state.traffic_history.back().unwrap(), (69, 138));
}

#[test]
fn stale_ip_replies_are_ignored() {
    let (mut state, _) = AppState::new();
    let c = state.update(Message::FetchIpInfo);
    assert!(matches!(c[0], Command::FetchPublicIp { task_id: 1 }));
    let _ = state.update(Message::StopProxy);
    let _ = state.update(Message::IpInfoReceived(Ok("1.2.3.4".into()), 1));
    assert!(state.public_ip.is_none());
    let _ = state.update(Message::IpInfoReceived(Ok("5.6.7.8".into()), 2));
    assert_eq!(state.public_ip.as_deref(), Some("5.6.7.8"));
    let _ = state.update(Message::IpInfoReceived(Err("timeout".into()), 2));
    assert_eq!(state.error_msg.as_deref(), Some("timeout"));
}

#[test]
fn proxy_start_success_loads_config_proxies_and_ip() {
    let (mut state, _) = AppState::new();
    let c = state.update(Message::ProxyStarted(Ok(())));
    assert!(state.has_runtime);
    assert_eq!(c.len(), 3);
    assert!(matches!(c[0], Command::Dispatch(Message::FetchRuntimeConfig)));
    assert!(matches!(c[1], Command::Dispatch(Message::LoadProxies)));
    assert!(matches!(c[2], Command::Dispatch(Message::FetchIpInfo)));
    let c = state.update(Message::LoadProxies);
    assert!(state.is_loading_proxies);
    assert!(matches!(c[0], Command::GetProxies));
}

#[test]
fn core_work_needs_a_running_core() {
    let (mut state, _) = AppState::new();
    assert!(state.update(Message::LoadProxies).is_empty());
    assert!(state.update(Message::SetProxyMode("rule".into())).is_empty());
    assert_eq!(state.proxy_mode.as_deref(), Some("rule"));
    assert!(state.update(Message::SaveDns).is_empty());
    assert!(!state.is_saving_dns);
    state.has_runtime = true;
    let c = state.update(Message::SetProxyMode("global".into()));
    match &c[0] {
        Command::PatchConfig { patch: ConfigPatch::Mode(m), reply } => {
            assert_eq!(m, "global");
            assert_eq!(*reply, PatchReply::ModeSet);
        },
        _ => panic!("expected a mode patch"),
    }
    state.dns_nameservers = vec!["1.1.1.1".into()];
    let c = state.update(Message::SaveDns);
    assert!(state.is_saving_dns);
    match &c[0] {
        Command::PatchConfig { patch: ConfigPatch::Dns { nameservers, .. }, reply } => {
            assert_eq!(nameservers, &vec!["1.1.1.1".to_string()]);
            assert_eq!(*reply, PatchReply::DnsSaved);
        },
        _ => panic!("expected a DNS patch"),
    }
}

#[test]
fn delay_results_become_notifications() {
    let (mut state, _) = AppState::new();
    let c = state.update(Message::ProxyTested("Proxy-A".into(), Ok(123)));
    match &c[0] {
        Command::Dispatch(Message::ShowToast(text, status)) => {
            assert_eq!(text, "Proxy-A: 123ms");
            assert_eq!(*status, ToastStatus::Success);
        },
        _ => panic!("expected a notification"),
    }
    let c = state.update(Message::ProxyTested("Proxy-A".into(), Err("timeout".into())));
    match &c[0] {
        Command::Dispatch(Message::ShowToast(text, status)) => {
            assert_eq!(text, "Proxy-A: timeout");
            assert_eq!(*status, ToastStatus::Error);
        },
        _ => panic!("expected a notification"),
    }
}

#[test]
fn group_delay_test_measures_the_group_members() {
    let (mut state, _) = AppState::new();
    state.has_runtime = true;
    state.proxies = vec![ProxyEntry::group("G", "Selector", "a", vec!["a".into(), "b".into()])];
    let c = state.update(Message::TestGroupDelay("G".into()));
    match &c[0] {
        Command::TestDelays { proxies, url, timeout_ms } => {
            assert_eq!(proxies, &vec!["a".to_string(), "b".to_string()]);
            assert_eq!(url, "http://www.gstatic.com/generate_204");
            assert_eq!(*timeout_ms, 3000);
        },
        _ => panic!("expected delay tests"),
    }
    let c = state.update(Message::TestGroupDelay("missing".into()));
    assert!(matches!(&c[0], Command::TestDelays { proxies, .. } if proxies.is_empty()));
}

#[test]
fn toast_is_removed_at_its_scheduled_position() {
    let (mut state, _) = AppState::new();
    let c = state.update(Message::ShowToast("hello".into(), ToastStatus::Info));
    let index = match c[0] {
        Command::RemoveToastLater(i) => i,
        _ => panic!("expected a removal"),
    };
    assert_eq!(state.toasts.len(), 1);
    let _ = state.update(Message::RemoveToast(index));
    assert!(state.toasts.is_empty());
    let _ = state.update(Message::RemoveToast(7));
    assert!(state.toasts.is_empty());
}

#[test]
fn theme_toggles_back_and_forth() {
    let (mut state, _) = AppState::new();
    let _ = state.update(Message::ToggleTheme);
    assert_eq!(state.theme, ThemeMode::Light);
    let _ = state.update(Message::ToggleTheme);
    assert_eq!(state.theme, ThemeMode::Dark);
}

#[test]
fn tray_menu_items_become_messages() {
    let (mut state, _) = AppState::new();
    let c = state.update(Message::MenuEvent("proxy_GLOBAL_Node 1".into()));
    assert!(matches!(&c[0], Command::Dispatch(Message::SelectProxy(g, n)) if g == "GLOBAL" && n == "Node 1"));
    let c = state.update(Message::MenuEvent("toggle_tun".into()));
    assert!(matches!(&c[0], Command::Dispatch(Message::SetTunEnabled(true))));
    let c = state.update(Message::MenuEvent("mode_direct".into()));
    assert!(matches!(&c[0], Command::Dispatch(Message::SetProxyMode(m)) if m == "direct"));
    let c = state.update(Message::MenuEvent("mode_script".into()));
    assert!(matches!(&c[0], Command::Dispatch(Message::SetProxyMode(m)) if m == "script"));
    assert!(state.update(Message::MenuEvent("unknown".into())).is_empty());
}

#[test]
fn custom_rules_need_a_payload() {
    let (mut state, _) = AppState::new();
    state.new_rule_payload = "   ".into();
    let c = state.update(Message::AddCustomRule);
    assert!(matches!(&c[0], Command::Dispatch(Message::ShowToast(t, ToastStatus::Error)) if t == "Payload cannot be empty"));
    assert!(!state.is_adding_rule);
    state.new_rule_payload = " google.com ".into();
    let c = state.update(Message::AddCustomRule);
    assert!(matches!(&c[0], Command::AddRuleToCurrentProfile(line) if line == "DOMAIN,google.com,DIRECT"));
    assert!(state.is_adding_rule);
}

#[test]
fn import_needs_a_url() {
    let (mut state, _) = AppState::new();
    assert!(state.update(Message::ImportProfile).is_empty());
    let _ = state.update(Message::UpdateImportUrl("https://sub.example/x".into()));
    let c = state.update(Message::ImportProfile);
    assert!(matches!(&c[0], Command::ImportProfileFromUrl { name, url } if name == "Downloaded" && url == "https://sub.example/x"));
    let c = state.update(Message::ProfileImported(Ok(())));
    assert!(state.import_url.is_empty());
    assert_eq!(c.len(), 2);
}

#[test]
fn webdav_sync_ticks_only_with_address_and_user() {
    let (mut state, _) = AppState::new();
    assert!(state.update(Message::TickWebDavSync).is_empty());
    let _ = state.update(Message::UpdateWebDavUrl("https://dav".into()));
    let _ = state.update(Message::UpdateWebDavUser("me".into()));
    let c = state.update(Message::TickWebDavSync);
    assert!(matches!(&c[0], Command::Dispatch(Message::SyncUpload)));
}

#[test]
fn only_start_stop_and_ip_lookup_start_new_work() {
    assert!(cancels_background_work(&Message::StartProxy));
    assert!(cancels_background_work(&Message::StopProxy));
    assert!(cancels_background_work(&Message::FetchIpInfo));
    assert!(!cancels_background_work(&Message::LoadProxies));
    assert!(!cancels_background_work(&Message::ProxyStopped));
}

#[test]
fn failed_start_records_the_error_as_status() {
    let (mut state, _) = AppState::new();
    let _ = state.update(Message::StartProxy);
    assert_eq!(state.last_task_id, 1);
    let _ = state.update(Message::ProxyStarted(Err("no core".into())));
    assert!(matches!(&state.status, infiltrator::model::RuntimeStatus::Error(e) if e == "no core"));
    let c = state.update(Message::StopProxy);
    assert!(matches!(c[0], Command::StopRuntime));
    assert_eq!(state.last_task_id, 2);
    assert!(!state.has_runtime);
}

#[test]
fn saving_right_after_opening_writes_back_the_same_text() {
    let (mut state, _) = AppState::new();
    let _ = state.update(Message::ProfileContentLoaded(Ok(("p.yaml".into(), "rules: []".into()))));
    let c = state.update(Message::SaveProfile);
    assert!(matches!(&c[0], Command::WriteProfile { path, content } if path == "p.yaml" && content == "rules: []"));
}

#[test]
fn dns_settings_go_back_to_the_core_as_they_came() {
    let (mut state, _) = AppState::new();
    state.has_runtime = true;
    let _ = state.update(Message::RuntimeConfigFetched(Ok(RuntimeConfig {
        mode: "rule".into(),
        tun_enabled: false,
        dns_nameservers: vec!["223.5.5.5".into(), "1.1.1.1".into()],
        dns_fallback: vec!["8.8.8.8".into()],
        dns_enhanced_mode: "redir-host".into(),
        tun_stack: "system".into(),
        tun_auto_route: false,
        tun_strict_route: false,
        sniffer_enabled: false,
    })));
    let c = state.update(Message::SaveDns);
    match &c[0] {
        Command::PatchConfig { patch: ConfigPatch::Dns { enhanced_mode, nameservers, fallback }, .. } => {
            assert_eq!(enhanced_mode, "redir-host");
            assert_eq!(nameservers, &vec!["223.5.5.5".to_string(), "1.1.1.1".to_string()]);
            assert_eq!(fallback, &vec!["8.8.8.8".to_string()]);
        },
        _ => panic!("expected a DNS patch"),
    }
}

#[test]
fn dns_template_then_removing_the_last_restores_the_list() {
    let (mut state, _) = AppState::new();
    state.dns_nameservers = vec!["a".into(), "b".into()];
    let _ = state.update(Message::AddDnsServerTemplate("tls://dns".into()));
    let _ = state.update(Message::RemoveDnsServer(2));
    assert_eq!(state.dns_nameservers, vec!["a", "b"]);
    let _ = state.update(Message::UpdateDnsServer(5, "x".into()));
    let _ = state.update(Message::RemoveDnsServer(5));
    assert_eq!(state.dns_nameservers, vec!["a", "b"]);
}

#[test]
fn proxy_table_keeps_one_entry_per_name() {
    let first = ProxyEntry::node("A", "Shadowsocks", vec![]);
    let other = ProxyEntry::node("B", "Vmess", vec![]);
    let last = ProxyEntry::node("A", "Trojan", vec![]);
    let table = unique_by_name(vec![first, other, last]);
    let names: Vec<&str> = table.iter().map(|p| p.name.as_str()).collect();
    assert_eq!(names, vec!["B", "A"]);
    assert_eq!(table[1].proxy_type, "Trojan");

    let (mut state, _) = AppState::new();
    let _ = state.update(Message::ProxiesLoaded(Ok(vec![
        ProxyEntry::node("A", "Shadowsocks", vec![]),
        ProxyEntry::node("A", "Trojan", vec![]),
    ])));
    assert_eq!(state.proxies.len(), 1);
    assert_eq!(state.proxies[0].proxy_type, "Trojan");

    let unique = vec![ProxyEntry::node("X", "Direct", vec![]), ProxyEntry::node("Y", "Reject", vec![])];
    let _ = state.update(Message::ProxiesLoaded(Ok(unique)));
    let names: Vec<&str> = state.proxies.iter().map(|p| p.name.as_str()).collect();
    assert_eq!(names, vec!["X", "Y"]);
}

#[test]
fn refused_requests_restore_the_setting_from_before() {
    let (mut state, _) = AppState::new();
    state.switches.autostart_enabled = true;
    let c = state.update(Message::SetAutostart(true));
    assert!(matches!(&c[0], Command::ApplyAutostart(true)));
    let _ = state.update(Message::AutostartSet(Err("Registry lock".into())));
    assert!(state.switches.autostart_enabled, "a refusal keeps the setting from before");
    assert_eq!(state.error_msg.as_deref(), Some("Registry lock"));

    state.switches.system_proxy_enabled = false;
    let _ = state.update(Message::SetSystemProxy(false));
    let _ = state.update(Message::SystemProxySet(Err("Access denied".into())));
    assert!(!state.switches.system_proxy_enabled);
    let _ = state.update(Message::SetSystemProxy(true));
    let _ = state.update(Message::SystemProxySet(Ok(())));
    assert!(state.switches.system_proxy_enabled);
}

#[test]
fn rules_move_up_and_down() {
    let rule = |p: &str| Rule { rule_type: "DOMAIN".into(), payload: p.into(), proxy: "DIRECT".into(), size: 0 };
    let (mut state, _) = AppState::new();
    let _ = state.update(Message::RulesLoaded(Ok(vec![rule("a"), rule("b"), rule("c")])));
    let payloads = |s: &AppState| s.rules.iter().map(|r| r.payload.clone()).collect::<Vec<_>>();
    assert!(state.update(Message::MoveRuleUp(2)).is_empty());
    assert_eq!(payloads(&state), vec!["a", "c", "b"]);
    let _ = state.update(Message::MoveRuleDown(0));
    assert_eq!(payloads(&state), vec!["c", "a", "b"]);
    let _ = state.update(Message::MoveRuleUp(0));
    let _ = state.update(Message::MoveRuleDown(2));
    assert_eq!(payloads(&state), vec!["c", "a", "b"]);
    let _ = state.update(Message::MoveRuleDown(0));
    let _ = state.update(Message::MoveRuleUp(1));
    assert_eq!(payloads(&state), vec!["c", "a", "b"]);
}
