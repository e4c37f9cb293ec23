use crate::locales::get_system_language;
use crate::message::Command;
use crate::model::{
    ConnectionSnapshot, MemoryData, Profile, ProxyEntry, ProxyProvider, Route, Rule, RuleProvider,
    RuntimeStatus, ThemeMode, ToastStatus, TrafficData, Transition, VersionInfo,
};
use crate::text::owned;
use std::collections::VecDeque;
use vstd::prelude::*;

verus! {

/// How many log lines the runtime page keeps.
pub const LOG_LIMIT: usize = 500;

/// How many traffic samples the traffic chart keeps.
pub const TRAFFIC_HISTORY_LIMIT: usize = 60;

/// The machine settings the application switches: the system proxy and
/// starting with the system, each with its setting from before the latest
/// request to change it, which a refusal restores.
#[derive(Clone, Copy, Debug)]
pub struct SystemSwitches {
    pub system_proxy_enabled: bool,
    pub system_proxy_before_request: bool,
    pub autostart_enabled: bool,
    pub autostart_before_request: bool,
}

/// Everything the application shows and remembers.
pub struct AppState {
    pub current_route: Route,
    /// Whether a proxy core is running under this application.
    pub has_runtime: bool,
    pub status: RuntimeStatus,
    pub error_msg: Option<String>,
    pub profiles: Vec<Profile>,
    pub is_loading_profiles: bool,
    pub proxies: Vec<ProxyEntry>,
    pub is_loading_proxies: bool,
    /// The groups that the proxies page lists, with the members it shows.
    pub filtered_groups: Vec<(String, Vec<String>)>,
    pub transition: Transition,
    pub proxy_filter: String,
    pub proxy_sort_by_delay: bool,
    pub traffic: Option<TrafficData>,
    /// The latest traffic samples, oldest first: (up, down).
    pub traffic_history: VecDeque<(u64, u64)>,
    pub memory: Option<MemoryData>,
    pub public_ip: Option<String>,
    pub connections: Option<ConnectionSnapshot>,
    /// The latest log lines, oldest first.
    pub logs: VecDeque<String>,
    pub log_level: String,
    pub lang: String,
    pub proxy_mode: Option<String>,
    pub tun_enabled: Option<bool>,
    pub tun_stack: String,
    pub tun_auto_route: bool,
    pub tun_strict_route: bool,
    pub sniffer_enabled: bool,
    pub rules: Vec<Rule>,
    pub rules_filter: String,
    pub is_loading_rules: bool,
    pub new_rule_type: String,
    pub new_rule_payload: String,
    pub new_rule_target: String,
    pub is_adding_rule: bool,
    pub proxy_providers: Vec<ProxyProvider>,
    pub rule_providers: Vec<RuleProvider>,
    pub is_loading_providers: bool,
    pub dns_nameservers: Vec<String>,
    pub dns_fallback_servers: Vec<String>,
    pub dns_enhanced_mode: String,
    pub is_saving_dns: bool,
    pub import_url: String,
    pub import_name: String,
    pub is_importing: bool,
    pub webdav_url: String,
    pub webdav_user: String,
    pub webdav_pass: String,
    pub is_syncing: bool,
    pub is_admin: bool,
    /// The system proxy and autostart switches.
    pub switches: SystemSwitches,
    pub installed_kernels: Vec<VersionInfo>,
    pub latest_core_version: Option<String>,
    /// Core download progress in ten-thousandths.
    pub download_progress: u32,
    pub is_checking_update: bool,
    /// Replies that carry an older task id than this are stale.
    pub last_task_id: usize,
    pub toasts: Vec<(String, ToastStatus)>,
    pub theme: ThemeMode,
    pub editor_text: String,
    pub editor_path: Option<String>,
}

/// The state the application starts in, for a language, administrator rights,
/// and the system proxy and autostart settings found on the machine.
pub open spec fn is_initial(
    s: AppState,
    lang: Seq<char>,
    is_admin: bool,
    system_proxy_enabled: bool,
    autostart_enabled: bool,
) -> bool {
    &&& s.current_route == Route::Overview
    &&& !s.has_runtime
    &&& s.status is Stopped
    &&& s.error_msg is None
    &&& s.profiles@.len() == 0
    &&& !s.is_loading_profiles
    &&& s.proxies@.len() == 0
    &&& !s.is_loading_proxies
    &&& s.filtered_groups@.len() == 0
    &&& s.transition == Transition { previous_route: None, start_time_ms: None, duration_ms: 300 }
    &&& s.proxy_filter@.len() == 0
    &&& !s.proxy_sort_by_delay
    &&& s.traffic is None
    &&& s.traffic_history@.len() == 0
    &&& s.memory is None
    &&& s.public_ip is None
    &&& s.connections is None
    &&& s.logs@.len() == 0
    &&& s.log_level@ == "info"@
    &&& s.lang@ == lang
    &&& s.proxy_mode is None
    &&& s.tun_enabled is None
    &&& s.tun_stack@ == "gvisor"@
    &&& !s.tun_auto_route
    &&& !s.tun_strict_route
    &&& !s.sniffer_enabled
    &&& s.rules@.len() == 0
    &&& s.rules_filter@.len() == 0
    &&& !s.is_loading_rules
    &&& s.new_rule_type@ == "DOMAIN"@
    &&& s.new_rule_payload@.len() == 0
    &&& s.new_rule_target@ == "DIRECT"@
    &&& !s.is_adding_rule
    &&& s.proxy_providers@.len() == 0
    &&& s.rule_providers@.len() == 0
    &&& !s.is_loading_providers
    &&& s.dns_nameservers@.len() == 0
    &&& s.dns_fallback_servers@.len() == 0
    &&& s.dns_enhanced_mode@ == "fake-ip"@
    &&& !s.is_saving_dns
    &&& s.import_url@.len() == 0
    &&& s.import_name@.len() == 0
    &&& !s.is_importing
    &&& s.webdav_url@.len() == 0
    &&& s.webdav_user@.len() == 0
    &&& s.webdav_pass@.len() == 0
    &&& !s.is_syncing
    &&& s.is_admin == is_admin
    &&& s.switches == SystemSwitches {
        system_proxy_enabled,
        system_proxy_before_request: system_proxy_enabled,
        autostart_enabled,
        autostart_before_request: autostart_enabled,
    }
    &&& s.installed_kernels@.len() == 0
    &&& s.latest_core_version is None
    &&& s.download_progress == 0
    &&& !s.is_checking_update
    &&& s.last_task_id == 0
    &&& s.toasts@.len() == 0
    &&& s.theme == ThemeMode::Dark
    &&& s.editor_text@.len() == 0
    &&& s.editor_path is None
}

/// The work the application starts with: read the settings, list the profiles,
/// and list the installed cores.
pub open spec fn initial_commands(c: Seq<Command>) -> bool {
    &&& c.len() == 3
    &&& c[0] is LoadSettings
    &&& c[1] is ListProfiles
    &&& c[2] matches Command::Dispatch(m)
    &&& m is LoadKernels
}

impl AppState {
    /// The starting state for the given language and machine settings, and the
    /// work to start with.
    pub fn with_environment(
        lang: String,
        is_admin: bool,
        system_proxy_enabled: bool,
        autostart_enabled: bool,
    ) -> (r: (AppState, Vec<Command>))
        ensures
            is_initial(r.0, lang@, is_admin, system_proxy_enabled, autostart_enabled),
            initial_commands(r.1@),
    {
        let state = AppState {
            current_route: Route::Overview,
            has_runtime: false,
            status: RuntimeStatus::Stopped,
            error_msg: None,
            profiles: Vec::new(),
            is_loading_profiles: false,
            proxies: Vec::new(),
            is_loading_proxies: false,
            filtered_groups: Vec::new(),
            transition: Transition { previous_route: None, start_time_ms: None, duration_ms: 300 },
            proxy_filter: String::new(),
            proxy_sort_by_delay: false,
            traffic: None,
            traffic_history: VecDeque::new(),
            memory: None,
            public_ip: None,
            connections: None,
            logs: VecDeque::new(),
            log_level: owned("info"),
            lang,
            proxy_mode: None,
            tun_enabled: None,
            tun_stack: owned("gvisor"),
            tun_auto_route: false,
            tun_strict_route: false,
            sniffer_enabled: false,
            rules: Vec::new(),
            rules_filter: String::new(),
            is_loading_rules: false,
            new_rule_type: owned("DOMAIN"),
            new_rule_payload: String::new(),
            new_rule_target: owned("DIRECT"),
            is_adding_rule: false,
            proxy_providers: Vec::new(),
            rule_providers: Vec::new(),
            is_loading_providers: false,
            dns_nameservers: Vec::new(),
            dns_fallback_servers: Vec::new(),
            dns_enhanced_mode: owned("fake-ip"),
            is_saving_dns: false,
            import_url: String::new(),
            import_name: String::new(),
            is_importing: false,
            webdav_url: String::new(),
            webdav_user: String::new(),
            webdav_pass: String::new(),
            is_syncing: false,
            is_admin,
            switches: SystemSwitches {
                system_proxy_enabled,
                system_proxy_before_request: system_proxy_enabled,
                autostart_enabled,
                autostart_before_request: autostart_enabled,
            },
            installed_kernels: Vec::new(),
            latest_core_version: None,
            download_progress: 0,
            is_checking_update: false,
            last_task_id: 0,
            toasts: Vec::new(),
            theme: ThemeMode::Dark,
            editor_text: String::new(),
            editor_path: None,
        };
        let mut commands: Vec<Command> = Vec::new();
        commands.push(Command::LoadSettings);
        commands.push(Command::ListProfiles);
        commands.push(Command::Dispatch(crate::message::Message::LoadKernels));
        (state, commands)
    }

    /// The starting state in the system's language; administrator rights, the
    /// system proxy and autostart read as off until the shell finds them on.
    pub fn new() -> (r: (AppState, Vec<Command>))
        ensures
            is_initial(r.0, r.0.lang@, false, false, false),
            r.0.lang@ == "zh-CN"@ || r.0.lang@ == "en-US"@,
            initial_commands(r.1@),
    {
        let lang = get_system_language();
        AppState::with_environment(lang, false, false, false)
    }

    /// Whether the core is being started.
    pub fn is_starting(&self) -> (r: bool)
        ensures
            r == self.status is Starting,
    {
        match self.status {
            RuntimeStatus::Starting => true,
            _ => false,
        }
    }
}

} // verus!
