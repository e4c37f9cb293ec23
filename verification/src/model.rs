use vstd::prelude::*;

verus! {

/// One delay measurement of a proxy.
#[derive(Clone, Debug)]
pub struct ProxyHistory {
    pub time: String,
    pub delay: u32,
}

/// A proxy or proxy group as the core reports it.
#[derive(Clone, Debug)]
pub struct ProxyEntry {
    pub name: String,
    /// The proxy's type, such as "Selector" or "Shadowsocks".
    pub proxy_type: String,
    /// For a group, the names of its members; `None` for a single proxy.
    pub members: Option<Vec<String>>,
    /// For a group, the member it currently uses.
    pub now: Option<String>,
    /// Delay measurements, oldest first.
    pub history: Vec<ProxyHistory>,
}

impl ProxyEntry {
    /// A proxy group.
    pub fn group(name: &str, proxy_type: &str, now: &str, members: Vec<String>) -> (r: ProxyEntry)
        ensures
            r.name@ == name@,
            r.proxy_type@ == proxy_type@,
            r.members == Some(members),
            r.now matches Some(n) && n@ == now@,
            r.history@.len() == 0,
    {
        ProxyEntry {
            name: name.to_owned(),
            proxy_type: proxy_type.to_owned(),
            members: Some(members),
            now: Some(now.to_owned()),
            history: Vec::new(),
        }
    }

    /// A single proxy with its delay measurements.
    pub fn node(name: &str, proxy_type: &str, history: Vec<ProxyHistory>) -> (r: ProxyEntry)
        ensures
            r.name@ == name@,
            r.proxy_type@ == proxy_type@,
            r.members is None,
            r.now is None,
            r.history == history,
    {
        ProxyEntry {
            name: name.to_owned(),
            proxy_type: proxy_type.to_owned(),
            members: None,
            now: None,
            history,
        }
    }

    /// Whether this is a proxy group.
    pub fn is_group(&self) -> (r: bool)
        ensures
            r == self.members is Some,
    {
        self.members.is_some()
    }
}

/// The characters of each string in a sequence.
pub open spec fn names_view(v: Seq<String>) -> Seq<Seq<char>> {
    v.map_values(|s: String| s@)
}


/// The pages of the application.
#[derive(Clone, Copy, PartialEq, Eq, Structural, Debug)]
pub enum Route {
    Overview,
    Profiles,
    Proxies,
    Runtime,
    Rules,
    Dns,
    Sync,
    Editor,
    Settings,
}

impl Default for Route {
    /// The first page shown: the overview.
    fn default() -> (r: Route)
        ensures
            r == Route::Overview,
    {
        Route::Overview
    }
}

/// How a notification is coloured.
#[derive(Clone, Copy, PartialEq, Eq, Structural, Debug)]
pub enum ToastStatus {
    Info,
    Success,
    Warning,
    Error,
}

/// The two colour themes.
#[derive(Clone, Copy, PartialEq, Eq, Structural, Debug)]
pub enum ThemeMode {
    Dark,
    Light,
}

/// A page change that is being animated; times are milliseconds on the
/// application's clock.
#[derive(Clone, Copy, PartialEq, Eq, Structural, Debug)]
pub struct Transition {
    pub previous_route: Option<Route>,
    pub start_time_ms: Option<u64>,
    pub duration_ms: u64,
}

impl Default for Transition {
    /// No transition under way, and 300 ms for the next one.
    fn default() -> (r: Transition)
        ensures
            r.previous_route is None,
            r.start_time_ms is None,
            r.duration_ms == 300,
    {
        Transition { previous_route: None, start_time_ms: None, duration_ms: 300 }
    }
}

/// What the proxy core is doing.
#[derive(Clone, Debug)]
pub enum RuntimeStatus {
    Stopped,
    Starting,
    Running,
    /// It failed to start; the error's message.
    Error(String),
}

/// The part of the core's running configuration that the application shows.
#[derive(Clone, Debug, Default)]
pub struct RuntimeConfig {
    pub mode: String,
    pub tun_enabled: bool,
    pub dns_nameservers: Vec<String>,
    pub dns_fallback: Vec<String>,
    pub dns_enhanced_mode: String,
    pub tun_stack: String,
    pub tun_auto_route: bool,
    pub tun_strict_route: bool,
    pub sniffer_enabled: bool,
}

/// Bytes per second sent and received.
#[derive(Clone, Copy, PartialEq, Eq, Structural, Debug)]
pub struct TrafficData {
    pub up: u64,
    pub down: u64,
}

/// The core's memory use in bytes.
#[derive(Clone, Copy, PartialEq, Eq, Structural, Debug)]
pub struct MemoryData {
    pub in_use: u64,
    pub os_limit: u64,
}

/// One open connection through the core.
#[derive(Clone, Debug)]
pub struct Connection {
    pub id: String,
    pub network: String,
    pub host: String,
    pub source_ip: String,
    pub destination_ip: String,
    pub destination_port: String,
    pub rule: String,
    pub rule_payload: String,
    pub upload: u64,
    pub download: u64,
}

/// The connections open at one moment.
#[derive(Clone, Debug)]
pub struct ConnectionSnapshot {
    pub connections: Vec<Connection>,
}

/// A configuration profile on disk.
#[derive(Clone, Debug)]
pub struct Profile {
    pub name: String,
    pub path: String,
    pub active: bool,
}

impl Profile {
    /// A profile with the given name, file and state.
    pub fn new(name: String, path: String, active: bool) -> (r: Profile)
        ensures
            r == (Profile { name, path, active }),
    {
        Profile { name, path, active }
    }
}

/// A routing rule of the running core.
#[derive(Clone, Debug)]
pub struct Rule {
    pub rule_type: String,
    pub payload: String,
    pub proxy: String,
    pub size: i64,
}

/// A proxy provider of the running core.
#[derive(Clone, Debug)]
pub struct ProxyProvider {
    pub name: String,
    pub vehicle_type: String,
    pub updated_at: String,
}

/// A rule provider of the running core.
#[derive(Clone, Debug)]
pub struct RuleProvider {
    pub name: String,
    pub rule_count: u64,
    pub updated_at: String,
}

/// An installed core version.
#[derive(Clone, Debug)]
pub struct VersionInfo {
    pub version: String,
    pub path: String,
    pub is_default: bool,
}

/// What happened to the tray icon.
#[derive(Clone, Copy, PartialEq, Eq, Structural, Debug)]
pub enum TrayEvent {
    /// It was clicked.
    Click,
    /// Anything else (hover, move, double click).
    Other,
}

} // verus!
