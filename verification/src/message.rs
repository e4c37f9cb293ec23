use crate::model::{
    ConnectionSnapshot, MemoryData, Profile, ProxyEntry, ProxyProvider, Route, Rule, RuleProvider,
    RuntimeConfig, ToastStatus, TrafficData, TrayEvent, VersionInfo,
};
use vstd::prelude::*;

verus! {

/// Everything that can happen to the application: user input, timer ticks, and
/// the results of work it started.  Errors are carried as their messages.
pub enum Message {
    Navigate(Route),
    StartProxy,
    StopProxy,
    ProxyStarted(Result<(), String>),
    ProxyStopped,
    LoadProfiles,
    ProfilesLoaded(Result<Vec<Profile>, String>),
    SetActiveProfile(String),
    UpdateImportUrl(String),
    UpdateImportName(String),
    ImportProfile,
    ProfileImported(Result<(), String>),
    LoadProxies,
    ProxiesLoaded(Result<Vec<ProxyEntry>, String>),
    SelectProxy(String, String),
    FilterProxies(String),
    ToggleProxySort,
    TrafficReceived(TrafficData),
    MemoryReceived(MemoryData),
    IpInfoReceived(Result<String, String>, usize),
    ConnectionsReceived(ConnectionSnapshot),
    LogReceived(String),
    SetLogLevel(String),
    CloseConnection(String),
    CloseAllConnections,
    FetchRuntimeConfig,
    FetchIpInfo,
    RuntimeConfigFetched(Result<RuntimeConfig, String>),
    SetProxyMode(String),
    SetTunEnabled(bool),
    SetTunStack(String),
    SetTunAutoRoute(bool),
    SetTunStrictRoute(bool),
    SetSnifferEnabled(bool),
    ModeSetResult(Result<(), String>),
    OperationResult(Result<(), String>),
    LoadRules,
    RulesLoaded(Result<Vec<Rule>, String>),
    LoadProviders,
    ProvidersLoaded(Result<(Vec<ProxyProvider>, Vec<RuleProvider>), String>),
    UpdateProxyProvider(String),
    UpdateRuleProvider(String),
    FilterRules(String),
    /// Move the rule at this position one place up, before the rule above it.
    MoveRuleUp(usize),
    /// Move the rule at this position one place down, after the rule below it.
    MoveRuleDown(usize),
    UpdateFilteredGroups,
    UpdateNewRuleType(String),
    UpdateNewRulePayload(String),
    UpdateNewRuleTarget(String),
    AddCustomRule,
    RuleAdded(Result<(), String>),
    TickSubUpdate,
    TickWebDavSync,
    /// A frame was drawn; milliseconds on the application's clock.
    TickFrame(u64),
    TrayIconEvent(TrayEvent),
    /// A tray menu item was chosen; its id.
    MenuEvent(String),
    Exit,
    UpdateDnsServer(usize, String),
    UpdateDnsEnhancedMode(String),
    AddDnsServer,
    AddDnsServerTemplate(String),
    RemoveDnsServer(usize),
    UpdateFallbackDnsServer(usize, String),
    AddFallbackDnsServer,
    RemoveFallbackDnsServer(usize),
    SaveDns,
    DnsSaved(Result<(), String>),
    SetAutostart(bool),
    AutostartSet(Result<(), String>),
    UpdateWebDavUrl(String),
    UpdateWebDavUser(String),
    UpdateWebDavPass(String),
    SyncUpload,
    SyncDownload,
    SyncFinished(Result<(), String>),
    SetSystemProxy(bool),
    SystemProxySet(Result<(), String>),
    RequestAdminPrivilege,
    /// Open a profile file in the editor; its path.
    EditProfile(String),
    /// A profile file was read: its path and content.
    ProfileContentLoaded(Result<(String, String), String>),
    /// The editor's text after the user changed it.
    EditorTextChanged(String),
    SaveProfile,
    ProfileSaved(Result<(), String>),
    LoadKernels,
    KernelsLoaded(Result<Vec<VersionInfo>, String>),
    CheckCoreUpdate,
    /// The latest core version.
    CoreUpdateInfo(Result<String, String>),
    DownloadCore(String),
    /// Download progress in ten-thousandths (0 to 10000).
    CoreDownloadProgress(u32),
    CoreDownloadFinished(Result<String, String>),
    DeleteKernel(String),
    SetDefaultKernel(String),
    FactoryReset,
    OpenConfigDir,
    FlushFakeIpCache,
    TestProxyDelay(String),
    TestGroupDelay(String),
    ProxyTested(String, Result<u64, String>),
    /// A window was closed; its id.
    WindowClosed(u64),
    HideWindow,
    ShowWindow,
    ToggleTheme,
    ShowToast(String, ToastStatus),
    RemoveToast(usize),
}

/// A change to the running core's configuration.
#[derive(Clone)]
pub enum ConfigPatch {
    /// `{"log-level": level}`
    LogLevel(String),
    /// `{"mode": mode}`
    Mode(String),
    /// `{"tun": {"enable": on}}`
    TunEnable(bool),
    /// `{"tun": {"stack": stack}}`
    TunStack(String),
    /// `{"tun": {"auto-route": on}}`
    TunAutoRoute(bool),
    /// `{"tun": {"strict-route": on}}`
    TunStrictRoute(bool),
    /// `{"sniffer": {"enable": on}}`
    SnifferEnable(bool),
    /// `{"dns": {"enable": true, "enhanced-mode": .., "nameserver": .., "fallback": ..}}`
    Dns { enhanced_mode: String, nameservers: Vec<String>, fallback: Vec<String> },
}

/// Which message reports how a configuration change went.
#[derive(Clone, Copy, PartialEq, Eq, Structural, Debug)]
pub enum PatchReply {
    /// `Message::OperationResult`
    Operation,
    /// `Message::ModeSetResult`
    ModeSet,
    /// `Message::DnsSaved`
    DnsSaved,
}

/// Work that the application asks its shell to do after an update, and the
/// message that reports back.
pub enum Command {
    /// Deliver this message next.
    Dispatch(Message),
    /// Read the application settings file.
    LoadSettings,
    /// Ask a public service for the outside IP address; `IpInfoReceived(.., task_id)`.
    FetchPublicIp { task_id: usize },
    /// Start the proxy core; `ProxyStarted`.
    StartRuntime,
    /// Shut the running core down; `ProxyStopped`.
    StopRuntime,
    /// List the core's proxies; `ProxiesLoaded`.
    GetProxies,
    /// Select `name` in `group`; then `LoadProxies`.
    SwitchProxy { group: String, name: String },
    /// Change the core's configuration; the reply names the answering message.
    PatchConfig { patch: ConfigPatch, reply: PatchReply },
    /// Close one connection; `OperationResult`.
    CloseConnection(String),
    /// Close every connection; `OperationResult`.
    CloseAllConnections,
    /// Read the core's configuration; `RuntimeConfigFetched`.
    GetRuntimeConfig,
    /// List the core's rules; `RulesLoaded`.
    GetRules,
    /// List the core's proxy and rule providers; `ProvidersLoaded`.
    GetProviders,
    /// Refresh a proxy provider; `OperationResult`.
    UpdateProxyProvider(String),
    /// Refresh a rule provider; `OperationResult`.
    UpdateRuleProvider(String),
    /// Empty the core's fake-IP cache; `OperationResult`.
    FlushFakeIp,
    /// Measure one proxy's delay against `url`; `ProxyTested(proxy, ..)`.
    TestDelay { proxy: String, url: String, timeout_ms: u32 },
    /// Measure each proxy's delay in turn; then `LoadProxies`.
    TestDelays { proxies: Vec<String>, url: String, timeout_ms: u32 },
    /// Turn starting with the system on or off; `AutostartSet`.
    ApplyAutostart(bool),
    /// Turn the system proxy on or off; `SystemProxySet`.
    ApplySystemProxy(bool),
    /// Look up the latest stable core version; `CoreUpdateInfo`.
    CheckCoreUpdate,
    /// Download and install a core version; `CoreDownloadFinished`.
    InstallCore(String),
    /// List the installed core versions; `KernelsLoaded`.
    ListKernels,
    /// Make a core version the default; then `LoadKernels`.
    SetDefaultKernel(String),
    /// Remove a core version; then `LoadKernels`.
    UninstallKernel(String),
    /// Scroll the log view to its last line.
    ScrollLogsToEnd,
    /// Close a window, then show `route` again.
    CloseWindow { id: u64, route: Route },
    /// Close the newest window, then show `route` again.
    HideWindow { route: Route },
    /// Focus the newest window, or open one on the overview.
    ShowWindow,
    /// Shut the core down and quit.
    ExitApp,
    /// After five seconds, `RemoveToast(index)`.
    RemoveToastLater(usize),
    /// Where the platform allows, restart with administrator rights, then `Exit`.
    RequestElevation,
    /// Show the tray's proxy groups as the state now holds them.
    RefreshTrayGroups,
    /// Show the system proxy and TUN switches in the tray.
    UpdateTrayStatus { system_proxy: bool, tun: bool },
    /// List the profiles on disk; `ProfilesLoaded`.
    ListProfiles,
    /// Make a profile the current one; `StartProxy` on success, an error toast otherwise.
    ActivateProfile(String),
    /// Download a subscription into a new profile; `ProfileImported`.
    ImportProfileFromUrl { name: String, url: String },
    /// Read a profile file; `ProfileContentLoaded`.
    ReadProfile(String),
    /// Write a profile file; `ProfileSaved`.
    WriteProfile { path: String, content: String },
    /// Upload every profile to a WebDAV server; `SyncFinished`.
    WebDavUpload { url: String, user: String, pass: String },
    /// Download every YAML file from a WebDAV server into the profiles; `SyncFinished`.
    WebDavDownload { url: String, user: String, pass: String },
    /// Put a rule line first in the current profile's rules; `RuleAdded`.
    AddRuleToCurrentProfile(String),
}

} // verus!
