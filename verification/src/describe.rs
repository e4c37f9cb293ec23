use crate::message::Message;
use crate::model::{Route, RuntimeConfig, ToastStatus};
use crate::text::{concat, decimal, decimal_chars, digit, owned, string_from_chars};
use vstd::prelude::*;

verus! {

/// `name(inner)`
pub open spec fn call1(name: Seq<char>, inner: Seq<char>) -> Seq<char> {
    name + "("@ + inner + ")"@
}

/// `name(a, b)`
pub open spec fn call2(name: Seq<char>, a: Seq<char>, b: Seq<char>) -> Seq<char> {
    name + "("@ + a + ", "@ + b + ")"@
}

/// `Ok(inner)`
pub open spec fn ok_of(inner: Seq<char>) -> Seq<char> {
    "Ok("@ + inner + ")"@
}

/// `Err(e)`
pub open spec fn err_of(e: Seq<char>) -> Seq<char> {
    "Err("@ + e + ")"@
}

/// How a success without a value, or a failure, is written.
pub open spec fn unit_result(r: Result<(), String>) -> Seq<char> {
    match r {
        Ok(_) => "Ok"@,
        Err(e) => err_of(e@),
    }
}

/// `true` or `false`.
pub open spec fn bool_text(b: bool) -> Seq<char> {
    if b {
        "true"@
    } else {
        "false"@
    }
}

/// A count followed by what is counted.
pub open spec fn count_of(n: nat, label: Seq<char>) -> Seq<char> {
    decimal(n) + " "@ + label
}

/// A progress in ten-thousandths, as a percentage with two decimals.
pub open spec fn percent_text(p: u32) -> Seq<char> {
    decimal((p / 100) as nat) + "."@ + seq![digit(((p % 100) / 10) as nat), digit((p % 10) as nat)] + "%"@
}

/// The name of a page.
pub open spec fn route_name(r: Route) -> Seq<char> {
    match r {
        Route::Overview => "Overview"@,
        Route::Profiles => "Profiles"@,
        Route::Proxies => "Proxies"@,
        Route::Runtime => "Runtime"@,
        Route::Rules => "Rules"@,
        Route::Dns => "Dns"@,
        Route::Sync => "Sync"@,
        Route::Editor => "Editor"@,
        Route::Settings => "Settings"@,
    }
}

/// The name of a notification colour.
pub open spec fn status_name(s: ToastStatus) -> Seq<char> {
    match s {
        ToastStatus::Info => "Info"@,
        ToastStatus::Success => "Success"@,
        ToastStatus::Warning => "Warning"@,
        ToastStatus::Error => "Error"@,
    }
}

/// The runtime configuration in one line: mode, TUN, DNS and fallback counts,
/// enhanced mode, stack, auto-route, strict-route and sniffer.
pub open spec fn config_text(c: RuntimeConfig) -> Seq<char> {
    c.mode@ + ", "@ + bool_text(c.tun_enabled) + ", "@ + count_of(c.dns_nameservers@.len(), "DNS"@)
        + ", "@ + count_of(c.dns_fallback@.len(), "FB"@) + ", "@ + c.dns_enhanced_mode@ + ", "@
        + c.tun_stack@ + ", "@ + bool_text(c.tun_auto_route) + ", "@ + bool_text(
        c.tun_strict_route,
    ) + ", "@ + bool_text(c.sniffer_enabled)
}

/// How a message is written in the log: its name and what it carries, with
/// the WebDAV password hidden and long payloads (lists, file contents)
/// summarised.
pub open spec fn describe_text(m: Message) -> Seq<char> {
    match &m {
        Message::StartProxy => "StartProxy"@,
        Message::StopProxy => "StopProxy"@,
        Message::ProxyStopped => "ProxyStopped"@,
        Message::LoadProfiles => "LoadProfiles"@,
        Message::ImportProfile => "ImportProfile"@,
        Message::LoadProxies => "LoadProxies"@,
        Message::ToggleProxySort => "ToggleProxySort"@,
        Message::CloseAllConnections => "CloseAllConnections"@,
        Message::FetchRuntimeConfig => "FetchRuntimeConfig"@,
        Message::FetchIpInfo => "FetchIpInfo"@,
        Message::LoadRules => "LoadRules"@,
        Message::LoadProviders => "LoadProviders"@,
        Message::UpdateFilteredGroups => "UpdateFilteredGroups"@,
        Message::AddCustomRule => "AddCustomRule"@,
        Message::TickSubUpdate => "TickSubUpdate"@,
        Message::TickWebDavSync => "TickWebDavSync"@,
        Message::Exit => "Exit"@,
        Message::AddDnsServer => "AddDnsServer"@,
        Message::AddFallbackDnsServer => "AddFallbackDnsServer"@,
        Message::SaveDns => "SaveDns"@,
        Message::SyncUpload => "SyncUpload"@,
        Message::SyncDownload => "SyncDownload"@,
        Message::RequestAdminPrivilege => "RequestAdminPrivilege"@,
        Message::SaveProfile => "SaveProfile"@,
        Message::LoadKernels => "LoadKernels"@,
        Message::CheckCoreUpdate => "CheckCoreUpdate"@,
        Message::FactoryReset => "FactoryReset"@,
        Message::OpenConfigDir => "OpenConfigDir"@,
        Message::FlushFakeIpCache => "FlushFakeIpCache"@,
        Message::HideWindow => "HideWindow"@,
        Message::ShowWindow => "ShowWindow"@,
        Message::ToggleTheme => "ToggleTheme"@,
        Message::SetActiveProfile(s) => call1("SetActiveProfile"@, s@),
        Message::UpdateImportUrl(s) => call1("UpdateImportUrl"@, s@),
        Message::UpdateImportName(s) => call1("UpdateImportName"@, s@),
        Message::FilterProxies(s) => call1("FilterProxies"@, s@),
        Message::LogReceived(s) => call1("LogReceived"@, s@),
        Message::SetLogLevel(s) => call1("SetLogLevel"@, s@),
        Message::CloseConnection(s) => call1("CloseConnection"@, s@),
        Message::SetProxyMode(s) => call1("SetProxyMode"@, s@),
        Message::SetTunStack(s) => call1("SetTunStack"@, s@),
        Message::UpdateProxyProvider(s) => call1("UpdateProxyProvider"@, s@),
        Message::UpdateRuleProvider(s) => call1("UpdateRuleProvider"@, s@),
        Message::FilterRules(s) => call1("FilterRules"@, s@),
        Message::UpdateNewRuleType(s) => call1("UpdateNewRuleType"@, s@),
        Message::UpdateNewRulePayload(s) => call1("UpdateNewRulePayload"@, s@),
        Message::UpdateNewRuleTarget(s) => call1("UpdateNewRuleTarget"@, s@),
        Message::MenuEvent(s) => call1("MenuEvent"@, s@),
        Message::UpdateDnsEnhancedMode(s) => call1("UpdateDnsEnhancedMode"@, s@),
        Message::AddDnsServerTemplate(s) => call1("AddDnsServerTemplate"@, s@),
        Message::UpdateWebDavUrl(s) => call1("UpdateWebDavUrl"@, s@),
        Message::UpdateWebDavUser(s) => call1("UpdateWebDavUser"@, s@),
        Message::EditProfile(s) => call1("EditProfile"@, s@),
        Message::DownloadCore(s) => call1("DownloadCore"@, s@),
        Message::DeleteKernel(s) => call1("DeleteKernel"@, s@),
        Message::SetDefaultKernel(s) => call1("SetDefaultKernel"@, s@),
        Message::TestProxyDelay(s) => call1("TestProxyDelay"@, s@),
        Message::TestGroupDelay(s) => call1("TestGroupDelay"@, s@),
        Message::SetTunEnabled(b) => call1("SetTunEnabled"@, bool_text(*b)),
        Message::SetTunAutoRoute(b) => call1("SetTunAutoRoute"@, bool_text(*b)),
        Message::SetTunStrictRoute(b) => call1("SetTunStrictRoute"@, bool_text(*b)),
        Message::SetSnifferEnabled(b) => call1("SetSnifferEnabled"@, bool_text(*b)),
        Message::SetAutostart(b) => call1("SetAutostart"@, bool_text(*b)),
        Message::SetSystemProxy(b) => call1("SetSystemProxy"@, bool_text(*b)),
        Message::RemoveDnsServer(i) => call1("RemoveDnsServer"@, decimal(*i as nat)),
        Message::RemoveFallbackDnsServer(i) => call1("RemoveFallbackDnsServer"@, decimal(*i as nat)),
        Message::RemoveToast(i) => call1("RemoveToast"@, decimal(*i as nat)),
        Message::MoveRuleUp(i) => call1("MoveRuleUp"@, decimal(*i as nat)),
        Message::MoveRuleDown(i) => call1("MoveRuleDown"@, decimal(*i as nat)),
        Message::ProxyStarted(r) => call1("ProxyStarted"@, unit_result(*r)),
        Message::ProfileImported(r) => call1("ProfileImported"@, unit_result(*r)),
        Message::ModeSetResult(r) => call1("ModeSetResult"@, unit_result(*r)),
        Message::OperationResult(r) => call1("OperationResult"@, unit_result(*r)),
        Message::RuleAdded(r) => call1("RuleAdded"@, unit_result(*r)),
        Message::DnsSaved(r) => call1("DnsSaved"@, unit_result(*r)),
        Message::AutostartSet(r) => call1("AutostartSet"@, unit_result(*r)),
        Message::SyncFinished(r) => call1("SyncFinished"@, unit_result(*r)),
        Message::SystemProxySet(r) => call1("SystemProxySet"@, unit_result(*r)),
        Message::ProfileSaved(r) => call1("ProfileSaved"@, unit_result(*r)),
        Message::ProfilesLoaded(r) => call1("ProfilesLoaded"@, match r {
            Ok(v) => ok_of(count_of(v@.len(), "profiles"@)),
            Err(e) => err_of(e@),
        }),
        Message::ProxiesLoaded(r) => call1("ProxiesLoaded"@, match r {
            Ok(v) => ok_of(count_of(v@.len(), "proxies"@)),
            Err(e) => err_of(e@),
        }),
        Message::RulesLoaded(r) => call1("RulesLoaded"@, match r {
            Ok(v) => ok_of(count_of(v@.len(), "rules"@)),
            Err(e) => err_of(e@),
        }),
        Message::KernelsLoaded(r) => call1("KernelsLoaded"@, match r {
            Ok(v) => ok_of(count_of(v@.len(), "kernels"@)),
            Err(e) => err_of(e@),
        }),
        Message::CoreUpdateInfo(r) => call1("CoreUpdateInfo"@, match r {
            Ok(v) => ok_of(v@),
            Err(e) => err_of(e@),
        }),
        Message::CoreDownloadFinished(r) => call1("CoreDownloadFinished"@, match r {
            Ok(v) => ok_of(v@),
            Err(e) => err_of(e@),
        }),
        Message::Navigate(route) => call1("Navigate"@, route_name(*route)),
        Message::SelectProxy(g, n) => call2("SelectProxy"@, g@, n@),
        Message::TrafficReceived(t) => call2(
            "TrafficReceived"@,
            "up: "@ + decimal(t.up as nat),
            "down: "@ + decimal(t.down as nat),
        ),
        Message::MemoryReceived(m) => call2(
            "MemoryReceived"@,
            "in_use: "@ + decimal(m.in_use as nat),
            "os_limit: "@ + decimal(m.os_limit as nat),
        ),
        Message::IpInfoReceived(r, id) => call2(
            "IpInfoReceived"@,
            match r {
                Ok(ip) => ok_of(ip@),
                Err(e) => err_of(e@),
            },
            "taskId: "@ + decimal(*id as nat),
        ),
        Message::ConnectionsReceived(c) => call1(
            "ConnectionsReceived"@,
            count_of(c.connections@.len(), "connections"@),
        ),
        Message::RuntimeConfigFetched(r) => call1("RuntimeConfigFetched"@, match r {
            Ok(c) => config_text(*c),
            Err(e) => err_of(e@),
        }),
        Message::ProvidersLoaded(r) => call1("ProvidersLoaded"@, match r {
            Ok((p, rp)) => ok_of(count_of(p@.len(), "proxies"@) + ", "@ + count_of(rp@.len(), "rules"@)),
            Err(e) => err_of(e@),
        }),
        Message::TickFrame(ms) => call1("TickFrame"@, decimal(*ms as nat)),
        Message::TrayIconEvent(_) => "TrayIconEvent"@,
        Message::UpdateDnsServer(i, s) => call2("UpdateDnsServer"@, decimal(*i as nat), s@),
        Message::UpdateFallbackDnsServer(i, s) => call2("UpdateFallbackDnsServer"@, decimal(*i as nat), s@),
        Message::UpdateWebDavPass(_) => "UpdateWebDavPass(***)"@,
        Message::ProfileContentLoaded(r) => call1("ProfileContentLoaded"@, match r {
            Ok((path, _)) => ok_of(path@),
            Err(e) => err_of(e@),
        }),
        Message::EditorTextChanged(_) => "EditorTextChanged"@,
        Message::CoreDownloadProgress(p) => call1("CoreDownloadProgress"@, percent_text(*p)),
        Message::ProxyTested(p, r) => call2("ProxyTested"@, p@, match r {
            Ok(d) => ok_of(decimal(*d as nat) + "ms"@),
            Err(e) => err_of(e@),
        }),
        Message::WindowClosed(id) => call1("WindowClosed"@, decimal(*id as nat)),
        Message::ShowToast(s, st) => call2("ShowToast"@, s@, status_name(*st)),
    }
}

fn call1_exec(name: &str, inner: &str) -> (r: String)
    ensures
        r@ == call1(name@, inner@),
{
    let a = concat(name, "(");
    let b = concat(a.as_str(), inner);
    concat(b.as_str(), ")")
}

fn call2_exec(name: &str, x: &str, y: &str) -> (r: String)
    ensures
        r@ == call2(name@, x@, y@),
{
    let a = concat(name, "(");
    let b = concat(a.as_str(), x);
    let c = concat(b.as_str(), ", ");
    let d = concat(c.as_str(), y);
    concat(d.as_str(), ")")
}

fn ok_exec(inner: &str) -> (r: String)
    ensures
        r@ == ok_of(inner@),
{
    let a = concat("Ok(", inner);
    concat(a.as_str(), ")")
}

fn err_exec(e: &str) -> (r: String)
    ensures
        r@ == err_of(e@),
{
    let a = concat("Err(", e);
    concat(a.as_str(), ")")
}

fn unit_result_exec(r: &Result<(), String>) -> (s: String)
    ensures
        s@ == unit_result(*r),
{
    match r {
        Ok(_) => owned("Ok"),
        Err(e) => err_exec(e.as_str()),
    }
}

fn bool_str(b: bool) -> (r: &'static str)
    ensures
        r@ == bool_text(b),
{
    if b {
        "true"
    } else {
        "false"
    }
}

/// A number in decimal.
pub fn number(n: u64) -> (r: String)
    ensures
        r@ == decimal(n as nat),
{
    let v = decimal_chars(n);
    string_from_chars(v.as_slice())
}

fn count_exec(n: u64, label: &str) -> (r: String)
    ensures
        r@ == count_of(n as nat, label@),
{
    let a = concat(number(n).as_str(), " ");
    concat(a.as_str(), label)
}

fn percent_exec(p: u32) -> (r: String)
    ensures
        r@ == percent_text(p),
{
    let whole = number((p / 100) as u64);
    let a = concat(whole.as_str(), ".");
    let tenths = decimal_chars(((p % 100) / 10) as u64);
    let hundredths = decimal_chars((p % 10) as u64);
    let mut digits: Vec<char> = Vec::new();
    digits.push(tenths[0]);
    digits.push(hundredths[0]);
    proof {
        reveal_with_fuel(decimal, 1);
    }
    assert(digits@ =~= seq![digit(((p % 100) / 10) as nat), digit((p % 10) as nat)]);
    let b = concat(a.as_str(), string_from_chars(digits.as_slice()).as_str());
    concat(b.as_str(), "%")
}

fn route_str(r: Route) -> (s: &'static str)
    ensures
        s@ == route_name(r),
{
    match r {
        Route::Overview => "Overview",
        Route::Profiles => "Profiles",
        Route::Proxies => "Proxies",
        Route::Runtime => "Runtime",
        Route::Rules => "Rules",
        Route::Dns => "Dns",
        Route::Sync => "Sync",
        Route::Editor => "Editor",
        Route::Settings => "Settings",
    }
}

fn status_str(s: ToastStatus) -> (r: &'static str)
    ensures
        r@ == status_name(s),
{
    match s {
        ToastStatus::Info => "Info",
        ToastStatus::Success => "Success",
        ToastStatus::Warning => "Warning",
        ToastStatus::Error => "Error",
    }
}

fn config_exec(c: &RuntimeConfig) -> (r: String)
    ensures
        r@ == config_text(*c),
{
    let mut s = concat(c.mode.as_str(), ", ");
    s = concat(s.as_str(), bool_str(c.tun_enabled));
    s = concat(s.as_str(), ", ");
    s = concat(s.as_str(), count_exec(c.dns_nameservers.len() as u64, "DNS").as_str());
    s = concat(s.as_str(), ", ");
    s = concat(s.as_str(), count_exec(c.dns_fallback.len() as u64, "FB").as_str());
    s = concat(s.as_str(), ", ");
    s = concat(s.as_str(), c.dns_enhanced_mode.as_str());
    s = concat(s.as_str(), ", ");
    s = concat(s.as_str(), c.tun_stack.as_str());
    s = concat(s.as_str(), ", ");
    s = concat(s.as_str(), bool_str(c.tun_auto_route));
    s = concat(s.as_str(), ", ");
    s = concat(s.as_str(), bool_str(c.tun_strict_route));
    s = concat(s.as_str(), ", ");
    s = concat(s.as_str(), bool_str(c.sniffer_enabled));
    s
}

impl Message {
    /// The message as the log shows it (`describe_text`).
    pub fn describe(&self) -> (r: String)
        ensures
            r@ == describe_text(*self),
    {
        match self {
            Message::StartProxy => owned("StartProxy"),
            Message::StopProxy => owned("StopProxy"),
            Message::ProxyStopped => owned("ProxyStopped"),
            Message::LoadProfiles => owned("LoadProfiles"),
            Message::ImportProfile => owned("ImportProfile"),
            Message::LoadProxies => owned("LoadProxies"),
            Message::ToggleProxySort => owned("ToggleProxySort"),
            Message::CloseAllConnections => owned("CloseAllConnections"),
            Message::FetchRuntimeConfig => owned("FetchRuntimeConfig"),
            Message::FetchIpInfo => owned("FetchIpInfo"),
            Message::LoadRules => owned("LoadRules"),
            Message::LoadProviders => owned("LoadProviders"),
            Message::UpdateFilteredGroups => owned("UpdateFilteredGroups"),
            Message::AddCustomRule => owned("AddCustomRule"),
            Message::TickSubUpdate => owned("TickSubUpdate"),
            Message::TickWebDavSync => owned("TickWebDavSync"),
            Message::Exit => owned("Exit"),
            Message::AddDnsServer => owned("AddDnsServer"),
            Message::AddFallbackDnsServer => owned("AddFallbackDnsServer"),
            Message::SaveDns => owned("SaveDns"),
            Message::SyncUpload => owned("SyncUpload"),
            Message::SyncDownload => owned("SyncDownload"),
            Message::RequestAdminPrivilege => owned("RequestAdminPrivilege"),
            Message::SaveProfile => owned("SaveProfile"),
            Message::LoadKernels => owned("LoadKernels"),
            Message::CheckCoreUpdate => owned("CheckCoreUpdate"),
            Message::FactoryReset => owned("FactoryReset"),
            Message::OpenConfigDir => owned("OpenConfigDir"),
            Message::FlushFakeIpCache => owned("FlushFakeIpCache"),
            Message::HideWindow => owned("HideWindow"),
            Message::ShowWindow => owned("ShowWindow"),
            Message::ToggleTheme => owned("ToggleTheme"),
            Message::SetActiveProfile(s) => call1_exec("SetActiveProfile", s.as_str()),
            Message::UpdateImportUrl(s) => call1_exec("UpdateImportUrl", s.as_str()),
            Message::UpdateImportName(s) => call1_exec("UpdateImportName", s.as_str()),
            Message::FilterProxies(s) => call1_exec("FilterProxies", s.as_str()),
            Message::LogReceived(s) => call1_exec("LogReceived", s.as_str()),
            Message::SetLogLevel(s) => call1_exec("SetLogLevel", s.as_str()),
            Message::CloseConnection(s) => call1_exec("CloseConnection", s.as_str()),
            Message::SetProxyMode(s) => call1_exec("SetProxyMode", s.as_str()),
            Message::SetTunStack(s) => call1_exec("SetTunStack", s.as_str()),
            Message::UpdateProxyProvider(s) => call1_exec("UpdateProxyProvider", s.as_str()),
            Message::UpdateRuleProvider(s) => call1_exec("UpdateRuleProvider", s.as_str()),
            Message::FilterRules(s) => call1_exec("FilterRules", s.as_str()),
            Message::UpdateNewRuleType(s) => call1_exec("UpdateNewRuleType", s.as_str()),
            Message::UpdateNewRulePayload(s) => call1_exec("UpdateNewRulePayload", s.as_str()),
            Message::UpdateNewRuleTarget(s) => call1_exec("UpdateNewRuleTarget", s.as_str()),
            Message::MenuEvent(s) => call1_exec("MenuEvent", s.as_str()),
            Message::UpdateDnsEnhancedMode(s) => call1_exec("UpdateDnsEnhancedMode", s.as_str()),
            Message::AddDnsServerTemplate(s) => call1_exec("AddDnsServerTemplate", s.as_str()),
            Message::UpdateWebDavUrl(s) => call1_exec("UpdateWebDavUrl", s.as_str()),
            Message::UpdateWebDavUser(s) => call1_exec("UpdateWebDavUser", s.as_str()),
            Message::EditProfile(s) => call1_exec("EditProfile", s.as_str()),
            Message::DownloadCore(s) => call1_exec("DownloadCore", s.as_str()),
            Message::DeleteKernel(s) => call1_exec("DeleteKernel", s.as_str()),
            Message::SetDefaultKernel(s) => call1_exec("SetDefaultKernel", s.as_str()),
            Message::TestProxyDelay(s) => call1_exec("TestProxyDelay", s.as_str()),
            Message::TestGroupDelay(s) => call1_exec("TestGroupDelay", s.as_str()),
            Message::SetTunEnabled(b) => call1_exec("SetTunEnabled", bool_str(*b)),
            Message::SetTunAutoRoute(b) => call1_exec("SetTunAutoRoute", bool_str(*b)),
            Message::SetTunStrictRoute(b) => call1_exec("SetTunStrictRoute", bool_str(*b)),
            Message::SetSnifferEnabled(b) => call1_exec("SetSnifferEnabled", bool_str(*b)),
            Message::SetAutostart(b) => call1_exec("SetAutostart", bool_str(*b)),
            Message::SetSystemProxy(b) => call1_exec("SetSystemProxy", bool_str(*b)),
            Message::RemoveDnsServer(i) => call1_exec("RemoveDnsServer", number(*i as u64).as_str()),
            Message::RemoveFallbackDnsServer(i) => call1_exec("RemoveFallbackDnsServer", number(*i as u64).as_str()),
            Message::RemoveToast(i) => call1_exec("RemoveToast", number(*i as u64).as_str()),
            Message::MoveRuleUp(i) => call1_exec("MoveRuleUp", number(*i as u64).as_str()),
            Message::MoveRuleDown(i) => call1_exec("MoveRuleDown", number(*i as u64).as_str()),
            Message::ProxyStarted(r) => call1_exec("ProxyStarted", unit_result_exec(r).as_str()),
            Message::ProfileImported(r) => call1_exec("ProfileImported", unit_result_exec(r).as_str()),
            Message::ModeSetResult(r) => call1_exec("ModeSetResult", unit_result_exec(r).as_str()),
            Message::OperationResult(r) => call1_exec("OperationResult", unit_result_exec(r).as_str()),
            Message::RuleAdded(r) => call1_exec("RuleAdded", unit_result_exec(r).as_str()),
            Message::DnsSaved(r) => call1_exec("DnsSaved", unit_result_exec(r).as_str()),
            Message::AutostartSet(r) => call1_exec("AutostartSet", unit_result_exec(r).as_str()),
            Message::SyncFinished(r) => call1_exec("SyncFinished", unit_result_exec(r).as_str()),
            Message::SystemProxySet(r) => call1_exec("SystemProxySet", unit_result_exec(r).as_str()),
            Message::ProfileSaved(r) => call1_exec("ProfileSaved", unit_result_exec(r).as_str()),
            Message::ProfilesLoaded(r) => {
                let inner = match r {
                    Ok(v) => ok_exec(count_exec(v.len() as u64, "profiles").as_str()),
                    Err(e) => err_exec(e.as_str()),
                };
                call1_exec("ProfilesLoaded", inner.as_str())
            },
            Message::ProxiesLoaded(r) => {
                let inner = match r {
                    Ok(v) => ok_exec(count_exec(v.len() as u64, "proxies").as_str()),
                    Err(e) => err_exec(e.as_str()),
                };
                call1_exec("ProxiesLoaded", inner.as_str())
            },
            Message::RulesLoaded(r) => {
                let inner = match r {
                    Ok(v) => ok_exec(count_exec(v.len() as u64, "rules").as_str()),
                    Err(e) => err_exec(e.as_str()),
                };
                call1_exec("RulesLoaded", inner.as_str())
            },
            Message::KernelsLoaded(r) => {
                let inner = match r {
                    Ok(v) => ok_exec(count_exec(v.len() as u64, "kernels").as_str()),
                    Err(e) => err_exec(e.as_str()),
                };
                call1_exec("KernelsLoaded", inner.as_str())
            },
            Message::CoreUpdateInfo(r) => {
                let inner = match r {
                    Ok(v) => ok_exec(v.as_str()),
                    Err(e) => err_exec(e.as_str()),
                };
                call1_exec("CoreUpdateInfo", inner.as_str())
            },
            Message::CoreDownloadFinished(r) => {
                let inner = match r {
                    Ok(v) => ok_exec(v.as_str()),
                    Err(e) => err_exec(e.as_str()),
                };
                call1_exec("CoreDownloadFinished", inner.as_str())
            },
            Message::Navigate(route) => call1_exec("Navigate", route_str(*route)),
            Message::SelectProxy(g, n) => call2_exec("SelectProxy", g.as_str(), n.as_str()),
            Message::TrafficReceived(t) => {
                let up = concat("up: ", number(t.up).as_str());
                let down = concat("down: ", number(t.down).as_str());
                call2_exec("TrafficReceived", up.as_str(), down.as_str())
            },
            Message::MemoryReceived(m) => {
                let a = concat("in_use: ", number(m.in_use).as_str());
                let b = concat("os_limit: ", number(m.os_limit).as_str());
                call2_exec("MemoryReceived", a.as_str(), b.as_str())
            },
            Message::IpInfoReceived(r, id) => {
                let a = match r {
                    Ok(ip) => ok_exec(ip.as_str()),
                    Err(e) => err_exec(e.as_str()),
                };
                let b = concat("taskId: ", number(*id as u64).as_str());
                call2_exec("IpInfoReceived", a.as_str(), b.as_str())
            },
            Message::ConnectionsReceived(c) => call1_exec(
                "ConnectionsReceived",
                count_exec(c.connections.len() as u64, "connections").as_str(),
            ),
            Message::RuntimeConfigFetched(r) => {
                let inner = match r {
                    Ok(c) => config_exec(c),
                    Err(e) => err_exec(e.as_str()),
                };
                call1_exec("RuntimeConfigFetched", inner.as_str())
            },
            Message::ProvidersLoaded(r) => {
                let inner = match r {
                    Ok((p, rp)) => {
                        let a = concat(count_exec(p.len() as u64, "proxies").as_str(), ", ");
                        let b = concat(a.as_str(), count_exec(rp.len() as u64, "rules").as_str());
                        ok_exec(b.as_str())
                    },
                    Err(e) => err_exec(e.as_str()),
                };
                call1_exec("ProvidersLoaded", inner.as_str())
            },
            Message::TickFrame(ms) => call1_exec("TickFrame", number(*ms).as_str()),
            Message::TrayIconEvent(_) => owned("TrayIconEvent"),
            Message::UpdateDnsServer(i, s) => call2_exec("UpdateDnsServer", number(*i as u64).as_str(), s.as_str()),
            Message::UpdateFallbackDnsServer(i, s) => call2_exec("UpdateFallbackDnsServer", number(*i as u64).as_str(), s.as_str()),
            Message::UpdateWebDavPass(_) => owned("UpdateWebDavPass(***)"),
            Message::ProfileContentLoaded(r) => {
                let inner = match r {
                    Ok((path, _)) => ok_exec(path.as_str()),
                    Err(e) => err_exec(e.as_str()),
                };
                call1_exec("ProfileContentLoaded", inner.as_str())
            },
            Message::EditorTextChanged(_) => owned("EditorTextChanged"),
            Message::CoreDownloadProgress(p) => call1_exec("CoreDownloadProgress", percent_exec(*p).as_str()),
            Message::ProxyTested(p, r) => {
                let inner = match r {
                    Ok(d) => ok_exec(concat(number(*d).as_str(), "ms").as_str()),
                    Err(e) => err_exec(e.as_str()),
                };
                call2_exec("ProxyTested", p.as_str(), inner.as_str())
            },
            Message::WindowClosed(id) => call1_exec("WindowClosed", number(*id).as_str()),
            Message::ShowToast(s, st) => call2_exec("ShowToast", s.as_str(), status_str(*st)),
        }
    }
}

} // verus!
