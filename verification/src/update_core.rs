use crate::message::{Command, ConfigPatch, Message, PatchReply};
use crate::model::{ProxyEntry, Rule, RuntimeConfig, RuntimeStatus, ToastStatus, TrafficData};
use crate::proxies::{
    clone_strings, filtered_groups, filtered_groups_of, groups_view, last_by_name, lookup_proxy,
    unique_by_name,
};
use crate::state::{AppState, SystemSwitches, LOG_LIMIT, TRAFFIC_HISTORY_LIMIT};
use crate::text::{decimal, decimal_chars, extend_chars, owned, str_chars, string_from_chars};
use crate::update::{
    dispatch, is_toast, remove_if_in, set_if_in, single, toast, with_index_set, without_index,
};
use std::collections::VecDeque;
use vstd::prelude::*;

verus! {

/// `s` with `x` added last, then its first element dropped if that made it
/// longer than `limit`.
pub open spec fn bounded_push<T>(s: Seq<T>, x: T, limit: nat) -> Seq<T> {
    if s.len() + 1 > limit {
        s.push(x).drop_first()
    } else {
        s.push(x)
    }
}

/// Adds `x` at the back, then drops the front element if the queue grew past
/// `limit`.
pub fn push_bounded<T>(d: &mut VecDeque<T>, x: T, limit: usize)
    ensures
        final(d)@ == bounded_push(old(d)@, x, limit as nat),
{
    d.push_back(x);
    if d.len() > limit {
        let _dropped = d.pop_front();
    }
}

/// The address the delay of a proxy is measured against.
pub open spec fn delay_test_url() -> Seq<char> {
    "http://www.gstatic.com/generate_204"@
}

/// How long a delay measurement may take, in milliseconds.
pub const DELAY_TEST_TIMEOUT_MS: u32 = 3000;

/// The members of the group named `name` in the table; none where there is no
/// such group.
pub open spec fn group_member_names(ps: Seq<ProxyEntry>, name: Seq<char>) -> Seq<String> {
    match lookup_proxy(ps, name) {
        Some(p) => match p.members {
            Some(m) => m@,
            None => seq![],
        },
        None => seq![],
    }
}

/// The messages whose handling starts a new generation of background work, so
/// that replies to older work are ignored.
pub open spec fn cancels_tasks(m: Message) -> bool {
    m is FetchIpInfo || m is StartProxy || m is StopProxy
}

/// Whether handling the message starts a new generation of background work
/// (`cancels_tasks`).
pub fn cancels_background_work(m: &Message) -> (r: bool)
    ensures
        r == cancels_tasks(*m),
{
    match m {
        Message::FetchIpInfo | Message::StartProxy | Message::StopProxy => true,
        _ => false,
    }
}

/// The state after the runtime's configuration arrived.
pub open spec fn with_runtime_config(old: AppState, cfg: RuntimeConfig) -> AppState {
    AppState {
        proxy_mode: Some(cfg.mode),
        tun_enabled: Some(cfg.tun_enabled),
        dns_nameservers: cfg.dns_nameservers,
        dns_fallback_servers: cfg.dns_fallback,
        dns_enhanced_mode: cfg.dns_enhanced_mode,
        tun_stack: cfg.tun_stack,
        tun_auto_route: cfg.tun_auto_route,
        tun_strict_route: cfg.tun_strict_route,
        sniffer_enabled: cfg.sniffer_enabled,
        ..old
    }
}

/// The state after the core stopped: its traffic, connections, logs, mode and
/// TUN switch are forgotten.
pub open spec fn after_stop(old: AppState, new: AppState) -> bool {
    &&& new == AppState {
        traffic: None,
        connections: None,
        logs: new.logs,
        proxy_mode: None,
        tun_enabled: None,
        status: RuntimeStatus::Stopped,
        ..old
    }
    &&& new.logs@.len() == 0
}

/// The work that a message asks of the running core: none while no core runs.
pub open spec fn if_running(old: AppState, c: Seq<Command>, work: Seq<Command>) -> bool {
    c == if old.has_runtime {
        work
    } else {
        seq![]
    }
}

/// A configuration change sent to the core while one runs.
pub open spec fn patch_sent(old: AppState, c: Seq<Command>, patch: ConfigPatch, reply: PatchReply) -> bool {
    if_running(old, c, seq![Command::PatchConfig { patch, reply }])
}

/// The answer to work that ends in `FetchRuntimeConfig` on success: on failure
/// the error is kept.
pub open spec fn refetch_or_error(old: AppState, r: Result<(), String>, new: AppState, c: Seq<Command>) -> bool {
    match r {
        Ok(_) => new == old && c == seq![Command::Dispatch(Message::FetchRuntimeConfig)],
        Err(e) => new == AppState { error_msg: Some(e), ..old } && c.len() == 0,
    }
}

/// The text of the notification that reports a delay measurement.
pub open spec fn delay_report(name: Seq<char>, r: Result<u64, String>) -> Seq<char> {
    match r {
        Ok(d) => name + ": "@ + decimal(d as nat) + "ms"@,
        Err(e) => name + ": "@ + e@,
    }
}

/// Starting and stopping the core, and looking up the public IP.
#[verifier::opaque]
pub open spec fn lifecycle_step(old: AppState, m: Message, new: AppState, c: Seq<Command>) -> bool {
    match m {
        Message::FetchIpInfo => {
            &&& new == AppState { last_task_id: (old.last_task_id + 1) as usize, ..old }
            &&& c == seq![Command::FetchPublicIp { task_id: new.last_task_id }]
        },
        Message::StartProxy => {
            &&& new == AppState {
                last_task_id: (old.last_task_id + 1) as usize,
                status: RuntimeStatus::Starting,
                error_msg: None,
                ..old
            }
            &&& c == seq![Command::StartRuntime]
        },
        Message::StopProxy => {
            &&& new == AppState {
                last_task_id: (old.last_task_id + 1) as usize,
                has_runtime: false,
                status: RuntimeStatus::Stopped,
                ..old
            }
            &&& c == seq![Command::StopRuntime]
        },
        Message::ProxyStarted(r) => match r {
            Ok(_) => {
                &&& new == AppState { status: RuntimeStatus::Running, has_runtime: true, ..old }
                &&& c == seq![
                    Command::Dispatch(Message::FetchRuntimeConfig),
                    Command::Dispatch(Message::LoadProxies),
                    Command::Dispatch(Message::FetchIpInfo),
                ]
            },
            Err(e) => {
                &&& new == AppState { status: RuntimeStatus::Error(e), error_msg: Some(e), ..old }
                &&& c.len() == 0
            },
        },
        Message::ProxyStopped => after_stop(old, new) && c.len() == 0,
        _ => new == old && c.len() == 0,
    }
}

/// Loading, choosing, filtering, sorting and measuring proxies.
#[verifier::opaque]
pub open spec fn proxies_step(old: AppState, m: Message, new: AppState, c: Seq<Command>) -> bool {
    match m {
        Message::LoadProxies => {
            &&& new == (if old.has_runtime {
                AppState { is_loading_proxies: true, ..old }
            } else {
                old
            })
            &&& if_running(old, c, seq![Command::GetProxies])
        },
        Message::ProxiesLoaded(r) => match r {
            Ok(ps) => {
                &&& new == AppState {
                    is_loading_proxies: false,
                    proxies: new.proxies,
                    filtered_groups: new.filtered_groups,
                    ..old
                }
                &&& new.proxies@ == last_by_name(ps@)
                &&& groups_view(new.filtered_groups@) == filtered_groups_of(
                    new.proxies@,
                    old.proxy_filter@,
                    old.proxy_sort_by_delay,
                )
                &&& c == seq![Command::RefreshTrayGroups]
            },
            Err(e) => {
                &&& new == AppState { is_loading_proxies: false, error_msg: Some(e), ..old }
                &&& c.len() == 0
            },
        },
        Message::SelectProxy(group, name) => {
            &&& new == old
            &&& if_running(old, c, seq![Command::SwitchProxy { group, name }])
        },
        Message::FilterProxies(f) => {
            &&& new == AppState { proxy_filter: f, ..old }
            &&& c == seq![Command::Dispatch(Message::UpdateFilteredGroups)]
        },
        Message::ToggleProxySort => {
            &&& new == AppState { proxy_sort_by_delay: !old.proxy_sort_by_delay, ..old }
            &&& c == seq![Command::Dispatch(Message::UpdateFilteredGroups)]
        },
        Message::UpdateFilteredGroups => {
            &&& new == AppState { filtered_groups: new.filtered_groups, ..old }
            &&& groups_view(new.filtered_groups@) == filtered_groups_of(
                old.proxies@,
                old.proxy_filter@,
                old.proxy_sort_by_delay,
            )
            &&& c.len() == 0
        },
        Message::TestProxyDelay(name) => {
            &&& new == old
            &&& if old.has_runtime {
                &&& c.len() == 1
                &&& c[0] matches Command::TestDelay { proxy, url, timeout_ms }
                &&& proxy == name
                &&& url@ == delay_test_url()
                &&& timeout_ms == DELAY_TEST_TIMEOUT_MS
            } else {
                c.len() == 0
            }
        },
        Message::ProxyTested(name, r) => {
            &&& new == old
            &&& c.len() == 1
            &&& is_toast(
                c[0],
                delay_report(name@, r),
                if r is Ok {
                    ToastStatus::Success
                } else {
                    ToastStatus::Error
                },
            )
        },
        Message::TestGroupDelay(name) => {
            &&& new == old
            &&& if old.has_runtime {
                &&& c.len() == 1
                &&& c[0] matches Command::TestDelays { proxies, url, timeout_ms }
                &&& proxies@ == group_member_names(old.proxies@, name@)
                &&& url@ == delay_test_url()
                &&& timeout_ms == DELAY_TEST_TIMEOUT_MS
            } else {
                c.len() == 0
            }
        },
        _ => new == old && c.len() == 0,
    }
}

/// Traffic, memory, IP, connection and log reports, and closing connections.
#[verifier::opaque]
pub open spec fn telemetry_step(old: AppState, m: Message, new: AppState, c: Seq<Command>) -> bool {
    match m {
        Message::TrafficReceived(d) => {
            &&& new == AppState { traffic: Some(d), traffic_history: new.traffic_history, ..old }
            &&& new.traffic_history@ == bounded_push(
                old.traffic_history@,
                (d.up, d.down),
                TRAFFIC_HISTORY_LIMIT as nat,
            )
            &&& c.len() == 0
        },
        Message::MemoryReceived(d) => new == AppState { memory: Some(d), ..old } && c.len() == 0,
        Message::IpInfoReceived(r, id) => {
            &&& new == if id == old.last_task_id {
                match r {
                    Ok(ip) => AppState { public_ip: Some(ip), ..old },
                    Err(e) => AppState { error_msg: Some(e), ..old },
                }
            } else {
                old
            }
            &&& c.len() == 0
        },
        Message::ConnectionsReceived(d) => new == AppState { connections: Some(d), ..old } && c.len()
            == 0,
        Message::LogReceived(line) => {
            &&& new == AppState { logs: new.logs, ..old }
            &&& new.logs@ == bounded_push(old.logs@, line, LOG_LIMIT as nat)
            &&& c == seq![Command::ScrollLogsToEnd]
        },
        Message::CloseConnection(id) => new == old && if_running(
            old,
            c,
            seq![Command::CloseConnection(id)],
        ),
        Message::CloseAllConnections => new == old && if_running(
            old,
            c,
            seq![Command::CloseAllConnections],
        ),
        _ => new == old && c.len() == 0,
    }
}

/// Reading and changing the core's running configuration.
#[verifier::opaque]
pub open spec fn config_step(old: AppState, m: Message, new: AppState, c: Seq<Command>) -> bool {
    match m {
        Message::SetLogLevel(level) => {
            &&& new == AppState { log_level: level, ..old }
            &&& patch_sent(old, c, ConfigPatch::LogLevel(level), PatchReply::Operation)
        },
        Message::FetchRuntimeConfig => new == old && if_running(
            old,
            c,
            seq![Command::GetRuntimeConfig],
        ),
        Message::RuntimeConfigFetched(r) => match r {
            Ok(cfg) => {
                &&& new == with_runtime_config(old, cfg)
                &&& c == seq![
                    Command::UpdateTrayStatus {
                        system_proxy: old.switches.system_proxy_enabled,
                        tun: cfg.tun_enabled,
                    },
                ]
            },
            Err(_) => new == old && c.len() == 0,
        },
        Message::SetProxyMode(mode) => {
            &&& new == AppState { proxy_mode: Some(mode), ..old }
            &&& patch_sent(old, c, ConfigPatch::Mode(mode), PatchReply::ModeSet)
        },
        Message::ModeSetResult(r) => refetch_or_error(old, r, new, c),
        Message::OperationResult(r) => refetch_or_error(old, r, new, c),
        Message::SetTunEnabled(on) => {
            &&& new == AppState { tun_enabled: Some(on), ..old }
            &&& patch_sent(old, c, ConfigPatch::TunEnable(on), PatchReply::Operation)
        },
        Message::SetTunStack(stack) => {
            &&& new == AppState { tun_stack: stack, ..old }
            &&& patch_sent(old, c, ConfigPatch::TunStack(stack), PatchReply::Operation)
        },
        Message::SetTunAutoRoute(on) => {
            &&& new == AppState { tun_auto_route: on, ..old }
            &&& patch_sent(old, c, ConfigPatch::TunAutoRoute(on), PatchReply::Operation)
        },
        Message::SetTunStrictRoute(on) => {
            &&& new == AppState { tun_strict_route: on, ..old }
            &&& patch_sent(old, c, ConfigPatch::TunStrictRoute(on), PatchReply::Operation)
        },
        Message::SetSnifferEnabled(on) => {
            &&& new == AppState { sniffer_enabled: on, ..old }
            &&& patch_sent(old, c, ConfigPatch::SnifferEnable(on), PatchReply::Operation)
        },
        Message::FlushFakeIpCache => new == old && if_running(old, c, seq![Command::FlushFakeIp]),
        _ => new == old && c.len() == 0,
    }
}

/// Loading rules and providers, refreshing providers, and filtering rules.
#[verifier::opaque]
pub open spec fn rules_step(old: AppState, m: Message, new: AppState, c: Seq<Command>) -> bool {
    match m {
        Message::LoadRules => {
            &&& new == (if old.has_runtime {
                AppState { is_loading_rules: true, is_loading_providers: true, ..old }
            } else {
                old
            })
            &&& if_running(old, c, seq![Command::GetRules, Command::GetProviders])
        },
        Message::RulesLoaded(r) => c.len() == 0 && match r {
            Ok(rules) => new == AppState { is_loading_rules: false, rules, ..old },
            Err(e) => new == AppState { is_loading_rules: false, error_msg: Some(e), ..old },
        },
        Message::ProvidersLoaded(r) => c.len() == 0 && match r {
            Ok((p, rp)) => new == AppState {
                is_loading_providers: false,
                proxy_providers: p,
                rule_providers: rp,
                ..old
            },
            Err(e) => new == AppState { is_loading_providers: false, error_msg: Some(e), ..old },
        },
        Message::UpdateProxyProvider(name) => new == old && if_running(
            old,
            c,
            seq![Command::UpdateProxyProvider(name)],
        ),
        Message::UpdateRuleProvider(name) => new == old && if_running(
            old,
            c,
            seq![Command::UpdateRuleProvider(name)],
        ),
        Message::FilterRules(f) => new == AppState { rules_filter: f, ..old } && c.len() == 0,
        Message::MoveRuleUp(i) => c.len() == 0 && if 0 < i < old.rules@.len() {
            &&& new == AppState { rules: new.rules, ..old }
            &&& new.rules@ == rule_moved(old.rules@, i as int, i - 1)
        } else {
            new == old
        },
        Message::MoveRuleDown(i) => c.len() == 0 && if i + 1 < old.rules@.len() {
            &&& new == AppState { rules: new.rules, ..old }
            &&& new.rules@ == rule_moved(old.rules@, i as int, i + 1)
        } else {
            new == old
        },
        _ => new == old && c.len() == 0,
    }
}

/// The rules with the rule at `from` taken out and put back at `to`.
pub open spec fn rule_moved(rules: Seq<Rule>, from: int, to: int) -> Seq<Rule> {
    rules.remove(from).insert(to, rules[from])
}

/// Editing and saving the DNS server lists.
#[verifier::opaque]
pub open spec fn dns_step(old: AppState, m: Message, new: AppState, c: Seq<Command>) -> bool {
    match m {
        Message::UpdateDnsServer(i, server) => {
            &&& new == AppState { dns_nameservers: new.dns_nameservers, ..old }
            &&& new.dns_nameservers@ == with_index_set(old.dns_nameservers@, i, server)
            &&& c.len() == 0
        },
        Message::UpdateDnsEnhancedMode(mode) => new == AppState { dns_enhanced_mode: mode, ..old }
            && c.len() == 0,
        Message::AddDnsServer => {
            &&& new == AppState { dns_nameservers: new.dns_nameservers, ..old }
            &&& new.dns_nameservers@.len() == old.dns_nameservers@.len() + 1
            &&& new.dns_nameservers@.drop_last() == old.dns_nameservers@
            &&& new.dns_nameservers@.last()@.len() == 0
            &&& c.len() == 0
        },
        Message::AddDnsServerTemplate(server) => {
            &&& new == AppState { dns_nameservers: new.dns_nameservers, ..old }
            &&& new.dns_nameservers@ == old.dns_nameservers@.push(server)
            &&& c.len() == 0
        },
        Message::RemoveDnsServer(i) => {
            &&& new == AppState { dns_nameservers: new.dns_nameservers, ..old }
            &&& new.dns_nameservers@ == without_index(old.dns_nameservers@, i)
            &&& c.len() == 0
        },
        Message::UpdateFallbackDnsServer(i, server) => {
            &&& new == AppState { dns_fallback_servers: new.dns_fallback_servers, ..old }
            &&& new.dns_fallback_servers@ == with_index_set(old.dns_fallback_servers@, i, server)
            &&& c.len() == 0
        },
        Message::AddFallbackDnsServer => {
            &&& new == AppState { dns_fallback_servers: new.dns_fallback_servers, ..old }
            &&& new.dns_fallback_servers@.len() == old.dns_fallback_servers@.len() + 1
            &&& new.dns_fallback_servers@.drop_last() == old.dns_fallback_servers@
            &&& new.dns_fallback_servers@.last()@.len() == 0
            &&& c.len() == 0
        },
        Message::RemoveFallbackDnsServer(i) => {
            &&& new == AppState { dns_fallback_servers: new.dns_fallback_servers, ..old }
            &&& new.dns_fallback_servers@ == without_index(old.dns_fallback_servers@, i)
            &&& c.len() == 0
        },
        Message::SaveDns => if old.has_runtime {
            &&& new == AppState { is_saving_dns: true, ..old }
            &&& c.len() == 1
            &&& c[0] matches Command::PatchConfig { patch, reply }
            &&& reply == PatchReply::DnsSaved
            &&& patch matches ConfigPatch::Dns { enhanced_mode, nameservers, fallback }
            &&& enhanced_mode == old.dns_enhanced_mode
            &&& nameservers@ == old.dns_nameservers@
            &&& fallback@ == old.dns_fallback_servers@
        } else {
            new == old && c.len() == 0
        },
        Message::DnsSaved(r) => match r {
            Ok(_) => {
                &&& new == AppState { is_saving_dns: false, ..old }
                &&& c.len() == 1
                &&& is_toast(c[0], "DNS settings saved"@, ToastStatus::Success)
            },
            Err(e) => {
                &&& new == AppState { is_saving_dns: false, error_msg: Some(e), ..old }
                &&& c.len() == 1
                &&& is_toast(c[0], e@, ToastStatus::Error)
            },
        },
        _ => new == old && c.len() == 0,
    }
}

/// Starting with the system, and checking, installing and choosing core versions.
#[verifier::opaque]
pub open spec fn system_step(old: AppState, m: Message, new: AppState, c: Seq<Command>) -> bool {
    match m {
        Message::SetAutostart(on) => {
            &&& new == AppState {
                switches: SystemSwitches {
                    autostart_enabled: on,
                    autostart_before_request: old.switches.autostart_enabled,
                    ..old.switches
                },
                ..old
            }
            &&& c == seq![Command::ApplyAutostart(on)]
        },
        Message::AutostartSet(r) => c.len() == 0 && match r {
            Ok(_) => new == old,
            Err(e) => new == AppState {
                switches: SystemSwitches {
                    autostart_enabled: old.switches.autostart_before_request,
                    ..old.switches
                },
                error_msg: Some(e),
                ..old
            },
        },
        Message::CheckCoreUpdate => {
            &&& new == AppState { is_checking_update: true, ..old }
            &&& c == seq![Command::CheckCoreUpdate]
        },
        Message::CoreUpdateInfo(r) => c.len() == 0 && match r {
            Ok(v) => new == AppState { is_checking_update: false, latest_core_version: Some(v), ..old },
            Err(e) => new == AppState { is_checking_update: false, error_msg: Some(e), ..old },
        },
        Message::DownloadCore(v) => new == old && c == seq![Command::InstallCore(v)],
        Message::CoreDownloadProgress(p) => new == AppState { download_progress: p, ..old } && c.len()
            == 0,
        Message::CoreDownloadFinished(r) => match r {
            Ok(_) => {
                &&& new == AppState { download_progress: 0, ..old }
                &&& c == seq![Command::Dispatch(Message::LoadKernels)]
            },
            Err(e) => {
                &&& new == AppState { download_progress: 0, error_msg: Some(e), ..old }
                &&& c.len() == 1
                &&& is_toast(c[0], e@, ToastStatus::Error)
            },
        },
        Message::LoadKernels => new == old && c == seq![Command::ListKernels],
        Message::KernelsLoaded(r) => c.len() == 0 && match r {
            Ok(v) => new == AppState { installed_kernels: v, ..old },
            Err(e) => new == AppState { error_msg: Some(e), ..old },
        },
        Message::SetDefaultKernel(v) => new == old && c == seq![Command::SetDefaultKernel(v)],
        Message::DeleteKernel(v) => new == old && c == seq![Command::UninstallKernel(v)],
        _ => new == old && c.len() == 0,
    }
}

/// How a message of the core, network, configuration, DNS, rule and kernel kind
/// changes the state and what work it starts.  Messages of no such kind change
/// nothing.
pub open spec fn core_step(old: AppState, m: Message, new: AppState, c: Seq<Command>) -> bool {
    match m {
        Message::FetchIpInfo | Message::StartProxy | Message::StopProxy | Message::ProxyStarted(_) | Message::ProxyStopped => lifecycle_step(old, m, new, c),
        Message::LoadProxies | Message::ProxiesLoaded(_) | Message::SelectProxy(_, _) | Message::FilterProxies(_) | Message::ToggleProxySort | Message::UpdateFilteredGroups | Message::TestProxyDelay(_) | Message::ProxyTested(_, _) | Message::TestGroupDelay(_) => proxies_step(old, m, new, c),
        Message::TrafficReceived(_) | Message::MemoryReceived(_) | Message::IpInfoReceived(_, _) | Message::ConnectionsReceived(_) | Message::LogReceived(_) | Message::CloseConnection(_) | Message::CloseAllConnections => telemetry_step(old, m, new, c),
        Message::SetLogLevel(_) | Message::FetchRuntimeConfig | Message::RuntimeConfigFetched(_) | Message::SetProxyMode(_) | Message::ModeSetResult(_) | Message::OperationResult(_) | Message::SetTunEnabled(_) | Message::SetTunStack(_) | Message::SetTunAutoRoute(_) | Message::SetTunStrictRoute(_) | Message::SetSnifferEnabled(_) | Message::FlushFakeIpCache => config_step(old, m, new, c),
        Message::LoadRules | Message::RulesLoaded(_) | Message::ProvidersLoaded(_) | Message::UpdateProxyProvider(_) | Message::UpdateRuleProvider(_) | Message::FilterRules(_) | Message::MoveRuleUp(_) | Message::MoveRuleDown(_) => rules_step(old, m, new, c),
        Message::UpdateDnsServer(_, _) | Message::UpdateDnsEnhancedMode(_) | Message::AddDnsServer | Message::AddDnsServerTemplate(_) | Message::RemoveDnsServer(_) | Message::UpdateFallbackDnsServer(_, _) | Message::AddFallbackDnsServer | Message::RemoveFallbackDnsServer(_) | Message::SaveDns | Message::DnsSaved(_) => dns_step(old, m, new, c),
        Message::SetAutostart(_) | Message::AutostartSet(_) | Message::CheckCoreUpdate | Message::CoreUpdateInfo(_) | Message::DownloadCore(_) | Message::CoreDownloadProgress(_) | Message::CoreDownloadFinished(_) | Message::LoadKernels | Message::KernelsLoaded(_) | Message::SetDefaultKernel(_) | Message::DeleteKernel(_) => system_step(old, m, new, c),
        _ => new == old && c.len() == 0,
    }
}

/// The text of the notification that reports a delay measurement.
fn delay_report_text(name: &str, result: &Result<u64, String>) -> (r: String)
    ensures
        r@ == delay_report(name@, *result),
{
    let mut v = str_chars(name);
    let sep = str_chars(": ");
    extend_chars(&mut v, sep.as_slice());
    match result {
        Ok(d) => {
            let digits = decimal_chars(*d);
            extend_chars(&mut v, digits.as_slice());
            let unit = str_chars("ms");
            extend_chars(&mut v, unit.as_slice());
        },
        Err(e) => {
            let tail = str_chars(e.as_str());
            extend_chars(&mut v, tail.as_slice());
        },
    }
    string_from_chars(v.as_slice())
}

impl AppState {
    /// Starts a new generation of background work; replies to older work are
    /// ignored from now on.
    pub fn cancel_all_tasks(&mut self)
        requires
            old(self).last_task_id < usize::MAX,
        ensures
            *final(self) == (AppState { last_task_id: (old(self).last_task_id + 1) as usize, ..*old(self) }),
    {
        self.last_task_id = self.last_task_id + 1;
    }

    fn on_fetch_ip_info(&mut self) -> (c: Vec<Command>)
        requires
            old(self).last_task_id < usize::MAX,
        ensures
            core_step(*old(self), Message::FetchIpInfo, *final(self), c@),
    {
        reveal(lifecycle_step);
        self.cancel_all_tasks();
        single(Command::FetchPublicIp { task_id: self.last_task_id })
    }

    fn on_traffic(&mut self, data: TrafficData) -> (c: Vec<Command>)
        ensures
            core_step(*old(self), Message::TrafficReceived(data), *final(self), c@),
    {
        reveal(telemetry_step);
        self.traffic = Some(data);
        push_bounded(&mut self.traffic_history, (data.up, data.down), TRAFFIC_HISTORY_LIMIT);
        Vec::new()
    }

    fn on_dns_saved(&mut self, result: Result<(), String>) -> (c: Vec<Command>)
        ensures
            core_step(*old(self), Message::DnsSaved(result), *final(self), c@),
    {
        reveal(dns_step);
        match result {
            Ok(_) => {
                self.is_saving_dns = false;
                single(toast(owned("DNS settings saved"), ToastStatus::Success))
            },
            Err(e) => {
                self.is_saving_dns = false;
                self.error_msg = Some(e.clone());
                single(toast(e, ToastStatus::Error))
            },
        }
    }

    fn on_start_proxy(&mut self) -> (c: Vec<Command>)
        requires
            old(self).last_task_id < usize::MAX,
        ensures
            core_step(*old(self), Message::StartProxy, *final(self), c@),
    {
        reveal(lifecycle_step);
        self.cancel_all_tasks();
        self.status = RuntimeStatus::Starting;
        self.error_msg = None;
        single(Command::StartRuntime)
    }

    fn on_stop_proxy(&mut self) -> (c: Vec<Command>)
        requires
            old(self).last_task_id < usize::MAX,
        ensures
            core_step(*old(self), Message::StopProxy, *final(self), c@),
    {
        reveal(lifecycle_step);
        self.cancel_all_tasks();
        self.has_runtime = false;
        self.status = RuntimeStatus::Stopped;
        single(Command::StopRuntime)
    }

    fn on_proxy_started(&mut self, result: Result<(), String>) -> (c: Vec<Command>)
        ensures
            core_step(*old(self), Message::ProxyStarted(result), *final(self), c@),
    {
        reveal(lifecycle_step);
        match result {
            Ok(_) => {
                self.status = RuntimeStatus::Running;
                self.has_runtime = true;
                let mut v: Vec<Command> = Vec::new();
                v.push(Command::Dispatch(Message::FetchRuntimeConfig));
                v.push(Command::Dispatch(Message::LoadProxies));
                v.push(Command::Dispatch(Message::FetchIpInfo));
                assert(v@ =~= seq![
                    Command::Dispatch(Message::FetchRuntimeConfig),
                    Command::Dispatch(Message::LoadProxies),
                    Command::Dispatch(Message::FetchIpInfo),
                ]);
                v
            },
            Err(e) => {
                self.status = RuntimeStatus::Error(e.clone());
                self.error_msg = Some(e);
                Vec::new()
            },
        }
    }

    fn on_proxy_stopped(&mut self) -> (c: Vec<Command>)
        ensures
            core_step(*old(self), Message::ProxyStopped, *final(self), c@),
    {
        reveal(lifecycle_step);
        self.traffic = None;
        self.connections = None;
        self.logs.clear();
        self.proxy_mode = None;
        self.tun_enabled = None;
        self.status = RuntimeStatus::Stopped;
        Vec::new()
    }

    fn on_load_proxies(&mut self) -> (c: Vec<Command>)
        ensures
            core_step(*old(self), Message::LoadProxies, *final(self), c@),
    {
        reveal(proxies_step);
        if self.has_runtime {
            self.is_loading_proxies = true;
            single(Command::GetProxies)
        } else {
            Vec::new()
        }
    }

    /// Recomputes the groups and members that the proxies page lists.
    pub fn recompute_filtered_groups(&mut self)
        ensures
            *final(self) == (AppState { filtered_groups: final(self).filtered_groups, ..*old(self) }),
            groups_view(final(self).filtered_groups@) == filtered_groups_of(
                old(self).proxies@,
                old(self).proxy_filter@,
                old(self).proxy_sort_by_delay,
            ),
    {
        let groups = filtered_groups(&self.proxies, self.proxy_filter.as_str(), self.proxy_sort_by_delay);
        self.filtered_groups = groups;
    }

    fn on_proxies_loaded(&mut self, result: Result<Vec<ProxyEntry>, String>) -> (c: Vec<Command>)
        ensures
            core_step(*old(self), Message::ProxiesLoaded(result), *final(self), c@),
    {
        reveal(proxies_step);
        match result {
            Ok(ps) => {
                self.is_loading_proxies = false;
                self.proxies = unique_by_name(ps);
                self.recompute_filtered_groups();
                single(Command::RefreshTrayGroups)
            },
            Err(e) => {
                self.is_loading_proxies = false;
                self.error_msg = Some(e);
                Vec::new()
            },
        }
    }

    fn on_filter_proxies(&mut self, filter: String) -> (c: Vec<Command>)
        ensures
            core_step(*old(self), Message::FilterProxies(filter), *final(self), c@),
    {
        reveal(proxies_step);
        self.proxy_filter = filter;
        dispatch(Message::UpdateFilteredGroups)
    }

    fn on_toggle_proxy_sort(&mut self) -> (c: Vec<Command>)
        ensures
            core_step(*old(self), Message::ToggleProxySort, *final(self), c@),
    {
        reveal(proxies_step);
        self.proxy_sort_by_delay = !self.proxy_sort_by_delay;
        dispatch(Message::UpdateFilteredGroups)
    }

    fn on_update_filtered_groups(&mut self) -> (c: Vec<Command>)
        ensures
            core_step(*old(self), Message::UpdateFilteredGroups, *final(self), c@),
    {
        reveal(proxies_step);
        self.recompute_filtered_groups();
        Vec::new()
    }

    fn on_memory(&mut self, data: crate::model::MemoryData) -> (c: Vec<Command>)
        ensures
            core_step(*old(self), Message::MemoryReceived(data), *final(self), c@),
    {
        reveal(telemetry_step);
        self.memory = Some(data);
        Vec::new()
    }

    fn on_ip_info(&mut self, result: Result<String, String>, task_id: usize) -> (c: Vec<Command>)
        ensures
            core_step(*old(self), Message::IpInfoReceived(result, task_id), *final(self), c@),
    {
        reveal(telemetry_step);
        if task_id == self.last_task_id {
            self.keep_ip_result(result);
        }
        Vec::new()
    }

    /// Keeps the public IP that was looked up, or the error.
    fn keep_ip_result(&mut self, result: Result<String, String>)
        ensures
            *final(self) == match result {
                Ok(ip) => AppState { public_ip: Some(ip), ..*old(self) },
                Err(e) => AppState { error_msg: Some(e), ..*old(self) },
            },
    {
        match result {
            Ok(ip) => self.public_ip = Some(ip),
            Err(e) => self.error_msg = Some(e),
        }
    }

    fn on_connections(&mut self, data: crate::model::ConnectionSnapshot) -> (c: Vec<Command>)
        ensures
            core_step(*old(self), Message::ConnectionsReceived(data), *final(self), c@),
    {
        reveal(telemetry_step);
        self.connections = Some(data);
        Vec::new()
    }

    fn on_log(&mut self, line: String) -> (c: Vec<Command>)
        ensures
            core_step(*old(self), Message::LogReceived(line), *final(self), c@),
    {
        reveal(telemetry_step);
        push_bounded(&mut self.logs, line, LOG_LIMIT);
        single(Command::ScrollLogsToEnd)
    }

    /// A configuration change for the core, where one runs.
    fn patch(&self, patch: ConfigPatch, reply: PatchReply) -> (c: Vec<Command>)
        ensures
            patch_sent(*self, c@, patch, reply),
    {
        if self.has_runtime {
            single(Command::PatchConfig { patch, reply })
        } else {
            Vec::new()
        }
    }

    fn on_set_log_level(&mut self, level: String) -> (c: Vec<Command>)
        ensures
            core_step(*old(self), Message::SetLogLevel(level), *final(self), c@),
    {
        reveal(config_step);
        let c = self.patch(ConfigPatch::LogLevel(level.clone()), PatchReply::Operation);
        self.log_level = level;
        c
    }

    fn on_runtime_config(&mut self, result: Result<RuntimeConfig, String>) -> (c: Vec<Command>)
        ensures
            core_step(*old(self), Message::RuntimeConfigFetched(result), *final(self), c@),
    {
        reveal(config_step);
        match result {
            Ok(cfg) => {
                let tun = cfg.tun_enabled;
                self.proxy_mode = Some(cfg.mode);
                self.tun_enabled = Some(cfg.tun_enabled);
                self.dns_nameservers = cfg.dns_nameservers;
                self.dns_fallback_servers = cfg.dns_fallback;
                self.dns_enhanced_mode = cfg.dns_enhanced_mode;
                self.tun_stack = cfg.tun_stack;
                self.tun_auto_route = cfg.tun_auto_route;
                self.tun_strict_route = cfg.tun_strict_route;
                self.sniffer_enabled = cfg.sniffer_enabled;
                single(Command::UpdateTrayStatus { system_proxy: self.switches.system_proxy_enabled, tun })
            },
            Err(_) => Vec::new(),
        }
    }

    fn on_set_proxy_mode(&mut self, mode: String) -> (c: Vec<Command>)
        ensures
            core_step(*old(self), Message::SetProxyMode(mode), *final(self), c@),
    {
        reveal(config_step);
        let c = self.patch(ConfigPatch::Mode(mode.clone()), PatchReply::ModeSet);
        self.proxy_mode = Some(mode);
        c
    }

    /// Work that ends in `FetchRuntimeConfig` on success; on failure the error
    /// is kept.
    fn refetch_or_keep_error(&mut self, result: Result<(), String>) -> (c: Vec<Command>)
        ensures
            refetch_or_error(*old(self), result, *final(self), c@),
    {
        match result {
            Ok(_) => dispatch(Message::FetchRuntimeConfig),
            Err(e) => {
                self.error_msg = Some(e);
                Vec::new()
            },
        }
    }

    fn on_mode_set(&mut self, result: Result<(), String>) -> (c: Vec<Command>)
        ensures
            core_step(*old(self), Message::ModeSetResult(result), *final(self), c@),
    {
        reveal(config_step);
        self.refetch_or_keep_error(result)
    }

    fn on_operation_result(&mut self, result: Result<(), String>) -> (c: Vec<Command>)
        ensures
            core_step(*old(self), Message::OperationResult(result), *final(self), c@),
    {
        reveal(config_step);
        self.refetch_or_keep_error(result)
    }

    fn on_set_tun_enabled(&mut self, on: bool) -> (c: Vec<Command>)
        ensures
            core_step(*old(self), Message::SetTunEnabled(on), *final(self), c@),
    {
        reveal(config_step);
        let c = self.patch(ConfigPatch::TunEnable(on), PatchReply::Operation);
        self.set_tun_enabled(on);
        c
    }

    fn on_set_tun_stack(&mut self, stack: String) -> (c: Vec<Command>)
        ensures
            core_step(*old(self), Message::SetTunStack(stack), *final(self), c@),
    {
        reveal(config_step);
        let c = self.patch(ConfigPatch::TunStack(stack.clone()), PatchReply::Operation);
        self.tun_stack = stack;
        c
    }

    fn set_tun_auto_route(&mut self, on: bool)
        ensures
            *final(self) == (AppState { tun_auto_route: on, ..*old(self) }),
    {
        self.tun_auto_route = on;
    }

    fn set_tun_strict_route(&mut self, on: bool)
        ensures
            *final(self) == (AppState { tun_strict_route: on, ..*old(self) }),
    {
        self.tun_strict_route = on;
    }

    fn set_sniffer_enabled(&mut self, on: bool)
        ensures
            *final(self) == (AppState { sniffer_enabled: on, ..*old(self) }),
    {
        self.sniffer_enabled = on;
    }

    fn set_autostart_enabled(&mut self, on: bool)
        ensures
            *final(self) == (AppState {
                switches: SystemSwitches {
                    autostart_enabled: on,
                    autostart_before_request: old(self).switches.autostart_enabled,
                    ..old(self).switches
                },
                ..*old(self)
            }),
    {
        self.switches.autostart_before_request = self.switches.autostart_enabled;
        self.switches.autostart_enabled = on;
    }

    fn set_tun_enabled(&mut self, on: bool)
        ensures
            *final(self) == (AppState { tun_enabled: Some(on), ..*old(self) }),
    {
        self.tun_enabled = Some(on);
    }

    fn on_set_tun_auto_route(&mut self, on: bool) -> (c: Vec<Command>)
        ensures
            core_step(*old(self), Message::SetTunAutoRoute(on), *final(self), c@),
    {
        reveal(config_step);
        let c = self.patch(ConfigPatch::TunAutoRoute(on), PatchReply::Operation);
        self.set_tun_auto_route(on);
        c
    }

    fn on_set_tun_strict_route(&mut self, on: bool) -> (c: Vec<Command>)
        ensures
            core_step(*old(self), Message::SetTunStrictRoute(on), *final(self), c@),
    {
        reveal(config_step);
        let c = self.patch(ConfigPatch::TunStrictRoute(on), PatchReply::Operation);
        self.set_tun_strict_route(on);
        c
    }

    fn on_set_sniffer(&mut self, on: bool) -> (c: Vec<Command>)
        ensures
            core_step(*old(self), Message::SetSnifferEnabled(on), *final(self), c@),
    {
        reveal(config_step);
        let c = self.patch(ConfigPatch::SnifferEnable(on), PatchReply::Operation);
        self.set_sniffer_enabled(on);
        c
    }

    fn on_load_rules(&mut self) -> (c: Vec<Command>)
        ensures
            core_step(*old(self), Message::LoadRules, *final(self), c@),
    {
        reveal(rules_step);
        if self.has_runtime {
            self.is_loading_rules = true;
            self.is_loading_providers = true;
            let mut v: Vec<Command> = Vec::new();
            v.push(Command::GetRules);
            v.push(Command::GetProviders);
            assert(v@ =~= seq![Command::GetRules, Command::GetProviders]);
            v
        } else {
            Vec::new()
        }
    }

    fn on_rules_loaded(&mut self, result: Result<Vec<crate::model::Rule>, String>) -> (c: Vec<Command>)
        ensures
            core_step(*old(self), Message::RulesLoaded(result), *final(self), c@),
    {
        reveal(rules_step);
        match result {
            Ok(rules) => {
                self.is_loading_rules = false;
                self.rules = rules;
            },
            Err(e) => {
                self.is_loading_rules = false;
                self.error_msg = Some(e);
            },
        }
        Vec::new()
    }

    fn on_providers_loaded(
        &mut self,
        result: Result<(Vec<crate::model::ProxyProvider>, Vec<crate::model::RuleProvider>), String>,
    ) -> (c: Vec<Command>)
        ensures
            core_step(*old(self), Message::ProvidersLoaded(result), *final(self), c@),
    {
        reveal(rules_step);
        match result {
            Ok((p, rp)) => {
                self.is_loading_providers = false;
                self.proxy_providers = p;
                self.rule_providers = rp;
            },
            Err(e) => {
                self.is_loading_providers = false;
                self.error_msg = Some(e);
            },
        }
        Vec::new()
    }

    fn on_filter_rules(&mut self, filter: String) -> (c: Vec<Command>)
        ensures
            core_step(*old(self), Message::FilterRules(filter), *final(self), c@),
    {
        reveal(rules_step);
        self.rules_filter = filter;
        Vec::new()
    }

    fn on_move_rule_up(&mut self, i: usize) -> (c: Vec<Command>)
        ensures
            core_step(*old(self), Message::MoveRuleUp(i), *final(self), c@),
    {
        reveal(rules_step);
        if 0 < i && i < self.rules.len() {
            let r = self.rules.remove(i);
            self.rules.insert(i - 1, r);
        }
        Vec::new()
    }

    fn on_move_rule_down(&mut self, i: usize) -> (c: Vec<Command>)
        ensures
            core_step(*old(self), Message::MoveRuleDown(i), *final(self), c@),
    {
        reveal(rules_step);
        if i < self.rules.len() && self.rules.len() - i > 1 {
            let r = self.rules.remove(i);
            self.rules.insert(i + 1, r);
        }
        Vec::new()
    }

    fn on_update_dns_server(&mut self, i: usize, server: String) -> (c: Vec<Command>)
        ensures
            core_step(*old(self), Message::UpdateDnsServer(i, server), *final(self), c@),
    {
        reveal(dns_step);
        set_if_in(&mut self.dns_nameservers, i, server);
        Vec::new()
    }

    fn on_update_dns_mode(&mut self, mode: String) -> (c: Vec<Command>)
        ensures
            core_step(*old(self), Message::UpdateDnsEnhancedMode(mode), *final(self), c@),
    {
        reveal(dns_step);
        self.dns_enhanced_mode = mode;
        Vec::new()
    }

    fn on_add_dns_server(&mut self) -> (c: Vec<Command>)
        ensures
            core_step(*old(self), Message::AddDnsServer, *final(self), c@),
    {
        reveal(dns_step);
        self.dns_nameservers.push(String::new());
        assert(self.dns_nameservers@.drop_last() =~= old(self).dns_nameservers@);
        Vec::new()
    }

    fn on_add_dns_template(&mut self, server: String) -> (c: Vec<Command>)
        ensures
            core_step(*old(self), Message::AddDnsServerTemplate(server), *final(self), c@),
    {
        reveal(dns_step);
        self.dns_nameservers.push(server);
        Vec::new()
    }

    fn on_remove_dns_server(&mut self, i: usize) -> (c: Vec<Command>)
        ensures
            core_step(*old(self), Message::RemoveDnsServer(i), *final(self), c@),
    {
        reveal(dns_step);
        remove_if_in(&mut self.dns_nameservers, i);
        Vec::new()
    }

    fn on_update_fallback_server(&mut self, i: usize, server: String) -> (c: Vec<Command>)
        ensures
            core_step(*old(self), Message::UpdateFallbackDnsServer(i, server), *final(self), c@),
    {
        reveal(dns_step);
        set_if_in(&mut self.dns_fallback_servers, i, server);
        Vec::new()
    }

    fn on_add_fallback_server(&mut self) -> (c: Vec<Command>)
        ensures
            core_step(*old(self), Message::AddFallbackDnsServer, *final(self), c@),
    {
        reveal(dns_step);
        self.dns_fallback_servers.push(String::new());
        assert(self.dns_fallback_servers@.drop_last() =~= old(self).dns_fallback_servers@);
        Vec::new()
    }

    fn on_remove_fallback_server(&mut self, i: usize) -> (c: Vec<Command>)
        ensures
            core_step(*old(self), Message::RemoveFallbackDnsServer(i), *final(self), c@),
    {
        reveal(dns_step);
        remove_if_in(&mut self.dns_fallback_servers, i);
        Vec::new()
    }

    fn on_save_dns(&mut self) -> (c: Vec<Command>)
        ensures
            core_step(*old(self), Message::SaveDns, *final(self), c@),
    {
        reveal(dns_step);
        if self.has_runtime {
            let patch = ConfigPatch::Dns {
                enhanced_mode: self.dns_enhanced_mode.clone(),
                nameservers: clone_strings(&self.dns_nameservers),
                fallback: clone_strings(&self.dns_fallback_servers),
            };
            self.is_saving_dns = true;
            single(Command::PatchConfig { patch, reply: PatchReply::DnsSaved })
        } else {
            Vec::new()
        }
    }

    fn on_set_autostart(&mut self, on: bool) -> (c: Vec<Command>)
        ensures
            core_step(*old(self), Message::SetAutostart(on), *final(self), c@),
    {
        reveal(system_step);
        let c = single(Command::ApplyAutostart(on));
        self.set_autostart_enabled(on);
        c
    }

    fn on_autostart_set(&mut self, result: Result<(), String>) -> (c: Vec<Command>)
        ensures
            core_step(*old(self), Message::AutostartSet(result), *final(self), c@),
    {
        reveal(system_step);
        match result {
            Ok(_) => {},
            Err(e) => {
                self.switches.autostart_enabled = self.switches.autostart_before_request;
                self.error_msg = Some(e);
            },
        }
        Vec::new()
    }

    fn on_check_core_update(&mut self) -> (c: Vec<Command>)
        ensures
            core_step(*old(self), Message::CheckCoreUpdate, *final(self), c@),
    {
        reveal(system_step);
        self.is_checking_update = true;
        single(Command::CheckCoreUpdate)
    }

    fn on_core_update_info(&mut self, result: Result<String, String>) -> (c: Vec<Command>)
        ensures
            core_step(*old(self), Message::CoreUpdateInfo(result), *final(self), c@),
    {
        reveal(system_step);
        match result {
            Ok(v) => {
                self.is_checking_update = false;
                self.latest_core_version = Some(v);
            },
            Err(e) => {
                self.is_checking_update = false;
                self.error_msg = Some(e);
            },
        }
        Vec::new()
    }

    fn on_download_progress(&mut self, progress: u32) -> (c: Vec<Command>)
        ensures
            core_step(*old(self), Message::CoreDownloadProgress(progress), *final(self), c@),
    {
        reveal(system_step);
        self.download_progress = progress;
        Vec::new()
    }

    fn on_download_finished(&mut self, result: Result<String, String>) -> (c: Vec<Command>)
        ensures
            core_step(*old(self), Message::CoreDownloadFinished(result), *final(self), c@),
    {
        reveal(system_step);
        match result {
            Ok(_) => {
                self.download_progress = 0;
                dispatch(Message::LoadKernels)
            },
            Err(e) => {
                self.download_progress = 0;
                self.error_msg = Some(e.clone());
                single(toast(e, ToastStatus::Error))
            },
        }
    }

    fn on_kernels_loaded(&mut self, result: Result<Vec<crate::model::VersionInfo>, String>) -> (c: Vec<Command>)
        ensures
            core_step(*old(self), Message::KernelsLoaded(result), *final(self), c@),
    {
        reveal(system_step);
        match result {
            Ok(v) => self.installed_kernels = v,
            Err(e) => self.error_msg = Some(e),
        }
        Vec::new()
    }

    /// The members of the group named `name`.
    fn group_member_list(&self, name: &str) -> (r: Vec<String>)
        ensures
            r@ == group_member_names(self.proxies@, name@),
    {
        match crate::proxies::find_proxy(&self.proxies, name) {
            Some(i) => match &self.proxies[i].members {
                Some(m) => clone_strings(m),
                None => Vec::new(),
            },
            None => Vec::new(),
        }
    }

    fn on_test_proxy_delay(&self, name: String) -> (c: Vec<Command>)
        ensures
            core_step(*self, Message::TestProxyDelay(name), *self, c@),
    {
        reveal(proxies_step);
        if self.has_runtime {
            single(
                Command::TestDelay {
                    proxy: name,
                    url: owned("http://www.gstatic.com/generate_204"),
                    timeout_ms: DELAY_TEST_TIMEOUT_MS,
                },
            )
        } else {
            Vec::new()
        }
    }

    fn on_test_group_delay(&self, name: String) -> (c: Vec<Command>)
        ensures
            core_step(*self, Message::TestGroupDelay(name), *self, c@),
    {
        reveal(proxies_step);
        if self.has_runtime {
            let proxies = self.group_member_list(name.as_str());
            single(
                Command::TestDelays {
                    proxies,
                    url: owned("http://www.gstatic.com/generate_204"),
                    timeout_ms: DELAY_TEST_TIMEOUT_MS,
                },
            )
        } else {
            Vec::new()
        }
    }

    fn on_proxy_tested(&self, name: String, result: Result<u64, String>) -> (c: Vec<Command>)
        ensures
            core_step(*self, Message::ProxyTested(name, result), *self, c@),
    {
        reveal(proxies_step);
        let text = delay_report_text(name.as_str(), &result);
        let status = match result {
            Ok(_) => ToastStatus::Success,
            Err(_) => ToastStatus::Error,
        };
        single(toast(text, status))
    }

    /// The work of messages that only ask the shell or the core for something.
    fn shell_work(&self, m: Message) -> (c: Vec<Command>)
        requires
            m is SelectProxy || m is CloseConnection || m is CloseAllConnections
                || m is FetchRuntimeConfig || m is UpdateProxyProvider || m is UpdateRuleProvider
                || m is FlushFakeIpCache || m is DownloadCore || m is LoadKernels
                || m is SetDefaultKernel || m is DeleteKernel,
        ensures
            core_step(*self, m, *self, c@),
    {
        reveal(proxies_step);
        reveal(telemetry_step);
        reveal(config_step);
        reveal(rules_step);
        reveal(system_step);
        match m {
            Message::SelectProxy(group, name) => self.when_running(Command::SwitchProxy { group, name }),
            Message::CloseConnection(id) => self.when_running(Command::CloseConnection(id)),
            Message::CloseAllConnections => self.when_running(Command::CloseAllConnections),
            Message::FetchRuntimeConfig => self.when_running(Command::GetRuntimeConfig),
            Message::UpdateProxyProvider(name) => self.when_running(Command::UpdateProxyProvider(name)),
            Message::UpdateRuleProvider(name) => self.when_running(Command::UpdateRuleProvider(name)),
            Message::FlushFakeIpCache => self.when_running(Command::FlushFakeIp),
            Message::DownloadCore(v) => single(Command::InstallCore(v)),
            Message::LoadKernels => single(Command::ListKernels),
            Message::SetDefaultKernel(v) => single(Command::SetDefaultKernel(v)),
            Message::DeleteKernel(v) => single(Command::UninstallKernel(v)),
            _ => Vec::new(),
        }
    }

    /// One command while a core runs; none otherwise.
    fn when_running(&self, work: Command) -> (c: Vec<Command>)
        ensures
            if_running(*self, c@, seq![work]),
    {
        if self.has_runtime {
            single(work)
        } else {
            Vec::new()
        }
    }

    /// Handles the messages of the core, network, configuration, DNS, rule and
    /// kernel kind.
    pub fn update_core(&mut self, message: Message) -> (c: Vec<Command>)
        requires
            cancels_tasks(message) ==> old(self).last_task_id < usize::MAX,
        ensures
            core_step(*old(self), message, *final(self), c@),
    {
        match message {
            Message::FetchIpInfo => self.on_fetch_ip_info(),
            Message::StartProxy => self.on_start_proxy(),
            Message::StopProxy => self.on_stop_proxy(),
            Message::ProxyStarted(r) => self.on_proxy_started(r),
            Message::ProxyStopped => self.on_proxy_stopped(),
            Message::LoadProxies => self.on_load_proxies(),
            Message::ProxiesLoaded(r) => self.on_proxies_loaded(r),
            Message::FilterProxies(f) => self.on_filter_proxies(f),
            Message::ToggleProxySort => self.on_toggle_proxy_sort(),
            Message::UpdateFilteredGroups => self.on_update_filtered_groups(),
            Message::TestProxyDelay(name) => self.on_test_proxy_delay(name),
            Message::ProxyTested(name, r) => self.on_proxy_tested(name, r),
            Message::TestGroupDelay(name) => self.on_test_group_delay(name),
            Message::TrafficReceived(d) => self.on_traffic(d),
            Message::MemoryReceived(d) => self.on_memory(d),
            Message::IpInfoReceived(r, id) => self.on_ip_info(r, id),
            Message::ConnectionsReceived(d) => self.on_connections(d),
            Message::LogReceived(line) => self.on_log(line),
            Message::SetLogLevel(level) => self.on_set_log_level(level),
            Message::RuntimeConfigFetched(r) => self.on_runtime_config(r),
            Message::SetProxyMode(mode) => self.on_set_proxy_mode(mode),
            Message::ModeSetResult(r) => self.on_mode_set(r),
            Message::OperationResult(r) => self.on_operation_result(r),
            Message::SetTunEnabled(on) => self.on_set_tun_enabled(on),
            Message::SetTunStack(stack) => self.on_set_tun_stack(stack),
            Message::SetTunAutoRoute(on) => self.on_set_tun_auto_route(on),
            Message::SetTunStrictRoute(on) => self.on_set_tun_strict_route(on),
            Message::SetSnifferEnabled(on) => self.on_set_sniffer(on),
            Message::LoadRules => self.on_load_rules(),
            Message::RulesLoaded(r) => self.on_rules_loaded(r),
            Message::ProvidersLoaded(r) => self.on_providers_loaded(r),
            Message::FilterRules(f) => self.on_filter_rules(f),
            Message::MoveRuleUp(i) => self.on_move_rule_up(i),
            Message::MoveRuleDown(i) => self.on_move_rule_down(i),
            Message::UpdateDnsServer(i, server) => self.on_update_dns_server(i, server),
            Message::UpdateDnsEnhancedMode(mode) => self.on_update_dns_mode(mode),
            Message::AddDnsServer => self.on_add_dns_server(),
            Message::AddDnsServerTemplate(server) => self.on_add_dns_template(server),
            Message::RemoveDnsServer(i) => self.on_remove_dns_server(i),
            Message::UpdateFallbackDnsServer(i, server) => self.on_update_fallback_server(i, server),
            Message::AddFallbackDnsServer => self.on_add_fallback_server(),
            Message::RemoveFallbackDnsServer(i) => self.on_remove_fallback_server(i),
            Message::SaveDns => self.on_save_dns(),
            Message::DnsSaved(r) => self.on_dns_saved(r),
            Message::SetAutostart(on) => self.on_set_autostart(on),
            Message::AutostartSet(r) => self.on_autostart_set(r),
            Message::CheckCoreUpdate => self.on_check_core_update(),
            Message::CoreUpdateInfo(r) => self.on_core_update_info(r),
            Message::CoreDownloadProgress(p) => self.on_download_progress(p),
            Message::CoreDownloadFinished(r) => self.on_download_finished(r),
            Message::KernelsLoaded(r) => self.on_kernels_loaded(r),
            Message::SelectProxy(..) | Message::CloseConnection(_) | Message::CloseAllConnections
            | Message::FetchRuntimeConfig | Message::UpdateProxyProvider(_)
            | Message::UpdateRuleProvider(_) | Message::FlushFakeIpCache | Message::DownloadCore(_)
            | Message::LoadKernels | Message::SetDefaultKernel(_) | Message::DeleteKernel(_) => {
                self.shell_work(message)
            },
            _ => Vec::new(),
        }
    }
}

} // verus!
