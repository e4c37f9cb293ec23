use crate::message::{Command, ConfigPatch, Message, PatchReply};
use crate::model::{ProxyEntry, RuntimeConfig, ToastStatus};
use crate::proxies::{
    last_by_name, lemma_last_by_name_unique, lemma_unique_table_unchanged, names_unique, chars_le, delay_le, delay_of, filtered_groups_of, group_entry_le, group_le, group_positions,
    group_rank, groups_view, insert_sorted, lookup_proxy, name_matches, stable_sort, visible_members,
};
use crate::subscription::{decoded_body, gzip_magic, masked_url, url_path};
use crate::state::{AppState, SystemSwitches, LOG_LIMIT, TRAFFIC_HISTORY_LIMIT};
use crate::update::{is_profile_message, is_ui_message, step, without_index};
use crate::update_core::{
    rule_moved,
    bounded_push, cancels_tasks, config_step, core_step, dns_step, lifecycle_step, proxies_step,
    rules_step, system_step, telemetry_step,
};
use crate::update_profile::{
    content_loaded, import_finished, import_started, profile_saved, profile_step, profiles_loaded,
    rule_add_finished, rule_add_started, save_requested, sync_finished, sync_started,
    with_form_field,
};
use crate::view_model::{rule_fields, tray_menu};
use crate::text::{is_first_index, split_once, trim};
use crate::update_ui::{
    menu_step,
    exited, navigated, system_proxy_applied, system_proxy_requested, theme_toggled, toast_removed,
    toast_shown, ui_step,
};
use vstd::prelude::*;

verus! {

/// A queue that `bounded_push` fills stays within its limit.
pub proof fn lemma_bounded_push_within<T>(s: Seq<T>, x: T, limit: nat)
    requires
        s.len() <= limit,
        limit >= 1,
    ensures
        bounded_push(s, x, limit).len() <= limit,
        bounded_push(s, x, limit).last() == x,
{
}

/// Window, tray and notification messages leave the log and the traffic
/// history alone.
proof fn lemma_ui_keeps_telemetry(old: AppState, m: Message, new: AppState, c: Seq<Command>)
    requires
        ui_step(old, m, new, c),
    ensures
        new.logs == old.logs,
        new.traffic_history == old.traffic_history,
{
    reveal(navigated);
    reveal(theme_toggled);
    reveal(exited);
    reveal(toast_shown);
    reveal(toast_removed);
    reveal(system_proxy_requested);
    reveal(system_proxy_applied);
}

/// Profile messages leave the log and the traffic history alone.
proof fn lemma_profile_keeps_telemetry(old: AppState, m: Message, new: AppState, c: Seq<Command>)
    requires
        profile_step(old, m, new, c),
    ensures
        new.logs == old.logs,
        new.traffic_history == old.traffic_history,
{
    reveal(profiles_loaded);
    reveal(import_started);
    reveal(import_finished);
    reveal(content_loaded);
    reveal(save_requested);
    reveal(profile_saved);
    reveal(sync_started);
    reveal(sync_finished);
    reveal(rule_add_started);
    reveal(rule_add_finished);
    reveal(with_form_field);
}

/// Core messages change the log only by adding a line (`LogReceived`) or by
/// clearing it (`ProxyStopped`), and the traffic history only by adding a
/// sample (`TrafficReceived`).
proof fn lemma_core_telemetry(old: AppState, m: Message, new: AppState, c: Seq<Command>)
    requires
        core_step(old, m, new, c),
    ensures
        m is LogReceived ==> new.logs@ == bounded_push(old.logs@, m->LogReceived_0, LOG_LIMIT as nat),
        m is ProxyStopped ==> new.logs@.len() == 0,
        !(m is LogReceived) && !(m is ProxyStopped) ==> new.logs == old.logs,
        m is TrafficReceived ==> new.traffic_history@ == bounded_push(
            old.traffic_history@,
            (m->TrafficReceived_0.up, m->TrafficReceived_0.down),
            TRAFFIC_HISTORY_LIMIT as nat,
        ),
        !(m is TrafficReceived) ==> new.traffic_history == old.traffic_history,
{
    reveal(lifecycle_step);
    reveal(proxies_step);
    reveal(telemetry_step);
    reveal(config_step);
    reveal(rules_step);
    reveal(dns_step);
    reveal(system_step);
}

/// The log never holds more than `LOG_LIMIT` lines, and the traffic chart never
/// more than `TRAFFIC_HISTORY_LIMIT` samples: every message keeps both bounds.
pub proof fn law_buffers_stay_bounded(old: AppState, m: Message, new: AppState, c: Seq<Command>)
    requires
        step(old, m, new, c),
        old.logs@.len() <= LOG_LIMIT,
        old.traffic_history@.len() <= TRAFFIC_HISTORY_LIMIT,
    ensures
        new.logs@.len() <= LOG_LIMIT,
        new.traffic_history@.len() <= TRAFFIC_HISTORY_LIMIT,
{
    if is_ui_message(m) {
        lemma_ui_keeps_telemetry(old, m, new, c);
    } else if is_profile_message(m) {
        lemma_profile_keeps_telemetry(old, m, new, c);
    } else {
        lemma_core_telemetry(old, m, new, c);
        if m is LogReceived {
            lemma_bounded_push_within(old.logs@, m->LogReceived_0, LOG_LIMIT as nat);
        }
        if m is TrafficReceived {
            lemma_bounded_push_within(
                old.traffic_history@,
                (m->TrafficReceived_0.up, m->TrafficReceived_0.down),
                TRAFFIC_HISTORY_LIMIT as nat,
            );
        }
    }
}

/// A log line that arrives is kept as the newest line; once the log is full,
/// the oldest line makes way for it.
pub proof fn law_log_keeps_newest_lines(old: AppState, line: String, new: AppState, c: Seq<Command>)
    requires
        step(old, Message::LogReceived(line), new, c),
        old.logs@.len() <= LOG_LIMIT,
    ensures
        new.logs@.last() == line,
        old.logs@.len() < LOG_LIMIT ==> new.logs@ == old.logs@.push(line),
        old.logs@.len() == LOG_LIMIT ==> new.logs@ == old.logs@.drop_first().push(line),
        c == seq![Command::ScrollLogsToEnd],
{
    reveal(telemetry_step);
    if old.logs@.len() == LOG_LIMIT {
        assert(old.logs@.push(line).drop_first() =~= old.logs@.drop_first().push(line));
    }
}

/// A reply to a public-IP lookup that is not the latest one started is ignored.
pub proof fn law_stale_ip_reply_ignored(
    old: AppState,
    r: Result<String, String>,
    id: usize,
    new: AppState,
    c: Seq<Command>,
)
    requires
        step(old, Message::IpInfoReceived(r, id), new, c),
        id != old.last_task_id,
    ensures
        new == old,
        c.len() == 0,
{
    reveal(telemetry_step);
}

/// Starting, stopping or a new IP lookup makes every reply to work started
/// before it stale.
pub proof fn law_cancelled_replies_ignored(
    s0: AppState,
    m: Message,
    s1: AppState,
    c1: Seq<Command>,
    r: Result<String, String>,
    id: usize,
    s2: AppState,
    c2: Seq<Command>,
)
    requires
        cancels_tasks(m),
        s0.last_task_id < usize::MAX,
        step(s0, m, s1, c1),
        step(s1, Message::IpInfoReceived(r, id), s2, c2),
        id <= s0.last_task_id,
    ensures
        s2 == s1,
        c2.len() == 0,
{
    reveal(lifecycle_step);
    reveal(telemetry_step);
}

/// When the system refuses a system-proxy change, the switch goes back to
/// where it was before the request, whatever was asked; the refusal is kept,
/// the setting from before is remembered, and nothing else changes.
#[verifier::rlimit(60)]
pub proof fn law_failed_system_proxy_change_rolls_back(
    s0: AppState,
    on: bool,
    s1: AppState,
    c1: Seq<Command>,
    e: String,
    s2: AppState,
    c2: Seq<Command>,
)
    requires
        step(s0, Message::SetSystemProxy(on), s1, c1),
        step(s1, Message::SystemProxySet(Err(e)), s2, c2),
    ensures
        s1.switches.system_proxy_enabled == on,
        c1 == seq![Command::ApplySystemProxy(on)],
        s2.switches.system_proxy_enabled == s0.switches.system_proxy_enabled,
        s2 == (AppState {
            error_msg: Some(e),
            switches: SystemSwitches {
                system_proxy_before_request: s0.switches.system_proxy_enabled,
                ..s0.switches
            },
            ..s0
        }),
{
    lemma_system_proxy_requested(s0, on, s1, c1);
    lemma_system_proxy_refused(s1, e, s2, c2);
    lemma_system_proxy_restored(s0, on, s1, e, s2);
}

proof fn lemma_system_proxy_restored(s0: AppState, on: bool, s1: AppState, e: String, s2: AppState)
    requires
        s1 == (AppState {
            switches: SystemSwitches {
                system_proxy_enabled: on,
                system_proxy_before_request: s0.switches.system_proxy_enabled,
                ..s0.switches
            },
            ..s0
        }),
        s2 == (AppState {
            switches: SystemSwitches {
                system_proxy_enabled: s1.switches.system_proxy_before_request,
                ..s1.switches
            },
            error_msg: Some(e),
            ..s1
        }),
    ensures
        s2 == (AppState {
            error_msg: Some(e),
            switches: SystemSwitches {
                system_proxy_before_request: s0.switches.system_proxy_enabled,
                ..s0.switches
            },
            ..s0
        }),
{
}

proof fn lemma_system_proxy_requested(s0: AppState, on: bool, s1: AppState, c1: Seq<Command>)
    requires
        step(s0, Message::SetSystemProxy(on), s1, c1),
    ensures
        s1 == (AppState {
            switches: SystemSwitches {
                system_proxy_enabled: on,
                system_proxy_before_request: s0.switches.system_proxy_enabled,
                ..s0.switches
            },
            ..s0
        }),
        c1 == seq![Command::ApplySystemProxy(on)],
{
    reveal(system_proxy_requested);
}

proof fn lemma_system_proxy_refused(s1: AppState, e: String, s2: AppState, c2: Seq<Command>)
    requires
        step(s1, Message::SystemProxySet(Err(e)), s2, c2),
    ensures
        s2 == (AppState {
            switches: SystemSwitches {
                system_proxy_enabled: s1.switches.system_proxy_before_request,
                ..s1.switches
            },
            error_msg: Some(e),
            ..s1
        }),
{
    reveal(system_proxy_applied);
}

proof fn lemma_autostart_requested(s0: AppState, on: bool, s1: AppState, c1: Seq<Command>)
    requires
        step(s0, Message::SetAutostart(on), s1, c1),
    ensures
        s1 == (AppState {
            switches: SystemSwitches {
                autostart_enabled: on,
                autostart_before_request: s0.switches.autostart_enabled,
                ..s0.switches
            },
            ..s0
        }),
        c1 == seq![Command::ApplyAutostart(on)],
{
    reveal(system_step);
}

proof fn lemma_autostart_refused(s1: AppState, e: String, s2: AppState, c2: Seq<Command>)
    requires
        step(s1, Message::AutostartSet(Err(e)), s2, c2),
    ensures
        s2 == (AppState {
            switches: SystemSwitches {
                autostart_enabled: s1.switches.autostart_before_request,
                ..s1.switches
            },
            error_msg: Some(e),
            ..s1
        }),
{
    reveal(system_step);
}

/// When the system refuses to change starting with it, the switch goes back
/// to where it was before the request, whatever was asked; the refusal is
/// kept, the setting from before is remembered, and nothing else changes.
pub proof fn law_failed_autostart_change_rolls_back(
    s0: AppState,
    on: bool,
    s1: AppState,
    c1: Seq<Command>,
    e: String,
    s2: AppState,
    c2: Seq<Command>,
)
    requires
        step(s0, Message::SetAutostart(on), s1, c1),
        step(s1, Message::AutostartSet(Err(e)), s2, c2),
    ensures
        s1.switches.autostart_enabled == on,
        c1 == seq![Command::ApplyAutostart(on)],
        s2.switches.autostart_enabled == s0.switches.autostart_enabled,
        s2 == (AppState {
            error_msg: Some(e),
            switches: SystemSwitches {
                autostart_before_request: s0.switches.autostart_enabled,
                ..s0.switches
            },
            ..s0
        }),
{
    lemma_autostart_requested(s0, on, s1, c1);
    lemma_autostart_refused(s1, e, s2, c2);
}

/// Adding a DNS server from a template and then removing the last server gives
/// back the list as it was.
pub proof fn law_dns_add_then_remove_last(
    s0: AppState,
    server: String,
    s1: AppState,
    c1: Seq<Command>,
    i: usize,
    s2: AppState,
    c2: Seq<Command>,
)
    requires
        step(s0, Message::AddDnsServerTemplate(server), s1, c1),
        i == s0.dns_nameservers@.len(),
        step(s1, Message::RemoveDnsServer(i), s2, c2),
    ensures
        s1.dns_nameservers@ == s0.dns_nameservers@.push(server),
        s2.dns_nameservers@ == s0.dns_nameservers@,
        s2 == (AppState { dns_nameservers: s2.dns_nameservers, ..s0 }),
{
    reveal(dns_step);
    assert(s0.dns_nameservers@.push(server).remove(s0.dns_nameservers@.len() as int)
        =~= s0.dns_nameservers@);
}

/// Editing or removing a DNS server at a position past the end of the list
/// changes nothing.
pub proof fn law_dns_edit_out_of_range_ignored(
    old: AppState,
    i: usize,
    server: String,
    m: Message,
    new: AppState,
    c: Seq<Command>,
)
    requires
        m == Message::UpdateDnsServer(i, server) || m == Message::RemoveDnsServer(i),
        i >= old.dns_nameservers@.len(),
        step(old, m, new, c),
    ensures
        new.dns_nameservers@ == old.dns_nameservers@,
        new == (AppState { dns_nameservers: new.dns_nameservers, ..old }),
        c.len() == 0,
{
    reveal(dns_step);
}

/// A notification that is shown and then removed at the position its removal
/// was scheduled for leaves the notifications as they were.
pub proof fn law_toast_show_then_remove(
    s0: AppState,
    text: String,
    status: ToastStatus,
    s1: AppState,
    c1: Seq<Command>,
    i: usize,
    s2: AppState,
    c2: Seq<Command>,
)
    requires
        step(s0, Message::ShowToast(text, status), s1, c1),
        c1 == seq![Command::RemoveToastLater(i)],
        step(s1, Message::RemoveToast(i), s2, c2),
    ensures
        s1.toasts@ == s0.toasts@.push((text, status)),
        s2.toasts@ == s0.toasts@,
        s2 == (AppState { toasts: s2.toasts, ..s0 }),
{
    reveal(toast_shown);
    reveal(toast_removed);
    assert(s0.toasts.len() == s0.toasts@.len());
    assert(c1[0] == Command::RemoveToastLater(i));
    assert(i == s0.toasts@.len());
    assert(without_index(s0.toasts@.push((text, status)), i) =~= s0.toasts@);
}

/// Switching the theme twice gives back the theme and state as they were.
pub proof fn law_theme_toggle_twice(
    s0: AppState,
    s1: AppState,
    c1: Seq<Command>,
    s2: AppState,
    c2: Seq<Command>,
)
    requires
        step(s0, Message::ToggleTheme, s1, c1),
        step(s1, Message::ToggleTheme, s2, c2),
    ensures
        s1.theme != s0.theme,
        s2 == s0,
{
    reveal(theme_toggled);
}

/// `s` is in the order `le`: every element is `le` to every later one.
pub open spec fn sorted_by<A>(s: Seq<A>, le: spec_fn(A, A) -> bool) -> bool {
    forall|i: int, j: int| 0 <= i < j < s.len() ==> le(#[trigger] s[i], #[trigger] s[j])
}

/// `le` is total and transitive.
pub open spec fn total_preorder<A>(le: spec_fn(A, A) -> bool) -> bool {
    &&& forall|a: A, b: A| #[trigger] le(a, b) || le(b, a)
    &&& forall|a: A, b: A, c: A| #[trigger] le(a, b) && #[trigger] le(b, c) ==> le(a, c)
}

proof fn lemma_insert_sorted_multiset<A>(x: A, t: Seq<A>, le: spec_fn(A, A) -> bool)
    ensures
        insert_sorted(x, t, le).to_multiset() =~= t.to_multiset().insert(x),
    decreases t.len(),
{
    broadcast use vstd::seq_lib::group_to_multiset_ensures;

    if t.len() == 0 {
        assert(seq![x] =~= Seq::<A>::empty().push(x));
    } else if le(t.last(), x) {
    } else {
        let u = t.drop_last();
        lemma_insert_sorted_multiset(x, u, le);
        assert(u.push(t.last()) =~= t);
    }
}

proof fn lemma_insert_sorted_sorted<A>(x: A, t: Seq<A>, le: spec_fn(A, A) -> bool)
    requires
        total_preorder(le),
        sorted_by(t, le),
    ensures
        sorted_by(insert_sorted(x, t, le), le),
    decreases t.len(),
{
    broadcast use vstd::seq_lib::group_to_multiset_ensures;

    if t.len() == 0 {
    } else if le(t.last(), x) {
        let r = t.push(x);
        assert forall|i: int, j: int| 0 <= i < j < r.len() implies le(#[trigger] r[i], #[trigger] r[j]) by {
            if j == t.len() {
                if i < t.len() - 1 {
                    assert(le(t[i], t[t.len() - 1]));
                }
            }
        }
    } else {
        let u = t.drop_last();
        let last = t.last();
        assert(sorted_by(u, le)) by {
            assert forall|i: int, j: int| 0 <= i < j < u.len() implies le(#[trigger] u[i], #[trigger] u[j]) by {
                assert(u[i] == t[i] && u[j] == t[j]);
            }
        }
        lemma_insert_sorted_sorted(x, u, le);
        lemma_insert_sorted_multiset(x, u, le);
        let w = insert_sorted(x, u, le);
        let r = w.push(last);
        assert(le(x, last));
        assert forall|k: int| 0 <= k < w.len() implies le(#[trigger] w[k], last) by {
            assert(w.to_multiset().count(w[k]) > 0);
            if w[k] != x {
                assert(u.to_multiset().count(w[k]) > 0);
                assert(u.contains(w[k]));
                let m = choose|m: int| 0 <= m < u.len() && u[m] == w[k];
                assert(u[m] == t[m]);
                assert(le(t[m], t[t.len() - 1]));
            }
        }
        assert forall|i: int, j: int| 0 <= i < j < r.len() implies le(#[trigger] r[i], #[trigger] r[j]) by {
            if j == w.len() {
                assert(r[i] == w[i]);
            } else {
                assert(r[i] == w[i] && r[j] == w[j]);
            }
        }
    }
}

/// Sorting stably by a total preorder gives the same elements, as often as
/// before, in that order.
pub proof fn law_stable_sort_sorts<A>(s: Seq<A>, le: spec_fn(A, A) -> bool)
    requires
        total_preorder(le),
    ensures
        sorted_by(stable_sort(s, le), le),
        stable_sort(s, le).to_multiset() == s.to_multiset(),
    decreases s.len(),
{
    broadcast use vstd::seq_lib::group_to_multiset_ensures;

    if s.len() > 0 {
        let u = s.drop_last();
        law_stable_sort_sorts(u, le);
        lemma_insert_sorted_sorted(s.last(), stable_sort(u, le), le);
        lemma_insert_sorted_multiset(s.last(), stable_sort(u, le), le);
        assert(u.push(s.last()) =~= s);
    }
}

/// The members that the proxies page shows for a group: with a filter, only
/// those whose name contains it (ignoring case), and every member that does;
/// sorted by their latest delay (unmeasured ones last) when sorting by delay is
/// on; the group's own list when there is neither a filter nor sorting.
pub proof fn law_visible_members(
    ps: Seq<ProxyEntry>,
    filter: Seq<char>,
    by_delay: bool,
    all: Seq<Seq<char>>,
)
    ensures
        filter.len() > 0 ==> forall|k: int|
            0 <= k < visible_members(ps, filter, by_delay, all).len() ==> name_matches(
                #[trigger] visible_members(ps, filter, by_delay, all)[k],
                filter,
            ),
        forall|k: int|
            0 <= k < all.len() && (filter.len() == 0 || name_matches(all[k], filter)) ==> visible_members(
                ps,
                filter,
                by_delay,
                all,
            ).contains(#[trigger] all[k]),
        by_delay ==> forall|i: int, j: int|
            0 <= i < j < visible_members(ps, filter, by_delay, all).len() ==> delay_of(
                ps,
                #[trigger] visible_members(ps, filter, by_delay, all)[i],
            ) <= delay_of(ps, #[trigger] visible_members(ps, filter, by_delay, all)[j]),
        !by_delay && filter.len() == 0 ==> visible_members(ps, filter, by_delay, all) == all,
{
    broadcast use vstd::seq_lib::group_to_multiset_ensures;
    broadcast use vstd::seq_lib::group_filter_ensures;

    let pred = |m: Seq<char>| name_matches(m, filter);
    let kept = if filter.len() == 0 {
        all
    } else {
        all.filter(pred)
    };
    let le = delay_le(ps);
    let r = visible_members(ps, filter, by_delay, all);
    if by_delay {
        law_stable_sort_sorts(kept, le);
        assert(r == stable_sort(kept, le));
        assert forall|i: int, j: int| 0 <= i < j < r.len() implies delay_of(ps, #[trigger] r[i])
            <= delay_of(ps, #[trigger] r[j]) by {
            assert(le(r[i], r[j]));
        }
    } else {
        assert(r == kept);
    }
    assert forall|k: int| 0 <= k < r.len() && filter.len() > 0 implies name_matches(
        #[trigger] r[k],
        filter,
    ) by {
        assert(r.to_multiset().count(r[k]) > 0);
        assert(kept.to_multiset().count(r[k]) > 0);
        assert(kept.contains(r[k]));
        let m = choose|m: int| 0 <= m < kept.len() && kept[m] == r[k];
        assert(pred(kept[m]));
    }
    assert forall|k: int| 0 <= k < all.len() && (filter.len() == 0 || name_matches(all[k], filter)) implies r.contains(
        #[trigger] all[k],
    ) by {
        if filter.len() > 0 {
            assert(pred(all[k]));
            assert(kept.contains(all[k]));
        } else {
            assert(kept[k] == all[k]);
        }
        assert(kept.to_multiset().count(all[k]) > 0);
        assert(r.to_multiset().count(all[k]) > 0);
    }
}

/// Every item of the tray menu asks for exactly one message.
pub proof fn law_tray_items_are_understood(old: AppState, k: int, c: Seq<Command>)
    requires
        0 <= k < tray_menu().len(),
        menu_step(old, tray_menu()[k].0, c),
    ensures
        c.len() == 1,
{
    reveal_strlit("show");
    reveal_strlit("quit");
    reveal_strlit("toggle_theme");
    reveal_strlit("mode_rule");
    reveal_strlit("mode_global");
    reveal_strlit("mode_direct");
    reveal_strlit("mode_script");
    reveal_strlit("toggle_system_proxy");
    reveal_strlit("toggle_tun");
}

proof fn lemma_chars_le_total(a: Seq<char>, b: Seq<char>)
    ensures
        chars_le(a, b) || chars_le(b, a),
    decreases a.len(),
{
    if a.len() > 0 && b.len() > 0 && a[0] == b[0] {
        lemma_chars_le_total(a.drop_first(), b.drop_first());
    }
}

proof fn lemma_chars_le_transitive(a: Seq<char>, b: Seq<char>, c: Seq<char>)
    requires
        chars_le(a, b),
        chars_le(b, c),
    ensures
        chars_le(a, c),
    decreases a.len(),
{
    if a.len() > 0 && b.len() > 0 && c.len() > 0 && a[0] == b[0] && b[0] == c[0] {
        lemma_chars_le_transitive(a.drop_first(), b.drop_first(), c.drop_first());
    }
}

/// The order of groups on the proxies page is a total preorder.
proof fn lemma_group_le_total_preorder(ps: Seq<ProxyEntry>)
    ensures
        total_preorder(group_le(ps)),
{
    let le = group_le(ps);
    assert forall|a: int, b: int| #[trigger] le(a, b) || le(b, a) by {
        lemma_chars_le_total(ps[a].proxy_type@, ps[b].proxy_type@);
    }
    assert forall|a: int, b: int, c: int| #[trigger] le(a, b) && #[trigger] le(b, c) implies le(a, c) by {
        if group_rank(ps[a]) == 1 && group_rank(ps[b]) == 1 && group_rank(ps[c]) == 1 {
            lemma_chars_le_transitive(ps[a].proxy_type@, ps[b].proxy_type@, ps[c].proxy_type@);
        }
    }
}

/// The proxies page lists the GLOBAL group before every other group, and the
/// other groups by their type; it lists each group of the table once.
pub proof fn law_groups_global_first(ps: Seq<ProxyEntry>)
    ensures
        forall|i: int, j: int|
            0 <= i < j < stable_sort(group_positions(ps), group_le(ps)).len() ==> group_entry_le(
                ps[#[trigger] stable_sort(group_positions(ps), group_le(ps))[i]],
                ps[#[trigger] stable_sort(group_positions(ps), group_le(ps))[j]],
            ),
        stable_sort(group_positions(ps), group_le(ps)).to_multiset() == group_positions(
            ps,
        ).to_multiset(),
{
    lemma_group_le_total_preorder(ps);
    law_stable_sort_sorts(group_positions(ps), group_le(ps));
    let s = stable_sort(group_positions(ps), group_le(ps));
    assert forall|i: int, j: int| 0 <= i < j < s.len() implies group_entry_le(
        ps[#[trigger] s[i]],
        ps[#[trigger] s[j]],
    ) by {
        assert(group_le(ps)(s[i], s[j]));
    }
}

/// A subscription body that is not gzip, with no encoding named or one other
/// than gzip and deflate, passes through unchanged.
pub proof fn law_plain_body_passes_through(bytes: Seq<u8>, encoding: Option<Seq<char>>)
    requires
        !gzip_magic(bytes),
        encoding != Some("gzip"@),
        encoding != Some("deflate"@),
    ensures
        decoded_body(bytes, encoding) == Some(bytes),
{
}

/// A URL that does not parse is shown as it is.
pub proof fn law_unparsable_url_kept(url: Seq<char>)
    requires
        url_path(url) is None,
    ensures
        masked_url(url) == url,
{
}

/// Saving a profile right after it was opened writes back the text that was
/// read, to the file it came from.
pub proof fn law_save_writes_back_what_was_read(
    s0: AppState,
    path: String,
    content: String,
    s1: AppState,
    c1: Seq<Command>,
    s2: AppState,
    c2: Seq<Command>,
)
    requires
        step(s0, Message::ProfileContentLoaded(Ok((path, content))), s1, c1),
        step(s1, Message::SaveProfile, s2, c2),
    ensures
        s1.editor_path == Some(path),
        s1.editor_text == content,
        c1 == seq![Command::Dispatch(Message::Navigate(crate::model::Route::Editor))],
        s2 == s1,
        c2.len() == 1,
        c2[0] == (Command::WriteProfile { path, content }),
{
    reveal(content_loaded);
    reveal(save_requested);
}

/// Saving the DNS settings right after the core's configuration arrived sends
/// the core back the same servers, fallback servers and enhanced mode.
pub proof fn law_dns_round_trip(
    s0: AppState,
    cfg: RuntimeConfig,
    s1: AppState,
    c1: Seq<Command>,
    s2: AppState,
    c2: Seq<Command>,
)
    requires
        step(s0, Message::RuntimeConfigFetched(Ok(cfg)), s1, c1),
        step(s1, Message::SaveDns, s2, c2),
        s0.has_runtime,
    ensures
        c2.len() == 1,
        c2[0] matches Command::PatchConfig { patch, reply } && reply == PatchReply::DnsSaved && (
        patch matches ConfigPatch::Dns { enhanced_mode, nameservers, fallback }
            && enhanced_mode == cfg.dns_enhanced_mode && nameservers@ == cfg.dns_nameservers@
            && fallback@ == cfg.dns_fallback@),
        s2.is_saving_dns,
{
    reveal(config_step);
    reveal(dns_step);
}

proof fn lemma_filter_all_kept<A>(s: Seq<A>, keep: spec_fn(A) -> bool)
    requires
        forall|x: A| #[trigger] keep(x),
    ensures
        s.filter(keep) == s,
    decreases s.len(),
{
    reveal_with_fuel(Seq::filter, 1);
    if s.len() > 0 {
        lemma_filter_all_kept(s.drop_last(), keep);
        assert(s.drop_last().push(s.last()) =~= s);
    }
}

/// With no search text, the proxies page lists every group, the GLOBAL group
/// first where the table has one.
pub proof fn law_global_group_listed_first(ps: Seq<ProxyEntry>, by_delay: bool, g: int)
    requires
        0 <= g < ps.len(),
        ps[g].members is Some,
        ps[g].name@ == "GLOBAL"@,
    ensures
        filtered_groups_of(ps, Seq::empty(), by_delay).len() == group_positions(ps).len(),
        filtered_groups_of(ps, Seq::empty(), by_delay)[0].0 == "GLOBAL"@,
{
    broadcast use vstd::seq_lib::group_to_multiset_ensures;
    broadcast use vstd::seq_lib::group_filter_ensures;

    let pos = group_positions(ps);
    let s = stable_sort(pos, group_le(ps));
    law_groups_global_first(ps);
    let isg = |i: int| ps[i].members is Some;
    let all = Seq::new(ps.len(), |i: int| i);
    assert(all[g] == g);
    assert(pos.contains(g)) by {
        assert(isg(all[g]));
    }
    assert(s.to_multiset().count(g) > 0);
    assert(s.contains(g));
    let k = choose|k: int| 0 <= k < s.len() && s[k] == g;
    assert(s.len() > 0);
    assert(s[0] == g || group_entry_le(ps[s[0]], ps[s[k]]));
    assert(s.to_multiset().count(s[0]) > 0);
    assert(pos.to_multiset().count(s[0]) > 0);
    assert(pos.contains(s[0]));
    let f = |i: int|
        (ps[i].name@, visible_members(ps, Seq::empty(), by_delay, crate::model::names_view(ps[i].members.unwrap()@)));
    let keep = |gr: (Seq<char>, Seq<Seq<char>>)| Seq::<char>::empty().len() == 0 || gr.1.len() > 0;
    assert(s.len() == s.to_multiset().len());
    assert(pos.len() == pos.to_multiset().len());
    lemma_filter_all_kept(s.map_values(f), keep);
    assert(filtered_groups_of(ps, Seq::empty(), by_delay) == s.map_values(f).filter(keep));
}

/// Cutting `a`, then `c`, then `b` at the first `c` gives back `a` and `b`
/// where `a` holds no `c`.
proof fn lemma_split_once_after(a: Seq<char>, b: Seq<char>, c: char)
    requires
        !a.contains(c),
    ensures
        split_once(a + seq![c] + b, c) == Some((a, b)),
{
    let s = a + seq![c] + b;
    let n = a.len() as int;
    assert(s[n] == c);
    assert(is_first_index(s, c, n));
    let i = choose|i: int| is_first_index(s, c, i);
    if i < n {
        assert(s[i] == a[i]);
        assert(a.contains(c));
    }
    if i > n {
        assert(s[n] == c);
    }
    assert(i == n);
    assert(s.subrange(0, n) =~= a);
    assert(s.subrange(n + 1, s.len() as int) =~= b);
}

/// Splitting the line "type,payload,target" that a custom rule is written as
/// gives back its type, payload and target, where the type and payload hold
/// no comma and none of the three has white space at either end (the target
/// may hold commas).
pub proof fn law_split_rule_inverts_rule_line(t: Seq<char>, p: Seq<char>, g: Seq<char>)
    requires
        !t.contains(','),
        !p.contains(','),
        trim(t) == t,
        trim(p) == p,
        trim(g) == g,
    ensures
        rule_fields(t + ","@ + p + ","@ + g) == (t, p, g),
{
    reveal_strlit(",");
    let rest = p + seq![','] + g;
    assert(t + ","@ + p + ","@ + g =~= t + seq![','] + rest);
    lemma_split_once_after(t, rest, ',');
    lemma_split_once_after(p, g, ',');
}

/// Window, tray and notification messages leave the proxy table alone.
proof fn lemma_ui_keeps_proxies(old: AppState, m: Message, new: AppState, c: Seq<Command>)
    requires
        ui_step(old, m, new, c),
    ensures
        new.proxies == old.proxies,
{
    reveal(navigated);
    reveal(theme_toggled);
    reveal(exited);
    reveal(toast_shown);
    reveal(toast_removed);
    reveal(system_proxy_requested);
    reveal(system_proxy_applied);
}

/// Profile messages leave the proxy table alone.
proof fn lemma_profile_keeps_proxies(old: AppState, m: Message, new: AppState, c: Seq<Command>)
    requires
        profile_step(old, m, new, c),
    ensures
        new.proxies == old.proxies,
{
    reveal(profiles_loaded);
    reveal(import_started);
    reveal(import_finished);
    reveal(content_loaded);
    reveal(save_requested);
    reveal(profile_saved);
    reveal(sync_started);
    reveal(sync_finished);
    reveal(rule_add_started);
    reveal(rule_add_finished);
    reveal(with_form_field);
}

/// Core messages change the proxy table only when a table arrives, and then
/// hold it as a map keyed by name.
proof fn lemma_core_proxies(old: AppState, m: Message, new: AppState, c: Seq<Command>)
    requires
        core_step(old, m, new, c),
    ensures
        m matches Message::ProxiesLoaded(Ok(ps)) ==> new.proxies@ == last_by_name(ps@),
        !(m matches Message::ProxiesLoaded(Ok(_))) ==> new.proxies == old.proxies,
{
    reveal(lifecycle_step);
    reveal(proxies_step);
    reveal(telemetry_step);
    reveal(config_step);
    reveal(rules_step);
    reveal(dns_step);
    reveal(system_step);
}

/// The proxy table is keyed by name: no two of its entries ever share a
/// name.  A table that arrives is held with the last entry of each name, and
/// no other message changes the table.
pub proof fn law_proxy_names_stay_unique(old: AppState, m: Message, new: AppState, c: Seq<Command>)
    requires
        step(old, m, new, c),
        names_unique(old.proxies@),
    ensures
        names_unique(new.proxies@),
{
    if is_ui_message(m) {
        lemma_ui_keeps_proxies(old, m, new, c);
    } else if is_profile_message(m) {
        lemma_profile_keeps_proxies(old, m, new, c);
    } else {
        lemma_core_proxies(old, m, new, c);
        if let Message::ProxiesLoaded(Ok(ps)) = m {
            lemma_last_by_name_unique(ps@);
        }
    }
}

/// A proxy table whose names are unique, as the core reports it, is held as
/// it arrives.
pub proof fn law_unique_proxy_table_held_as_given(
    old: AppState,
    ps: Vec<ProxyEntry>,
    new: AppState,
    c: Seq<Command>,
)
    requires
        step(old, Message::ProxiesLoaded(Ok(ps)), new, c),
        names_unique(ps@),
    ensures
        new.proxies@ == ps@,
{
    lemma_core_proxies(old, Message::ProxiesLoaded(Ok(ps)), new, c);
    lemma_unique_table_unchanged(ps@);
}

/// Moving a rule up or down changes only the rules, and only as `rule_moved`
/// says; a move past either end changes nothing.
proof fn lemma_rule_move(old: AppState, m: Message, new: AppState, c: Seq<Command>)
    requires
        step(old, m, new, c),
        m is MoveRuleUp || m is MoveRuleDown,
    ensures
        c.len() == 0,
        m matches Message::MoveRuleUp(i) ==> (if 0 < i < old.rules@.len() {
            new == (AppState { rules: new.rules, ..old }) && new.rules@ == rule_moved(old.rules@, i as int, i - 1)
        } else {
            new == old
        }),
        m matches Message::MoveRuleDown(i) ==> (if i + 1 < old.rules@.len() {
            new == (AppState { rules: new.rules, ..old }) && new.rules@ == rule_moved(old.rules@, i as int, i + 1)
        } else {
            new == old
        }),
{
    reveal(rules_step);
}

/// Moving a rule up and then moving it down again from its new place gives
/// back the rules as they were, and the rest of the state too.
pub proof fn law_rule_move_up_then_down(
    s0: AppState,
    i: usize,
    s1: AppState,
    c1: Seq<Command>,
    s2: AppState,
    c2: Seq<Command>,
)
    requires
        0 < i < s0.rules@.len(),
        step(s0, Message::MoveRuleUp(i), s1, c1),
        step(s1, Message::MoveRuleDown((i - 1) as usize), s2, c2),
    ensures
        s1.rules@[i - 1] == s0.rules@[i as int],
        s1.rules@[i as int] == s0.rules@[i - 1],
        s2.rules@ == s0.rules@,
        s2 == (AppState { rules: s2.rules, ..s0 }),
{
    lemma_rule_move(s0, Message::MoveRuleUp(i), s1, c1);
    lemma_rule_move(s1, Message::MoveRuleDown((i - 1) as usize), s2, c2);
    assert(rule_moved(s1.rules@, i - 1, i as int) =~= s0.rules@);
}

/// Each setting of the running core that a message changes is sent to the
/// core as a patch of that same setting with the same value, and nothing
/// else: the TUN switch, stack, auto-route and strict-route, the sniffer, the
/// log level and the proxy mode.  The page shows the new value at once; with
/// no core running nothing is sent.
pub proof fn law_settings_patch_the_same_setting(old: AppState, m: Message, new: AppState, c: Seq<Command>)
    requires
        step(old, m, new, c),
    ensures
        m matches Message::SetTunEnabled(on) ==> new.tun_enabled == Some(on) && c == (if old.has_runtime {
            seq![Command::PatchConfig { patch: ConfigPatch::TunEnable(on), reply: PatchReply::Operation }]
        } else {
            seq![]
        }),
        m matches Message::SetTunStack(stack) ==> new.tun_stack == stack && c == (if old.has_runtime {
            seq![Command::PatchConfig { patch: ConfigPatch::TunStack(stack), reply: PatchReply::Operation }]
        } else {
            seq![]
        }),
        m matches Message::SetTunAutoRoute(on) ==> new.tun_auto_route == on && c == (if old.has_runtime {
            seq![Command::PatchConfig { patch: ConfigPatch::TunAutoRoute(on), reply: PatchReply::Operation }]
        } else {
            seq![]
        }),
        m matches Message::SetTunStrictRoute(on) ==> new.tun_strict_route == on && c == (if old.has_runtime {
            seq![Command::PatchConfig { patch: ConfigPatch::TunStrictRoute(on), reply: PatchReply::Operation }]
        } else {
            seq![]
        }),
        m matches Message::SetSnifferEnabled(on) ==> new.sniffer_enabled == on && c == (if old.has_runtime {
            seq![Command::PatchConfig { patch: ConfigPatch::SnifferEnable(on), reply: PatchReply::Operation }]
        } else {
            seq![]
        }),
        m matches Message::SetLogLevel(level) ==> new.log_level == level && c == (if old.has_runtime {
            seq![Command::PatchConfig { patch: ConfigPatch::LogLevel(level), reply: PatchReply::Operation }]
        } else {
            seq![]
        }),
        m matches Message::SetProxyMode(mode) ==> new.proxy_mode == Some(mode) && c == (if old.has_runtime {
            seq![Command::PatchConfig { patch: ConfigPatch::Mode(mode), reply: PatchReply::ModeSet }]
        } else {
            seq![]
        }),
{
    reveal(config_step);
}

/// A custom rule that was added to the profile takes effect: the rules are
/// reloaded, the core is restarted with the new profile, and success is
/// shown, in that order; the typed payload is cleared.
pub proof fn law_added_rule_restarts_the_core(old: AppState, new: AppState, c: Seq<Command>)
    requires
        step(old, Message::RuleAdded(Ok(())), new, c),
    ensures
        c.len() == 3,
        c[0] == Command::Dispatch(Message::LoadRules),
        c[1] == Command::Dispatch(Message::StartProxy),
        c[2] matches Command::Dispatch(Message::ShowToast(text, status)) && text@
            == "Rule added and core restarted"@ && status == ToastStatus::Success,
        c.contains(Command::Dispatch(Message::StartProxy)),
        !new.is_adding_rule,
        new.new_rule_payload@.len() == 0,
{
    reveal(rule_add_finished);
    assert(c[1] == Command::Dispatch(Message::StartProxy));
}

/// The direction of a WebDAV sync follows the message: a download asks for
/// exactly one download, an upload for exactly one upload, each with the
/// address, user and password as typed; the page shows a sync under way.
pub proof fn law_sync_direction_follows_the_message(old: AppState, m: Message, new: AppState, c: Seq<Command>)
    requires
        step(old, m, new, c),
        m is SyncUpload || m is SyncDownload,
    ensures
        new.is_syncing,
        c.len() == 1,
        m is SyncDownload ==> c[0] == (Command::WebDavDownload {
            url: old.webdav_url,
            user: old.webdav_user,
            pass: old.webdav_pass,
        }),
        m is SyncUpload ==> c[0] == (Command::WebDavUpload {
            url: old.webdav_url,
            user: old.webdav_user,
            pass: old.webdav_pass,
        }),
        !(c[0] is WebDavUpload && c[0] is WebDavDownload),
{
    reveal(sync_started);
}

/// Choosing a tray mode item "mode_" followed by a mode (rule, global, direct
/// or script) asks for exactly that proxy mode, and nothing else.
pub proof fn law_tray_mode_item_switches_to_its_mode(
    old: AppState,
    mode: Seq<char>,
    id: String,
    new: AppState,
    c: Seq<Command>,
)
    requires
        mode == "rule"@ || mode == "global"@ || mode == "direct"@ || mode == "script"@,
        id@ == "mode_"@ + mode,
        step(old, Message::MenuEvent(id), new, c),
    ensures
        new == old,
        c.len() == 1,
        c[0] matches Command::Dispatch(Message::SetProxyMode(m)) && m@ == mode,
{
    reveal_strlit("mode_");
    reveal_strlit("rule");
    reveal_strlit("global");
    reveal_strlit("direct");
    reveal_strlit("script");
    reveal_strlit("show");
    reveal_strlit("quit");
    reveal_strlit("toggle_theme");
    reveal_strlit("mode_rule");
    reveal_strlit("mode_global");
    reveal_strlit("mode_direct");
    reveal_strlit("mode_script");
    reveal_strlit("toggle_system_proxy");
    reveal_strlit("toggle_tun");
    reveal_strlit("proxy_GLOBAL_");
    let k = id@;
    assert(k[0] == 'm' && k[4] == '_');
    assert(k.len() != "show"@.len() && k.len() != "quit"@.len());
    assert(k[0] != "toggle_theme"@[0] && k[0] != "toggle_system_proxy"@[0] && k[0] != "toggle_tun"@[0]);
    if mode == "rule"@ {
        assert(k =~= "mode_rule"@);
    } else if mode == "global"@ {
        assert(k =~= "mode_global"@);
        assert(k[5] != "mode_rule"@[5]);
    } else if mode == "direct"@ {
        assert(k =~= "mode_direct"@);
        assert(k[5] != "mode_rule"@[5] && k[5] != "mode_global"@[5]);
    } else {
        assert(k =~= "mode_script"@);
        assert(k[5] != "mode_rule"@[5] && k[5] != "mode_global"@[5] && k[5] != "mode_direct"@[5]);
    }
}

/// An element kept by a filter is an element of the filtered sequence.
proof fn lemma_filter_element<A>(s: Seq<A>, p: spec_fn(A) -> bool, i: int)
    requires
        0 <= i < s.filter(p).len(),
    ensures
        exists|a: int| 0 <= a < s.len() && s[a] == s.filter(p)[i],
{
    broadcast use vstd::seq_lib::group_filter_ensures;

    assert(s.filter(p).contains(s.filter(p)[i]));
    s.lemma_filter_contains_rev(p, s.filter(p)[i]);
}

/// A filter keeps the order of what it keeps.
proof fn lemma_filter_keeps_order<A>(s: Seq<A>, p: spec_fn(A) -> bool, i: int, j: int)
    requires
        0 <= i < j < s.filter(p).len(),
    ensures
        exists|a: int, b: int| 0 <= a < b < s.len() && s[a] == s.filter(p)[i] && s[b] == s.filter(p)[j],
    decreases s.len(),
{
    reveal_with_fuel(Seq::filter, 1);
    let rest = s.drop_last();
    let t = rest.filter(p);
    if p(s.last()) && j == t.len() {
        assert(s.filter(p) == t.push(s.last()));
        lemma_filter_element(rest, p, i);
        let a = choose|a: int| 0 <= a < rest.len() && rest[a] == t[i];
        assert(s[a] == s.filter(p)[i]);
        assert(s[s.len() - 1] == s.filter(p)[j]);
    } else {
        if p(s.last()) {
            assert(s.filter(p) == t.push(s.last()));
        } else {
            assert(s.filter(p) == t);
        }
        assert(t[i] == s.filter(p)[i] && t[j] == s.filter(p)[j]);
        lemma_filter_keeps_order(rest, p, i, j);
        let (a, b) = choose|a: int, b: int| 0 <= a < b < rest.len() && rest[a] == t[i] && rest[b] == t[j];
        assert(s[a] == rest[a] && s[b] == rest[b]);
    }
}

/// In a table whose names are unique, looking a name up finds the entry with
/// that name.
proof fn lemma_lookup_unique_name(ps: Seq<ProxyEntry>, k: int)
    requires
        names_unique(ps),
        0 <= k < ps.len(),
    ensures
        lookup_proxy(ps, ps[k].name@) == Some(ps[k]),
    decreases k,
{
    if k > 0 {
        let rest = ps.drop_first();
        assert(names_unique(rest)) by {
            assert forall|a: int, b: int| 0 <= a < b < rest.len() implies rest[a].name@ != rest[b].name@ by {
                assert(rest[a] == ps[a + 1] && rest[b] == ps[b + 1]);
            }
        }
        assert(ps[0].name@ != ps[k].name@);
        assert(rest[k - 1] == ps[k]);
        lemma_lookup_unique_name(rest, k - 1);
    }
}

/// The groups that the proxies page lists come from the proxy table.
proof fn lemma_listed_group_position(ps: Seq<ProxyEntry>, n: int)
    requires
        0 <= n < stable_sort(group_positions(ps), group_le(ps)).len(),
    ensures
        0 <= stable_sort(group_positions(ps), group_le(ps))[n] < ps.len(),
{
    broadcast use vstd::seq_lib::group_to_multiset_ensures;
    broadcast use vstd::seq_lib::group_filter_ensures;

    let pos = group_positions(ps);
    let s = stable_sort(pos, group_le(ps));
    law_groups_global_first(ps);
    assert(s.contains(s[n]));
    assert(s.to_multiset().count(s[n]) > 0);
    assert(pos.to_multiset().count(s[n]) > 0);
    assert(pos.contains(s[n]));
    let all = Seq::new(ps.len(), |i: int| i);
    all.lemma_filter_contains_rev(|i: int| ps[i].members is Some, s[n]);
}

/// On the proxies page, the groups other than GLOBAL come in the order of
/// their proxy type, by code point: of any two listed groups other than
/// GLOBAL, the earlier one's type is less than or equal to the later one's.
/// (The table holds one entry per name, see `law_proxy_names_stay_unique`.)
pub proof fn law_groups_listed_by_type(
    old: AppState,
    new: AppState,
    c: Seq<Command>,
    i: int,
    j: int,
)
    requires
        step(old, Message::UpdateFilteredGroups, new, c),
        names_unique(old.proxies@),
        0 <= i < j < new.filtered_groups@.len(),
        new.filtered_groups@[i].0@ != "GLOBAL"@,
        new.filtered_groups@[j].0@ != "GLOBAL"@,
    ensures
        lookup_proxy(old.proxies@, new.filtered_groups@[i].0@) matches Some(a) && lookup_proxy(
            old.proxies@,
            new.filtered_groups@[j].0@,
        ) matches Some(b) && chars_le(a.proxy_type@, b.proxy_type@),
{
    reveal(proxies_step);
    let ps = old.proxies@;
    let filter = old.proxy_filter@;
    let by_delay = old.proxy_sort_by_delay;
    let s = stable_sort(group_positions(ps), group_le(ps));
    let f = |k: int|
        (ps[k].name@, visible_members(ps, filter, by_delay, crate::model::names_view(ps[k].members.unwrap()@)));
    let keep = |g: (Seq<char>, Seq<Seq<char>>)| filter.len() == 0 || g.1.len() > 0;
    let listed = s.map_values(f).filter(keep);
    assert(filtered_groups_of(ps, filter, by_delay) == listed);
    let shown = groups_view(new.filtered_groups@);
    assert(shown == listed);
    assert(shown[i].0 == new.filtered_groups@[i].0@ && shown[j].0 == new.filtered_groups@[j].0@);
    lemma_filter_keeps_order(s.map_values(f), keep, i, j);
    let (a, b) = choose|a: int, b: int| 0 <= a < b < s.map_values(f).len() && s.map_values(f)[a] == listed[i]
        && s.map_values(f)[b] == listed[j];
    law_groups_global_first(ps);
    lemma_listed_group_position(ps, a);
    lemma_listed_group_position(ps, b);
    assert(group_entry_le(ps[s[a]], ps[s[b]]));
    assert(ps[s[a]].name@ == listed[i].0);
    assert(ps[s[b]].name@ == listed[j].0);
    lemma_lookup_unique_name(ps, s[a]);
    lemma_lookup_unique_name(ps, s[b]);
}

/// The other tray items ask for what their names say: "show" opens the
/// window, "quit" exits, "toggle_theme" switches the theme, and the two
/// toggles ask for the opposite of the current system proxy and TUN setting
/// (TUN counts as off until the core reported it).  Choosing an item changes
/// nothing by itself.
pub proof fn law_tray_items_ask_for_their_action(old: AppState, id: String, new: AppState, c: Seq<Command>)
    requires
        step(old, Message::MenuEvent(id), new, c),
    ensures
        new == old,
        id@ == "show"@ ==> c == seq![Command::Dispatch(Message::ShowWindow)],
        id@ == "quit"@ ==> c == seq![Command::Dispatch(Message::Exit)],
        id@ == "toggle_theme"@ ==> c == seq![Command::Dispatch(Message::ToggleTheme)],
        id@ == "toggle_system_proxy"@ ==> c == seq![
            Command::Dispatch(Message::SetSystemProxy(!old.switches.system_proxy_enabled)),
        ],
        id@ == "toggle_tun"@ ==> c == seq![
            Command::Dispatch(Message::SetTunEnabled(!(old.tun_enabled == Some(true)))),
        ],
{
    reveal_strlit("show");
    reveal_strlit("quit");
    reveal_strlit("toggle_theme");
    reveal_strlit("mode_rule");
    reveal_strlit("mode_global");
    reveal_strlit("mode_direct");
    reveal_strlit("mode_script");
    reveal_strlit("toggle_system_proxy");
    reveal_strlit("toggle_tun");
    let k = id@;
    if k == "quit"@ {
        assert(k[0] != "show"@[0]);
    } else if k == "toggle_theme"@ {
        assert(k.len() == 12);
    } else if k == "toggle_system_proxy"@ {
        assert(k.len() == 19);
        assert(k[0] != "mode_rule"@[0]);
    } else if k == "toggle_tun"@ {
        assert(k.len() == 10);
        assert(k[0] != "mode_rule"@[0]);
    }
}

} // verus!
