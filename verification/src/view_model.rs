use crate::locales::{translation, Lang, Localizer};
use crate::model::{Connection, ProxyEntry, Route, Rule, RuntimeStatus, VersionInfo};
use crate::model::names_view;
use crate::proxies::{
    chars_le, chars_le_exec, find_proxy, idx_view, lemma_insert_at, lookup_proxy,
    stable_sort,
};
use crate::state::AppState;
use crate::text::{
    concat, decimal, decimal_chars, extend_chars, has_infix, lowercase, owned, split_once, split_once_chars, str_chars, str_equal,
    string_from_chars, to_lowercase, trim, trim_chars, chars_contain,
};
use crate::update_profile::rule_line;
use std::collections::VecDeque;
use vstd::prelude::*;

verus! {

/// How a measured delay is coloured on the proxies page.
#[derive(Clone, Copy, PartialEq, Eq, Structural, Debug)]
pub enum DelayLevel {
    /// Under 200 ms.
    Fast,
    /// From 200 ms to under 500 ms.
    Medium,
    /// 500 ms or more.
    Slow,
}

/// The colour class of a delay.
pub fn delay_level(delay_ms: u32) -> (r: DelayLevel)
    ensures
        r == (if delay_ms < 200 {
            DelayLevel::Fast
        } else if delay_ms < 500 {
            DelayLevel::Medium
        } else {
            DelayLevel::Slow
        }),
{
    if delay_ms < 200 {
        DelayLevel::Fast
    } else if delay_ms < 500 {
        DelayLevel::Medium
    } else {
        DelayLevel::Slow
    }
}

/// What a save button shows.
#[derive(Clone, Copy, PartialEq, Eq, Structural, Debug)]
pub enum SaveState {
    /// A save is under way; the button is disabled.
    Saving,
    /// There are unsaved changes; the button saves them.
    Dirty,
    /// Nothing to save.
    Saved,
}

/// The state of a save button: saving wins over unsaved changes.
pub fn save_state(saving: bool, dirty: bool) -> (r: SaveState)
    ensures
        r == (if saving {
            SaveState::Saving
        } else if dirty {
            SaveState::Dirty
        } else {
            SaveState::Saved
        }),
{
    if saving {
        SaveState::Saving
    } else if dirty {
        SaveState::Dirty
    } else {
        SaveState::Saved
    }
}

/// The colour class of a rule's type on the rules page.
#[derive(Clone, Copy, PartialEq, Eq, Structural, Debug)]
pub enum RuleKind {
    /// DOMAIN, DOMAIN-SUFFIX and DOMAIN-KEYWORD rules.
    Domain,
    /// IP-CIDR, IP-CIDR6 and GEOIP rules.
    Address,
    /// Every other rule type.
    Other,
}

/// The colour class of a rule type.
pub open spec fn rule_kind_of(t: Seq<char>) -> RuleKind {
    if t == "DOMAIN"@ || t == "DOMAIN-SUFFIX"@ || t == "DOMAIN-KEYWORD"@ {
        RuleKind::Domain
    } else if t == "IP-CIDR"@ || t == "IP-CIDR6"@ || t == "GEOIP"@ {
        RuleKind::Address
    } else {
        RuleKind::Other
    }
}

/// The colour class of a rule type.
pub fn rule_kind(rule_type: &str) -> (r: RuleKind)
    ensures
        r == rule_kind_of(rule_type@),
{
    if str_equal(rule_type, "DOMAIN") || str_equal(rule_type, "DOMAIN-SUFFIX") || str_equal(
        rule_type,
        "DOMAIN-KEYWORD",
    ) {
        RuleKind::Domain
    } else if str_equal(rule_type, "IP-CIDR") || str_equal(rule_type, "IP-CIDR6") || str_equal(
        rule_type,
        "GEOIP",
    ) {
        RuleKind::Address
    } else {
        RuleKind::Other
    }
}

/// The type, payload and target of a rule line "type,payload,target": the
/// text is cut at its first two commas (the target keeps any further ones),
/// each part trimmed; missing parts are empty.
pub open spec fn rule_fields(s: Seq<char>) -> (Seq<char>, Seq<char>, Seq<char>) {
    match split_once(s, ',') {
        None => (trim(s), Seq::empty(), Seq::empty()),
        Some((a, rest)) => match split_once(rest, ',') {
            None => (trim(a), trim(rest), Seq::empty()),
            Some((b, c)) => (trim(a), trim(b), trim(c)),
        },
    }
}

/// Splits a rule line into its type, payload and target.
pub fn split_rule(rule: &str) -> (r: (String, String, String))
    ensures
        (r.0@, r.1@, r.2@) == rule_fields(rule@),
{
    let chars = str_chars(rule);
    match split_once_chars(chars.as_slice(), ',') {
        None => {
            let t = trim_chars(chars.as_slice());
            (string_from_chars(t.as_slice()), String::new(), String::new())
        },
        Some((a, rest)) => {
            let t = trim_chars(a.as_slice());
            match split_once_chars(rest.as_slice(), ',') {
                None => {
                    let p = trim_chars(rest.as_slice());
                    (string_from_chars(t.as_slice()), string_from_chars(p.as_slice()), String::new())
                },
                Some((b, c)) => {
                    let p = trim_chars(b.as_slice());
                    let g = trim_chars(c.as_slice());
                    (
                        string_from_chars(t.as_slice()),
                        string_from_chars(p.as_slice()),
                        string_from_chars(g.as_slice()),
                    )
                },
            }
        },
    }
}

/// The host a connection is shown under: its host name, or its destination
/// address where it has no host name.
pub fn connection_host(conn: &Connection) -> (r: String)
    ensures
        r == (if conn.host@.len() == 0 {
            conn.destination_ip
        } else {
            conn.host
        }),
{
    if conn.host.as_str().is_empty() {
        conn.destination_ip.clone()
    } else {
        conn.host.clone()
    }
}

/// The member that the GLOBAL group currently uses, as the overview shows it:
/// "Unknown" where there is no GLOBAL group or it names none.
pub open spec fn global_node_of(ps: Seq<ProxyEntry>) -> Seq<char> {
    match lookup_proxy(ps, "GLOBAL"@) {
        Some(g) => match g.now {
            Some(n) => n@,
            None => "Unknown"@,
        },
        None => "Unknown"@,
    }
}

/// The member that the GLOBAL group currently uses.
pub fn current_global_node(ps: &Vec<ProxyEntry>) -> (r: String)
    ensures
        r@ == global_node_of(ps@),
{
    match find_proxy(ps, "GLOBAL") {
        Some(i) => match &ps[i].now {
            Some(n) => n.clone(),
            None => owned("Unknown"),
        },
        None => owned("Unknown"),
    }
}

/// Whether a core version is among the installed ones.
pub fn is_version_installed(kernels: &Vec<VersionInfo>, version: &str) -> (r: bool)
    ensures
        r == exists|k: int| 0 <= k < kernels@.len() && #[trigger] kernels@[k].version@ == version@,
{
    let mut i: usize = 0;
    while i < kernels.len()
        invariant
            i <= kernels@.len(),
            forall|k: int| 0 <= k < i ==> #[trigger] kernels@[k].version@ != version@,
        decreases kernels@.len() - i,
    {
        if str_equal(kernels[i].version.as_str(), version) {
            return true;
        }
        i = i + 1;
    }
    false
}

/// The pages of the sidebar, in order, with the keys of their labels.
pub open spec fn nav_pages() -> Seq<(Seq<char>, Route)> {
    seq![
        ("nav_overview"@, Route::Overview),
        ("nav_profiles"@, Route::Profiles),
        ("nav_proxies"@, Route::Proxies),
        ("nav_runtime"@, Route::Runtime),
        ("nav_rules"@, Route::Rules),
        ("nav_dns"@, Route::Dns),
        ("nav_sync"@, Route::Sync),
        ("nav_settings"@, Route::Settings),
    ]
}

/// One sidebar entry.
pub struct NavItem {
    /// The label, in the application's language.
    pub label: String,
    pub route: Route,
    /// Whether it is the page shown.
    pub active: bool,
}

impl AppState {
    /// The window title in the application's language.
    pub fn title(&self) -> (r: String)
        ensures
            r@ == translation(self.lang@, "app_title"@),
    {
        Lang(self.lang.as_str()).tr("app_title")
    }

    /// The sidebar: each page with its label in the application's language,
    /// and which one is shown.
    pub fn nav_items(&self) -> (r: Vec<NavItem>)
        ensures
            r@.len() == nav_pages().len(),
            forall|k: int|
                0 <= k < r@.len() ==> {
                    &&& (#[trigger] r@[k]).label@ == translation(self.lang@, nav_pages()[k].0)
                    &&& r@[k].route == nav_pages()[k].1
                    &&& r@[k].active == (nav_pages()[k].1 == self.current_route)
                },
    {
        let lang = Lang(self.lang.as_str());
        let mut v: Vec<NavItem> = Vec::new();
        v.push(self.nav_item(&lang, "nav_overview", Route::Overview));
        v.push(self.nav_item(&lang, "nav_profiles", Route::Profiles));
        v.push(self.nav_item(&lang, "nav_proxies", Route::Proxies));
        v.push(self.nav_item(&lang, "nav_runtime", Route::Runtime));
        v.push(self.nav_item(&lang, "nav_rules", Route::Rules));
        v.push(self.nav_item(&lang, "nav_dns", Route::Dns));
        v.push(self.nav_item(&lang, "nav_sync", Route::Sync));
        v.push(self.nav_item(&lang, "nav_settings", Route::Settings));
        v
    }

    fn nav_item(&self, lang: &Lang, key: &str, route: Route) -> (r: NavItem)
        requires
            lang.0@ == self.lang@,
        ensures
            r.label@ == translation(self.lang@, key@),
            r.route == route,
            r.active == (route == self.current_route),
    {
        NavItem { label: lang.tr(key), route, active: route == self.current_route }
    }
}

/// Connections shown with the most downloaded first (positions in the
/// snapshot; connections that downloaded as much keep their order).
pub open spec fn download_order(conns: Seq<Connection>) -> spec_fn(int, int) -> bool {
    |a: int, b: int| conns[a].download >= conns[b].download
}

/// The order the runtime page lists connections in, as positions in the
/// snapshot: by download, largest first, stably.
pub fn connection_order(conns: &Vec<Connection>) -> (r: Vec<usize>)
    ensures
        idx_view(r@) == stable_sort(Seq::new(conns@.len(), |i: int| i), download_order(conns@)),
{
    let ghost le = download_order(conns@);
    let mut out: Vec<usize> = Vec::new();
    let mut i: usize = 0;
    assert(idx_view(out@) =~= Seq::<int>::empty());
    assert(Seq::new(0, |k: int| k) =~= Seq::<int>::empty());
    while i < conns.len()
        invariant
            i <= conns@.len(),
            le == download_order(conns@),
            idx_view(out@) == stable_sort(Seq::new(i as nat, |k: int| k), le),
            out@.len() == i,
            forall|k: int| 0 <= k < out@.len() ==> #[trigger] out@[k] < i,
        decreases conns@.len() - i,
    {
        let ghost src = Seq::new((i + 1) as nat, |k: int| k);
        let mut j: usize = out.len();
        while j > 0 && conns[out[j - 1]].download < conns[i].download
            invariant
                j <= out@.len(),
                i < conns@.len(),
                forall|k: int| 0 <= k < out@.len() ==> #[trigger] out@[k] < i,
                forall|k: int|
                    j <= k < out@.len() ==> conns@[#[trigger] out@[k] as int].download
                        < conns@[i as int].download,
            decreases j,
        {
            j = j - 1;
        }
        let ghost t = idx_view(out@);
        proof {
            assert forall|k: int| j <= k < t.len() implies !le(#[trigger] t[k], i as int) by {
                assert(t[k] == out@[k] as int);
            }
            if j > 0 {
                assert(t[j - 1] == out@[j - 1] as int);
            }
            lemma_insert_at(i as int, t, le, j as int);
            assert(src.drop_last() =~= Seq::new(i as nat, |k: int| k));
            assert(src.last() == i);
        }
        let ghost old_out = out@;
        out.insert(j, i);
        proof {
            assert(idx_view(out@) =~= t.take(j as int).push(i as int) + t.skip(j as int));
            assert forall|k: int| 0 <= k < out@.len() implies #[trigger] out@[k] < i + 1 by {
                if k < j {
                    assert(out@[k] == old_out[k]);
                } else if k > j {
                    assert(out@[k] == old_out[k - 1]);
                }
            }
        }
        i = i + 1;
    }
    out
}

/// How many members a row of the proxies page holds.
pub const MEMBERS_PER_ROW: usize = 3;

/// The members in row `k` of a group's grid: rows of `MEMBERS_PER_ROW`, the
/// last one possibly shorter.
pub open spec fn grid_row<A>(s: Seq<A>, k: int) -> Seq<A> {
    let start = k * MEMBERS_PER_ROW;
    let end = if start + MEMBERS_PER_ROW <= s.len() {
        start + MEMBERS_PER_ROW
    } else {
        s.len() as int
    };
    s.subrange(start, end)
}

/// A group's members laid out in rows, as the proxies page shows them.
pub fn member_rows(members: &Vec<String>) -> (r: Vec<Vec<String>>)
    ensures
        r@.len() == (members@.len() + MEMBERS_PER_ROW - 1) / (MEMBERS_PER_ROW as int),
        forall|k: int| 0 <= k < r@.len() ==> (#[trigger] r@[k])@ == grid_row(members@, k),
{
    let n = members.len();
    let mut rows: Vec<Vec<String>> = Vec::new();
    let mut start: usize = 0;
    while start < n
        invariant
            n == members@.len(),
            start <= n,
            start == rows@.len() * MEMBERS_PER_ROW || start == n,
            rows@.len() == (start + MEMBERS_PER_ROW - 1) / (MEMBERS_PER_ROW as int),
            forall|k: int| 0 <= k < rows@.len() ==> (#[trigger] rows@[k])@ == grid_row(members@, k),
        decreases n - start,
    {
        let end: usize = if n - start >= MEMBERS_PER_ROW {
            start + MEMBERS_PER_ROW
        } else {
            n
        };
        let mut row: Vec<String> = Vec::new();
        let mut m: usize = start;
        while m < end
            invariant
                start <= m <= end <= n,
                n == members@.len(),
                row@ == members@.subrange(start as int, m as int),
            decreases end - m,
        {
            row.push(members[m].clone());
            m = m + 1;
            assert(row@ =~= members@.subrange(start as int, m as int));
        }
        let ghost k = rows@.len() as int;
        assert(start == k * MEMBERS_PER_ROW);
        assert(row@ == grid_row(members@, k));
        rows.push(row);
        start = end;
    }
    rows
}

/// The names of the groups in the proxy table, in table order.
pub open spec fn group_names(ps: Seq<ProxyEntry>) -> Seq<Seq<char>> {
    ps.filter(|p: ProxyEntry| p.members is Some).map_values(|p: ProxyEntry| p.name@)
}

/// Code point order of names.
pub open spec fn name_le() -> spec_fn(Seq<char>, Seq<char>) -> bool {
    |a: Seq<char>, b: Seq<char>| chars_le(a, b)
}

/// `s` with `x` added at the end where it does not hold it yet.
pub open spec fn with_missing(s: Seq<Seq<char>>, x: Seq<char>) -> Seq<Seq<char>> {
    if s.contains(x) {
        s
    } else {
        s.push(x)
    }
}

/// The targets a custom rule may name: the groups, sorted by name, then DIRECT
/// and REJECT where no group has those names.
pub open spec fn targets_of(ps: Seq<ProxyEntry>) -> Seq<Seq<char>> {
    with_missing(with_missing(stable_sort(group_names(ps), name_le()), "DIRECT"@), "REJECT"@)
}

/// Whether a list of names holds `name`.
fn contains_name(v: &Vec<String>, name: &str) -> (r: bool)
    ensures
        r == names_view(v@).contains(name@),
{
    let mut i: usize = 0;
    while i < v.len()
        invariant
            i <= v@.len(),
            forall|k: int| 0 <= k < i ==> (#[trigger] v@[k])@ != name@,
        decreases v@.len() - i,
    {
        if str_equal(v[i].as_str(), name) {
            assert(names_view(v@)[i as int] == name@);
            return true;
        }
        i = i + 1;
    }
    assert forall|k: int| 0 <= k < names_view(v@).len() implies names_view(v@)[k] != name@ by {
        assert(names_view(v@)[k] == v@[k]@);
    }
    false
}

/// Adds `name` at the end where the list does not hold it yet.
fn add_missing(v: &mut Vec<String>, name: &str)
    ensures
        names_view(final(v)@) == with_missing(names_view(old(v)@), name@),
{
    if !contains_name(v, name) {
        v.push(owned(name));
        assert(names_view(v@) =~= names_view(old(v)@).push(name@));
    }
}

/// The targets a custom rule may name.
pub fn available_targets(ps: &Vec<ProxyEntry>) -> (r: Vec<String>)
    ensures
        names_view(r@) == targets_of(ps@),
{
    let ghost le = name_le();
    let ghost isg = |p: ProxyEntry| p.members is Some;
    let ghost nm = |p: ProxyEntry| p.name@;
    let mut out: Vec<String> = Vec::new();
    let mut i: usize = 0;
    assert(ps@.take(0).filter(isg) =~= Seq::<ProxyEntry>::empty()) by {
        reveal_with_fuel(Seq::filter, 1);
    }
    assert(ps@.take(0).filter(isg).map_values(nm) =~= Seq::<Seq<char>>::empty());
    assert(names_view(out@) =~= Seq::<Seq<char>>::empty());
    while i < ps.len()
        invariant
            i <= ps@.len(),
            le == name_le(),
            isg == (|p: ProxyEntry| p.members is Some),
            nm == (|p: ProxyEntry| p.name@),
            names_view(out@) == stable_sort(ps@.take(i as int).filter(isg).map_values(nm), le),
        decreases ps@.len() - i,
    {
        let ghost prev = ps@.take(i as int).filter(isg);
        proof {
            reveal_with_fuel(Seq::filter, 1);
            assert(ps@.take(i + 1).drop_last() =~= ps@.take(i as int));
            assert(ps@.take(i + 1).last() == ps@[i as int]);
        }
        if ps[i].is_group() {
            let name = ps[i].name.clone();
            let name_chars = str_chars(name.as_str());
            let mut j: usize = out.len();
            while j > 0 && !chars_le_exec(str_chars(out[j - 1].as_str()).as_slice(), name_chars.as_slice())
                invariant
                    j <= out@.len(),
                    name_chars@ == name@,
                    forall|k: int| j <= k < out@.len() ==> !chars_le((#[trigger] out@[k])@, name@),
                decreases j,
            {
                j = j - 1;
            }
            let ghost t = names_view(out@);
            proof {
                assert forall|k: int| j <= k < t.len() implies !le(#[trigger] t[k], name@) by {
                    assert(t[k] == out@[k]@);
                }
                if j > 0 {
                    assert(t[j - 1] == out@[j - 1]@);
                }
                lemma_insert_at(name@, t, le, j as int);
                assert(isg(ps@[i as int]));
                assert(ps@.take(i + 1).filter(isg) == prev.push(ps@[i as int]));
                let names = prev.push(ps@[i as int]).map_values(nm);
                assert(names =~= prev.map_values(nm).push(name@));
                assert(names.drop_last() =~= prev.map_values(nm));
            }
            out.insert(j, name);
            assert(names_view(out@) =~= t.take(j as int).push(name@) + t.skip(j as int));
        } else {
            proof {
                assert(!isg(ps@[i as int]));
                assert(ps@.take(i + 1).filter(isg) == prev);
            }
        }
        i = i + 1;
    }
    assert(ps@.take(ps@.len() as int) =~= ps@);
    add_missing(&mut out, "DIRECT");
    add_missing(&mut out, "REJECT");
    out
}

/// The text a rule is searched by: its line "type,payload,target".
pub open spec fn rule_text(r: Rule) -> Seq<char> {
    rule_line(r.rule_type@, r.payload@, r.proxy@)
}

/// The line of a rule, "type,payload,target".
pub fn rule_text_exec(rule: &Rule) -> (r: String)
    ensures
        r@ == rule_text(*rule),
{
    let a = concat(rule.rule_type.as_str(), ",");
    let b = concat(a.as_str(), rule.payload.as_str());
    let c = concat(b.as_str(), ",");
    concat(c.as_str(), rule.proxy.as_str())
}

/// Whether a rule matches the search of the rules page: the search, in lower
/// case, is empty or occurs in the rule's text in lower case.
pub open spec fn rule_matches(r: Rule, filter: Seq<char>) -> bool {
    lowercase(filter).len() == 0 || has_infix(lowercase(rule_text(r)), lowercase(filter))
}

/// The key of the text that names the core's state on the overview page.
pub open spec fn status_key_of(s: RuntimeStatus) -> Seq<char> {
    match s {
        RuntimeStatus::Stopped => "status_stopped"@,
        RuntimeStatus::Starting => "status_starting"@,
        RuntimeStatus::Running => "status_running"@,
        RuntimeStatus::Error(_) => "status_error"@,
    }
}

/// The key of the text that names the core's state.
pub fn status_key(s: &RuntimeStatus) -> (r: &'static str)
    ensures
        r@ == status_key_of(*s),
{
    match s {
        RuntimeStatus::Stopped => "status_stopped",
        RuntimeStatus::Starting => "status_starting",
        RuntimeStatus::Running => "status_running",
        RuntimeStatus::Error(_) => "status_error",
    }
}

/// Which move buttons of the rule row at position `i` of `len` rules work:
/// up where the row is not the first, down where it is not the last.
pub fn rule_move_buttons(i: usize, len: usize) -> (r: (bool, bool))
    ensures
        r == (i > 0, i + 1 < len),
{
    (i > 0, i < len && len - i > 1)
}

/// The count beside the rules page's title: how many rules the search shows
/// out of how many there are, as "(shown / total)".
pub open spec fn rules_count_text(shown: nat, total: nat) -> Seq<char> {
    "("@ + decimal(shown) + " / "@ + decimal(total) + ")"@
}

/// The count beside the rules page's title.
pub fn rules_count_label(shown: usize, total: usize) -> (r: String)
    ensures
        r@ == rules_count_text(shown as nat, total as nat),
{
    let mut v = str_chars("(");
    let a = decimal_chars(shown as u64);
    extend_chars(&mut v, a.as_slice());
    let sep = str_chars(" / ");
    extend_chars(&mut v, sep.as_slice());
    let b = decimal_chars(total as u64);
    extend_chars(&mut v, b.as_slice());
    let close = str_chars(")");
    extend_chars(&mut v, close.as_slice());
    string_from_chars(v.as_slice())
}

/// The rules that the rules page lists for a search, as positions.
pub fn matching_rule_indices(rules: &Vec<Rule>, filter: &str) -> (r: Vec<usize>)
    ensures
        idx_view(r@) == Seq::new(rules@.len(), |i: int| i).filter(
            |i: int| rule_matches(rules@[i], filter@),
        ),
{
    let ghost keep = |i: int| rule_matches(rules@[i], filter@);
    let lower_filter = to_lowercase(filter);
    let needle = str_chars(lower_filter.as_str());
    let mut out: Vec<usize> = Vec::new();
    let mut i: usize = 0;
    assert(Seq::new(0, |k: int| k).filter(keep) =~= Seq::<int>::empty()) by {
        reveal_with_fuel(Seq::filter, 1);
    }
    assert(idx_view(out@) =~= Seq::<int>::empty());
    while i < rules.len()
        invariant
            i <= rules@.len(),
            keep == (|i: int| rule_matches(rules@[i], filter@)),
            needle@ == lowercase(filter@),
            idx_view(out@) == Seq::new(i as nat, |k: int| k).filter(keep),
        decreases rules@.len() - i,
    {
        let ghost src = Seq::new((i + 1) as nat, |k: int| k);
        proof {
            reveal_with_fuel(Seq::filter, 1);
            assert(src.drop_last() =~= Seq::new(i as nat, |k: int| k));
            assert(src.last() == i);
        }
        let line = rule_text_exec(&rules[i]);
        let lower = to_lowercase(line.as_str());
        let hay = str_chars(lower.as_str());
        if needle.len() == 0 || chars_contain(hay.as_slice(), needle.as_slice()) {
            assert(keep(i as int));
            let ghost before = idx_view(out@);
            out.push(i);
            assert(idx_view(out@) =~= before.push(i as int));
        } else {
            assert(!keep(i as int));
        }
        i = i + 1;
    }
    assert(Seq::new(rules@.len(), |k: int| k) =~= Seq::new(i as nat, |k: int| k));
    out
}

/// The traffic chart of the overview: the latest samples, oldest first, as
/// (up, down) bytes per second.
pub struct TrafficChart {
    pub history: VecDeque<(u64, u64)>,
}

/// The smallest top of the chart's scale: 100 KiB/s.
pub const CHART_MIN_SCALE: u64 = 102400;

/// The top of the chart's scale where there are no samples: 1 MiB/s.
pub const CHART_EMPTY_SCALE: u64 = 1048576;

/// The larger of two numbers.
pub open spec fn max_u64(a: u64, b: u64) -> u64 {
    if a >= b {
        a
    } else {
        b
    }
}

/// The fastest sample of the history, in either direction; `None` for no
/// samples.
pub open spec fn peak_speed(h: Seq<(u64, u64)>) -> Option<u64>
    decreases h.len(),
{
    if h.len() == 0 {
        None
    } else {
        let here = max_u64(h.last().0, h.last().1);
        match peak_speed(h.drop_last()) {
            Some(p) => Some(max_u64(p, here)),
            None => Some(here),
        }
    }
}

/// The top of the chart's scale: the fastest sample (1 MiB/s with no samples),
/// but never less than 100 KiB/s.
pub open spec fn chart_scale(h: Seq<(u64, u64)>) -> u64 {
    let peak = match peak_speed(h) {
        Some(p) => p,
        None => CHART_EMPTY_SCALE,
    };
    max_u64(peak, CHART_MIN_SCALE)
}

impl TrafficChart {
    /// A chart of the given samples.
    pub fn new(history: VecDeque<(u64, u64)>) -> (r: TrafficChart)
        ensures
            r.history@ == history@,
    {
        TrafficChart { history }
    }

    /// Whether there are enough samples to draw lines (at least two).
    pub fn can_draw(&self) -> (r: bool)
        ensures
            r == (self.history@.len() >= 2),
    {
        self.history.len() >= 2
    }

    /// The speed that the top of the chart stands for.
    pub fn scale(&self) -> (r: u64)
        ensures
            r == chart_scale(self.history@),
            r >= CHART_MIN_SCALE,
    {
        let n = self.history.len();
        let mut peak: Option<u64> = None;
        let mut i: usize = 0;
        assert(self.history@.take(0) =~= Seq::<(u64, u64)>::empty());
        while i < n
            invariant
                n == self.history@.len(),
                i <= n,
                peak == peak_speed(self.history@.take(i as int)),
            decreases n - i,
        {
            let (up, down) = self.history[i];
            let here = if up >= down {
                up
            } else {
                down
            };
            peak = match peak {
                Some(p) => Some(if p >= here {
                    p
                } else {
                    here
                }),
                None => Some(here),
            };
            assert(self.history@.take(i + 1).drop_last() =~= self.history@.take(i as int));
            i = i + 1;
        }
        assert(self.history@.take(n as int) =~= self.history@);
        let top = match peak {
            Some(p) => p,
            None => CHART_EMPTY_SCALE,
        };
        if top >= CHART_MIN_SCALE {
            top
        } else {
            CHART_MIN_SCALE
        }
    }
}

/// The tray menu, top to bottom: each item's id and label.  The four mode
/// items (rule, global, direct, script) sit in the "代理模式" submenu; separators follow "show" and the theme
/// item.
pub open spec fn tray_menu() -> Seq<(Seq<char>, Seq<char>)> {
    seq![
        ("show"@, "显示主界面"@),
        ("mode_rule"@, "规则模式"@),
        ("mode_global"@, "全局模式"@),
        ("mode_direct"@, "直连模式"@),
        ("mode_script"@, "脚本模式"@),
        ("toggle_system_proxy"@, "系统代理"@),
        ("toggle_tun"@, "TUN 模式"@),
        ("toggle_theme"@, "切换深/浅色模式"@),
        ("quit"@, "退出应用"@),
    ]
}

/// The tray menu's items as (id, label).
pub fn tray_menu_items() -> (r: Vec<(String, String)>)
    ensures
        r@.len() == tray_menu().len(),
        forall|k: int| 0 <= k < r@.len() ==> (#[trigger] r@[k]).0@ == tray_menu()[k].0 && r@[k].1@ == tray_menu()[k].1,
{
    let mut v: Vec<(String, String)> = Vec::new();
    v.push((owned("show"), owned("显示主界面")));
    v.push((owned("mode_rule"), owned("规则模式")));
    v.push((owned("mode_global"), owned("全局模式")));
    v.push((owned("mode_direct"), owned("直连模式")));
    v.push((owned("mode_script"), owned("脚本模式")));
    v.push((owned("toggle_system_proxy"), owned("系统代理")));
    v.push((owned("toggle_tun"), owned("TUN 模式")));
    v.push((owned("toggle_theme"), owned("切换深/浅色模式")));
    v.push((owned("quit"), owned("退出应用")));
    v
}

} // verus!
