use crate::model::{names_view, ProxyEntry};
use crate::text::{chars_contain, has_infix, lowercase, str_chars, str_equal, to_lowercase};
use vstd::prelude::*;

verus! {

/// `t` with `x` put after every element that `le` orders before or level with it,
/// and before the rest (one step of a stable insertion sort of `t` already sorted).
pub open spec fn insert_sorted<A>(x: A, t: Seq<A>, le: spec_fn(A, A) -> bool) -> Seq<A>
    decreases t.len(),
{
    if t.len() == 0 {
        seq![x]
    } else if le(t.last(), x) {
        t.push(x)
    } else {
        insert_sorted(x, t.drop_last(), le).push(t.last())
    }
}

/// `s` sorted stably by the total preorder `le`: elements that `le` holds level
/// keep their order in `s` (what `slice::sort_by` gives).
pub open spec fn stable_sort<A>(s: Seq<A>, le: spec_fn(A, A) -> bool) -> Seq<A>
    decreases s.len(),
{
    if s.len() == 0 {
        s
    } else {
        insert_sorted(s.last(), stable_sort(s.drop_last(), le), le)
    }
}

pub proof fn lemma_insert_at<A>(x: A, t: Seq<A>, le: spec_fn(A, A) -> bool, j: int)
    requires
        0 <= j <= t.len(),
        forall|k: int| j <= k < t.len() ==> !le(#[trigger] t[k], x),
        j == 0 || le(t[j - 1], x),
    ensures
        insert_sorted(x, t, le) == t.take(j).push(x) + t.skip(j),
    decreases t.len(),
{
    if t.len() == 0 {
        assert(t.take(j).push(x) + t.skip(j) =~= seq![x]);
    } else if j == t.len() {
        assert(t.take(j).push(x) + t.skip(j) =~= t.push(x));
    } else {
        let u = t.drop_last();
        assert(!le(t[t.len() - 1], x));
        assert forall|k: int| j <= k < u.len() implies !le(#[trigger] u[k], x) by {
            assert(u[k] == t[k]);
        }
        if j > 0 {
            assert(u[j - 1] == t[j - 1]);
        }
        lemma_insert_at(x, u, le, j);
        assert((u.take(j).push(x) + u.skip(j)).push(t.last()) =~= t.take(j).push(x) + t.skip(j));
    }
}

/// The proxy that the table holds under `name`: the first entry with that name.
pub open spec fn lookup_proxy(ps: Seq<ProxyEntry>, name: Seq<char>) -> Option<ProxyEntry>
    decreases ps.len(),
{
    if ps.len() == 0 {
        None
    } else if ps[0].name@ == name {
        Some(ps[0])
    } else {
        lookup_proxy(ps.drop_first(), name)
    }
}

/// Whether no two entries of a table share a name, as in a map keyed by name.
pub open spec fn names_unique(ps: Seq<ProxyEntry>) -> bool {
    forall|i: int, j: int| 0 <= i < j < ps.len() ==> ps[i].name@ != ps[j].name@
}

/// The table that putting the entries one after another into a map keyed by
/// name leaves: for each name only its last entry, in the order of those
/// entries.
pub open spec fn last_by_name(ps: Seq<ProxyEntry>) -> Seq<ProxyEntry>
    decreases ps.len(),
{
    if ps.len() == 0 {
        ps
    } else if lookup_proxy(ps.drop_first(), ps[0].name@) is Some {
        last_by_name(ps.drop_first())
    } else {
        seq![ps[0]] + last_by_name(ps.drop_first())
    }
}

/// The table has an entry named `name` exactly when some entry has that name.
pub proof fn lemma_lookup_finds_any(ps: Seq<ProxyEntry>, name: Seq<char>)
    ensures
        lookup_proxy(ps, name) is Some <==> exists|i: int| 0 <= i < ps.len() && #[trigger] ps[i].name@ == name,
    decreases ps.len(),
{
    if ps.len() > 0 {
        lemma_lookup_finds_any(ps.drop_first(), name);
        if lookup_proxy(ps.drop_first(), name) is Some {
            let i = choose|i: int| 0 <= i < ps.drop_first().len() && #[trigger] ps.drop_first()[i].name@ == name;
            assert(ps[i + 1].name@ == name);
        }
        if exists|i: int| 0 <= i < ps.len() && #[trigger] ps[i].name@ == name {
            let i = choose|i: int| 0 <= i < ps.len() && #[trigger] ps[i].name@ == name;
            if i > 0 {
                assert(ps.drop_first()[i - 1].name@ == name);
            }
        }
    }
}

/// Keeping the last entry of each name keeps every name.
pub proof fn lemma_last_by_name_keeps_names(ps: Seq<ProxyEntry>, name: Seq<char>)
    ensures
        lookup_proxy(last_by_name(ps), name) is Some <==> lookup_proxy(ps, name) is Some,
    decreases ps.len(),
{
    if ps.len() > 0 {
        lemma_last_by_name_keeps_names(ps.drop_first(), name);
        let rest = last_by_name(ps.drop_first());
        if lookup_proxy(ps.drop_first(), ps[0].name@) is None {
            assert((seq![ps[0]] + rest)[0] == ps[0]);
            assert((seq![ps[0]] + rest).drop_first() =~= rest);
        }
    }
}

/// Keeping the last entry of each name leaves no two entries with one name.
pub proof fn lemma_last_by_name_unique(ps: Seq<ProxyEntry>)
    ensures
        names_unique(last_by_name(ps)),
    decreases ps.len(),
{
    if ps.len() > 0 {
        lemma_last_by_name_unique(ps.drop_first());
        let rest = last_by_name(ps.drop_first());
        if lookup_proxy(ps.drop_first(), ps[0].name@) is None {
            lemma_last_by_name_keeps_names(ps.drop_first(), ps[0].name@);
            lemma_lookup_finds_any(rest, ps[0].name@);
            let t = seq![ps[0]] + rest;
            assert forall|i: int, j: int| 0 <= i < j < t.len() implies t[i].name@ != t[j].name@ by {
                if i == 0 {
                    assert(t[j] == rest[j - 1]);
                } else {
                    assert(t[i] == rest[i - 1] && t[j] == rest[j - 1]);
                }
            }
        }
    }
}

/// A table whose names are already unique is its own map.
pub proof fn lemma_unique_table_unchanged(ps: Seq<ProxyEntry>)
    requires
        names_unique(ps),
    ensures
        last_by_name(ps) == ps,
    decreases ps.len(),
{
    if ps.len() > 0 {
        let rest = ps.drop_first();
        assert(names_unique(rest)) by {
            assert forall|i: int, j: int| 0 <= i < j < rest.len() implies rest[i].name@ != rest[j].name@ by {
                assert(rest[i] == ps[i + 1] && rest[j] == ps[j + 1]);
            }
        }
        lemma_unique_table_unchanged(rest);
        lemma_lookup_finds_any(rest, ps[0].name@);
        if lookup_proxy(rest, ps[0].name@) is Some {
            let i = choose|i: int| 0 <= i < rest.len() && #[trigger] rest[i].name@ == ps[0].name@;
            assert(rest[i] == ps[i + 1]);
        }
        assert(seq![ps[0]] + rest =~= ps);
    }
}

/// The table as a map keyed by name holds it: for each name only its last
/// entry (see `last_by_name`).
pub fn unique_by_name(ps: Vec<ProxyEntry>) -> (r: Vec<ProxyEntry>)
    ensures
        r@ == last_by_name(ps@),
        names_unique(r@),
{
    let ghost all = ps@;
    let mut ps = ps;
    let mut kept: Vec<ProxyEntry> = Vec::new();
    assert(all.skip(all.len() as int) =~= Seq::<ProxyEntry>::empty());
    assert(all.take(all.len() as int) =~= all);
    while ps.len() > 0
        invariant
            ps@.len() <= all.len(),
            ps@ == all.take(ps@.len() as int),
            kept@ == last_by_name(all.skip(ps@.len() as int)),
        decreases ps@.len(),
    {
        let ghost k = ps@.len() - 1;
        let e = ps.pop().unwrap();
        proof {
            assert(all.skip(k).drop_first() =~= all.skip(k + 1));
            assert(all.skip(k)[0] == e);
            assert(ps@ =~= all.take(k));
            lemma_last_by_name_keeps_names(all.skip(k + 1), e.name@);
        }
        if find_proxy(&kept, e.name.as_str()).is_none() {
            let ghost before = kept@;
            kept.insert(0, e);
            assert(kept@ =~= seq![e] + before);
        }
    }
    assert(all.skip(0) =~= all);
    proof {
        lemma_last_by_name_unique(all);
    }
    kept
}

/// The latest measured delay of the proxy named `name`, or `u32::MAX` where the
/// proxy is unknown or has never been measured.
pub open spec fn delay_of(ps: Seq<ProxyEntry>, name: Seq<char>) -> u32 {
    match lookup_proxy(ps, name) {
        Some(p) => if p.history@.len() > 0 {
            p.history@.last().delay
        } else {
            u32::MAX
        },
        None => u32::MAX,
    }
}

/// Members ordered by their latest delay.
pub open spec fn delay_le(ps: Seq<ProxyEntry>) -> spec_fn(Seq<char>, Seq<char>) -> bool {
    |a: Seq<char>, b: Seq<char>| delay_of(ps, a) <= delay_of(ps, b)
}

/// Finds the proxy stored under `name`.
pub fn find_proxy(ps: &Vec<ProxyEntry>, name: &str) -> (r: Option<usize>)
    ensures
        match r {
            Some(i) => i < ps@.len() && lookup_proxy(ps@, name@) == Some(ps@[i as int]),
            None => lookup_proxy(ps@, name@) is None,
        },
{
    let mut i: usize = 0;
    assert(ps@.skip(0) =~= ps@);
    while i < ps.len()
        invariant
            i <= ps@.len(),
            lookup_proxy(ps@, name@) == lookup_proxy(ps@.skip(i as int), name@),
        decreases ps@.len() - i,
    {
        assert(ps@.skip(i as int)[0] == ps@[i as int]);
        assert(ps@.skip(i as int).drop_first() =~= ps@.skip(i + 1));
        if str_equal(ps[i].name.as_str(), name) {
            return Some(i);
        }
        i = i + 1;
    }
    None
}

/// The latest delay of a proxy, or `u32::MAX` where there is none.
pub fn proxy_delay(ps: &Vec<ProxyEntry>, name: &str) -> (r: u32)
    ensures
        r == delay_of(ps@, name@),
{
    match find_proxy(ps, name) {
        Some(i) => {
            let h = &ps[i].history;
            if h.len() > 0 {
                h[h.len() - 1].delay
            } else {
                u32::MAX
            }
        },
        None => u32::MAX,
    }
}

/// Sorts member names stably by their latest delay, unmeasured ones last.
pub fn sort_by_delay(ps: &Vec<ProxyEntry>, members: &Vec<String>) -> (r: Vec<String>)
    ensures
        names_view(r@) == stable_sort(names_view(members@), delay_le(ps@)),
{
    let ghost le = delay_le(ps@);
    let ghost input = names_view(members@);
    let mut out: Vec<String> = Vec::new();
    let mut keys: Vec<u32> = Vec::new();
    let mut i: usize = 0;
    assert(input.take(0) =~= Seq::<Seq<char>>::empty());
    assert(names_view(out@) =~= Seq::<Seq<char>>::empty());
    while i < members.len()
        invariant
            i <= members@.len(),
            input == names_view(members@),
            le == delay_le(ps@),
            names_view(out@) == stable_sort(input.take(i as int), le),
            keys@.len() == out@.len(),
            forall|k: int| 0 <= k < out@.len() ==> keys@[k] == delay_of(ps@, #[trigger] out@[k]@),
        decreases members@.len() - i,
    {
        let m = members[i].clone();
        let d = proxy_delay(ps, m.as_str());
        let mut j: usize = out.len();
        while j > 0 && keys[j - 1] > d
            invariant
                j <= out@.len(),
                keys@.len() == out@.len(),
                forall|k: int| j <= k < out@.len() ==> keys@[k] > d,
            decreases j,
        {
            j = j - 1;
        }
        let ghost t = names_view(out@);
        proof {
            assert forall|k: int| j <= k < t.len() implies !le(#[trigger] t[k], m@) by {
                assert(keys@[k] == delay_of(ps@, out@[k]@));
            }
            if j > 0 {
                assert(keys@[j - 1] == delay_of(ps@, out@[j - 1]@));
            }
            lemma_insert_at(m@, t, le, j as int);
            assert(input.take(i + 1).drop_last() =~= input.take(i as int));
            assert(input.take(i + 1).last() == m@);
        }
        let ghost old_out = out@;
        let ghost old_keys = keys@;
        out.insert(j, m);
        keys.insert(j, d);
        proof {
            assert(names_view(out@) =~= t.take(j as int).push(m@) + t.skip(j as int));
            assert forall|k: int| 0 <= k < out@.len() implies keys@[k] == delay_of(
                ps@,
                #[trigger] out@[k]@,
            ) by {
                if k < j {
                    assert(out@[k] == old_out[k] && keys@[k] == old_keys[k]);
                } else if k > j {
                    assert(out@[k] == old_out[k - 1] && keys@[k] == old_keys[k - 1]);
                }
            }
        }
        i = i + 1;
    }
    assert(input.take(members@.len() as int) =~= input);
    out
}

/// Whether a member name matches a search filter: the filter, in lower case, occurs
/// in the name in lower case.
pub open spec fn name_matches(name: Seq<char>, filter: Seq<char>) -> bool {
    has_infix(lowercase(name), lowercase(filter))
}

/// The members of a group that the proxies page shows: those matching a non-empty
/// filter (all of them when the filter is empty), sorted by delay when asked.
pub open spec fn visible_members(
    ps: Seq<ProxyEntry>,
    filter: Seq<char>,
    by_delay: bool,
    all: Seq<Seq<char>>,
) -> Seq<Seq<char>> {
    let kept = if filter.len() == 0 {
        all
    } else {
        all.filter(|m: Seq<char>| name_matches(m, filter))
    };
    if by_delay {
        stable_sort(kept, delay_le(ps))
    } else {
        kept
    }
}

/// A copy of a list of strings.
pub fn clone_strings(v: &Vec<String>) -> (r: Vec<String>)
    ensures
        r@ == v@,
{
    let mut out: Vec<String> = Vec::new();
    let mut i: usize = 0;
    while i < v.len()
        invariant
            i <= v@.len(),
            out@ == v@.take(i as int),
        decreases v@.len() - i,
    {
        out.push(v[i].clone());
        i = i + 1;
        assert(out@ =~= v@.take(i as int));
    }
    assert(v@.take(v@.len() as int) =~= v@);
    out
}

/// The members of a group that match a filter, in their order.
fn matching_members(members: &Vec<String>, filter: &str) -> (r: Vec<String>)
    ensures
        names_view(r@) == if filter@.len() == 0 {
            names_view(members@)
        } else {
            names_view(members@).filter(|m: Seq<char>| name_matches(m, filter@))
        },
{
    let ghost input = names_view(members@);
    if filter.is_empty() {
        return clone_strings(members);
    }
    let ghost pred = |m: Seq<char>| name_matches(m, filter@);
    let lower_filter = to_lowercase(filter);
    let needle = str_chars(lower_filter.as_str());
    let mut out: Vec<String> = Vec::new();
    let mut i: usize = 0;
    assert(input.take(0).filter(pred) =~= Seq::<Seq<char>>::empty()) by {
        reveal_with_fuel(Seq::filter, 1);
    }
    assert(names_view(out@) =~= Seq::<Seq<char>>::empty());
    while i < members.len()
        invariant
            i <= members@.len(),
            input == names_view(members@),
            pred == (|m: Seq<char>| name_matches(m, filter@)),
            needle@ == lowercase(filter@),
            names_view(out@) == input.take(i as int).filter(pred),
        decreases members@.len() - i,
    {
        let lower = to_lowercase(members[i].as_str());
        let hay = str_chars(lower.as_str());
        proof {
            assert(input.take(i + 1).drop_last() =~= input.take(i as int));
            assert(input.take(i + 1).last() == members@[i as int]@);
        }
        let hit = chars_contain(hay.as_slice(), needle.as_slice());
        proof {
            reveal_with_fuel(Seq::filter, 1);
            let t = input.take(i + 1);
            assert(hit == pred(t.last()));
            assert(t.filter(pred) == if pred(t.last()) {
                t.drop_last().filter(pred).push(t.last())
            } else {
                t.drop_last().filter(pred)
            });
        }
        if hit {
            let ghost before = out@;
            out.push(members[i].clone());
            assert(names_view(out@) =~= names_view(before).push(members@[i as int]@));
        }
        i = i + 1;
    }
    assert(input.take(members@.len() as int) =~= input);
    out
}

/// The members of a group as the proxies page shows them.
pub fn group_members(
    ps: &Vec<ProxyEntry>,
    members: &Vec<String>,
    filter: &str,
    by_delay: bool,
) -> (r: Vec<String>)
    ensures
        names_view(r@) == visible_members(ps@, filter@, by_delay, names_view(members@)),
{
    let kept = matching_members(members, filter);
    if by_delay {
        sort_by_delay(ps, &kept)
    } else {
        kept
    }
}


/// Where a group comes in the proxies page: GLOBAL first, every other group after.
pub open spec fn group_rank(p: ProxyEntry) -> int {
    if p.name@ == "GLOBAL"@ {
        0
    } else {
        1
    }
}

/// Lexicographic order of character sequences, by code point (the order of
/// `String`'s `Ord`, since UTF-8 keeps code point order).
pub open spec fn chars_le(a: Seq<char>, b: Seq<char>) -> bool
    decreases a.len(),
{
    if a.len() == 0 {
        true
    } else if b.len() == 0 {
        false
    } else if a[0] != b[0] {
        a[0] < b[0]
    } else {
        chars_le(a.drop_first(), b.drop_first())
    }
}

/// The order of groups on the proxies page: GLOBAL before the rest, the rest by
/// their type.
pub open spec fn group_entry_le(a: ProxyEntry, b: ProxyEntry) -> bool {
    group_rank(a) < group_rank(b) || (group_rank(a) == group_rank(b) && (group_rank(a) == 0
        || chars_le(a.proxy_type@, b.proxy_type@)))
}

/// The group order over positions in the proxy table.
pub open spec fn group_le(ps: Seq<ProxyEntry>) -> spec_fn(int, int) -> bool {
    |a: int, b: int| group_entry_le(ps[a], ps[b])
}

/// The positions of the groups in the proxy table, in table order.
pub open spec fn group_positions(ps: Seq<ProxyEntry>) -> Seq<int> {
    Seq::new(ps.len(), |i: int| i).filter(|i: int| ps[i].members is Some)
}

/// Positions as integers.
pub open spec fn idx_view(v: Seq<usize>) -> Seq<int> {
    v.map_values(|k: usize| k as int)
}

/// Lexicographic comparison of two character sequences.
pub fn chars_le_exec(a: &[char], b: &[char]) -> (r: bool)
    ensures
        r == chars_le(a@, b@),
{
    let mut i: usize = 0;
    assert(a@.skip(0) =~= a@);
    assert(b@.skip(0) =~= b@);
    while i < a.len() && i < b.len() && a[i] == b[i]
        invariant
            i <= a@.len(),
            i <= b@.len(),
            chars_le(a@, b@) == chars_le(a@.skip(i as int), b@.skip(i as int)),
        decreases a@.len() - i,
    {
        assert(a@.skip(i as int).drop_first() =~= a@.skip(i + 1));
        assert(b@.skip(i as int).drop_first() =~= b@.skip(i + 1));
        i = i + 1;
    }
    if i == a.len() {
        true
    } else if i == b.len() {
        false
    } else {
        a[i] < b[i]
    }
}

/// Whether group `a` comes before group `b`, or level with it.
fn group_entry_le_exec(a: &ProxyEntry, b: &ProxyEntry) -> (r: bool)
    ensures
        r == group_entry_le(*a, *b),
{
    let ra: u8 = if str_equal(a.name.as_str(), "GLOBAL") {
        0
    } else {
        1
    };
    let rb: u8 = if str_equal(b.name.as_str(), "GLOBAL") {
        0
    } else {
        1
    };
    if ra < rb {
        true
    } else if ra > rb {
        false
    } else if ra == 0 {
        true
    } else {
        let ta = str_chars(a.proxy_type.as_str());
        let tb = str_chars(b.proxy_type.as_str());
        chars_le_exec(ta.as_slice(), tb.as_slice())
    }
}

/// The positions of the groups in the table, sorted stably in group order.
pub fn sorted_group_positions(ps: &Vec<ProxyEntry>) -> (r: Vec<usize>)
    ensures
        idx_view(r@) == stable_sort(group_positions(ps@), group_le(ps@)),
        forall|k: int| 0 <= k < r@.len() ==> #[trigger] r@[k] < ps@.len() && ps@[r@[k] as int].members is Some,
{
    let ghost le = group_le(ps@);
    let ghost isg = |i: int| ps@[i].members is Some;
    let mut out: Vec<usize> = Vec::new();
    let mut i: usize = 0;
    assert(Seq::new(0, |k: int| k).filter(isg) =~= Seq::<int>::empty()) by {
        reveal_with_fuel(Seq::filter, 1);
    }
    assert(idx_view(out@) =~= Seq::<int>::empty());
    while i < ps.len()
        invariant
            i <= ps@.len(),
            le == group_le(ps@),
            isg == (|i: int| ps@[i].members is Some),
            idx_view(out@) == stable_sort(Seq::new(i as nat, |k: int| k).filter(isg), le),
            forall|k: int| 0 <= k < out@.len() ==> #[trigger] out@[k] < i && ps@[out@[k] as int].members is Some,
        decreases ps@.len() - i,
    {
        let ghost src = Seq::new((i + 1) as nat, |k: int| k);
        proof {
            reveal_with_fuel(Seq::filter, 1);
            assert(src.drop_last() =~= Seq::new(i as nat, |k: int| k));
            assert(src.last() == i);
        }
        if ps[i].is_group() {
            let mut j: usize = out.len();
            while j > 0 && !group_entry_le_exec(&ps[out[j - 1]], &ps[i])
                invariant
                    j <= out@.len(),
                    i < ps@.len(),
                    forall|k: int| 0 <= k < out@.len() ==> #[trigger] out@[k] < i,
                    forall|k: int| j <= k < out@.len() ==> !group_entry_le(ps@[#[trigger] out@[k] as int], ps@[i as int]),
                decreases j,
            {
                j = j - 1;
            }
            let ghost t = idx_view(out@);
            proof {
                assert forall|k: int| j <= k < t.len() implies !le(#[trigger] t[k], i as int) by {
                    assert(t[k] == out@[k] as int);
                }
                if j > 0 {
                    assert(t[j - 1] == out@[j - 1] as int);
                }
                lemma_insert_at(i as int, t, le, j as int);
                assert(isg(i as int));
                let prev = src.drop_last().filter(isg);
                assert(src.filter(isg) == prev.push(i as int));
                assert(prev.push(i as int).drop_last() =~= prev);
                assert(stable_sort(prev.push(i as int), le) == insert_sorted(
                    i as int,
                    stable_sort(prev, le),
                    le,
                ));
            }
            let ghost old_out = out@;
            out.insert(j, i);
            proof {
                assert(idx_view(out@) =~= t.take(j as int).push(i as int) + t.skip(j as int));
                assert forall|k: int| 0 <= k < out@.len() implies #[trigger] out@[k] < i + 1
                    && ps@[out@[k] as int].members is Some by {
                    if k < j {
                        assert(out@[k] == old_out[k]);
                    } else if k > j {
                        assert(out@[k] == old_out[k - 1]);
                    }
                }
            }
        } else {
            proof {
                assert(!isg(i as int));
                assert(src.filter(isg) == src.drop_last().filter(isg));
            }
        }
        i = i + 1;
    }
    assert(Seq::new(ps@.len(), |k: int| k) =~= Seq::new(i as nat, |k: int| k));
    out
}

/// The groups that the proxies page lists, in order, each with the members it
/// shows: groups sorted stably with GLOBAL first and the rest by type; members
/// kept as `visible_members` says; with a non-empty filter, a group left with no
/// member is dropped.
pub open spec fn filtered_groups_of(ps: Seq<ProxyEntry>, filter: Seq<char>, by_delay: bool) -> Seq<
    (Seq<char>, Seq<Seq<char>>),
> {
    stable_sort(group_positions(ps), group_le(ps)).map_values(
        |i: int|
            (ps[i].name@, visible_members(ps, filter, by_delay, names_view(ps[i].members.unwrap()@))),
    ).filter(|g: (Seq<char>, Seq<Seq<char>>)| filter.len() == 0 || g.1.len() > 0)
}

/// Groups with their members, as characters.
pub open spec fn groups_view(v: Seq<(String, Vec<String>)>) -> Seq<(Seq<char>, Seq<Seq<char>>)> {
    v.map_values(|g: (String, Vec<String>)| (g.0@, names_view(g.1@)))
}

/// The groups and members that the proxies page shows for a filter and sort choice.
pub fn filtered_groups(ps: &Vec<ProxyEntry>, filter: &str, by_delay: bool) -> (r: Vec<
    (String, Vec<String>),
>)
    ensures
        groups_view(r@) == filtered_groups_of(ps@, filter@, by_delay),
{
    let order = sorted_group_positions(ps);
    let ghost f = |i: int|
        (ps@[i].name@, visible_members(ps@, filter@, by_delay, names_view(ps@[i].members.unwrap()@)));
    let ghost keep = |g: (Seq<char>, Seq<Seq<char>>)| filter@.len() == 0 || g.1.len() > 0;
    let ghost all = idx_view(order@).map_values(f);
    let mut out: Vec<(String, Vec<String>)> = Vec::new();
    let mut k: usize = 0;
    assert(all.take(0).filter(keep) =~= Seq::<(Seq<char>, Seq<Seq<char>>)>::empty()) by {
        reveal_with_fuel(Seq::filter, 1);
    }
    assert(groups_view(out@) =~= Seq::<(Seq<char>, Seq<Seq<char>>)>::empty());
    while k < order.len()
        invariant
            k <= order@.len(),
            all == idx_view(order@).map_values(f),
            f == (|i: int|
                (ps@[i].name@, visible_members(ps@, filter@, by_delay, names_view(ps@[i].members.unwrap()@)))),
            keep == (|g: (Seq<char>, Seq<Seq<char>>)| filter@.len() == 0 || g.1.len() > 0),
            forall|m: int| 0 <= m < order@.len() ==> #[trigger] order@[m] < ps@.len() && ps@[order@[m] as int].members is Some,
            groups_view(out@) == all.take(k as int).filter(keep),
        decreases order@.len() - k,
    {
        let p = order[k];
        assert(order@[k as int] < ps@.len());
        let g = &ps[p];
        let members = match &g.members {
            Some(m) => group_members(ps, m, filter, by_delay),
            None => Vec::new(),
        };
        let ghost item = f(p as int);
        proof {
            reveal_with_fuel(Seq::filter, 1);
            let t = all.take(k + 1);
            assert(t.drop_last() =~= all.take(k as int));
            assert(t.last() == item);
            assert(item.1 == names_view(members@));
        }
        if filter.is_empty() || members.len() > 0 {
            let ghost before = out@;
            out.push((g.name.clone(), members));
            assert(groups_view(out@) =~= groups_view(before).push(item));
        }
        k = k + 1;
    }
    assert(all.take(order@.len() as int) =~= all);
    out
}

} // verus!
