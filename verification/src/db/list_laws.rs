//! What holds of the lists of a profile that are stored as a whole: its windows,
//! its limits and its block list.

use crate::db::domains;
use crate::db::domains::NewDomain;
use crate::db::laws;
use crate::db::profiles;
use crate::db::profiles::{NewLimit, NewWindow};
use crate::db::tables;
use crate::db::tables::{BlockedRow, ScheduleRow, Tables};
use crate::db::write::Write;
use crate::ids::Uuid;
use vstd::prelude::*;

verus! {

/// Rows put into a table one by one.
spec fn put_all<K, V>(base: Map<K, V>, keys: Seq<K>, rows: Seq<V>, n: int) -> Map<K, V>
    decreases n,
{
    if n <= 0 {
        base
    } else {
        put_all(base, keys, rows, n - 1).insert(keys[n - 1], rows[n - 1])
    }
}

proof fn lemma_put_all<K, V>(base: Map<K, V>, keys: Seq<K>, rows: Seq<V>, n: int)
    requires
        0 <= n <= keys.len(),
        keys.len() == rows.len(),
        keys.no_duplicates(),
        forall|i: int| 0 <= i < keys.len() ==> !base.contains_key(#[trigger] keys[i]),
    ensures
        forall|k: K| #[trigger]
            put_all(base, keys, rows, n).contains_key(k) <==> base.contains_key(k) || exists|i: int|
                0 <= i < n && #[trigger] keys[i] == k,
        forall|i: int|
            0 <= i < n ==> put_all(base, keys, rows, n)[#[trigger] keys[i]] == rows[i],
        forall|k: K| #[trigger]
            base.contains_key(k) ==> put_all(base, keys, rows, n)[k] == base[k],
    decreases n,
{
    if n > 0 {
        lemma_put_all(base, keys, rows, n - 1);
        let before = put_all(base, keys, rows, n - 1);
        let after = put_all(base, keys, rows, n);
        assert forall|k: K| #[trigger] after.contains_key(k) <==> base.contains_key(k) || exists|
            i: int,
        |
            0 <= i < n && #[trigger] keys[i] == k by {
            if after.contains_key(k) && k != keys[n - 1] {
                assert(before.contains_key(k));
            }
            if exists|i: int| 0 <= i < n && #[trigger] keys[i] == k {
                let i = choose|i: int| 0 <= i < n && #[trigger] keys[i] == k;
                if i < n - 1 {
                    assert(before.contains_key(k));
                }
            }
        }
    }
}

proof fn lemma_run_prefix(ws: Seq<Write>, n: int, t: Tables)
    requires
        0 <= n < ws.len(),
    ensures
        tables::effects(ws.take(n + 1), t) == ({
            let (before, fine) = tables::effects(ws.take(n), t);
            if !fine {
                (before, false)
            } else {
                match tables::effect(ws[n], before) {
                    Some(after) => (after, true),
                    None => (before, false),
                }
            }
        }),
{
    assert(ws.take(n + 1).drop_last() =~= ws.take(n));
    assert(ws.take(n + 1).last() == ws[n]);
}

/// A profile's windows, each as often as it is stored under an identifier.
pub open spec fn window_rows(t: Tables, profile_id: Uuid) -> Map<Uuid, ScheduleRow> {
    tables::kept(t.schedules, |s: Uuid, row: ScheduleRow| row.profile_id == profile_id)
}

/// The row of a window that is stored.
pub open spec fn window_row(profile_id: Uuid, n: NewWindow) -> ScheduleRow {
    ScheduleRow {
        profile_id,
        day_of_week: n.day_of_week as int,
        start_time: n.start_time@,
        end_time: n.end_time@,
    }
}

/// Windows that are stored are read back: where the days are days of the week
/// and no identifier is in use or given twice, afterwards the profile has these
/// windows and no others, and no other profile's windows have changed.
pub proof fn windows_are_read_back(
    ws: Seq<Write>,
    t: Tables,
    profile: Uuid,
    row_ids: Seq<Uuid>,
    new: Seq<NewWindow>,
)
    requires
        t.profiles.contains_key(profile),
        profiles::replaces_windows(ws, profile, row_ids, new),
        forall|i: int| 0 <= i < new.len() ==> (#[trigger] new[i]).day_of_week <= 6,
        forall|i: int| 0 <= i < row_ids.len() ==> !t.schedules.contains_key(#[trigger] row_ids[i]),
        row_ids.no_duplicates(),
    ensures
        tables::effects(ws, t).1,
        ({
            let after = tables::effects(ws, t).0;
            &&& forall|k: Uuid| #[trigger]
                window_rows(after, profile).contains_key(k) <==> row_ids.contains(k)
            &&& forall|i: int|
                0 <= i < new.len() ==> window_rows(after, profile)[#[trigger] row_ids[i]]
                    == window_row(profile, new[i])
            &&& forall|k: Uuid| #[trigger]
                t.schedules.contains_key(k) && t.schedules[k].profile_id != profile
                    ==> after.schedules.contains_key(k) && after.schedules[k] == t.schedules[k]
            &&& after == (Tables { schedules: after.schedules, ..t })
        }),
{
    let rows = Seq::new(new.len(), |i: int| window_row(profile, new[i]));
    let base = tables::kept(t.schedules, |s: Uuid, row: ScheduleRow| row.profile_id != profile);
    lemma_windows_put(ws, t, profile, new, base, row_ids, rows, new.len() as int);
    lemma_put_all(base, row_ids, rows, new.len() as int);
    assert(ws.take(1 + new.len() as int) =~= ws);
    let after = tables::effects(ws, t).0;
    assert forall|k: Uuid| #[trigger]
        window_rows(after, profile).contains_key(k) <==> row_ids.contains(k) by {
        if window_rows(after, profile).contains_key(k) {
            assert(after.schedules.contains_key(k) && after.schedules[k].profile_id == profile);
            if base.contains_key(k) {
                assert(after.schedules[k] == base[k]);
            }
            let i = choose|i: int| 0 <= i < new.len() && #[trigger] row_ids[i] == k;
            assert(row_ids.contains(k));
        }
        if row_ids.contains(k) {
            let i = row_ids.index_of(k);
            assert(after.schedules[row_ids[i]] == rows[i]);
        }
    }
    assert forall|i: int| 0 <= i < new.len() implies window_rows(after, profile)[
        #[trigger] row_ids[i]
    ] == window_row(profile, new[i]) by {
        assert(after.schedules[row_ids[i]] == rows[i]);
        assert(row_ids.contains(row_ids[i]));
    }
    assert forall|k: Uuid| #[trigger]
        t.schedules.contains_key(k) && t.schedules[k].profile_id
            != profile implies after.schedules.contains_key(k) && after.schedules[k]
        == t.schedules[k] by {
        assert(base.contains_key(k));
    }
}

proof fn lemma_windows_put(
    ws: Seq<Write>,
    t: Tables,
    profile: Uuid,
    new: Seq<NewWindow>,
    base: Map<Uuid, ScheduleRow>,
    keys: Seq<Uuid>,
    rows: Seq<ScheduleRow>,
    n: int,
)
    requires
        0 <= n <= new.len(),
        t.profiles.contains_key(profile),
        profiles::replaces_windows(ws, profile, keys, new),
        forall|i: int| 0 <= i < new.len() ==> (#[trigger] new[i]).day_of_week <= 6,
        base == tables::kept(t.schedules, |s: Uuid, row: ScheduleRow| row.profile_id != profile),
        rows == Seq::new(new.len(), |i: int| window_row(profile, new[i])),
        keys.no_duplicates(),
        forall|i: int| 0 <= i < keys.len() ==> !base.contains_key(#[trigger] keys[i]),
    ensures
        tables::effects(ws.take(1 + n), t) == (
            Tables { schedules: put_all(base, keys, rows, n), ..t },
            true,
        ),
    decreases n,
{
    if n == 0 {
        assert(ws.take(1) =~= seq![ws[0]]);
        laws::lemma_run_one(ws[0], t);
    } else {
        lemma_windows_put(ws, t, profile, new, base, keys, rows, n - 1);
        lemma_run_prefix(ws, n, t);
        lemma_put_all(base, keys, rows, n - 1);
        assert(profiles::stores_window(ws[1 + (n - 1)], keys[n - 1], profile, new[n - 1]));
        let before = Tables { schedules: put_all(base, keys, rows, n - 1), ..t };
        assert(!before.schedules.contains_key(keys[n - 1]));
        assert(new[n - 1].day_of_week <= 6);
    }
}

/// A profile's limit of a day, if there is one.
pub open spec fn limit_of(t: Tables, profile_id: Uuid, day: int) -> Option<int> {
    if t.limits.contains_key((profile_id, day)) {
        Some(t.limits[(profile_id, day)])
    } else {
        None
    }
}

/// Limits that are stored are read back: where every day is one of the week and
/// given once, and no limit is below zero, afterwards the profile has these
/// limits and no others, and no other profile's limits have changed.
pub proof fn limits_are_read_back(t: Tables, profile: Uuid, new: Seq<NewLimit>)
    requires
        t.profiles.contains_key(profile),
        forall|i: int|
            0 <= i < new.len() ==> (#[trigger] new[i]).day_of_week <= 6 && new[i].minutes >= 0,
        forall|i: int, j: int|
            0 <= i < j < new.len() ==> (#[trigger] new[i]).day_of_week != (
            #[trigger] new[j]).day_of_week,
    ensures
        tables::effects(profiles::limit_writes(profile, new), t).1,
        ({
            let after = tables::effects(profiles::limit_writes(profile, new), t).0;
            &&& forall|i: int|
                0 <= i < new.len() ==> limit_of(
                    after,
                    profile,
                    (#[trigger] new[i]).day_of_week as int,
                ) == Some(new[i].minutes as int)
            &&& forall|day: int|
                (forall|i: int| 0 <= i < new.len() ==> (#[trigger] new[i]).day_of_week != day)
                    ==> (#[trigger] limit_of(after, profile, day)) is None
            &&& forall|other: Uuid, day: int|
                other != profile ==> #[trigger] limit_of(after, other, day) == limit_of(
                    t,
                    other,
                    day,
                )
            &&& after == (Tables { limits: after.limits, ..t })
        }),
{
    let ws = profiles::limit_writes(profile, new);
    let keys = Seq::new(new.len(), |i: int| (profile, new[i].day_of_week as int));
    let rows = Seq::new(new.len(), |i: int| new[i].minutes as int);
    let base = tables::kept(t.limits, |k: (Uuid, int), m: int| k.0 != profile);
    assert(keys.no_duplicates()) by {
        assert forall|i: int, j: int|
            0 <= i < keys.len() && 0 <= j < keys.len() && i != j implies keys[i] != keys[j] by {
            if i < j {
                assert(new[i].day_of_week != new[j].day_of_week);
            } else {
                assert(new[j].day_of_week != new[i].day_of_week);
            }
        }
    }
    lemma_limits_put(t, profile, new, base, keys, rows, new.len() as int);
    lemma_put_all(base, keys, rows, new.len() as int);
    assert(ws.take(1 + new.len() as int) =~= ws);
    let after = tables::effects(ws, t).0;
    assert forall|i: int| 0 <= i < new.len() implies limit_of(
        after,
        profile,
        (#[trigger] new[i]).day_of_week as int,
    ) == Some(new[i].minutes as int) by {
        assert(after.limits[keys[i]] == rows[i]);
        assert(after.limits.contains_key(keys[i]));
    }
    assert forall|day: int|
        (forall|i: int| 0 <= i < new.len() ==> (#[trigger] new[i]).day_of_week != day) implies (
    #[trigger] limit_of(after, profile, day)) is None by {
        if after.limits.contains_key((profile, day)) {
            let i = choose|i: int| 0 <= i < new.len() && #[trigger] keys[i] == (profile, day);
            assert(new[i].day_of_week == day);
        }
    }
    assert forall|other: Uuid, day: int| other != profile implies #[trigger] limit_of(
        after,
        other,
        day,
    ) == limit_of(t, other, day) by {
        if after.limits.contains_key((other, day)) && !base.contains_key((other, day)) {
            let i = choose|i: int| 0 <= i < new.len() && #[trigger] keys[i] == (other, day);
            assert(keys[i].0 == profile);
        }
        if t.limits.contains_key((other, day)) {
            assert(base.contains_key((other, day)));
        }
    }
}

proof fn lemma_limits_put(
    t: Tables,
    profile: Uuid,
    new: Seq<NewLimit>,
    base: Map<(Uuid, int), int>,
    keys: Seq<(Uuid, int)>,
    rows: Seq<int>,
    n: int,
)
    requires
        0 <= n <= new.len(),
        t.profiles.contains_key(profile),
        forall|i: int|
            0 <= i < new.len() ==> (#[trigger] new[i]).day_of_week <= 6 && new[i].minutes >= 0,
        base == tables::kept(t.limits, |k: (Uuid, int), m: int| k.0 != profile),
        keys == Seq::new(new.len(), |i: int| (profile, new[i].day_of_week as int)),
        rows == Seq::new(new.len(), |i: int| new[i].minutes as int),
        keys.no_duplicates(),
        forall|i: int| 0 <= i < keys.len() ==> !base.contains_key(#[trigger] keys[i]),
    ensures
        tables::effects(profiles::limit_writes(profile, new).take(1 + n), t) == (
            Tables { limits: put_all(base, keys, rows, n), ..t },
            true,
        ),
    decreases n,
{
    let ws = profiles::limit_writes(profile, new);
    if n == 0 {
        assert(ws.take(1) =~= seq![ws[0]]);
        laws::lemma_run_one(ws[0], t);
    } else {
        lemma_limits_put(t, profile, new, base, keys, rows, n - 1);
        lemma_run_prefix(ws, n, t);
        lemma_put_all(base, keys, rows, n - 1);
        let before = Tables { limits: put_all(base, keys, rows, n - 1), ..t };
        assert(!before.limits.contains_key(keys[n - 1]));
        assert(new[n - 1].day_of_week <= 6);
    }
}

/// A profile lists a domain, blocked or not.
pub open spec fn lists_as(t: Tables, profile_id: Uuid, domain: Seq<char>, enabled: bool) -> bool {
    exists|b: Uuid| #[trigger]
        t.blocked.contains_key(b) && t.blocked[b].profile_id == profile_id && t.blocked[b].domain
            == domain && t.blocked[b].enabled == enabled
}

/// The domains that a profile blocks.
pub open spec fn blocks(t: Tables, profile_id: Uuid, domain: Seq<char>) -> bool {
    lists_as(t, profile_id, domain, true)
}

/// A block list that is stored is read back: where no domain is given twice and
/// no identifier is in use or given twice, afterwards the profile lists these
/// domains and no others, blocks those that are enabled and no others, and no other profile's
/// list has changed.
pub proof fn a_block_list_is_read_back(
    ws: Seq<Write>,
    t: Tables,
    profile: Uuid,
    row_ids: Seq<Uuid>,
    new: Seq<NewDomain>,
    now: i64,
)
    requires
        t.profiles.contains_key(profile),
        domains::replaces_list(ws, profile, row_ids, new, now),
        forall|i: int, j: int|
            0 <= i < j < new.len() ==> (#[trigger] new[i]).domain@ != (#[trigger] new[j]).domain@,
        forall|i: int| 0 <= i < row_ids.len() ==> !t.blocked.contains_key(#[trigger] row_ids[i]),
        row_ids.no_duplicates(),
    ensures
        tables::effects(ws, t).1,
        ({
            let after = tables::effects(ws, t).0;
            &&& forall|d: Seq<char>, e: bool| #[trigger]
                lists_as(after, profile, d, e) <==> exists|i: int|
                    0 <= i < new.len() && (#[trigger] new[i]).domain@ == d && new[i].enabled == e
            &&& forall|d: Seq<char>| #[trigger]
                blocks(after, profile, d) <==> exists|i: int|
                    0 <= i < new.len() && (#[trigger] new[i]).domain@ == d && new[i].enabled
            &&& forall|b: Uuid| #[trigger]
                t.blocked.contains_key(b) && t.blocked[b].profile_id != profile
                    ==> after.blocked.contains_key(b) && after.blocked[b] == t.blocked[b]
            &&& after == (Tables { blocked: after.blocked, ..t })
        }),
{
    let keys = row_ids;
    let rows = domain_rows(profile, new, now);
    let base = tables::kept(t.blocked, |b: Uuid, row: BlockedRow| row.profile_id != profile);
    lemma_domains_put(ws, t, profile, new, now, base, keys, new.len() as int);
    lemma_put_all(base, keys, rows, new.len() as int);
    assert(ws.take(1 + new.len() as int) =~= ws);
    let after = tables::effects(ws, t).0;
    assert forall|d: Seq<char>, e: bool| #[trigger] lists_as(after, profile, d, e) <==> exists|
        i: int,
    |
        0 <= i < new.len() && (#[trigger] new[i]).domain@ == d && new[i].enabled == e by {
        if lists_as(after, profile, d, e) {
            let b = choose|b: Uuid| #[trigger]
                after.blocked.contains_key(b) && after.blocked[b].profile_id == profile
                    && after.blocked[b].domain == d && after.blocked[b].enabled == e;
            if base.contains_key(b) {
                assert(after.blocked[b] == base[b]);
            }
            let i = choose|i: int| 0 <= i < new.len() && #[trigger] keys[i] == b;
            assert(after.blocked[keys[i]] == rows[i]);
            assert(new[i].domain@ == d);
        }
        if exists|i: int|
            0 <= i < new.len() && (#[trigger] new[i]).domain@ == d && new[i].enabled == e {
            let i = choose|i: int|
                0 <= i < new.len() && (#[trigger] new[i]).domain@ == d && new[i].enabled == e;
            assert(after.blocked[keys[i]] == rows[i]);
            assert(after.blocked.contains_key(keys[i]));
        }
    }
    assert forall|b: Uuid| #[trigger]
        t.blocked.contains_key(b) && t.blocked[b].profile_id
            != profile implies after.blocked.contains_key(b) && after.blocked[b]
        == t.blocked[b] by {
        assert(base.contains_key(b));
    }
}

spec fn domain_rows(profile: Uuid, new: Seq<NewDomain>, now: i64) -> Seq<BlockedRow> {
    Seq::new(
        new.len(),
        |i: int|
            BlockedRow {
                profile_id: profile,
                domain: new[i].domain@,
                enabled: new[i].enabled,
                created_at: now as int,
            },
    )
}

proof fn lemma_domains_put(
    ws: Seq<Write>,
    t: Tables,
    profile: Uuid,
    new: Seq<NewDomain>,
    now: i64,
    base: Map<Uuid, BlockedRow>,
    keys: Seq<Uuid>,
    n: int,
)
    requires
        0 <= n <= new.len(),
        t.profiles.contains_key(profile),
        domains::replaces_list(ws, profile, keys, new, now),
        forall|i: int, j: int|
            0 <= i < j < new.len() ==> (#[trigger] new[i]).domain@ != (#[trigger] new[j]).domain@,
        base == tables::kept(t.blocked, |b: Uuid, row: BlockedRow| row.profile_id != profile),
        keys.no_duplicates(),
        forall|i: int| 0 <= i < keys.len() ==> !base.contains_key(#[trigger] keys[i]),
    ensures
        tables::effects(ws.take(1 + n), t) == (
            Tables { blocked: put_all(base, keys, domain_rows(profile, new, now), n), ..t },
            true,
        ),
    decreases n,
{
    let rows = domain_rows(profile, new, now);
    if n == 0 {
        assert(ws.take(1) =~= seq![ws[0]]);
        laws::lemma_run_one(ws[0], t);
    } else {
        lemma_domains_put(ws, t, profile, new, now, base, keys, n - 1);
        lemma_run_prefix(ws, n, t);
        lemma_put_all(base, keys, rows, n - 1);
        assert(domains::lists(ws[1 + (n - 1)], keys[n - 1], profile, new[n - 1], now));
        let before = Tables { blocked: put_all(base, keys, rows, n - 1), ..t };
        assert(!before.blocked.contains_key(keys[n - 1]));
        assert(!before.lists_domain(profile, new[n - 1].domain@)) by {
            if before.lists_domain(profile, new[n - 1].domain@) {
                let b = choose|b: Uuid| #[trigger]
                    before.blocked.contains_key(b) && before.blocked[b].profile_id == profile
                        && before.blocked[b].domain == new[n - 1].domain@;
                if base.contains_key(b) {
                    assert(before.blocked[b] == base[b]);
                }
                let i = choose|i: int| 0 <= i < n - 1 && #[trigger] keys[i] == b;
                assert(before.blocked[keys[i]] == rows[i]);
                assert(new[i].domain@ != new[n - 1].domain@);
            }
        }
    }
}

/// A domain that a profile lists cannot be listed again.
pub proof fn a_repeated_domain_is_refused(w: Write, t: Tables)
    requires
        w matches Write::InsertBlockedDomain { profile_id, domain, .. } && t.lists_domain(
            profile_id,
            domain@,
        ),
    ensures
        tables::effect(w, t) is None,
{
}

/// A domain that is added is listed as it was added.
pub proof fn an_added_domain_is_listed(w: Write, t: Tables)
    requires
        w matches Write::InsertBlockedDomain { id, profile_id, domain, .. }
            && !t.blocked.contains_key(id) && t.profiles.contains_key(profile_id)
            && !t.lists_domain(profile_id, domain@),
    ensures
        tables::effect(w, t) matches Some(after) && (w matches Write::InsertBlockedDomain {
            profile_id,
            domain,
            enabled,
            ..
        } && lists_as(after, profile_id, domain@, enabled)),
{
    let after = tables::effect(w, t)->0;
    assert(after.blocked.contains_key(w->InsertBlockedDomain_id));
}

/// Whether a listed domain is blocked can be set either way; a domain that is
/// not listed is not touched, and neither is anything else.
pub proof fn a_patched_domain_has_its_new_state(t: Tables, id: Uuid, enabled: bool)
    ensures
        tables::effect(Write::SetBlockedDomainEnabled { id, enabled }, t) matches Some(after) && {
            &&& t.blocked.contains_key(id) ==> after.blocked == t.blocked.insert(
                id,
                BlockedRow { enabled, ..t.blocked[id] },
            )
            &&& !t.blocked.contains_key(id) ==> after == t
            &&& after == (Tables { blocked: after.blocked, ..t })
        },
{
}

/// A domain that is taken off its list is gone, and no other is.
pub proof fn a_deleted_domain_is_gone(t: Tables, id: Uuid)
    ensures
        tables::effect(Write::DeleteBlockedDomain { id }, t) matches Some(after) && {
            &&& !after.blocked.contains_key(id)
            &&& forall|b: Uuid| b != id ==> (#[trigger] after.blocked.contains_key(b)
                == t.blocked.contains_key(b)) && after.blocked[b] == t.blocked[b]
            &&& t.blocked.contains_key(id) && t.blocked.dom().finite() ==> after.blocked.dom().len()
                == t.blocked.dom().len() - 1
        },
{
    assert(t.blocked.remove(id).dom() =~= t.blocked.dom().remove(id));
}

/// No two of the domains that a new profile lists are the same.
proof fn lemma_default_domains_differ()
    ensures
        forall|i: int, j: int|
            0 <= i < j < profiles::default_domains().len() ==> (
            #[trigger] profiles::default_domains()[i]) != (
            #[trigger] profiles::default_domains()[j]),
{
    reveal_strlit("youtube.com");
    reveal_strlit("tiktok.com");
    reveal_strlit("instagram.com");
    reveal_strlit("facebook.com");
    reveal_strlit("twitter.com");
    reveal_strlit("x.com");
    reveal_strlit("twitch.tv");
    reveal_strlit("discord.com");
    reveal_strlit("reddit.com");
    reveal_strlit("snapchat.com");
    reveal_strlit("roblox.com");
    let d = profiles::default_domains();
    assert(d[0][0] == 'y' && d[1][0] == 't' && d[2][0] == 'i' && d[3][0] == 'f' && d[4][0] == 't'
        && d[5][0] == 'x' && d[6][0] == 't' && d[7][0] == 'd' && d[8][0] == 'r' && d[9][0] == 's'
        && d[10][0] == 'r');
    assert(d[1].len() == 10 && d[4].len() == 11 && d[6].len() == 9);
    assert(d[8][1] == 'e' && d[10][1] == 'o');
}

spec fn seed_rows(profile: Uuid, now: i64) -> Seq<BlockedRow> {
    Seq::new(
        profiles::default_domains().len(),
        |i: int|
            BlockedRow {
                profile_id: profile,
                domain: profiles::default_domains()[i],
                enabled: false,
                created_at: now as int,
            },
    )
}

/// A new profile is complete: where no identifier is in use or given twice,
/// nothing of it is refused, and afterwards it has its name, English as its language, the settings that
/// nobody has changed, which preserve no tasks, the first version of a
/// configuration, and it lists every default domain and no other, with none of
/// them blocked.
pub proof fn a_new_profile_is_complete(
    ws: Seq<Write>,
    t: Tables,
    profile: Uuid,
    seeds: Seq<Uuid>,
    name: Seq<char>,
    now: i64,
)
    requires
        t.wf(),
        profiles::makes_profile(ws, profile, seeds, name, now),
        !t.profiles.contains_key(profile),
        forall|i: int| 0 <= i < seeds.len() ==> !t.blocked.contains_key(#[trigger] seeds[i]),
        seeds.no_duplicates(),
    ensures
        tables::effects(ws, t).1,
        ({
            let after = tables::effects(ws, t).0;
            &&& after.profiles == t.profiles.insert(
                profile,
                tables::ProfileRow {
                    display_name: name,
                    language: "en"@,
                    created_at: now as int,
                    updated_at: now as int,
                },
            )
            &&& after.enforcement == t.enforcement.insert(profile, tables::default_enforcement())
            &&& laws::version_of(after, profile) == 1
            &&& forall|d: Seq<char>, e: bool| #[trigger]
                lists_as(after, profile, d, e) <==> !e && profiles::default_domains().contains(d)
            &&& forall|b: Uuid| #[trigger]
                t.blocked.contains_key(b) ==> after.blocked.contains_key(b) && after.blocked[b]
                    == t.blocked[b]
        }),
{
    let keys = seeds;
    let rows = seed_rows(profile, now);
    let n = profiles::default_domains().len() as int;
    lemma_domains_seeded(ws, t, profile, name, now, keys, n);
    lemma_put_all(t.blocked, keys, rows, n);
    assert(ws.take(3 + n) =~= ws);
    let after = tables::effects(ws, t).0;
    assert forall|d: Seq<char>, e: bool| #[trigger] lists_as(after, profile, d, e) <==> !e
        && profiles::default_domains().contains(d) by {
        if lists_as(after, profile, d, e) {
            let b = choose|b: Uuid| #[trigger]
                after.blocked.contains_key(b) && after.blocked[b].profile_id == profile
                    && after.blocked[b].domain == d && after.blocked[b].enabled == e;
            if t.blocked.contains_key(b) {
                assert(after.blocked[b] == t.blocked[b]);
            }
            let i = choose|i: int| 0 <= i < n && #[trigger] keys[i] == b;
            assert(after.blocked[keys[i]] == rows[i]);
            assert(profiles::default_domains()[i] == d);
        }
        if !e && profiles::default_domains().contains(d) {
            let i = profiles::default_domains().index_of(d);
            assert(after.blocked[keys[i]] == rows[i]);
            assert(after.blocked.contains_key(keys[i]));
        }
    }
}

spec fn profile_begun(t: Tables, profile: Uuid, name: Seq<char>, now: i64) -> Tables {
    Tables {
        profiles: t.profiles.insert(
            profile,
            tables::ProfileRow {
                display_name: name,
                language: "en"@,
                created_at: now as int,
                updated_at: now as int,
            },
        ),
        enforcement: t.enforcement.insert(profile, tables::default_enforcement()),
        versions: t.versions.insert(
            profile,
            tables::VersionRow { version: 1, updated_at: now as int },
        ),
        ..t
    }
}

proof fn lemma_domains_seeded(
    ws: Seq<Write>,
    t: Tables,
    profile: Uuid,
    name: Seq<char>,
    now: i64,
    keys: Seq<Uuid>,
    n: int,
)
    requires
        0 <= n <= profiles::default_domains().len(),
        t.wf(),
        profiles::makes_profile(ws, profile, keys, name, now),
        !t.profiles.contains_key(profile),
        keys.no_duplicates(),
        forall|i: int| 0 <= i < keys.len() ==> !t.blocked.contains_key(#[trigger] keys[i]),
    ensures
        tables::effects(ws.take(3 + n), t) == (
            Tables {
                blocked: put_all(t.blocked, keys, seed_rows(profile, now), n),
                ..profile_begun(t, profile, name, now)
            },
            true,
        ),
    decreases n,
{
    let rows = seed_rows(profile, now);
    if n == 0 {
        assert(ws.take(1) =~= seq![ws[0]]);
        laws::lemma_run_one(ws[0], t);
        lemma_run_prefix(ws, 1, t);
        lemma_run_prefix(ws, 2, t);
    } else {
        lemma_domains_seeded(ws, t, profile, name, now, keys, n - 1);
        lemma_run_prefix(ws, n + 2, t);
        lemma_put_all(t.blocked, keys, rows, n - 1);
        lemma_default_domains_differ();
        let d = profiles::default_domains();
        assert(profiles::seeds_domain(ws[3 + (n - 1)], keys[n - 1], profile, d[n - 1], now));
        let before = Tables {
            blocked: put_all(t.blocked, keys, rows, n - 1),
            ..profile_begun(t, profile, name, now)
        };
        assert(!before.blocked.contains_key(keys[n - 1]));
        assert(!before.lists_domain(profile, d[n - 1])) by {
            if before.lists_domain(profile, d[n - 1]) {
                let b = choose|b: Uuid| #[trigger]
                    before.blocked.contains_key(b) && before.blocked[b].profile_id == profile
                        && before.blocked[b].domain == d[n - 1];
                if t.blocked.contains_key(b) {
                    assert(before.blocked[b] == t.blocked[b]);
                }
                let i = choose|i: int| 0 <= i < n - 1 && #[trigger] keys[i] == b;
                assert(before.blocked[keys[i]] == rows[i]);
                assert(d[i] != d[n - 1]);
            }
        }
    }
}

} // verus!
