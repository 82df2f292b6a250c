//! The windows of the week in which a user may be active, and whether a new set
//! of them differs from the stored one.

use crate::clock::{format_time, TimeOfDay};
use crate::text::same;
use vstd::multiset::Multiset;
use vstd::prelude::*;

verus! {

/// A window as it is stored: the day of the week, with Monday as 0, and its
/// start and end as text.
pub struct Window {
    pub day_of_week: u8,
    pub start_time: String,
    pub end_time: String,
}

/// A window as the server sends it.
pub struct ScheduleWindow {
    pub day_of_week: u8,
    pub start_time: TimeOfDay,
    pub end_time: TimeOfDay,
}

/// What identifies a window: its day, its start and its end.
pub type WindowKey = (u8, Seq<char>, Seq<char>);

pub open spec fn stored_key(w: Window) -> WindowKey {
    (w.day_of_week, w.start_time@, w.end_time@)
}

pub open spec fn sent_key(w: ScheduleWindow) -> WindowKey {
    (w.day_of_week, crate::clock::hm_text(w.start_time), crate::clock::hm_text(w.end_time))
}

/// The stored windows, each as often as it is stored.
pub open spec fn stored_windows(s: Seq<Window>) -> Multiset<WindowKey> {
    s.map_values(|w: Window| stored_key(w)).to_multiset()
}

/// The windows sent, each as often as it is sent.
pub open spec fn sent_windows(s: Seq<ScheduleWindow>) -> Multiset<WindowKey> {
    s.map_values(|w: ScheduleWindow| sent_key(w)).to_multiset()
}

/// Every time of the windows is one of a clock.
pub open spec fn real_windows(s: Seq<ScheduleWindow>) -> bool {
    forall|i: int|
        0 <= i < s.len() ==> crate::clock::real_time((#[trigger] s[i]).start_time)
            && crate::clock::real_time(s[i].end_time)
}

/// Whether every time of the windows is one of a clock.
pub fn windows_in_range(v: &Vec<ScheduleWindow>) -> (r: bool)
    ensures
        r == real_windows(v@),
{
    let mut i: usize = 0;
    while i < v.len()
        invariant
            i <= v@.len(),
            forall|j: int|
                0 <= j < i ==> crate::clock::real_time((#[trigger] v@[j]).start_time)
                    && crate::clock::real_time(v@[j].end_time),
        decreases v@.len() - i,
    {
        let w = &v[i];
        if !(w.start_time.hour < 24 && w.start_time.minute < 60 && w.end_time.hour < 24
            && w.end_time.minute < 60) {
            assert(v@[i as int] == *w);
            return false;
        }
        i += 1;
    }
    true
}

spec fn keys(s: Seq<Window>) -> Seq<WindowKey> {
    s.map_values(|w: Window| stored_key(w))
}

fn write_down(sent: &Vec<ScheduleWindow>) -> (r: Vec<Window>)
    requires
        real_windows(sent@),
    ensures
        stored_windows(r@) == sent_windows(sent@),
        r@.len() == sent@.len(),
{
    let mut r: Vec<Window> = Vec::new();
    let mut i: usize = 0;
    while i < sent.len()
        invariant
            i <= sent@.len(),
            real_windows(sent@),
            r@.len() == i,
            forall|j: int| 0 <= j < i ==> stored_key(#[trigger] r@[j]) == sent_key(sent@[j]),
        decreases sent@.len() - i,
    {
        let w = &sent[i];
        assert(crate::clock::real_time(sent@[i as int].start_time));
        r.push(
            Window {
                day_of_week: w.day_of_week,
                start_time: format_time(w.start_time),
                end_time: format_time(w.end_time),
            },
        );
        i += 1;
    }
    assert(r@.map_values(|w: Window| stored_key(w)) =~= sent@.map_values(
        |w: ScheduleWindow| sent_key(w),
    ));
    r
}

fn find_window(v: &Vec<Window>, w: &Window) -> (r: Option<usize>)
    ensures
        match r {
            Some(i) => i < v@.len() && stored_key(v@[i as int]) == stored_key(*w),
            None => forall|i: int|
                0 <= i < v@.len() ==> stored_key(#[trigger] v@[i]) != stored_key(*w),
        },
{
    let mut i: usize = 0;
    while i < v.len()
        invariant
            i <= v@.len(),
            forall|j: int| 0 <= j < i ==> stored_key(#[trigger] v@[j]) != stored_key(*w),
        decreases v@.len() - i,
    {
        if v[i].day_of_week == w.day_of_week && same(v[i].start_time.as_str(), w.start_time.as_str())
            && same(v[i].end_time.as_str(), w.end_time.as_str()) {
            return Some(i);
        }
        i += 1;
    }
    None
}

/// Whether the windows sent differ from the stored ones. Their order does not
/// matter; how often a window is listed does.
pub fn schedule_changed(stored: &Vec<Window>, sent: &Vec<ScheduleWindow>) -> (r: bool)
    requires
        real_windows(sent@),
    ensures
        r == (stored_windows(stored@) != sent_windows(sent@)),
{
    broadcast use vstd::seq_lib::group_to_multiset_ensures, vstd::multiset::group_multiset_axioms;

    let ghost all = sent_windows(sent@);
    let mut left = write_down(sent);
    if stored.len() != sent.len() {
        proof {
            let a = stored@.map_values(|w: Window| stored_key(w));
            let b = sent@.map_values(|w: ScheduleWindow| sent_key(w));
            assert(a.to_multiset().len() == a.len());
            assert(b.to_multiset().len() == b.len());
        }
        return true;
    }
    let mut i: usize = 0;
    assert(keys(stored@.take(0)) =~= Seq::empty());
    assert(keys(stored@.take(0)).to_multiset() =~= Multiset::empty());
    assert(all =~= keys(left@).to_multiset().add(keys(stored@.take(0)).to_multiset()));
    while i < stored.len()
        invariant
            i <= stored@.len(),
            left@.len() + i == stored@.len(),
            all == sent_windows(sent@),
            all == keys(left@).to_multiset().add(keys(stored@.take(i as int)).to_multiset()),
        decreases stored@.len() - i,
    {
        let ghost key = stored_key(stored@[i as int]);
        let ghost before = keys(left@);
        proof {
            assert(keys(stored@.take(i + 1)) =~= keys(stored@.take(i as int)).push(key));
        }
        match find_window(&left, &stored[i]) {
            Some(j) => {
                let _ = left.remove(j);
                proof {
                    assert(keys(left@) =~= before.remove(j as int));
                    assert(before[j as int] == key);
                    assert(before.contains(key));
                    vstd::seq_lib::to_multiset_contains(before, key);
                    vstd::seq_lib::to_multiset_remove(before, j as int);
                    vstd::seq_lib::to_multiset_build(keys(stored@.take(i as int)), key);
                    assert(all =~= keys(left@).to_multiset().add(
                        keys(stored@.take(i + 1)).to_multiset(),
                    ));
                }
            },
            None => {
                proof {
                    if before.contains(key) {
                        let j = before.index_of(key);
                        assert(stored_key(left@[j]) == key);
                    }
                    vstd::seq_lib::to_multiset_contains(before, key);
                    vstd::seq_lib::to_multiset_build(keys(stored@.take(i as int)), key);
                    lemma_count_grows(keys(stored@), i + 1, key);
                    assert(keys(stored@).take(i + 1) =~= keys(stored@.take(i + 1)));
                    assert(keys(stored@).to_multiset().count(key) > all.count(key));
                }
                return true;
            },
        }
        i += 1;
    }
    proof {
        assert(stored@.take(i as int) =~= stored@);
        assert(keys(left@) =~= Seq::empty());
        assert(keys(left@).to_multiset() =~= Multiset::empty());
        assert(all =~= keys(stored@).to_multiset());
    }
    false
}

proof fn lemma_count_grows(s: Seq<WindowKey>, i: int, k: WindowKey)
    requires
        0 <= i <= s.len(),
    ensures
        s.take(i).to_multiset().count(k) <= s.to_multiset().count(k),
    decreases s.len() - i,
{
    broadcast use vstd::seq_lib::group_to_multiset_ensures, vstd::multiset::group_multiset_axioms;

    if i < s.len() {
        assert(s.take(i + 1) =~= s.take(i).push(s[i]));
        lemma_count_grows(s, i + 1, k);
    } else {
        assert(s.take(i) =~= s);
    }
}

} // verus!
