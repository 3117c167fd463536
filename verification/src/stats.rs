//! Audience statistics: the snapshots taken each time a room is looked up,
//! kept in time order with a bounded history per room.

use vstd::prelude::*;
use std::collections::HashMap;
use crate::models::{live_status_named, live_status_of, LiveStatus, RoomInfo};
use crate::text::{decimal_text, u64_to_decimal};

verus! {

/// How many snapshots of one room are kept; older ones are dropped first.
pub const RETAINED_PER_ROOM: u64 = 2000;

/// One sample of a room's audience.
#[derive(Debug, Clone, PartialEq, Eq)]
pub struct Snapshot {
    pub room_id: u64,
    pub room_name: String,
    pub captured_at: u64,
    pub viewer_count: u64,
    pub follower_count: Option<u64>,
    pub live_status: LiveStatus,
}

/// Which view of the statistics page is shown.
#[derive(Debug, Clone, Copy, PartialEq, Eq, Structural)]
pub enum StatsTab {
    Trend,
    History,
}

/// The statistics page: all snapshots, the room whose history is shown,
/// and the room whose history the user asked to clear.
pub struct StatsState {
    pub snapshots: Vec<Snapshot>,
    pub selected_room: Option<u64>,
    pub tab: StatsTab,
    pub confirm_clear: Option<u64>,
}

pub fn copy_snapshot(s: &Snapshot) -> (r: Snapshot)
    ensures
        r == *s,
{
    Snapshot {
        room_id: s.room_id,
        room_name: s.room_name.clone(),
        captured_at: s.captured_at,
        viewer_count: s.viewer_count,
        follower_count: s.follower_count,
        live_status: s.live_status,
    }
}

// ------------------------------------------------------------ time order

pub open spec fn at_time(t: u64) -> spec_fn(Snapshot) -> bool {
    |s: Snapshot| s.captured_at == t
}

pub open spec fn sorted_by_time(s: Seq<Snapshot>) -> bool {
    forall|i: int, j: int| 0 <= i <= j < s.len() ==> s[i].captured_at <= s[j].captured_at
}

/// `sorted` is `input` sorted by capture time, stably: in time order, and
/// the snapshots of each instant in the order they had in `input`.
pub open spec fn stably_sorted(sorted: Seq<Snapshot>, input: Seq<Snapshot>) -> bool {
    &&& sorted_by_time(sorted)
    &&& forall|t: u64| #[trigger] sorted.filter(at_time(t)) == input.filter(at_time(t))
}

proof fn lemma_filter_single(x: Snapshot, p: spec_fn(Snapshot) -> bool)
    ensures
        seq![x].filter(p) == (if p(x) { seq![x] } else { Seq::<Snapshot>::empty() }),
{
    reveal_with_fuel(Seq::filter, 2);
    assert(seq![x].drop_last() =~= Seq::<Snapshot>::empty());
    if p(x) {
        assert(Seq::<Snapshot>::empty().push(x) =~= seq![x]);
    }
}

proof fn lemma_filter_none(s: Seq<Snapshot>, p: spec_fn(Snapshot) -> bool)
    requires
        forall|i: int| 0 <= i < s.len() ==> !p(#[trigger] s[i]),
    ensures
        s.filter(p) == Seq::<Snapshot>::empty(),
{
    broadcast use vstd::seq_lib::group_filter_ensures;
    if s.filter(p).len() > 0 {
        let x = s.filter(p)[0];
        assert(p(x));
        assert(s.filter(p).contains(x));
        s.lemma_filter_contains_rev(p, x);
        let k = choose|k: int| 0 <= k < s.len() && s[k] == x;
        assert(!p(s[k]));
    }
    assert(s.filter(p) =~= Seq::<Snapshot>::empty());
}

/// Inserting `x` after every snapshot taken no later than it, and before
/// every later one, keeps the order stable.
proof fn lemma_insert_stable(out: Seq<Snapshot>, input: Seq<Snapshot>, x: Snapshot, p: int)
    requires
        stably_sorted(out, input),
        0 <= p <= out.len(),
        forall|k: int| 0 <= k < p ==> (#[trigger] out[k]).captured_at <= x.captured_at,
        forall|k: int| p <= k < out.len() ==> (#[trigger] out[k]).captured_at > x.captured_at,
    ensures
        stably_sorted(out.insert(p, x), input.push(x)),
{
    let a = out.subrange(0, p);
    let b = out.subrange(p, out.len() as int);
    let new = out.insert(p, x);
    assert(new =~= a + seq![x] + b);
    assert(out =~= a + b);
    assert(input.push(x) =~= input + seq![x]);
    assert forall|t: u64| #[trigger] new.filter(at_time(t)) == input.push(x).filter(at_time(t)) by {
        let f = at_time(t);
        Seq::filter_distributes_over_add(a + seq![x], b, f);
        Seq::filter_distributes_over_add(a, seq![x], f);
        Seq::filter_distributes_over_add(a, b, f);
        Seq::filter_distributes_over_add(input, seq![x], f);
        lemma_filter_single(x, f);
        assert(out.filter(f) == input.filter(f));
        if t == x.captured_at {
            lemma_filter_none(b, f);
            assert(b.filter(f) + Seq::<Snapshot>::empty() =~= b.filter(f));
            assert(a.filter(f) + Seq::<Snapshot>::empty() =~= a.filter(f));
        } else {
            assert(a.filter(f) + Seq::<Snapshot>::empty() =~= a.filter(f));
        }
    }
}

/// The snapshots sorted by capture time; those taken at the same instant
/// keep their order.
pub fn sort_by_time(v: &Vec<Snapshot>) -> (r: Vec<Snapshot>)
    ensures
        stably_sorted(r@, v@),
{
    let mut out: Vec<Snapshot> = Vec::new();
    let mut i: usize = 0;
    proof {
        assert(v@.subrange(0, 0) =~= Seq::<Snapshot>::empty());
        assert(out@ =~= Seq::<Snapshot>::empty());
    }
    while i < v.len()
        invariant
            i <= v@.len(),
            stably_sorted(out@, v@.subrange(0, i as int)),
        decreases v@.len() - i,
    {
        let x = copy_snapshot(&v[i]);
        let mut p: usize = out.len();
        while p > 0 && out[p - 1].captured_at > x.captured_at
            invariant
                p <= out@.len(),
                stably_sorted(out@, v@.subrange(0, i as int)),
                forall|k: int| p <= k < out@.len() ==> (#[trigger] out@[k]).captured_at
                    > x.captured_at,
            decreases p,
        {
            p = p - 1;
        }
        proof {
            assert forall|k: int| 0 <= k < p implies (#[trigger] out@[k]).captured_at
                <= x.captured_at by {
                if p > 0 {
                    assert(out@[k].captured_at <= out@[p - 1].captured_at);
                }
            }
            lemma_insert_stable(out@, v@.subrange(0, i as int), x, p as int);
            assert(v@.subrange(0, i as int).push(x) =~= v@.subrange(0, i + 1));
            let n = out@.insert(p as int, x);
            assert forall|a: int, b: int| 0 <= a <= b < n.len() implies n[a].captured_at
                <= n[b].captured_at by {
                if a < p && b > p {
                    assert(n[b] == out@[b - 1]);
                }
                if a > p {
                    assert(n[a] == out@[a - 1] && n[b] == out@[b - 1]);
                }
                if a < p && b < p {
                    assert(n[a] == out@[a] && n[b] == out@[b]);
                }
                if a < p && b == p {
                    assert(n[a] == out@[a]);
                }
                if a == p && b > p {
                    assert(n[b] == out@[b - 1]);
                }
            }
        }
        out.insert(p, x);
        i = i + 1;
    }
    assert(v@.subrange(0, v@.len() as int) =~= v@);
    out
}

// -------------------------------------------------------------- retention

/// How many snapshots of room `room` `s` holds.
pub open spec fn room_count(s: Seq<Snapshot>, room: u64) -> nat
    decreases s.len(),
{
    if s.len() == 0 {
        0
    } else {
        (if s[0].room_id == room { 1nat } else { 0nat }) + room_count(s.drop_first(), room)
    }
}

/// The snapshots kept of `s`: each, in order, unless its room has at least
/// `RETAINED_PER_ROOM` later ones.
pub open spec fn retained(s: Seq<Snapshot>) -> Seq<Snapshot>
    decreases s.len(),
{
    if s.len() == 0 {
        s
    } else if room_count(s.drop_first(), s[0].room_id) < RETAINED_PER_ROOM {
        seq![s[0]] + retained(s.drop_first())
    } else {
        retained(s.drop_first())
    }
}

proof fn lemma_room_count_bound(s: Seq<Snapshot>, room: u64)
    ensures
        room_count(s, room) <= s.len(),
    decreases s.len(),
{
    if s.len() > 0 {
        lemma_room_count_bound(s.drop_first(), room);
    }
}

proof fn lemma_room_count_prepend(x: Snapshot, t: Seq<Snapshot>, room: u64)
    ensures
        room_count(seq![x] + t, room) == (if x.room_id == room { 1nat } else { 0nat })
            + room_count(t, room),
{
    assert((seq![x] + t).drop_first() =~= t);
}

/// Law: retention is per room. Of every room, the history keeps as many
/// snapshots as there were, up to `RETAINED_PER_ROOM`, whatever the other
/// rooms hold.
pub proof fn lemma_retention_per_room(s: Seq<Snapshot>, room: u64)
    ensures
        room_count(retained(s), room) == (if room_count(s, room) < RETAINED_PER_ROOM {
            room_count(s, room)
        } else {
            RETAINED_PER_ROOM as nat
        }),
    decreases s.len(),
{
    if s.len() > 0 {
        let rest = s.drop_first();
        lemma_retention_per_room(rest, room);
        if room_count(rest, s[0].room_id) < RETAINED_PER_ROOM {
            lemma_room_count_prepend(s[0], retained(rest), room);
        }
    }
}

/// `idx` picks, in increasing positions of `s`, the elements of `t`.
pub open spec fn picks(t: Seq<Snapshot>, s: Seq<Snapshot>, idx: Seq<int>) -> bool {
    &&& idx.len() == t.len()
    &&& forall|a: int, b: int| 0 <= a < b < idx.len() ==> idx[a] < idx[b]
    &&& forall|a: int| 0 <= a < idx.len() ==> 0 <= #[trigger] idx[a] < s.len() && t[a] == s[idx[a]]
}

/// Law: the newest snapshot is always kept: retention of a history with `x`
/// added last ends with `x`.
pub proof fn lemma_newest_snapshot_retained(s: Seq<Snapshot>, x: Snapshot)
    ensures
        retained(s.push(x)).len() > 0,
        retained(s.push(x)).last() == x,
    decreases s.len(),
{
    let t = s.push(x);
    if s.len() == 0 {
        assert(t.drop_first() =~= Seq::<Snapshot>::empty());
        assert(t[0] == x);
        assert(room_count(t.drop_first(), x.room_id) == 0);
        assert(retained(t.drop_first()) =~= Seq::<Snapshot>::empty());
        assert(retained(t) =~= seq![x] + Seq::<Snapshot>::empty());
    } else {
        assert(t.drop_first() =~= s.drop_first().push(x));
        lemma_newest_snapshot_retained(s.drop_first(), x);
    }
}

/// Law: retention keeps the order of the snapshots it keeps; the history
/// it leaves is a subsequence of the one it was given.
pub proof fn lemma_retained_in_order(s: Seq<Snapshot>)
    ensures
        exists|idx: Seq<int>| #[trigger] picks(retained(s), s, idx),
    decreases s.len(),
{
    if s.len() > 0 {
        let rest = s.drop_first();
        lemma_retained_in_order(rest);
        let idx = choose|idx: Seq<int>| #[trigger] picks(retained(rest), rest, idx);
        let shifted = idx.map_values(|i: int| i + 1);
        if room_count(rest, s[0].room_id) < RETAINED_PER_ROOM {
            let full = seq![0int] + shifted;
            assert forall|a: int| 0 <= a < full.len() implies 0 <= #[trigger] full[a] < s.len()
                && retained(s)[a] == s[full[a]] by {
                if a > 0 {
                    assert(full[a] == idx[a - 1] + 1);
                    assert(retained(s)[a] == retained(rest)[a - 1]);
                }
            }
            assert forall|a: int, b: int| 0 <= a < b < full.len() implies full[a] < full[b] by {
                if a > 0 {
                    assert(full[a] == idx[a - 1] + 1 && full[b] == idx[b - 1] + 1);
                } else {
                    assert(full[b] == idx[b - 1] + 1);
                }
            }
            assert(picks(retained(s), s, full));
        } else {
            assert forall|a: int| 0 <= a < shifted.len() implies 0 <= #[trigger] shifted[a]
                < s.len() && retained(s)[a] == s[shifted[a]] by {
                assert(shifted[a] == idx[a] + 1);
            }
            assert forall|a: int, b: int| 0 <= a < b < shifted.len() implies shifted[a]
                < shifted[b] by {
                assert(shifted[a] == idx[a] + 1 && shifted[b] == idx[b] + 1);
            }
            assert(picks(retained(s), s, shifted));
        }
    } else {
        assert(picks(retained(s), s, Seq::<int>::empty()));
    }
}

/// Drops, room by room, all but the latest `RETAINED_PER_ROOM` snapshots,
/// keeping the order of the rest.
pub fn trim(snapshots: &mut Vec<Snapshot>)
    ensures
        final(snapshots)@ == retained(old(snapshots)@),
{
    let ghost all = snapshots@;
    let n = snapshots.len();
    let mut kept: Vec<Snapshot> = Vec::new();
    // for each room, the number of its snapshots in the processed suffix
    let mut counts: HashMap<u64, u64> = HashMap::new();
    let mut j: usize = n;
    assert(all.subrange(n as int, n as int) =~= Seq::<Snapshot>::empty());
    while j > 0
        invariant
            j <= n == all.len(),
            snapshots@ == all.subrange(0, j as int),
            kept@ == retained(all.subrange(j as int, n as int)),
            forall|r: u64|
                #[trigger] room_count(all.subrange(j as int, n as int), r) == (if counts@.contains_key(
                    r,
                ) {
                    counts@[r] as nat
                } else {
                    0nat
                }),
        decreases j,
    {
        let x = snapshots.pop().unwrap();
        let room = x.room_id;
        j = j - 1;
        let ghost suffix = all.subrange(j + 1, n as int);
        let ghost whole = all.subrange(j as int, n as int);
        assert(whole.drop_first() =~= suffix);
        assert(whole[0] == x);
        proof {
            lemma_room_count_bound(suffix, x.room_id);
        }
        let before: u64 = match counts.get(&room) {
            Some(c) => *c,
            None => 0,
        };
        assert(before == room_count(suffix, x.room_id));
        if before < RETAINED_PER_ROOM {
            kept.insert(0, x);
            assert(kept@ =~= seq![whole[0]] + retained(suffix));
        }
        assert(before < suffix.len() + 1);
        counts.insert(room, before + 1);
        proof {
            assert forall|r: u64| #[trigger] room_count(whole, r) == room_count(suffix, r) + (
            if whole[0].room_id == r {
                1nat
            } else {
                0nat
            }) by {}
        }
    }
    assert(all.subrange(0, n as int) =~= all);
    *snapshots = kept;
}

// ----------------------------------------------------------------- rooms

/// The last snapshot of room `room` in `s`.
pub open spec fn last_of_room(s: Seq<Snapshot>, room: u64) -> Option<Snapshot>
    decreases s.len(),
{
    if s.len() == 0 {
        None
    } else if s.last().room_id == room {
        Some(s.last())
    } else {
        last_of_room(s.drop_last(), room)
    }
}

/// The name shown for a room with no recorded name.
pub open spec fn default_room_label(room: u64) -> Seq<char> {
    "直播间 "@ + decimal_text(room as nat)
}

/// The name a snapshot gives its room: the streamer's name and the room
/// number, or only the number.
pub open spec fn room_label_text(s: Snapshot) -> Seq<char> {
    if s.room_name@.len() == 0 {
        default_room_label(s.room_id)
    } else {
        s.room_name@ + " · "@ + decimal_text(s.room_id as nat)
    }
}

fn default_label(room: u64) -> (r: String)
    ensures
        r@ == default_room_label(room),
{
    let mut out = String::from_str("直播间 ");
    out.append(u64_to_decimal(room).as_str());
    out
}

fn label_of(s: &Snapshot) -> (r: String)
    ensures
        r@ == room_label_text(*s),
{
    if s.room_name.as_str().unicode_len() == 0 {
        default_label(s.room_id)
    } else {
        let mut out = s.room_name.clone();
        out.append(" · ");
        out.append(u64_to_decimal(s.room_id).as_str());
        out
    }
}

/// `rooms` lists each room of `s` once, by increasing number, with the
/// name its last snapshot gives it.
pub open spec fn lists_rooms(rooms: Seq<(u64, String)>, s: Seq<Snapshot>) -> bool {
    &&& forall|a: int, b: int| 0 <= a < b < rooms.len() ==> rooms[a].0 < rooms[b].0
    &&& forall|a: int|
        0 <= a < rooms.len() ==> (#[trigger] last_of_room(s, rooms[a].0) matches Some(x) && rooms[a].1@
            == room_label_text(x))
    &&& forall|room: u64|
        #[trigger] last_of_room(s, room) is Some ==> exists|a: int|
            0 <= a < rooms.len() && rooms[a].0 == room
}

/// `s` is the snapshot a room lookup gives: the room, the streamer's name
/// (or nothing), the lookup time, the audience and the broadcast state.
pub open spec fn snapshot_of(s: Snapshot, info: RoomInfo) -> bool {
    &&& s.room_id == info.room_id
    &&& s.room_name@ == (match info.owner_name {
        Some(name) => name@,
        None => Seq::<char>::empty(),
    })
    &&& s.captured_at == info.fetched_at
    &&& s.viewer_count == info.viewer_count
    &&& s.follower_count == info.follower_count
    &&& s.live_status == live_status_named(info.live_status@)
}

/// A capture time in milliseconds, held at `i64::MAX`.
pub open spec fn point_time(seconds: u64) -> i64 {
    if seconds * 1000 > i64::MAX {
        i64::MAX
    } else {
        (seconds * 1000) as i64
    }
}

fn millis(seconds: u64) -> (r: i64)
    ensures
        r == point_time(seconds),
{
    if seconds > 9_223_372_036_854_775u64 {
        9_223_372_036_854_775_807i64
    } else {
        (seconds * 1000) as i64
    }
}

/// The snapshots of `s` whose room is `room`, in order.
pub open spec fn of_room(s: Seq<Snapshot>, room: Option<u64>) -> Seq<Snapshot> {
    s.filter(|x: Snapshot| Some(x.room_id) == room)
}

impl StatsState {
    /// The state for the stored snapshots: sorted by time, trimmed to the
    /// retained history, with the room of the latest snapshot selected.
    pub fn new(snapshots: Vec<Snapshot>) -> (r: Self)
        ensures
            exists|sorted: Seq<Snapshot>|
                stably_sorted(sorted, snapshots@) && r.snapshots@ == retained(sorted),
            r.selected_room == (if r.snapshots@.len() > 0 {
                Some(r.snapshots@.last().room_id)
            } else {
                None
            }),
            r.tab == StatsTab::Trend,
            r.confirm_clear is None,
    {
        let mut sorted = sort_by_time(&snapshots);
        let ghost by_time = sorted@;
        trim(&mut sorted);
        let selected_room = if sorted.len() > 0 {
            Some(sorted[sorted.len() - 1].room_id)
        } else {
            None
        };
        StatsState { snapshots: sorted, selected_room, tab: StatsTab::Trend, confirm_clear: None }
    }

    /// The snapshots of the selected room, in order.
    pub fn current(&self) -> (r: Vec<&Snapshot>)
        ensures
            r@.len() == of_room(self.snapshots@, self.selected_room).len(),
            forall|i: int|
                0 <= i < r@.len() ==> *r@[i] == #[trigger] of_room(
                    self.snapshots@,
                    self.selected_room,
                )[i],
    {
        let ghost s = self.snapshots@;
        let ghost pred = |x: Snapshot| Some(x.room_id) == self.selected_room;
        let mut out: Vec<&Snapshot> = Vec::new();
        let mut i: usize = 0;
        proof {
            reveal(Seq::filter);
            assert(s.take(0) =~= Seq::<Snapshot>::empty());
        }
        while i < self.snapshots.len()
            invariant
                i <= s.len(),
                s == self.snapshots@,
                pred == (|x: Snapshot| Some(x.room_id) == self.selected_room),
                out@.len() == s.take(i as int).filter(pred).len(),
                forall|k: int|
                    0 <= k < out@.len() ==> *out@[k] == #[trigger] s.take(i as int).filter(pred)[k],
            decreases s.len() - i,
        {
            proof {
                reveal(Seq::filter);
                assert(s.take(i + 1).drop_last() =~= s.take(i as int));
                assert(s.take(i + 1).last() == s[i as int]);
            }
            if Some(self.snapshots[i].room_id) == self.selected_room {
                out.push(&self.snapshots[i]);
            }
            i = i + 1;
        }
        assert(s.take(s.len() as int) =~= s);
        out
    }

    /// Each room with snapshots, once, by increasing number, with its name.
    pub fn rooms(&self) -> (r: Vec<(u64, String)>)
        ensures
            lists_rooms(r@, self.snapshots@),
    {
        let ghost s = self.snapshots@;
        let mut out: Vec<(u64, String)> = Vec::new();
        let mut k: usize = 0;
        assert(s.take(0) =~= Seq::<Snapshot>::empty());
        while k < self.snapshots.len()
            invariant
                k <= s.len(),
                s == self.snapshots@,
                lists_rooms(out@, s.take(k as int)),
            decreases s.len() - k,
        {
            let snap = &self.snapshots[k];
            let room = snap.room_id;
            let label = label_of(snap);
            let ghost prev = s.take(k as int);
            let ghost next = s.take(k + 1);
            assert(next.drop_last() =~= prev);
            assert(next.last() == *snap);
            let mut p: usize = 0;
            while p < out.len() && out[p].0 < room
                invariant
                    p <= out@.len(),
                    forall|a: int| 0 <= a < p ==> out@[a].0 < room,
                decreases out@.len() - p,
            {
                p = p + 1;
            }
            let ghost before = out@;
            if p < out.len() && out[p].0 == room {
                out.set(p, (room, label));
                assert forall|a: int| 0 <= a < out@.len() implies (#[trigger] last_of_room(
                    next,
                    out@[a].0,
                ) matches Some(x) && out@[a].1@ == room_label_text(x)) by {
                    if a != p {
                        assert(out@[a] == before[a]);
                        assert(before[a].0 != room);
                        assert(last_of_room(next, out@[a].0) == last_of_room(prev, before[a].0));
                    } else {
                        assert(last_of_room(next, room) == Some(*snap));
                    }
                }
                assert forall|r: u64| #[trigger] last_of_room(next, r) is Some implies exists|a: int|
                    0 <= a < out@.len() && out@[a].0 == r by {
                    if r == room {
                        assert(out@[p as int].0 == r);
                    } else {
                        assert(last_of_room(prev, r) is Some);
                        let a = choose|a: int| 0 <= a < before.len() && before[a].0 == r;
                        assert(out@[a] == before[a]);
                    }
                }
            } else {
                out.insert(p, (room, label));
                assert forall|a: int, b: int| 0 <= a < b < out@.len() implies out@[a].0
                    < out@[b].0 by {
                    if b < p {
                        assert(out@[a] == before[a] && out@[b] == before[b]);
                    } else if b == p {
                        assert(out@[a] == before[a]);
                    } else if a == p {
                        assert(out@[b] == before[b - 1]);
                    } else if a < p {
                        assert(out@[a] == before[a] && out@[b] == before[b - 1]);
                    } else {
                        assert(out@[a] == before[a - 1] && out@[b] == before[b - 1]);
                    }
                }
                assert forall|a: int| 0 <= a < out@.len() implies (#[trigger] last_of_room(
                    next,
                    out@[a].0,
                ) matches Some(x) && out@[a].1@ == room_label_text(x)) by {
                    if a < p {
                        assert(out@[a] == before[a]);
                        assert(last_of_room(next, out@[a].0) == last_of_room(prev, before[a].0));
                    } else if a > p {
                        assert(out@[a] == before[a - 1]);
                        assert(last_of_room(next, out@[a].0) == last_of_room(prev, before[a - 1].0));
                    } else {
                        assert(last_of_room(next, room) == Some(*snap));
                    }
                }
                assert forall|r: u64| #[trigger] last_of_room(next, r) is Some implies exists|a: int|
                    0 <= a < out@.len() && out@[a].0 == r by {
                    if r == room {
                        assert(out@[p as int].0 == r);
                    } else {
                        assert(last_of_room(prev, r) is Some);
                        let a = choose|a: int| 0 <= a < before.len() && before[a].0 == r;
                        if a < p {
                            assert(out@[a] == before[a]);
                        } else {
                            assert(out@[a + 1] == before[a]);
                        }
                    }
                }
            }
            k = k + 1;
        }
        assert(s.take(s.len() as int) =~= s);
        out
    }

    /// Records a room lookup, unless a snapshot of that room at that time
    /// exists; says whether it recorded one.
    pub fn record(&mut self, info: &RoomInfo) -> (added: bool)
        ensures
            added == !exists|i: int|
                0 <= i < old(self).snapshots@.len() && old(self).snapshots@[i].room_id
                    == info.room_id && old(self).snapshots@[i].captured_at == info.fetched_at,
            added ==> exists|x: Snapshot|
                snapshot_of(x, *info) && final(self).snapshots@ == retained(
                    old(self).snapshots@.push(x),
                ),
            !added ==> final(self).snapshots@ == old(self).snapshots@,
            final(self).selected_room == old(self).selected_room,
            final(self).tab == old(self).tab,
            final(self).confirm_clear == old(self).confirm_clear,
    {
        let mut i: usize = 0;
        while i < self.snapshots.len()
            invariant
                i <= self.snapshots@.len(),
                forall|k: int|
                    0 <= k < i ==> !(self.snapshots@[k].room_id == info.room_id
                        && self.snapshots@[k].captured_at == info.fetched_at),
            decreases self.snapshots@.len() - i,
        {
            if self.snapshots[i].room_id == info.room_id && self.snapshots[i].captured_at
                == info.fetched_at {
                return false;
            }
            i = i + 1;
        }
        let room_name = match &info.owner_name {
            Some(name) => name.clone(),
            None => String::new(),
        };
        let x = Snapshot {
            room_id: info.room_id,
            room_name,
            captured_at: info.fetched_at,
            viewer_count: info.viewer_count,
            follower_count: info.follower_count,
            live_status: live_status_of(&info.live_status),
        };
        let ghost snap = x;
        self.snapshots.push(x);
        trim(&mut self.snapshots);
        assert(snapshot_of(snap, *info));
        true
    }

    /// Clears the history of the room the user confirmed, if any; says
    /// whether there was one. The confirmation is used up either way.
    pub fn clear_confirmed(&mut self) -> (cleared: bool)
        ensures
            cleared == old(self).confirm_clear is Some,
            final(self).confirm_clear is None,
            final(self).snapshots@ == (match old(self).confirm_clear {
                Some(room) => old(self).snapshots@.filter(|x: Snapshot| x.room_id != room),
                None => old(self).snapshots@,
            }),
            final(self).selected_room == old(self).selected_room,
            final(self).tab == old(self).tab,
    {
        match self.confirm_clear.take() {
            Some(room) => {
                let ghost s = self.snapshots@;
                let ghost pred = |x: Snapshot| x.room_id != room;
                let mut kept: Vec<Snapshot> = Vec::new();
                let mut i: usize = 0;
                proof {
                    reveal(Seq::filter);
                    assert(s.take(0) =~= Seq::<Snapshot>::empty());
                }
                while i < self.snapshots.len()
                    invariant
                        i <= s.len(),
                        s == self.snapshots@,
                        pred == (|x: Snapshot| x.room_id != room),
                        kept@ == s.take(i as int).filter(pred),
                    decreases s.len() - i,
                {
                    proof {
                        reveal(Seq::filter);
                        assert(s.take(i + 1).drop_last() =~= s.take(i as int));
                    }
                    if self.snapshots[i].room_id != room {
                        kept.push(copy_snapshot(&self.snapshots[i]));
                    }
                    i = i + 1;
                }
                assert(s.take(s.len() as int) =~= s);
                self.snapshots = kept;
                true
            },
            None => false,
        }
    }

    /// The audience curve of the selected room: capture times in
    /// milliseconds (held at `i64::MAX`) with the viewer counts.
    pub fn viewer_points(&self) -> (r: Vec<(i64, Option<u64>)>)
        ensures
            r@.len() == of_room(self.snapshots@, self.selected_room).len(),
            forall|i: int|
                0 <= i < r@.len() ==> #[trigger] r@[i] == (
                    point_time(of_room(self.snapshots@, self.selected_room)[i].captured_at),
                    Some(of_room(self.snapshots@, self.selected_room)[i].viewer_count),
                ),
    {
        let current = self.current();
        let mut out: Vec<(i64, Option<u64>)> = Vec::new();
        let mut i: usize = 0;
        while i < current.len()
            invariant
                i <= current@.len(),
                out@.len() == i,
                forall|k: int|
                    0 <= k < i ==> #[trigger] out@[k] == (
                        point_time(current@[k].captured_at),
                        Some(current@[k].viewer_count),
                    ),
            decreases current@.len() - i,
        {
            out.push((millis(current[i].captured_at), Some(current[i].viewer_count)));
            i = i + 1;
        }
        out
    }

    /// The follower curve of the selected room: capture times in
    /// milliseconds (held at `i64::MAX`) with the follower counts, missing
    /// where a lookup had none.
    pub fn follower_points(&self) -> (r: Vec<(i64, Option<u64>)>)
        ensures
            r@.len() == of_room(self.snapshots@, self.selected_room).len(),
            forall|i: int|
                0 <= i < r@.len() ==> #[trigger] r@[i] == (
                    point_time(of_room(self.snapshots@, self.selected_room)[i].captured_at),
                    of_room(self.snapshots@, self.selected_room)[i].follower_count,
                ),
    {
        let current = self.current();
        let mut out: Vec<(i64, Option<u64>)> = Vec::new();
        let mut i: usize = 0;
        while i < current.len()
            invariant
                i <= current@.len(),
                out@.len() == i,
                forall|k: int|
                    0 <= k < i ==> #[trigger] out@[k] == (
                        point_time(current@[k].captured_at),
                        current@[k].follower_count,
                    ),
            decreases current@.len() - i,
        {
            out.push((millis(current[i].captured_at), current[i].follower_count));
            i = i + 1;
        }
        out
    }

    /// The name of room `room`: as `rooms` lists it, or only its number.
    pub fn room_label(&self, room: u64) -> (r: String)
        ensures
            r@ == (match last_of_room(self.snapshots@, room) {
                Some(x) => room_label_text(x),
                None => default_room_label(room),
            }),
    {
        let rooms = self.rooms();
        let mut i: usize = 0;
        while i < rooms.len()
            invariant
                i <= rooms@.len(),
                lists_rooms(rooms@, self.snapshots@),
                forall|a: int| 0 <= a < i ==> rooms@[a].0 != room,
            decreases rooms@.len() - i,
        {
            if rooms[i].0 == room {
                assert(last_of_room(self.snapshots@, rooms@[i as int].0) is Some);
                return rooms[i].1.clone();
            }
            i = i + 1;
        }
        proof {
            if last_of_room(self.snapshots@, room) is Some {
                assert(exists|a: int| 0 <= a < rooms@.len() && rooms@[a].0 == room);
            }
        }
        default_label(room)
    }
}

} // verus!
