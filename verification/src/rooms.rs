//! Room-list ordering: favorites first in their configured order, the rest
//! sorted by the active mode with case-insensitive alphabetical tie-breaks.

use vstd::prelude::*;
use vstd::multiset::Multiset;
use crate::store::RoomMessageStore;
use crate::reconcile;
use crate::text;
use crate::types::RoomInfo;
use crate::types::RoomSortMode;
use crate::types::DisplayMessage;
use crate::types::Effect;

verus! {

broadcast use vstd::seq_lib::group_to_multiset_ensures, vstd::multiset::group_multiset_axioms;

/// The characters of each string in a list.
pub open spec fn strs(s: Seq<String>) -> Seq<Seq<char>> {
    s.map_values(|x: String| x@)
}

/// First index in `s` of the room with the given id, or the length.
pub open spec fn room_index(s: Seq<RoomInfo>, id: Seq<char>, from: int) -> int
    decreases s.len() - from when 0 <= from <= s.len()
{
    if from >= s.len() {
        s.len() as int
    } else if s[from].id@ == id {
        from
    } else {
        room_index(s, id, from + 1)
    }
}

pub proof fn lemma_room_index(s: Seq<RoomInfo>, id: Seq<char>, from: int)
    requires
        0 <= from <= s.len(),
    ensures
        from <= room_index(s, id, from) <= s.len(),
        room_index(s, id, from) < s.len() ==> s[room_index(s, id, from)].id@ == id,
        forall|k: int| from <= k < room_index(s, id, from) ==> s[k].id@ != id,
    decreases s.len() - from,
{
    if from < s.len() && s[from].id@ != id {
        lemma_room_index(s, id, from + 1);
    }
}

/// Whether some room in `s` carries the id.
pub open spec fn has_room(s: Seq<RoomInfo>, id: Seq<char>) -> bool {
    room_index(s, id, 0) < s.len()
}

/// Scan a room list for an id.
pub fn find_room(rooms: &Vec<RoomInfo>, id: &str) -> (r: Option<usize>)
    ensures
        match r {
            Some(i) => i == room_index(rooms@, id@, 0) && i < rooms@.len(),
            None => !has_room(rooms@, id@),
        },
{
    let n = rooms.len();
    let mut i: usize = 0;
    while i < n
        invariant
            i <= n,
            n == rooms@.len(),
            room_index(rooms@, id@, 0) == room_index(rooms@, id@, i as int),
        decreases n - i,
    {
        if text::str_eq(rooms[i].id.as_str(), id) {
            return Some(i);
        }
        i += 1;
    }
    None
}

/// Timestamp of the last cached message of a room; zero with nothing cached.
pub open spec fn last_activity(store: &RoomMessageStore, id: Seq<char>) -> u64 {
    let msgs = store.msgs_of(id);
    if msgs.len() > 0 {
        msgs.last().timestamp
    } else {
        0
    }
}

/// The numeric component a room is ranked by, larger first: its unread count,
/// its last activity, or nothing at all for plain alphabetical order.
pub open spec fn room_primary(mode: RoomSortMode, store: &RoomMessageStore, r: RoomInfo) -> u64 {
    match mode {
        RoomSortMode::Unread => r.unread,
        RoomSortMode::Recent => last_activity(store, r.id@),
        RoomSortMode::Alpha => 0,
    }
}

/// The ordering of the non-favorite block: primary rank descending, then the
/// lowercased name ascending.
pub open spec fn room_le(mode: RoomSortMode, store: &RoomMessageStore, a: RoomInfo, b: RoomInfo) -> bool {
    room_primary(mode, store, a) > room_primary(mode, store, b) || (room_primary(mode, store, a)
        == room_primary(mode, store, b) && text::lex_le(
        text::lowercase_of(a.name@),
        text::lowercase_of(b.name@),
    ))
}

/// A room together with its precomputed rank and lowercased name.
pub struct SortKey {
    pub primary: u64,
    pub name_key: String,
    pub room: RoomInfo,
}

/// The key faithfully describes its room under the given mode.
pub open spec fn wf_key(mode: RoomSortMode, store: &RoomMessageStore, k: SortKey) -> bool {
    k.primary == room_primary(mode, store, k.room) && k.name_key@ == text::lowercase_of(
        k.room.name@,
    )
}

/// Order on precomputed keys.
pub open spec fn key_le(a: SortKey, b: SortKey) -> bool {
    a.primary > b.primary || (a.primary == b.primary && text::lex_le(a.name_key@, b.name_key@))
}

pub proof fn lemma_key_le_total(a: SortKey, b: SortKey)
    ensures
        key_le(a, b) || key_le(b, a),
{
    text::lemma_lex_le_total(a.name_key@, b.name_key@);
}

pub proof fn lemma_key_le_trans(a: SortKey, b: SortKey, c: SortKey)
    requires
        key_le(a, b),
        key_le(b, c),
    ensures
        key_le(a, c),
{
    if a.primary == b.primary && b.primary == c.primary {
        text::lemma_lex_le_trans(a.name_key@, b.name_key@, c.name_key@);
    }
}

fn key_le_exec(a: &SortKey, b: &SortKey) -> (r: bool)
    ensures
        r == key_le(*a, *b),
{
    if a.primary > b.primary {
        true
    } else if a.primary == b.primary {
        text::str_lex_le(a.name_key.as_str(), b.name_key.as_str())
    } else {
        false
    }
}

/// The rooms a key list stands for, in order.
pub open spec fn rooms_of(keys: Seq<SortKey>) -> Seq<RoomInfo> {
    keys.map_values(|k: SortKey| k.room)
}

/// Selection sort on precomputed keys: repeatedly move the least remaining
/// key to the output.
fn sort_keys(keys: Vec<SortKey>) -> (r: Vec<SortKey>)
    ensures
        r@.to_multiset() == keys@.to_multiset(),
        rooms_of(r@).to_multiset() == rooms_of(keys@).to_multiset(),
        forall|i: int, j: int| 0 <= i <= j < r@.len() ==> key_le(#[trigger] r@[i], #[trigger] r@[j]),
{
    let mut src = keys;
    let mut out: Vec<SortKey> = Vec::new();
    let ghost orig = src@;
    while src.len() > 0
        invariant
            out@.to_multiset().add(src@.to_multiset()) == orig.to_multiset(),
            rooms_of(out@).to_multiset().add(rooms_of(src@).to_multiset()) == rooms_of(
                orig,
            ).to_multiset(),
            forall|i: int, j: int|
                0 <= i <= j < out@.len() ==> key_le(#[trigger] out@[i], #[trigger] out@[j]),
            forall|i: int, j: int|
                0 <= i < out@.len() && 0 <= j < src@.len() ==> key_le(
                    #[trigger] out@[i],
                    #[trigger] src@[j],
                ),
        decreases src@.len(),
    {
        // index of the least remaining key
        let n = src.len();
        let mut m: usize = 0;
        let mut i: usize = 1;
        proof {
            lemma_key_le_total(src@[0], src@[0]);
        }
        while i < n
            invariant
                m < i <= n,
                n == src@.len(),
                forall|k: int| 0 <= k < i ==> key_le(src@[m as int], #[trigger] src@[k]),
            decreases n - i,
        {
            let advance = !key_le_exec(&src[m], &src[i]);
            proof {
                lemma_key_le_total(src@[i as int], src@[i as int]);
            }
            if advance {
                proof {
                    lemma_key_le_total(src@[m as int], src@[i as int]);
                    assert forall|k: int| 0 <= k < i + 1 implies key_le(
                        src@[i as int],
                        #[trigger] src@[k],
                    ) by {
                        if k == i as int {
                            lemma_key_le_total(src@[i as int], src@[i as int]);
                        } else {
                            lemma_key_le_trans(src@[i as int], src@[m as int], src@[k]);
                        }
                    }
                }
                m = i;
            }
            i += 1;
        }
        let ghost pre = src@;
        let ghost pre_out = out@;
        let least = src.remove(m);
        out.push(least);
        proof {
            assert(least == pre[m as int]);
            assert(out@ == pre_out.push(least));
            assert(src@ == pre.remove(m as int));
            assert(pre.contains(least));
            assert(pre.to_multiset().count(least) > 0);
            assert(out@.to_multiset() =~= pre_out.to_multiset().insert(least));
            assert(src@.to_multiset() =~= pre.to_multiset().remove(least));
            assert(out@.to_multiset().add(src@.to_multiset()) =~= orig.to_multiset());
            assert(rooms_of(out@) =~= rooms_of(pre_out).push(least.room));
            assert(rooms_of(src@) =~= rooms_of(pre).remove(m as int));
            assert(rooms_of(pre)[m as int] == least.room);
            assert(rooms_of(pre).contains(rooms_of(pre)[m as int]));
            assert(rooms_of(out@).to_multiset() =~= rooms_of(pre_out).to_multiset().insert(
                least.room,
            ));
            assert(rooms_of(src@).to_multiset() =~= rooms_of(pre).to_multiset().remove(
                least.room,
            ));
            assert(rooms_of(out@).to_multiset().add(rooms_of(src@).to_multiset())
                =~= rooms_of(orig).to_multiset());
            assert forall|i: int, j: int|
                0 <= i < out@.len() && 0 <= j < src@.len() implies key_le(
                #[trigger] out@[i],
                #[trigger] src@[j],
            ) by {
                let back = if j < m as int {
                    j
                } else {
                    j + 1
                };
                assert(src@[j] == pre[back]);
                if i < pre_out.len() {
                    assert(key_le(out@[i], pre[back]));
                } else {
                    assert(out@[i] == least);
                    assert(key_le(pre[m as int], pre[back]));
                }
            }
        }
    }
    proof {
        assert(src@.len() == 0);
        assert(src@.to_multiset() =~= Multiset::empty());
        assert(rooms_of(src@) =~= Seq::empty());
        assert(rooms_of(src@).to_multiset() =~= Multiset::empty());
        assert(out@.to_multiset() =~= orig.to_multiset());
        assert(rooms_of(out@).to_multiset() =~= rooms_of(orig).to_multiset());
    }
    out
}

/// Attach rank and lowercased name to every room.
fn build_keys(mode: RoomSortMode, store: &RoomMessageStore, rooms: &Vec<RoomInfo>) -> (r: Vec<
    SortKey,
>)
    ensures
        r@.len() == rooms@.len(),
        forall|i: int| 0 <= i < r@.len() ==> (#[trigger] r@[i]).room == rooms@[i],
        forall|i: int| 0 <= i < r@.len() ==> wf_key(mode, store, #[trigger] r@[i]),
{
    let n = rooms.len();
    let mut out: Vec<SortKey> = Vec::new();
    let mut i: usize = 0;
    while i < n
        invariant
            i <= n,
            n == rooms@.len(),
            out@.len() == i,
            forall|k: int| 0 <= k < i ==> (#[trigger] out@[k]).room == rooms@[k],
            forall|k: int| 0 <= k < i ==> wf_key(mode, store, #[trigger] out@[k]),
        decreases n - i,
    {
        let room = rooms[i].duplicate();
        let primary: u64 = match mode {
            RoomSortMode::Unread => room.unread,
            RoomSortMode::Recent => {
                match store.get(room.id.as_str()) {
                    Some(v) => {
                        if v.len() > 0 {
                            v[v.len() - 1].timestamp
                        } else {
                            0
                        }
                    },
                    None => 0,
                }
            },
            RoomSortMode::Alpha => 0,
        };
        let name_key = text::to_lowercase(room.name.as_str());
        out.push(SortKey { primary, name_key, room });
        i += 1;
    }
    out
}

/// Sort the non-favorite rooms by the active mode: a permutation of the
/// input, ordered by `room_le`.
pub fn sort_rooms(mode: RoomSortMode, store: &RoomMessageStore, rooms: Vec<RoomInfo>) -> (r: Vec<
    RoomInfo,
>)
    ensures
        r@.to_multiset() == rooms@.to_multiset(),
        forall|i: int, j: int|
            0 <= i <= j < r@.len() ==> room_le(mode, store, #[trigger] r@[i], #[trigger] r@[j]),
{
    let keys = build_keys(mode, store, &rooms);
    proof {
        assert(rooms_of(keys@) =~= rooms@);
    }
    let sorted = sort_keys(keys);
    let n = sorted.len();
    let mut out: Vec<RoomInfo> = Vec::new();
    let mut i: usize = 0;
    while i < n
        invariant
            i <= n,
            n == sorted@.len(),
            out@ =~= rooms_of(sorted@).subrange(0, i as int),
        decreases n - i,
    {
        out.push(sorted[i].room.duplicate());
        proof {
            assert(out@ =~= rooms_of(sorted@).subrange(0, i + 1));
        }
        i += 1;
    }
    proof {
        assert(out@ =~= rooms_of(sorted@));
        assert forall|i: int, j: int| 0 <= i <= j < out@.len() implies room_le(
            mode,
            store,
            #[trigger] out@[i],
            #[trigger] out@[j],
        ) by {
            assert(key_le(sorted@[i], sorted@[j]));
            assert(sorted@.contains(sorted@[i]) && sorted@.contains(sorted@[j]));
            assert(keys@.to_multiset().count(sorted@[i]) > 0);
            assert(keys@.to_multiset().count(sorted@[j]) > 0);
            assert(keys@.contains(sorted@[i]) && keys@.contains(sorted@[j]));
            let a = choose|k: int| 0 <= k < keys@.len() && keys@[k] == sorted@[i];
            let b = choose|k: int| 0 <= k < keys@.len() && keys@[k] == sorted@[j];
            assert(wf_key(mode, store, sorted@[i]));
            assert(wf_key(mode, store, sorted@[j]));
        }
    }
    out
}

/// The favorites partition the refresh performs: walk the configured
/// favorite ids in order, move the first matching room of each out of the
/// pool, and keep what is left, in its arrival order.
pub open spec fn pick_favs(all: Seq<RoomInfo>, favs: Seq<Seq<char>>) -> (Seq<RoomInfo>, Seq<
    RoomInfo,
>)
    decreases favs.len(),
{
    if favs.len() == 0 {
        (Seq::empty(), all)
    } else {
        let i = room_index(all, favs[0], 0);
        if i < all.len() {
            let rest = pick_favs(all.remove(i), favs.drop_first());
            (seq![all[i]] + rest.0, rest.1)
        } else {
            pick_favs(all, favs.drop_first())
        }
    }
}

/// Split the fetched room list into the favorites block, in configured
/// order, and the remaining pool.
pub fn partition_favorites(all: Vec<RoomInfo>, favorites: &Vec<String>) -> (r: (Vec<RoomInfo>, Vec<
    RoomInfo,
>))
    ensures
        r.0@ == pick_favs(all@, strs(favorites@)).0,
        r.1@ == pick_favs(all@, strs(favorites@)).1,
{
    let ghost all0 = all@;
    let ghost favs0 = strs(favorites@);
    let mut pool = all;
    let mut favs: Vec<RoomInfo> = Vec::new();
    let n = favorites.len();
    let mut j: usize = 0;
    proof {
        assert(favs0.skip(0) =~= favs0);
        assert(favs@ + pick_favs(pool@, favs0).0 =~= pick_favs(pool@, favs0).0);
    }
    while j < n
        invariant
            j <= n,
            n == favorites@.len(),
            favs0 == strs(favorites@),
            favs0.len() == n,
            pick_favs(all0, favs0).0 == favs@ + pick_favs(pool@, favs0.skip(j as int)).0,
            pick_favs(all0, favs0).1 == pick_favs(pool@, favs0.skip(j as int)).1,
        decreases n - j,
    {
        let ghost pre_pool = pool@;
        let ghost pre_favs = favs@;
        proof {
            assert(favs0.skip(j as int)[0] == favorites@[j as int]@);
            assert(favs0.skip(j as int).drop_first() =~= favs0.skip(j + 1));
        }
        match find_room(&pool, favorites[j].as_str()) {
            Some(i) => {
                let room = pool.remove(i);
                favs.push(room);
                proof {
                    assert(favs@ =~= pre_favs + seq![pre_pool[i as int]]);
                    assert(pick_favs(pre_pool, favs0.skip(j as int)).0 == seq![
                        pre_pool[i as int],
                    ] + pick_favs(pool@, favs0.skip(j + 1)).0);
                    assert(pre_favs + (seq![pre_pool[i as int]] + pick_favs(
                        pool@,
                        favs0.skip(j + 1),
                    ).0) =~= (pre_favs + seq![pre_pool[i as int]]) + pick_favs(
                        pool@,
                        favs0.skip(j + 1),
                    ).0);
                }
            },
            None => {
                proof {
                    assert(pick_favs(pool@, favs0.skip(j as int)) == pick_favs(
                        pool@,
                        favs0.skip(j + 1),
                    ));
                }
            },
        }
        j += 1;
    }
    proof {
        assert(favs0.skip(n as int) =~= Seq::<Seq<char>>::empty());
        assert(pick_favs(pool@, favs0.skip(n as int)).0 =~= Seq::<RoomInfo>::empty());
        assert(favs@ + Seq::<RoomInfo>::empty() =~= favs@);
    }
    (favs, pool)
}


/// In unread-first mode a list sorted by `room_le` carries its unread
/// counts in descending order: a room with more unread messages never sits
/// below one with fewer.
pub proof fn lemma_unread_descending(store: &RoomMessageStore, s: Seq<RoomInfo>)
    requires
        forall|i: int, j: int|
            0 <= i <= j < s.len() ==> room_le(
                RoomSortMode::Unread,
                store,
                #[trigger] s[i],
                #[trigger] s[j],
            ),
    ensures
        forall|i: int, j: int| 0 <= i <= j < s.len() ==> #[trigger] s[i].unread >= #[trigger] s[j].unread,
{
    assert forall|i: int, j: int| 0 <= i <= j < s.len() implies #[trigger] s[i].unread
        >= #[trigger] s[j].unread by {
        assert(room_le(RoomSortMode::Unread, store, s[i], s[j]));
    }
}

/// The ids of the rooms, in order.
pub open spec fn ids_of(rooms: Seq<RoomInfo>) -> Seq<Seq<char>> {
    rooms.map_values(|r: RoomInfo| r.id@)
}

/// The configured favorite ids that have a room in the pool, kept in their
/// configured order.
pub open spec fn present_favs(all: Seq<RoomInfo>, favs: Seq<Seq<char>>) -> Seq<Seq<char>>
    decreases favs.len(),
{
    if favs.len() == 0 {
        Seq::empty()
    } else if has_room(all, favs[0]) {
        seq![favs[0]] + present_favs(all, favs.drop_first())
    } else {
        present_favs(all, favs.drop_first())
    }
}

/// Removing a room leaves the presence of every other id unchanged.
pub proof fn lemma_has_room_remove(all: Seq<RoomInfo>, i: int, id: Seq<char>)
    requires
        0 <= i < all.len(),
        all[i].id@ != id,
    ensures
        has_room(all.remove(i), id) == has_room(all, id),
{
    lemma_room_index(all, id, 0);
    lemma_room_index(all.remove(i), id, 0);
    let t = all.remove(i);
    let si = room_index(all, id, 0);
    let ti = room_index(t, id, 0);
    if si < all.len() {
        let tgt = if si < i {
            si
        } else {
            si - 1
        };
        assert(t[tgt] == all[si]);
        assert(ti < t.len());
    } else {
        if ti < t.len() {
            let back = if ti < i {
                ti
            } else {
                ti + 1
            };
            assert(all[back] == t[ti]);
            assert(false);
        }
    }
}

/// Removing a room that no listed favorite id names leaves the present
/// favorites unchanged.
pub proof fn lemma_present_favs_remove(all: Seq<RoomInfo>, i: int, favs: Seq<Seq<char>>)
    requires
        0 <= i < all.len(),
        forall|k: int| 0 <= k < favs.len() ==> favs[k] != all[i].id@,
    ensures
        present_favs(all.remove(i), favs) == present_favs(all, favs),
    decreases favs.len(),
{
    if favs.len() > 0 {
        lemma_has_room_remove(all, i, favs[0]);
        assert(forall|k: int|
            0 <= k < favs.drop_first().len() ==> favs.drop_first()[k] != all[i].id@);
        lemma_present_favs_remove(all, i, favs.drop_first());
    }
}

/// The favorites-first law of the room refresh: whatever order the room pool
/// arrives in, the favorites block holds exactly the configured favorite ids
/// that have a room, in their configured order, and together the block and
/// the remainder are a permutation of the pool.  The remainder is then sorted
/// by `sort_rooms`, whose contract orders it by `room_le`.
pub proof fn lemma_favorites_block(all: Seq<RoomInfo>, favs: Seq<Seq<char>>)
    requires
        forall|i: int, j: int| 0 <= i < j < favs.len() ==> favs[i] != favs[j],
    ensures
        ids_of(pick_favs(all, favs).0) == present_favs(all, favs),
        pick_favs(all, favs).0.to_multiset().add(pick_favs(all, favs).1.to_multiset())
            == all.to_multiset(),
    decreases favs.len(),
{
    broadcast use vstd::seq_lib::group_to_multiset_ensures;

    if favs.len() == 0 {
        assert(ids_of(pick_favs(all, favs).0) =~= present_favs(all, favs));
        assert(pick_favs(all, favs).0.to_multiset().add(pick_favs(all, favs).1.to_multiset())
            =~= all.to_multiset());
    } else {
        let f0 = favs[0];
        let tail = favs.drop_first();
        assert(forall|i: int, j: int| 0 <= i < j < tail.len() ==> tail[i] != tail[j]);
        let i = room_index(all, f0, 0);
        lemma_room_index(all, f0, 0);
        if i < all.len() {
            let all2 = all.remove(i);
            lemma_favorites_block(all2, tail);
            assert(forall|k: int| 0 <= k < tail.len() ==> tail[k] != all[i].id@);
            lemma_present_favs_remove(all, i, tail);
            let rest = pick_favs(all2, tail);
            assert(pick_favs(all, favs).0 == seq![all[i]] + rest.0);
            assert(ids_of(seq![all[i]] + rest.0) =~= seq![f0] + ids_of(rest.0));
            assert(present_favs(all, favs) == seq![f0] + present_favs(all, tail));
            assert(ids_of(pick_favs(all, favs).0) =~= present_favs(all, favs));
            assert(all.contains(all[i]));
            vstd::seq_lib::lemma_multiset_commutative(seq![all[i]], rest.0);
            assert(seq![all[i]] =~= Seq::<RoomInfo>::empty().push(all[i]));
            assert(seq![all[i]].to_multiset() =~= Multiset::<RoomInfo>::empty().insert(all[i]));
            assert((seq![all[i]] + rest.0).to_multiset() =~= rest.0.to_multiset().insert(all[i]));
            assert(all2.to_multiset() =~= all.to_multiset().remove(all[i]));
            let msum = pick_favs(all, favs).0.to_multiset().add(
                pick_favs(all, favs).1.to_multiset(),
            );
            assert forall|e: RoomInfo| true implies msum.count(e) == all.to_multiset().count(
                e,
            ) by {
                assert(pick_favs(all, favs).1 == rest.1);
                assert(msum.count(e) == (seq![all[i]] + rest.0).to_multiset().count(e)
                    + rest.1.to_multiset().count(e));
                assert((seq![all[i]] + rest.0).to_multiset().count(e)
                    == rest.0.to_multiset().insert(all[i]).count(e));
                assert(rest.0.to_multiset().add(rest.1.to_multiset()).count(e)
                    == all2.to_multiset().count(e));
                assert(all2.to_multiset().count(e) == all.to_multiset().remove(all[i]).count(e));
                assert(all.to_multiset().count(all[i]) >= 1);
            }
            assert(msum =~= all.to_multiset());
        } else {
            lemma_favorites_block(all, tail);
        }
    }
}


/// Rooms whose lowercased name contains the lowercased query, kept in order.
pub open spec fn switcher_filtered(s: Seq<RoomInfo>, q: Seq<char>) -> Seq<RoomInfo>
    decreases s.len(),
{
    if s.len() == 0 {
        Seq::empty()
    } else {
        let rest = switcher_filtered(s.drop_first(), q);
        if text::contains_seq(text::lowercase_of(s[0].name@), text::lowercase_of(q)) {
            seq![s[0]] + rest
        } else {
            rest
        }
    }
}

impl crate::state::AppState {
    /// Rebuild the room list from a fresh pool: favorites first in their
    /// configured order, the rest sorted by the active mode; the previously
    /// selected room keeps its selection by id, else the index is clamped.
    pub fn apply_room_list(&mut self, all: Vec<RoomInfo>)
        ensures
            crate::state::same_forms(old(self), final(self)),
            crate::state::same_prefs(old(self), final(self)),
            crate::state::same_nav(old(self), final(self)),
            final(self).accounts == old(self).accounts,
            final(self).chat == old(self).chat,
            final(self).sas == old(self).sas,
            final(self).pending_echoes == old(self).pending_echoes,
            final(self).room_messages == old(self).room_messages,
            final(self).room_history_tokens == old(self).room_history_tokens,
            final(self).status_msg == old(self).status_msg,
            final(self).active_room == old(self).active_room,
            final(self).active_account_id == old(self).active_account_id,
            ({
                let parts = pick_favs(all@, strs(old(self).config.favorites@));
                let favn = parts.0.len();
                &&& final(self).rooms.favorites_count == favn
                &&& final(self).rooms.all_rooms@.len() == favn + parts.1.len()
                &&& final(self).rooms.all_rooms@.subrange(0, favn as int) == parts.0
                &&& final(self).rooms.all_rooms@.skip(favn as int).to_multiset()
                    == parts.1.to_multiset()
                &&& forall|i: int, j: int|
                    favn <= i <= j < final(self).rooms.all_rooms@.len() ==> room_le(
                        old(self).room_sort,
                        &old(self).room_messages,
                        #[trigger] final(self).rooms.all_rooms@[i],
                        #[trigger] final(self).rooms.all_rooms@[j],
                    )
            }),
            ({
                let news = final(self).rooms.all_rooms@;
                let olds = old(self).rooms.all_rooms@;
                if old(self).rooms.selected_room < olds.len() && has_room(
                    news,
                    olds[old(self).rooms.selected_room as int].id@,
                ) {
                    final(self).rooms.selected_room == room_index(
                        news,
                        olds[old(self).rooms.selected_room as int].id@,
                        0,
                    )
                } else {
                    final(self).rooms.selected_room == (if old(self).rooms.selected_room
                        < news.len() || news.len() == 0 {
                        old(self).rooms.selected_room as int
                    } else {
                        news.len() - 1
                    })
                }
            }),
    {
        let prev_id: Option<String> = if self.rooms.selected_room < self.rooms.all_rooms.len() {
            Some(self.rooms.all_rooms[self.rooms.selected_room].id.clone())
        } else {
            None
        };
        let (favs, rest) = partition_favorites(all, &self.config.favorites);
        let ghost restv = rest@;
        let sorted = sort_rooms(self.room_sort, &self.room_messages, rest);
        proof {
            assert(sorted@.to_multiset().len() == sorted@.len());
            assert(restv.to_multiset().len() == restv.len());
        }
        let favn = favs.len();
        let mut list = favs;
        let ghost favseq = list@;
        let sn = sorted.len();
        let mut i: usize = 0;
        while i < sn
            invariant
                i <= sn,
                sn == sorted@.len(),
                list@ =~= favseq + sorted@.subrange(0, i as int),
            decreases sn - i,
        {
            list.push(sorted[i].duplicate());
            proof {
                assert(list@ =~= favseq + sorted@.subrange(0, i + 1));
            }
            i += 1;
        }
        proof {
            assert(sorted@.subrange(0, sn as int) =~= sorted@);
            assert(list@ =~= favseq + sorted@);
            assert(list@.subrange(0, favn as int) =~= favseq);
            assert(list@.skip(favn as int) =~= sorted@);
        }
        self.rooms.all_rooms = list;
        self.rooms.favorites_count = favn;
        match prev_id {
            Some(pid) => {
                match find_room(&self.rooms.all_rooms, pid.as_str()) {
                    Some(idx) => {
                        self.rooms.selected_room = idx;
                    },
                    None => {},
                }
            },
            None => {},
        }
        if self.rooms.selected_room >= self.rooms.all_rooms.len() && self.rooms.all_rooms.len()
            > 0 {
            self.rooms.selected_room = self.rooms.all_rooms.len() - 1;
        }
    }

    /// The switcher's view of the room list: every room whose name contains
    /// the query, matched case-insensitively; an empty query keeps them all.
    pub fn filtered_rooms(&self) -> (r: Vec<RoomInfo>)
        ensures
            self.switcher.query@.len() == 0 ==> r@ == self.rooms.all_rooms@,
            self.switcher.query@.len() > 0 ==> r@ == switcher_filtered(
                self.rooms.all_rooms@,
                self.switcher.query@,
            ),
    {
        let n = self.rooms.all_rooms.len();
        let mut out: Vec<RoomInfo> = Vec::new();
        if vstd::string::StrSliceExecFns::unicode_len(self.switcher.query.as_str()) == 0 {
            let mut i: usize = 0;
            while i < n
                invariant
                    i <= n,
                    n == self.rooms.all_rooms@.len(),
                    out@ =~= self.rooms.all_rooms@.subrange(0, i as int),
                decreases n - i,
            {
                out.push(self.rooms.all_rooms[i].duplicate());
                proof {
                    assert(out@ =~= self.rooms.all_rooms@.subrange(0, i + 1));
                }
                i += 1;
            }
            proof {
                assert(self.rooms.all_rooms@.subrange(0, n as int) =~= self.rooms.all_rooms@);
            }
            return out;
        }
        let q = text::to_lowercase(self.switcher.query.as_str());
        let ghost rs = self.rooms.all_rooms@;
        let ghost qv = self.switcher.query@;
        let mut i: usize = 0;
        proof {
            assert(rs.skip(0) =~= rs);
            assert(out@ + switcher_filtered(rs, qv) =~= switcher_filtered(rs, qv));
        }
        while i < n
            invariant
                i <= n,
                n == rs.len(),
                rs == self.rooms.all_rooms@,
                qv == self.switcher.query@,
                q@ == text::lowercase_of(qv),
                switcher_filtered(rs, qv) == out@ + switcher_filtered(rs.skip(i as int), qv),
            decreases n - i,
        {
            proof {
                assert(rs.skip(i as int)[0] == rs[i as int]);
                assert(rs.skip(i as int).drop_first() =~= rs.skip(i + 1));
            }
            let ghost pre = out@;
            let name_lower = text::to_lowercase(self.rooms.all_rooms[i].name.as_str());
            if text::str_contains(name_lower.as_str(), q.as_str()) {
                out.push(self.rooms.all_rooms[i].duplicate());
                proof {
                    assert(out@ =~= pre + seq![rs[i as int]]);
                    assert(pre + (seq![rs[i as int]] + switcher_filtered(rs.skip(i + 1), qv)) =~= (
                    pre + seq![rs[i as int]]) + switcher_filtered(rs.skip(i + 1), qv));
                }
            }
            i += 1;
        }
        proof {
            assert(rs.skip(n as int) =~= Seq::<RoomInfo>::empty());
            assert(out@ + switcher_filtered(rs.skip(n as int), qv) =~= out@);
        }
        out
    }

    /// Flip the selected room in and out of the favorites list; the change is
    /// persisted and the list rebuilt.
    pub fn toggle_favorite(&mut self) -> (effects: Vec<Effect>)
        ensures
            crate::state::same_forms(old(self), final(self)),
            crate::state::same_nav(old(self), final(self)),
            crate::state::same_view(old(self), final(self)),
            final(self).accounts == old(self).accounts,
            final(self).chat == old(self).chat,
            final(self).room_messages == old(self).room_messages,
            final(self).room_history_tokens == old(self).room_history_tokens,
            final(self).pending_echoes == old(self).pending_echoes,
            final(self).sas == old(self).sas,
            final(self).active_room == old(self).active_room,
            final(self).active_account_id == old(self).active_account_id,
            final(self).selected_account == old(self).selected_account,
            final(self).rooms == old(self).rooms,
            final(self).config.accounts == old(self).config.accounts,
            final(self).config.theme == old(self).config.theme,
            final(self).config.room_sort == old(self).config.room_sort,
            ({
                if old(self).rooms.selected_room < old(self).rooms.all_rooms@.len() {
                    let id = old(self).rooms.all_rooms@[old(
                        self,
                    ).rooms.selected_room as int].id@;
                    let idx = fav_index(old(self).config.favorites@, id, 0);
                    &&& (if idx < old(self).config.favorites@.len() {
                        strs(final(self).config.favorites@) == strs(
                            old(self).config.favorites@,
                        ).remove(idx)
                    } else {
                        strs(final(self).config.favorites@) == strs(
                            old(self).config.favorites@,
                        ).push(id)
                    })
                    &&& effects@.len() == 2
                    &&& effects@[0] is SaveConfig
                    &&& effects@[1] is RefreshRooms
                } else {
                    final(self).config.favorites == old(self).config.favorites && effects@.len()
                        == 0
                }
            }),
    {
        let mut effects: Vec<Effect> = Vec::new();
        if self.rooms.selected_room >= self.rooms.all_rooms.len() {
            return effects;
        }
        let room_id = self.rooms.all_rooms[self.rooms.selected_room].id.clone();
        match find_fav(&self.config.favorites, room_id.as_str()) {
            Some(pos) => {
                self.config.favorites.remove(pos);
                proof {
                    assert(strs(self.config.favorites@) =~= strs(
                        old(self).config.favorites@,
                    ).remove(pos as int));
                }
            },
            None => {
                self.config.favorites.push(room_id);
                proof {
                    assert(strs(self.config.favorites@) =~= strs(
                        old(self).config.favorites@,
                    ).push(self.config.favorites@.last()@));
                }
            },
        }
        effects.push(Effect::SaveConfig);
        effects.push(Effect::RefreshRooms);
        effects
    }

    /// Move the selected favorite one place up, swapping it with its
    /// neighbour in the configured order.
    pub fn reorder_favorite_up(&mut self) -> (effects: Vec<Effect>)
        ensures
            crate::state::same_forms(old(self), final(self)),
            crate::state::same_nav(old(self), final(self)),
            crate::state::same_view(old(self), final(self)),
            final(self).chat == old(self).chat,
            final(self).accounts == old(self).accounts,
            final(self).room_messages == old(self).room_messages,
            final(self).room_history_tokens == old(self).room_history_tokens,
            final(self).pending_echoes == old(self).pending_echoes,
            final(self).sas == old(self).sas,
            final(self).active_room == old(self).active_room,
            final(self).active_account_id == old(self).active_account_id,
            final(self).selected_account == old(self).selected_account,
            final(self).rooms.all_rooms == old(self).rooms.all_rooms,
            final(self).rooms.favorites_count == old(self).rooms.favorites_count,
            final(self).config.accounts == old(self).config.accounts,
            final(self).config.theme == old(self).config.theme,
            final(self).config.room_sort == old(self).config.room_sort,
            ({
                let sel = old(self).rooms.selected_room;
                if sel == 0 || sel >= old(self).rooms.favorites_count || sel >= old(
                    self,
                ).config.favorites@.len() {
                    *final(self) == *old(self) && effects@.len() == 0
                } else {
                    &&& final(self).config.favorites@ == old(self).config.favorites@.update(
                        sel as int,
                        old(self).config.favorites@[sel - 1],
                    ).update(sel - 1, old(self).config.favorites@[sel as int])
                    &&& final(self).rooms.selected_room == sel - 1
                    &&& effects@.len() == 2 && effects@[0] is SaveConfig && effects@[1]
                        is RefreshRooms
                }
            }),
    {
        let mut effects: Vec<Effect> = Vec::new();
        let sel = self.rooms.selected_room;
        if sel == 0 || sel >= self.rooms.favorites_count || sel >= self.config.favorites.len() {
            return effects;
        }
        let a = self.config.favorites[sel].clone();
        let b = self.config.favorites[sel - 1].clone();
        self.config.favorites.set(sel, b);
        self.config.favorites.set(sel - 1, a);
        self.rooms.selected_room = sel - 1;
        effects.push(Effect::SaveConfig);
        effects.push(Effect::RefreshRooms);
        effects
    }

    /// Move the selected favorite one place down.
    pub fn reorder_favorite_down(&mut self) -> (effects: Vec<Effect>)
        ensures
            crate::state::same_forms(old(self), final(self)),
            crate::state::same_nav(old(self), final(self)),
            crate::state::same_view(old(self), final(self)),
            final(self).chat == old(self).chat,
            final(self).accounts == old(self).accounts,
            final(self).room_messages == old(self).room_messages,
            final(self).room_history_tokens == old(self).room_history_tokens,
            final(self).pending_echoes == old(self).pending_echoes,
            final(self).sas == old(self).sas,
            final(self).active_room == old(self).active_room,
            final(self).active_account_id == old(self).active_account_id,
            final(self).selected_account == old(self).selected_account,
            final(self).rooms.all_rooms == old(self).rooms.all_rooms,
            final(self).rooms.favorites_count == old(self).rooms.favorites_count,
            final(self).config.accounts == old(self).config.accounts,
            final(self).config.theme == old(self).config.theme,
            final(self).config.room_sort == old(self).config.room_sort,
            ({
                let sel = old(self).rooms.selected_room;
                if sel + 1 >= old(self).rooms.favorites_count || sel + 1 >= old(
                    self,
                ).config.favorites@.len() {
                    *final(self) == *old(self) && effects@.len() == 0
                } else {
                    &&& final(self).config.favorites@ == old(self).config.favorites@.update(
                        sel as int,
                        old(self).config.favorites@[sel + 1],
                    ).update(sel + 1, old(self).config.favorites@[sel as int])
                    &&& final(self).rooms.selected_room == sel + 1
                    &&& effects@.len() == 2 && effects@[0] is SaveConfig && effects@[1]
                        is RefreshRooms
                }
            }),
    {
        let mut effects: Vec<Effect> = Vec::new();
        let sel = self.rooms.selected_room;
        if sel >= usize::MAX - 1 || sel + 1 >= self.rooms.favorites_count || sel + 1
            >= self.config.favorites.len() {
            return effects;
        }
        let a = self.config.favorites[sel].clone();
        let b = self.config.favorites[sel + 1].clone();
        self.config.favorites.set(sel, b);
        self.config.favorites.set(sel + 1, a);
        self.rooms.selected_room = sel + 1;
        effects.push(Effect::SaveConfig);
        effects.push(Effect::RefreshRooms);
        effects
    }

    /// A room was left and forgotten: its cache entry goes, the active room
    /// is cleared, the editor closes, and the list is refreshed.  A later
    /// refresh cannot bring the room back, since the backend no longer lists
    /// it and the cache holds nothing of it.
    pub fn apply_forget_room_success(&mut self, room_id: &str) -> (effects: Vec<Effect>)
        ensures
            editor_closed_post(old(self), final(self)),
            crate::state::same_prefs(old(self), final(self)),
            final(self).accounts == old(self).accounts,
            final(self).rooms == old(self).rooms,
            final(self).running == old(self).running,
            final(self).focus == old(self).focus,
            final(self).overlay is Closed,
            final(self).active_room is None,
            final(self).active_account_id is None,
            final(self).chat.messages@.len() == 0,
            !final(self).room_messages.contains_room(room_id@),
            forall|other: Seq<char>|
                other != room_id@ ==> #[trigger] final(self).room_messages.contains_room(other)
                    == old(self).room_messages.contains_room(other) && final(self).room_messages.msgs_of(other) == old(self).room_messages.msgs_of(other),
            effects@.len() == 1 && effects@[0] is RefreshRooms,
    {
        let mut effects: Vec<Effect> = Vec::new();
        self.status_msg = <String as vstd::string::StringExecFns>::from_str("Room deleted");
        self.editor.busy = false;
        self.active_room = None;
        self.active_account_id = None;
        self.chat.messages = Vec::new();
        self.room_messages.remove_room(room_id);
        self.overlay = crate::types::Overlay::Closed;
        effects.push(Effect::RefreshRooms);
        effects
    }

    /// A room was left: the active room is cleared and the editor closes;
    /// the cache entry stays, so live sync can keep filling it.
    pub fn apply_leave_room_success(&mut self) -> (effects: Vec<Effect>)
        ensures
            editor_closed_post(old(self), final(self)),
            crate::state::same_prefs(old(self), final(self)),
            final(self).accounts == old(self).accounts,
            final(self).rooms == old(self).rooms,
            final(self).room_messages == old(self).room_messages,
            final(self).running == old(self).running,
            final(self).focus == old(self).focus,
            final(self).overlay is Closed,
            final(self).active_room is None,
            final(self).active_account_id is None,
            final(self).chat.messages@.len() == 0,
            effects@.len() == 1 && effects@[0] is RefreshRooms,
    {
        let mut effects: Vec<Effect> = Vec::new();
        self.status_msg = <String as vstd::string::StringExecFns>::from_str("Left room");
        self.editor.busy = false;
        self.active_room = None;
        self.active_account_id = None;
        self.chat.messages = Vec::new();
        self.overlay = crate::types::Overlay::Closed;
        effects.push(Effect::RefreshRooms);
        effects
    }

    /// Switch to the selected room: the displayed list of the previous room
    /// is flushed into the cache, the chat view is reset, and the first
    /// history page is requested.  Until the room's account has finished its
    /// first sync, the status says waiting rather than empty.
    pub fn begin_open_room(&mut self) -> (r: Option<Effect>)
        ensures
            open_room_post(old(self), final(self), r),
    {
        if self.rooms.selected_room >= self.rooms.all_rooms.len() {
            return None;
        }
        let room_id = self.rooms.all_rooms[self.rooms.selected_room].id.clone();
        let account_id = self.rooms.all_rooms[self.rooms.selected_room].account_id.clone();
        let room_name = self.rooms.all_rooms[self.rooms.selected_room].name.clone();
        // Flush the displayed list of the room being left into the cache.
        let flush: Option<String> = match &self.active_room {
            Some(prev) => {
                if self.chat.messages.len() > 0 {
                    Some(prev.clone())
                } else {
                    None
                }
            },
            None => None,
        };
        if let Some(prev) = flush {
            let copy = crate::types::clone_messages(&self.chat.messages);
            self.room_messages.set_msgs(prev.as_str(), copy);
        }
        self.active_room = Some(room_id.clone());
        self.active_account_id = Some(account_id.clone());
        self.chat.messages = Vec::new();
        self.chat.scroll_offset = 0;
        self.chat.selected_message = None;
        self.chat.typing_users = Vec::new();
        self.chat.replying_to = None;
        self.focus = crate::types::Focus::Chat;
        let synced = match crate::state::find_account(&self.accounts, account_id.as_str()) {
            Some(i) => self.accounts[i].sync_complete,
            None => false,
        };
        let mut status = room_name;
        if !synced {
            vstd::string::StringExecFns::append(&mut status, " - waiting for sync...");
        } else {
            vstd::string::StringExecFns::append(&mut status, " - loading...");
        }
        self.status_msg = status;
        Some(Effect::FetchHistory { account_id, room_id, limit: 50 })
    }

    /// Merge the first history page of a freshly opened room in: a non-empty
    /// page replaces the displayed list and stores the pagination token; an
    /// empty page or an error falls back to whatever live sync has cached;
    /// afterwards reply references are resolved in one pass, the unread
    /// separator is placed, and a read receipt is requested for the newest
    /// confirmed message.
    pub fn apply_history_result(
        &mut self,
        room_id: &str,
        result: Result<(Vec<DisplayMessage>, Option<String>), String>,
    ) -> (effects: Vec<Effect>)
        ensures
            crate::state::same_forms(old(self), final(self)),
            crate::state::same_prefs(old(self), final(self)),
            crate::state::same_nav(old(self), final(self)),
            final(self).accounts == old(self).accounts,
            final(self).sas == old(self).sas,
            final(self).pending_echoes == old(self).pending_echoes,
            final(self).rooms == old(self).rooms,
            final(self).active_room == old(self).active_room,
            final(self).active_account_id == old(self).active_account_id,
            final(self).room_messages == old(self).room_messages,
            ({
                let src = history_source(old(self), room_id@, result);
                &&& crate::types::models(final(self).chat.messages@) == resolved_models(src)
                &&& final(self).chat.messages@.len() == src.len()
            }),
            (result matches Ok(page) && page.0@.len() > 0) ==> {
                &&& final(self).room_history_tokens.token_of(room_id@) == (result->Ok_0).1
                &&& final(self).room_history_tokens.contains_room(room_id@)
                &&& final(self).chat.downloading_keys == has_encrypted_marker((result->Ok_0).0@)
                &&& crate::dispatch::tokens_preserved_except(old(self), final(self), room_id@)
            },
            !(result matches Ok(page) && page.0@.len() > 0) ==> final(self).room_history_tokens
                == old(self).room_history_tokens && final(self).chat.downloading_keys == old(
                self,
            ).chat.downloading_keys,
            ({
                let unr = unread_of(old(self).rooms.all_rooms@, room_id@);
                let len = history_source(old(self), room_id@, result).len() as int;
                final(self).chat.first_unread_index == (if unr > 0 && len > 0 {
                    Some((len - (if unr as int <= len { unr as int } else { len })) as usize)
                } else {
                    Option::<usize>::None
                })
            }),
            ({
                let src = history_source(old(self), room_id@, result);
                let wants_retry = (result matches Ok(p) && p.0@.len() > 0
                    && has_encrypted_marker(p.0@)) && old(self).active_account_id is Some;
                let wants_receipt = src.len() > 0 && resolved_models(src).last().event_id is Some
                    && old(self).active_account_id is Some;
                &&& effects@.len() == (if wants_retry {
                    1int
                } else {
                    0int
                }) + (if wants_receipt {
                    1int
                } else {
                    0int
                })
                &&& (wants_retry ==> (effects@[0] matches Effect::ScheduleKeysRetry {
                    account_id,
                    room_id: r2,
                } && (old(self).active_account_id matches Some(aid) && account_id@ == aid@)
                    && r2@ == room_id@))
                &&& (wants_receipt ==> (effects@[effects@.len() - 1] matches
                    Effect::SendReadReceipt { account_id, room_id: r2, event_id: e } && (old(
                    self,
                ).active_account_id matches Some(aid) && account_id@ == aid@) && r2@ == room_id@
                    && Some(e@) == resolved_models(src).last().event_id))
            }),
            result is Err ==> final(self).status_msg@ == "History fetch failed"@,
            (result matches Ok(p) && p.0@.len() > 0) ==> final(self).status_msg == old(
                self,
            ).status_msg,
            (result matches Ok(p) && p.0@.len() == 0) ==> {
                if old(self).room_messages.contains_room(room_id@) {
                    final(self).status_msg == old(self).status_msg
                } else if active_synced(old(self)) {
                    final(self).status_msg@ == "No messages"@
                } else {
                    final(self).status_msg == old(self).status_msg
                }
            },
    {
        let ghost src = history_source(old(self), room_id@, result);
        let mut effects: Vec<Effect> = Vec::new();
        let mut schedule_retry = false;
        match result {
            Ok((msgs, end_token)) => {
                if msgs.len() > 0 {
                    self.room_history_tokens.set(room_id, end_token);

                    let enc = page_has_encrypted(&msgs);
                    self.chat.messages = msgs;
                    self.chat.downloading_keys = enc;
                    schedule_retry = enc;
                } else {
                    self.fall_back_to_cache(room_id);
                }
            },
            Err(_e) => {
                self.fall_back_to_cache(room_id);
                self.status_msg = <String as vstd::string::StringExecFns>::from_str(
                    "History fetch failed",
                );
            },
        }
        let ghost loaded = self.chat.messages@;
        proof {
            assert(crate::types::models(loaded) == crate::types::models(src));
        }
        reconcile::resolve_all_replies(&mut self.chat.messages);
        proof {
            assert(src.len() == loaded.len()) by {
                assert(crate::types::models(src).len() == src.len());
                assert(crate::types::models(loaded).len() == loaded.len());
            }
            assert forall|i: int| 0 <= i < src.len() implies #[trigger] crate::types::models(
                self.chat.messages@,
            )[i] == resolved_models(src)[i] by {
                reconcile::lemma_resolved_model_congruent(loaded, src, i);
                assert(crate::types::models(self.chat.messages@)[i] == self.chat.messages@[i]@);
            }
            assert(crate::types::models(self.chat.messages@) =~= resolved_models(src));
        }
        if schedule_retry {
            if let Some(aid) = &self.active_account_id {
                effects.push(
                    Effect::ScheduleKeysRetry {
                        account_id: aid.clone(),
                        room_id: <String as vstd::string::StringExecFns>::from_str(room_id),
                    },
                );
            }
        }
        // Unread separator: the last `unread` messages sit below it.
        let unr: u64 = match find_room(&self.rooms.all_rooms, room_id) {
            Some(i) => self.rooms.all_rooms[i].unread,
            None => 0,
        };
        let len = self.chat.messages.len();
        if unr > 0 && len > 0 {
            let back: usize = if unr <= len as u64 {
                unr as usize
            } else {
                len
            };
            self.chat.first_unread_index = Some(len - back);
        } else {
            self.chat.first_unread_index = None;
        }
        // Read receipt on the newest confirmed message.
        let receipt: Option<String> = match self.chat.messages.last() {
            Some(m) => crate::types::clone_opt_string(&m.event_id),
            None => None,
        };
        if let Some(eid) = receipt {
            if let Some(aid) = &self.active_account_id {
                effects.push(
                    Effect::SendReadReceipt {
                        account_id: aid.clone(),
                        room_id: <String as vstd::string::StringExecFns>::from_str(room_id),
                        event_id: eid,
                    },
                );
            }
        }
        effects
    }

    /// Replace the displayed list with the room's cached messages, when any.
    fn fall_back_to_cache(&mut self, room_id: &str)
        ensures
            *final(self) == (crate::state::AppState {
                chat: final(self).chat,
                status_msg: final(self).status_msg,
                ..*old(self)
            }),
            final(self).chat == (crate::state::ChatState {
                messages: final(self).chat.messages,
                ..old(self).chat
            }),
            crate::types::models(final(self).chat.messages@) == crate::types::models(
                cache_fallback(old(self), room_id@),
            ),
            final(self).chat.messages@.len() == cache_fallback(old(self), room_id@).len(),
            old(self).room_messages.contains_room(room_id@) ==> final(self).status_msg == old(
                self,
            ).status_msg,
            !old(self).room_messages.contains_room(room_id@) ==> {
                if active_synced(old(self)) {
                    final(self).status_msg@ == "No messages"@
                } else {
                    final(self).status_msg == old(self).status_msg
                }
            },
    {
        let copy: Option<Vec<DisplayMessage>> = match self.room_messages.get(room_id) {
            Some(cached) => Some(crate::types::clone_messages(cached)),
            None => None,
        };
        match copy {
            Some(list) => {
                self.chat.messages = list;
            },
            None => {
                let synced = match &self.active_account_id {
                    Some(aid) => {
                        match crate::state::find_account(&self.accounts, aid.as_str()) {
                            Some(i) => self.accounts[i].sync_complete,
                            None => false,
                        }
                    },
                    None => false,
                };
                if synced {
                    self.status_msg = <String as vstd::string::StringExecFns>::from_str(
                        "No messages",
                    );
                }
                // Not yet synced: the waiting status set on opening stands.
            },
        }
    }
}

/// The list the chat view ends up showing for a history result, before reply
/// resolution: the fetched page when it has messages, else the room's cache,
/// else the (empty) displayed list.
pub open spec fn history_source(
    s: &crate::state::AppState,
    room_id: Seq<char>,
    result: Result<(Vec<DisplayMessage>, Option<String>), String>,
) -> Seq<DisplayMessage> {
    match result {
        Ok(page) => {
            if page.0@.len() > 0 {
                page.0@
            } else {
                cache_fallback(s, room_id)
            }
        },
        Err(_) => cache_fallback(s, room_id),
    }
}

/// The cache's answer for a room: its entry, or the displayed list as it is.
pub open spec fn cache_fallback(s: &crate::state::AppState, room_id: Seq<char>) -> Seq<
    DisplayMessage,
> {
    if s.room_messages.contains_room(room_id) {
        s.room_messages.msgs_of(room_id)
    } else {
        s.chat.messages@
    }
}

/// Each message resolved against its own list, in place.
pub open spec fn resolved_models(s: Seq<DisplayMessage>) -> Seq<crate::types::MessageModel> {
    Seq::new(s.len(), |i: int| reconcile::resolved_model(s, s[i]))
}

/// Whether some fetched message shows the undecryptable-content marker.
pub open spec fn has_encrypted_marker(s: Seq<DisplayMessage>) -> bool {
    exists|i: int|
        0 <= i < s.len() && text::contains_seq(#[trigger] s[i].body_view(), "[encrypted message"@)
}

/// Scan a page for the undecryptable-content marker.
fn page_has_encrypted(msgs: &Vec<DisplayMessage>) -> (r: bool)
    ensures
        r == has_encrypted_marker(msgs@),
{
    let n = msgs.len();
    let mut i: usize = 0;
    while i < n
        invariant
            i <= n,
            n == msgs@.len(),
            forall|k: int|
                0 <= k < i ==> !text::contains_seq(
                    #[trigger] msgs@[k].body_view(),
                    "[encrypted message"@,
                ),
        decreases n - i,
    {
        if text::str_contains(msgs[i].content.body_text().as_str(), "[encrypted message") {
            assert(text::contains_seq(msgs@[i as int].body_view(), "[encrypted message"@));
            return true;
        }
        i += 1;
    }
    false
}

/// Whether the active room's account has finished its first sync: the line
/// between an empty room and one still waiting for its data.
pub open spec fn active_synced(s: &crate::state::AppState) -> bool {
    s.active_account_id matches Some(aid) && s.has_account(aid@) && s.accounts@[
        crate::state::account_index(s.accounts@, aid@, 0)
    ].sync_complete
}

/// The unread count the room list reports for a room; zero when unlisted.
pub open spec fn unread_of(rooms: Seq<RoomInfo>, id: Seq<char>) -> u64 {
    if has_room(rooms, id) {
        rooms[room_index(rooms, id, 0)].unread
    } else {
        0
    }
}

/// After a room was left or deleted the editor overlay is finished with its
/// work: its busy flag clears and every other overlay form stands.
pub open spec fn editor_closed_post(a: &crate::state::AppState, b: &crate::state::AppState) -> bool {
    &&& a.login == b.login
    &&& a.switcher == b.switcher
    &&& a.settings == b.settings
    &&& a.profile == b.profile
    &&& a.creator == b.creator
    &&& a.recovery == b.recovery
    &&& a.msg_action == b.msg_action
    &&& a.emoji_picker == b.emoji_picker
    &&& b.editor == (crate::state::EditorForm { busy: false, ..a.editor })
}


/// What switching to the selected room does: the previous room's displayed
/// list is flushed into the cache, the chat view is reset onto the new room,
/// focus moves to the chat, and the first history page is requested; with
/// nothing selected, nothing happens.
pub open spec fn open_room_post(
    a: &crate::state::AppState,
    b: &crate::state::AppState,
    r: Option<Effect>,
) -> bool {
    &&& crate::state::same_forms(a, b)
    &&& crate::state::same_prefs(a, b)
    &&& b.accounts == a.accounts
    &&& b.sas == a.sas
    &&& b.pending_echoes == a.pending_echoes
    &&& b.room_history_tokens == a.room_history_tokens
    &&& b.running == a.running
    &&& b.overlay == a.overlay
    &&& b.rooms == a.rooms
    &&& (a.rooms.selected_room >= a.rooms.all_rooms@.len() ==> *b == *a && r is None)
    &&& (a.rooms.selected_room < a.rooms.all_rooms@.len() ==> ({
        let room = a.rooms.all_rooms@[a.rooms.selected_room as int];
        &&& (if a.active_room is Some && a.chat.messages@.len() > 0 {
            let prev = a.active_room->Some_0@;
            crate::types::models(b.room_messages.msgs_of(prev)) == crate::types::models(
                a.chat.messages@,
            ) && (forall|other: Seq<char>|
                other != prev ==> #[trigger] b.room_messages.msgs_of(other)
                    == a.room_messages.msgs_of(other))
        } else {
            b.room_messages == a.room_messages
        })
        &&& b.active_room matches Some(ar) && ar@ == room.id@
        &&& b.active_account_id matches Some(aid) && aid@ == room.account_id@
        &&& b.chat.messages@.len() == 0
        &&& b.chat.scroll_offset == 0
        &&& b.chat.selected_message is None
        &&& b.chat.typing_users@.len() == 0
        &&& b.chat.replying_to is None
        &&& b.focus is Chat
        &&& (r matches Some(e) && (e matches Effect::FetchHistory { account_id, room_id, limit }
            && account_id@ == room.account_id@ && room_id@ == room.id@ && limit == 50))
    }))
}

/// First index in the favorites list equal to `id`, or the length.
pub open spec fn fav_index(s: Seq<String>, id: Seq<char>, from: int) -> int
    decreases s.len() - from when 0 <= from <= s.len()
{
    if from >= s.len() {
        s.len() as int
    } else if s[from]@ == id {
        from
    } else {
        fav_index(s, id, from + 1)
    }
}

/// Scan the favorites list for an id.
pub fn find_fav(favs: &Vec<String>, id: &str) -> (r: Option<usize>)
    ensures
        match r {
            Some(i) => i == fav_index(favs@, id@, 0) && i < favs@.len(),
            None => fav_index(favs@, id@, 0) == favs@.len(),
        },
{
    let n = favs.len();
    let mut i: usize = 0;
    while i < n
        invariant
            i <= n,
            n == favs@.len(),
            fav_index(favs@, id@, 0) == fav_index(favs@, id@, i as int),
        decreases n - i,
    {
        if text::str_eq(favs[i].as_str(), id) {
            return Some(i);
        }
        i += 1;
    }
    None
}

} // verus!
