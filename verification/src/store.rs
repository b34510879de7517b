//! Per-room keyed storage: the message cache and the pagination tokens.
//! Both are association lists keyed by room id, looked up at the first match.

use vstd::prelude::*;
use crate::types::DisplayMessage;

verus! {

/// The cached message history of one room.
#[derive(Debug)]
pub struct RoomMessages {
    pub room_id: String,
    pub messages: Vec<DisplayMessage>,
}

/// First index in `s` whose entry is keyed by `id`, or the length.
pub open spec fn entry_index(s: Seq<RoomMessages>, id: Seq<char>, from: int) -> int
    decreases s.len() - from when 0 <= from <= s.len()
{
    if from >= s.len() {
        s.len() as int
    } else if s[from].room_id@ == id {
        from
    } else {
        entry_index(s, id, from + 1)
    }
}

pub proof fn lemma_entry_index(s: Seq<RoomMessages>, id: Seq<char>, from: int)
    requires
        0 <= from <= s.len(),
    ensures
        from <= entry_index(s, id, from) <= s.len(),
        entry_index(s, id, from) < s.len() ==> s[entry_index(s, id, from)].room_id@ == id,
        forall|k: int| from <= k < entry_index(s, id, from) ==> s[k].room_id@ != id,
    decreases s.len() - from,
{
    if from < s.len() && s[from].room_id@ != id {
        lemma_entry_index(s, id, from + 1);
    }
}

/// An update at or past `from` that keeps the key at `i` leaves the first
/// index unchanged.
pub proof fn lemma_entry_index_update(
    s: Seq<RoomMessages>,
    id: Seq<char>,
    from: int,
    i: int,
    e: RoomMessages,
)
    requires
        0 <= from <= s.len(),
        0 <= i < s.len(),
        e.room_id@ == s[i].room_id@,
    ensures
        entry_index(s.update(i, e), id, from) == entry_index(s, id, from),
    decreases s.len() - from,
{
    if from < s.len() && s[from].room_id@ != id {
        lemma_entry_index_update(s, id, from + 1, i, e);
    }
}

/// Appending an entry moves no existing first index.
pub proof fn lemma_entry_index_push(s: Seq<RoomMessages>, id: Seq<char>, from: int, e: RoomMessages)
    requires
        0 <= from <= s.len(),
    ensures
        entry_index(s, id, from) < s.len() ==> entry_index(s.push(e), id, from) == entry_index(
            s,
            id,
            from,
        ),
        entry_index(s, id, from) == s.len() && e.room_id@ == id ==> entry_index(s.push(e), id, from)
            == s.len(),
        entry_index(s, id, from) == s.len() && e.room_id@ != id ==> entry_index(s.push(e), id, from)
            == s.len() + 1,
    decreases s.len() - from,
{
    if from < s.len() && s[from].room_id@ != id {
        lemma_entry_index_push(s, id, from + 1, e);
    } else if from == s.len() && e.room_id@ != id {
        assert(entry_index(s.push(e), id, from + 1) == s.len() + 1);
    }
}


/// Updating the entry at `i` without changing its key leaves every other
/// key's first entry untouched.
pub proof fn lemma_other_keys_on_update(olds: Seq<RoomMessages>, e: RoomMessages, i: int, other: Seq<char>)
    requires
        0 <= i < olds.len(),
        e.room_id@ == olds[i].room_id@,
        other != olds[i].room_id@,
    ensures
        entry_index(olds.update(i, e), other, 0) == entry_index(olds, other, 0),
        entry_index(olds, other, 0) < olds.len() ==> olds.update(i, e)[entry_index(
            olds,
            other,
            0,
        )] == olds[entry_index(olds, other, 0)],
{
    lemma_entry_index_update(olds, other, 0, i, e);
    lemma_entry_index(olds, other, 0);
}

/// Appending an entry leaves every other key's first entry untouched.
pub proof fn lemma_other_keys_on_push(olds: Seq<RoomMessages>, e: RoomMessages, other: Seq<char>)
    requires
        other != e.room_id@,
    ensures
        (entry_index(olds.push(e), other, 0) < olds.push(e).len()) == (entry_index(olds, other, 0)
            < olds.len()),
        entry_index(olds, other, 0) < olds.len() ==> olds.push(e)[entry_index(olds, other, 0)]
            == olds[entry_index(olds, other, 0)] && entry_index(olds.push(e), other, 0)
            == entry_index(olds, other, 0),
{
    lemma_entry_index(olds, other, 0);
    lemma_entry_index_push(olds, other, 0, e);
}

/// The per-room message cache.
#[derive(Debug)]
pub struct RoomMessageStore {
    pub entries: Vec<RoomMessages>,
}

impl RoomMessageStore {
    /// Whether the room has a cache entry.
    pub open spec fn contains_room(&self, id: Seq<char>) -> bool {
        entry_index(self.entries@, id, 0) < self.entries@.len()
    }

    /// The cached messages of a room; empty when the room has no entry.
    pub open spec fn msgs_of(&self, id: Seq<char>) -> Seq<DisplayMessage> {
        if self.contains_room(id) {
            self.entries@[entry_index(self.entries@, id, 0)].messages@
        } else {
            Seq::empty()
        }
    }

    pub fn new() -> (r: RoomMessageStore)
        ensures
            r.entries@.len() == 0,
            forall|id: Seq<char>| !r.contains_room(id),
    {
        RoomMessageStore { entries: Vec::new() }
    }

    /// Index of the room's entry, if any.
    fn find(&self, room_id: &str) -> (r: Option<usize>)
        ensures
            match r {
                Some(i) => i == entry_index(self.entries@, room_id@, 0) && i
                    < self.entries@.len(),
                None => !self.contains_room(room_id@),
            },
    {
        let n = self.entries.len();
        let mut i: usize = 0;
        while i < n
            invariant
                i <= n,
                n == self.entries@.len(),
                entry_index(self.entries@, room_id@, 0) == entry_index(
                    self.entries@,
                    room_id@,
                    i as int,
                ),
            decreases n - i,
        {
            if crate::text::str_eq(self.entries[i].room_id.as_str(), room_id) {
                return Some(i);
            }
            i += 1;
        }
        None
    }

    /// Borrow the cached messages of a room.
    pub fn get(&self, room_id: &str) -> (r: Option<&Vec<DisplayMessage>>)
        ensures
            match r {
                Some(v) => self.contains_room(room_id@) && v@ == self.msgs_of(room_id@),
                None => !self.contains_room(room_id@),
            },
    {
        match self.find(room_id) {
            Some(i) => Some(&self.entries[i].messages),
            None => None,
        }
    }

    /// Append one message to a room's cache, creating the entry if absent.
    pub fn push_msg(&mut self, room_id: &str, msg: DisplayMessage)
        ensures
            final(self).contains_room(room_id@),
            final(self).msgs_of(room_id@) == old(self).msgs_of(room_id@).push(msg),
            forall|other: Seq<char>|
                other != room_id@ ==> #[trigger] final(self).contains_room(other) == old(
                    self,
                ).contains_room(other) && final(self).msgs_of(other) == old(self).msgs_of(other),
    {
        match self.find(room_id) {
            Some(i) => {
                let mut entry = self.entries.remove(i);
                entry.messages.push(msg);
                self.entries.insert(i, entry);
                proof {
                    let olds = old(self).entries@;
                    let e = self.entries@[i as int];
                    assert(self.entries@ =~= olds.update(i as int, e));
                    lemma_entry_index(olds, room_id@, 0);
                    lemma_entry_index_update(olds, room_id@, 0, i as int, e);
                    assert forall|other: Seq<char>| other != room_id@ implies #[trigger] self
                        .contains_room(other) == old(self).contains_room(other) && self.msgs_of(
                        other,
                    ) == old(self).msgs_of(other) by {
                        lemma_other_keys_on_update(olds, e, i as int, other);
                    }
                }
            },
            None => {
                let mut messages: Vec<DisplayMessage> = Vec::new();
                messages.push(msg);
                let entry = RoomMessages { room_id: room_id.to_owned(), messages };
                self.entries.push(entry);
                proof {
                    let olds = old(self).entries@;
                    let e = self.entries@.last();
                    assert(self.entries@ =~= olds.push(e));
                    lemma_entry_index(olds, room_id@, 0);
                    lemma_entry_index_push(olds, room_id@, 0, e);
                    assert forall|other: Seq<char>| other != room_id@ implies #[trigger] self
                        .contains_room(other) == old(self).contains_room(other) && self.msgs_of(
                        other,
                    ) == old(self).msgs_of(other) by {
                        lemma_other_keys_on_push(olds, e, other);
                    }
                }
            },
        }
    }

    /// Replace a room's cached messages wholesale, creating the entry if
    /// absent.
    pub fn set_msgs(&mut self, room_id: &str, msgs: Vec<DisplayMessage>)
        ensures
            final(self).contains_room(room_id@),
            final(self).msgs_of(room_id@) == msgs@,
            forall|other: Seq<char>|
                other != room_id@ ==> #[trigger] final(self).contains_room(other) == old(
                    self,
                ).contains_room(other) && final(self).msgs_of(other) == old(self).msgs_of(other),
    {
        match self.find(room_id) {
            Some(i) => {
                let mut entry = self.entries.remove(i);
                entry.messages = msgs;
                self.entries.insert(i, entry);
                proof {
                    let olds = old(self).entries@;
                    let e = self.entries@[i as int];
                    assert(self.entries@ =~= olds.update(i as int, e));
                    lemma_entry_index(olds, room_id@, 0);
                    lemma_entry_index_update(olds, room_id@, 0, i as int, e);
                    assert forall|other: Seq<char>| other != room_id@ implies #[trigger] self
                        .contains_room(other) == old(self).contains_room(other) && self.msgs_of(
                        other,
                    ) == old(self).msgs_of(other) by {
                        lemma_other_keys_on_update(olds, e, i as int, other);
                    }
                }
            },
            None => {
                let entry = RoomMessages { room_id: room_id.to_owned(), messages: msgs };
                self.entries.push(entry);
                proof {
                    let olds = old(self).entries@;
                    let e = self.entries@.last();
                    assert(self.entries@ =~= olds.push(e));
                    lemma_entry_index(olds, room_id@, 0);
                    lemma_entry_index_push(olds, room_id@, 0, e);
                    assert forall|other: Seq<char>| other != room_id@ implies #[trigger] self
                        .contains_room(other) == old(self).contains_room(other) && self.msgs_of(
                        other,
                    ) == old(self).msgs_of(other) by {
                        lemma_other_keys_on_push(olds, e, other);
                    }
                }
            },
        }
    }

    /// Take a room's cached messages out of the store, leaving no entry.
    pub fn take(&mut self, room_id: &str) -> (r: Option<Vec<DisplayMessage>>)
        ensures
            !final(self).contains_room(room_id@),
            match r {
                Some(v) => old(self).contains_room(room_id@) && v@ == old(self).msgs_of(room_id@),
                None => !old(self).contains_room(room_id@),
            },
            forall|other: Seq<char>|
                other != room_id@ ==> #[trigger] final(self).contains_room(other) == old(
                    self,
                ).contains_room(other) && final(self).msgs_of(other) == old(self).msgs_of(other),
    {
        let mut taken: Option<Vec<DisplayMessage>> = None;
        loop
            invariant_except_break
                forall|other: Seq<char>|
                    #![trigger self.contains_room(other)]
                    other != room_id@ ==> self.contains_room(other) == old(self).contains_room(
                        other,
                    ) && self.msgs_of(other) == old(self).msgs_of(other),
                taken matches Some(v) ==> old(self).contains_room(room_id@) && v@ == old(
                    self,
                ).msgs_of(room_id@),
                taken is None && self.contains_room(room_id@) ==> self.msgs_of(room_id@) == old(
                    self,
                ).msgs_of(room_id@) && old(self).contains_room(room_id@),
                taken is None && !self.contains_room(room_id@) && old(self).contains_room(room_id@)
                    ==> false,
            ensures
                !self.contains_room(room_id@),
                match taken {
                    Some(v) => old(self).contains_room(room_id@) && v@ == old(self).msgs_of(
                        room_id@,
                    ),
                    None => !old(self).contains_room(room_id@),
                },
                forall|other: Seq<char>|
                    #![trigger self.contains_room(other)]
                    other != room_id@ ==> self.contains_room(other) == old(self).contains_room(
                        other,
                    ) && self.msgs_of(other) == old(self).msgs_of(other),
            decreases self.entries@.len(),
        {
            let ghost pre = self.entries@;
            match self.find(room_id) {
                Some(i) => {
                    let ghost prestate = *self;
                    let entry = self.entries.remove(i);
                    if taken.is_none() {
                        taken = Some(entry.messages);
                    }
                    proof {
                        lemma_entry_index(pre, room_id@, 0);
                        assert forall|other: Seq<char>| other != room_id@ implies #[trigger] self
                            .contains_room(other) == prestate.contains_room(other) && self.msgs_of(
                            other,
                        ) == prestate.msgs_of(other) by {
                            lemma_entry_index_remove(pre, other, i as int);
                        }
                    }
                },
                None => {
                    break ;
                },
            }
        }
        taken
    }

    /// Drop a room's cache entry, if any.
    pub fn remove_room(&mut self, room_id: &str)
        ensures
            !final(self).contains_room(room_id@),
            forall|other: Seq<char>|
                other != room_id@ ==> #[trigger] final(self).contains_room(other) == old(
                    self,
                ).contains_room(other) && final(self).msgs_of(other) == old(self).msgs_of(other),
    {
        loop
            invariant_except_break
                forall|other: Seq<char>|
                    #![trigger self.contains_room(other)]
                    other != room_id@ ==> self.contains_room(other) == old(self).contains_room(
                        other,
                    ) && self.msgs_of(other) == old(self).msgs_of(other),
            ensures
                !self.contains_room(room_id@),
                forall|other: Seq<char>|
                    #![trigger self.contains_room(other)]
                    other != room_id@ ==> self.contains_room(other) == old(self).contains_room(
                        other,
                    ) && self.msgs_of(other) == old(self).msgs_of(other),
            decreases self.entries@.len(),
        {
            let ghost pre = self.entries@;
            match self.find(room_id) {
                Some(i) => {
                    let ghost prestate = *self;
                    self.entries.remove(i);
                    proof {
                        lemma_entry_index(pre, room_id@, 0);
                        assert forall|other: Seq<char>| other != room_id@ implies #[trigger] self
                            .contains_room(other) == prestate.contains_room(other) && self.msgs_of(
                            other,
                        ) == prestate.msgs_of(other) by {
                            lemma_entry_index_remove(pre, other, i as int);
                        }
                    }
                },
                None => {
                    break ;
                },
            }
        }
    }
}

/// Removing the entry at `i` keeps every other key's first entry: the first
/// match for a key other than the removed entry's own shifts by at most one.
pub proof fn lemma_entry_index_remove(s: Seq<RoomMessages>, id: Seq<char>, i: int)
    requires
        0 <= i < s.len(),
        id != s[i].room_id@,
    ensures
        (entry_index(s.remove(i), id, 0) < s.len() - 1) == (entry_index(s, id, 0) < s.len()),
        entry_index(s, id, 0) < s.len() ==> s.remove(i)[entry_index(s.remove(i), id, 0)]
            == s[entry_index(s, id, 0)],
{
    lemma_entry_index(s, id, 0);
    lemma_entry_index(s.remove(i), id, 0);
    let t = s.remove(i);
    let si = entry_index(s, id, 0);
    let ti = entry_index(t, id, 0);
    if si < s.len() {
        // the match survives the removal, at si or si - 1
        let tgt = if si < i {
            si
        } else {
            si - 1
        };
        assert(t[tgt] == s[si]);
        assert(ti <= tgt);
        let back = if ti < i {
            ti
        } else {
            ti + 1
        };
        assert(s[back] == t[ti]);
        assert(ti == tgt);
    } else {
        if ti < t.len() {
            let back = if ti < i {
                ti
            } else {
                ti + 1
            };
            assert(s[back] == t[ti]);
            assert(false);
        }
    }
}


/// One room's "next older page" token.  `None` inside means the history is
/// exhausted; a missing entry means no page was ever fetched.
#[derive(Debug)]
pub struct RoomToken {
    pub room_id: String,
    pub token: Option<String>,
}

/// First index in `s` keyed by `id`, or the length.
pub open spec fn token_index(s: Seq<RoomToken>, id: Seq<char>, from: int) -> int
    decreases s.len() - from when 0 <= from <= s.len()
{
    if from >= s.len() {
        s.len() as int
    } else if s[from].room_id@ == id {
        from
    } else {
        token_index(s, id, from + 1)
    }
}

pub proof fn lemma_token_index(s: Seq<RoomToken>, id: Seq<char>, from: int)
    requires
        0 <= from <= s.len(),
    ensures
        from <= token_index(s, id, from) <= s.len(),
        token_index(s, id, from) < s.len() ==> s[token_index(s, id, from)].room_id@ == id,
        forall|k: int| from <= k < token_index(s, id, from) ==> s[k].room_id@ != id,
    decreases s.len() - from,
{
    if from < s.len() && s[from].room_id@ != id {
        lemma_token_index(s, id, from + 1);
    }
}

pub proof fn lemma_token_index_update(
    s: Seq<RoomToken>,
    id: Seq<char>,
    from: int,
    i: int,
    e: RoomToken,
)
    requires
        0 <= from <= s.len(),
        0 <= i < s.len(),
        e.room_id@ == s[i].room_id@,
    ensures
        token_index(s.update(i, e), id, from) == token_index(s, id, from),
    decreases s.len() - from,
{
    if from < s.len() && s[from].room_id@ != id {
        lemma_token_index_update(s, id, from + 1, i, e);
    }
}

pub proof fn lemma_token_index_push(s: Seq<RoomToken>, id: Seq<char>, from: int, e: RoomToken)
    requires
        0 <= from <= s.len(),
    ensures
        token_index(s, id, from) < s.len() ==> token_index(s.push(e), id, from) == token_index(
            s,
            id,
            from,
        ),
        token_index(s, id, from) == s.len() && e.room_id@ == id ==> token_index(s.push(e), id, from)
            == s.len(),
        token_index(s, id, from) == s.len() && e.room_id@ != id ==> token_index(s.push(e), id, from)
            == s.len() + 1,
    decreases s.len() - from,
{
    if from < s.len() && s[from].room_id@ != id {
        lemma_token_index_push(s, id, from + 1, e);
    } else if from == s.len() && e.room_id@ != id {
        assert(token_index(s.push(e), id, from + 1) == s.len() + 1);
    }
}

/// Every key but `room` keeps its entry and token across an update.
pub open spec fn tokens_agree_except(a: &TokenStore, b: &TokenStore, room: Seq<char>) -> bool {
    forall|other: Seq<char>|
        other != room ==> #[trigger] b.contains_room(other) == a.contains_room(other) && (
        a.contains_room(other) ==> b.token_of(other) == a.token_of(other))
}

/// Pagination tokens, one per room that has fetched a history page.
#[derive(Debug)]
pub struct TokenStore {
    pub entries: Vec<RoomToken>,
}

impl TokenStore {
    /// Whether the room has a stored token entry.
    pub open spec fn contains_room(&self, id: Seq<char>) -> bool {
        token_index(self.entries@, id, 0) < self.entries@.len()
    }

    /// The stored token of a room with an entry.
    pub open spec fn token_of(&self, id: Seq<char>) -> Option<String> {
        self.entries@[token_index(self.entries@, id, 0)].token
    }

    /// Whether another older page can be requested for the room.
    pub open spec fn has_more(&self, id: Seq<char>) -> bool {
        self.contains_room(id) && self.token_of(id) is Some
    }

    pub fn new() -> (r: TokenStore)
        ensures
            r.entries@.len() == 0,
            forall|id: Seq<char>| !r.contains_room(id),
    {
        TokenStore { entries: Vec::new() }
    }

    fn find(&self, room_id: &str) -> (r: Option<usize>)
        ensures
            match r {
                Some(i) => i == token_index(self.entries@, room_id@, 0) && i
                    < self.entries@.len(),
                None => !self.contains_room(room_id@),
            },
    {
        let n = self.entries.len();
        let mut i: usize = 0;
        while i < n
            invariant
                i <= n,
                n == self.entries@.len(),
                token_index(self.entries@, room_id@, 0) == token_index(
                    self.entries@,
                    room_id@,
                    i as int,
                ),
            decreases n - i,
        {
            if crate::text::str_eq(self.entries[i].room_id.as_str(), room_id) {
                return Some(i);
            }
            i += 1;
        }
        None
    }

    /// Borrow the stored token of a room.
    pub fn get(&self, room_id: &str) -> (r: Option<&Option<String>>)
        ensures
            match r {
                Some(t) => self.contains_room(room_id@) && *t == self.token_of(room_id@),
                None => !self.contains_room(room_id@),
            },
    {
        match self.find(room_id) {
            Some(i) => Some(&self.entries[i].token),
            None => None,
        }
    }

    /// Store a room's token, replacing any earlier one.
    pub fn set(&mut self, room_id: &str, token: Option<String>)
        ensures
            final(self).contains_room(room_id@),
            final(self).token_of(room_id@) == token,
            tokens_agree_except(old(self), final(self), room_id@),
    {
        match self.find(room_id) {
            Some(i) => {
                let mut entry = self.entries.remove(i);
                entry.token = token;
                self.entries.insert(i, entry);
                proof {
                    let olds = old(self).entries@;
                    let e = self.entries@[i as int];
                    assert(self.entries@ =~= olds.update(i as int, e));
                    lemma_token_index(olds, room_id@, 0);
                    lemma_token_index_update(olds, room_id@, 0, i as int, e);
                    assert forall|other: Seq<char>| other != room_id@ implies #[trigger] self
                        .contains_room(other) == old(self).contains_room(other) && (old(
                        self,
                    ).contains_room(other) ==> self.token_of(other) == old(self).token_of(
                        other,
                    )) by {
                        lemma_token_index_update(olds, other, 0, i as int, e);
                        lemma_token_index(olds, other, 0);
                    }
                }
            },
            None => {
                let entry = RoomToken { room_id: room_id.to_owned(), token };
                self.entries.push(entry);
                proof {
                    let olds = old(self).entries@;
                    let e = self.entries@.last();
                    assert(self.entries@ =~= olds.push(e));
                    lemma_token_index(olds, room_id@, 0);
                    lemma_token_index_push(olds, room_id@, 0, e);
                    assert forall|other: Seq<char>| other != room_id@ implies #[trigger] self
                        .contains_room(other) == old(self).contains_room(other) && (old(
                        self,
                    ).contains_room(other) ==> self.token_of(other) == old(self).token_of(
                        other,
                    )) by {
                        lemma_token_index(olds, other, 0);
                        lemma_token_index_push(olds, other, 0, e);
                    }
                }
            },
        }
    }
}

} // verus!
