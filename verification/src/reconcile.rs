//! Message reconciliation: looking messages up by event id, resolving reply
//! references, aggregating reactions, and shaping fetched history pages.

use vstd::prelude::*;
use crate::types::DisplayMessage;
use crate::types::MessageModel;
use crate::types::models;
use crate::text;

verus! {

/// First index in `s` of the message confirmed under `eid`, or the length.
pub open spec fn msg_index(s: Seq<DisplayMessage>, eid: Seq<char>, from: int) -> int
    decreases s.len() - from when 0 <= from <= s.len()
{
    if from >= s.len() {
        s.len() as int
    } else if s[from].event_id matches Some(e) && e@ == eid {
        from
    } else {
        msg_index(s, eid, from + 1)
    }
}

pub proof fn lemma_msg_index(s: Seq<DisplayMessage>, eid: Seq<char>, from: int)
    requires
        0 <= from <= s.len(),
    ensures
        from <= msg_index(s, eid, from) <= s.len(),
        msg_index(s, eid, from) < s.len() ==> (s[msg_index(s, eid, from)].event_id matches Some(e)
            && e@ == eid),
    decreases s.len() - from,
{
    if from < s.len() && !(s[from].event_id matches Some(e) && e@ == eid) {
        lemma_msg_index(s, eid, from + 1);
    }
}

/// Whether the list holds a message confirmed under `eid`.
pub open spec fn has_msg(s: Seq<DisplayMessage>, eid: Seq<char>) -> bool {
    msg_index(s, eid, 0) < s.len()
}

/// Scan a list for the message confirmed under `eid`.
pub fn find_msg(messages: &Vec<DisplayMessage>, eid: &str) -> (r: Option<usize>)
    ensures
        match r {
            Some(i) => i == msg_index(messages@, eid@, 0) && i < messages@.len(),
            None => !has_msg(messages@, eid@),
        },
{
    let n = messages.len();
    let mut i: usize = 0;
    while i < n
        invariant
            i <= n,
            n == messages@.len(),
            msg_index(messages@, eid@, 0) == msg_index(messages@, eid@, i as int),
        decreases n - i,
    {
        let hit = match &messages[i].event_id {
            Some(e) => text::str_eq(e.as_str(), eid),
            None => false,
        };
        if hit {
            return Some(i);
        }
        i += 1;
    }
    None
}

/// The reply context a list yields for `eid`: the sender and a snippet of the
/// referenced message, when it is present.
pub open spec fn reply_context_of(s: Seq<DisplayMessage>, eid: Seq<char>) -> Option<
    (Seq<char>, Seq<char>),
> {
    if has_msg(s, eid) {
        let m = s[msg_index(s, eid, 0)];
        Some((m.sender@, text::snippet_of(m.body_view())))
    } else {
        None
    }
}

/// Look `eid` up in the displayed list first, then in the room cache, and
/// hand back the sender and snippet of the referenced message if found.
pub fn resolve_reply_context(
    displayed: &Vec<DisplayMessage>,
    cached: Option<&Vec<DisplayMessage>>,
    eid: &str,
) -> (r: (Option<String>, Option<String>))
    ensures
        ({
            let primary = reply_context_of(displayed@, eid@);
            let secondary = match cached {
                Some(c) => reply_context_of(c@, eid@),
                None => None,
            };
            match if primary is Some {
                primary
            } else {
                secondary
            } {
                Some(ctx) => (r.0 matches Some(s) && s@ == ctx.0) && (r.1 matches Some(b) && b@
                    == ctx.1),
                None => r.0 is None && r.1 is None,
            }
        }),
{
    let found: Option<&DisplayMessage> = match find_msg(displayed, eid) {
        Some(i) => Some(&displayed[i]),
        None => match cached {
            Some(c) => match find_msg(c, eid) {
                Some(j) => Some(&c[j]),
                None => None,
            },
            None => None,
        },
    };
    match found {
        Some(orig) => {
            let snip = text::snippet(orig.content.body_text().as_str());
            (Some(orig.sender.clone()), Some(snip))
        },
        None => (None, None),
    }
}

/// What one message becomes under a batch reply-resolution pass over `s`:
/// a message still missing its reply sender, whose target is present in `s`,
/// gains the target's sender and snippet; everything else stands.
/// Whether the batch pass has something to fill in for `m`.
pub open spec fn needs_resolution(s: Seq<DisplayMessage>, m: DisplayMessage) -> bool {
    m.reply_to_sender is None && (m.reply_to_event_id_raw matches Some(eid) && has_msg(s, eid@))
}

pub open spec fn resolved_model(s: Seq<DisplayMessage>, m: DisplayMessage) -> MessageModel {
    if needs_resolution(s, m) {
        let t = s[msg_index(s, m.reply_to_event_id_raw->Some_0@, 0)];
        MessageModel {
            reply_to_sender: Some(t.sender@),
            reply_to_body: Some(text::snippet_of(t.body_view())),
            ..m@
        }
    } else {
        m@
    }
}

/// Resolve reply context for every message whose reply target is now present
/// in the same list: one pass that fills sender and snippet in from the
/// referenced message, leaving everything else exactly as it was.
pub fn resolve_all_replies(messages: &mut Vec<DisplayMessage>)
    ensures
        final(messages)@.len() == old(messages)@.len(),
        forall|i: int|
            0 <= i < old(messages)@.len() ==> #[trigger] final(messages)@[i]@ == resolved_model(
                old(messages)@,
                old(messages)@[i],
            ),
{
    let ghost orig = messages@;
    let n = messages.len();
    // First pass: collect the resolution for each message from the list as it
    // stands, before anything is overwritten.
    let mut ctx: Vec<Option<(String, String)>> = Vec::new();
    let mut i: usize = 0;
    while i < n
        invariant
            i <= n,
            messages@ == orig,
            n == orig.len(),
            ctx@.len() == i,
            forall|k: int|
                0 <= k < i ==> (match #[trigger] ctx@[k] {
                    Some(p) => needs_resolution(orig, orig[k]) && p.0@ == orig[msg_index(
                        orig,
                        orig[k].reply_to_event_id_raw->Some_0@,
                        0,
                    )].sender@ && p.1@ == text::snippet_of(
                        orig[msg_index(orig, orig[k].reply_to_event_id_raw->Some_0@, 0)].body_view(),
                    ),
                    None => !needs_resolution(orig, orig[k]),
                }),
        decreases n - i,
    {
        let mut entry: Option<(String, String)> = None;
        if messages[i].reply_to_sender.is_none() {
            let eid_opt = crate::types::clone_opt_string(&messages[i].reply_to_event_id_raw);
            if let Some(eid) = eid_opt {
                if let Some(j) = find_msg(messages, eid.as_str()) {
                    let snip = text::snippet(messages[j].content.body_text().as_str());
                    entry = Some((messages[j].sender.clone(), snip));
                }
            }
        }
        ctx.push(entry);
        i += 1;
    }
    // Second pass: write the collected resolutions in.
    let mut i: usize = 0;
    while i < n
        invariant
            i <= n,
            n == orig.len(),
            messages@.len() == n,
            ctx@.len() == n,
            forall|k: int|
                0 <= k < i ==> #[trigger] messages@[k]@ == resolved_model(orig, orig[k]),
            forall|k: int| i <= k < n ==> #[trigger] messages@[k] == orig[k],
            forall|k: int|
                0 <= k < n ==> (match #[trigger] ctx@[k] {
                    Some(p) => needs_resolution(orig, orig[k]) && p.0@ == orig[msg_index(
                        orig,
                        orig[k].reply_to_event_id_raw->Some_0@,
                        0,
                    )].sender@ && p.1@ == text::snippet_of(
                        orig[msg_index(orig, orig[k].reply_to_event_id_raw->Some_0@, 0)].body_view(),
                    ),
                    None => !needs_resolution(orig, orig[k]),
                }),
        decreases n - i,
    {
        let filled = match &ctx[i] {
            Some(p) => Some((p.0.clone(), p.1.clone())),
            None => None,
        };
        if let Some((sender, snip)) = filled {
            let mut m = messages.remove(i);
            m.reply_to_sender = Some(sender);
            m.reply_to_body = Some(snip);
            messages.insert(i, m);
            proof {
                assert(messages@[i as int]@ =~= resolved_model(orig, orig[i as int]));
                assert forall|k: int| i < k < n implies #[trigger] messages@[k] == orig[k] by {}
            }
        } else {
            assert(messages@[i as int]@ =~= resolved_model(orig, orig[i as int]));
        }
        i += 1;
    }
}

/// First index in a reaction list carrying `key`, or the length.
pub open spec fn rx_index(rs: Seq<(Seq<char>, u64)>, key: Seq<char>, from: int) -> int
    decreases rs.len() - from when 0 <= from <= rs.len()
{
    if from >= rs.len() {
        rs.len() as int
    } else if rs[from].0 == key {
        from
    } else {
        rx_index(rs, key, from + 1)
    }
}

/// A reaction list after one more `key` reaction: the first matching counter
/// goes up by one (saturating), or a fresh counter starts at one.
pub open spec fn bumped_reactions(rs: Seq<(Seq<char>, u64)>, key: Seq<char>) -> Seq<
    (Seq<char>, u64),
> {
    let k = rx_index(rs, key, 0);
    if k < rs.len() {
        rs.update(k, (key, if rs[k].1 == u64::MAX { u64::MAX } else { (rs[k].1 + 1) as u64 }))
    } else {
        rs.push((key, 1))
    }
}

/// Count one more `key` reaction on the message confirmed under `event_id`,
/// if the list holds it; every other message stands untouched.
pub fn apply_reaction_to_list(messages: &mut Vec<DisplayMessage>, event_id: &str, key: &str)
    ensures
        final(messages)@.len() == old(messages)@.len(),
        ({
            let s = old(messages)@;
            if has_msg(s, event_id@) {
                let i = msg_index(s, event_id@, 0);
                final(messages)@[i]@ == MessageModel {
                    reactions: bumped_reactions(s[i]@.reactions, key@),
                    ..s[i]@
                } && forall|k: int|
                    0 <= k < s.len() && k != i ==> #[trigger] final(messages)@[k] == s[k]
            } else {
                final(messages)@ == s
            }
        }),
{
    let idx = match find_msg(messages, event_id) {
        Some(i) => i,
        None => {
            return ;
        },
    };
    let mut m = messages.remove(idx);
    let ghost oldrx = m.reactions@;
    let ghost m0 = m@;
    let rn = m.reactions.len();
    let mut j: usize = 0;
    let mut found = false;
    while j < rn
        invariant_except_break
            j <= rn,
            !found,
            rn == m.reactions@.len(),
            m.reactions@ == oldrx,
            m@ == (MessageModel { reactions: m@.reactions, ..m0 }),
            rx_index(oldrx.map_values(|p: (String, u64)| (p.0@, p.1)), key@, 0) == rx_index(
                oldrx.map_values(|p: (String, u64)| (p.0@, p.1)),
                key@,
                j as int,
            ),
        ensures
            m@ == (MessageModel { reactions: m@.reactions, ..m0 }),
            ({
                let model = oldrx.map_values(|p: (String, u64)| (p.0@, p.1));
                if found {
                    m.reactions@.map_values(|p: (String, u64)| (p.0@, p.1)) == bumped_reactions(
                        model,
                        key@,
                    )
                } else {
                    m.reactions@ == oldrx && rx_index(model, key@, 0) == model.len()
                }
            }),
        decreases rn - j,
    {
        let ghost model = oldrx.map_values(|p: (String, u64)| (p.0@, p.1));
        if text::str_eq(m.reactions[j].0.as_str(), key) {
            let k0 = m.reactions[j].0.clone();
            let c = m.reactions[j].1;
            let bumped: u64 = if c == u64::MAX {
                u64::MAX
            } else {
                c + 1
            };
            m.reactions.set(j, (k0, bumped));
            found = true;
            proof {
                assert(rx_index(model, key@, 0) == j);
                assert(m.reactions@.map_values(|p: (String, u64)| (p.0@, p.1)) =~= bumped_reactions(
                    model,
                    key@,
                ));
            }
            break ;
        }
        j += 1;
    }
    if !found {
        let mut k1 = String::new();
        vstd::string::StringExecFns::append(&mut k1, key);
        m.reactions.push((k1, 1));
        proof {
            let model = oldrx.map_values(|p: (String, u64)| (p.0@, p.1));
            assert(m.reactions@.map_values(|p: (String, u64)| (p.0@, p.1)) =~= bumped_reactions(
                model,
                key@,
            ));
        }
    }
    let ghost mm = m@;
    messages.insert(idx, m);
    proof {
        let s = old(messages)@;
        let i = idx as int;
        assert(messages@[i]@ == mm);
        assert(s[i]@.reactions =~= oldrx.map_values(|p: (String, u64)| (p.0@, p.1)));
        assert(mm.reactions == bumped_reactions(s[i]@.reactions, key@));
        assert(messages@[i]@ =~= MessageModel { reactions: bumped_reactions(s[i]@.reactions, key@), ..s[i]@ });
        assert forall|k: int| 0 <= k < s.len() && k != i implies #[trigger] messages@[k] == s[k]
            by {}
    }
}

/// A fetched history page put in display order: the page arrives newest
/// first, is reversed to chronological order, and only the most recent
/// `limit` messages are kept.
pub open spec fn page_model(page: Seq<DisplayMessage>, limit: int) -> Seq<MessageModel> {
    let rev = models(page).reverse();
    if rev.len() > limit {
        rev.subrange(rev.len() - limit, rev.len() as int)
    } else {
        rev
    }
}

/// Put a backward-paginated chunk in display order.
pub fn finalize_history_page(page: &Vec<DisplayMessage>, limit: u32) -> (r: Vec<DisplayMessage>)
    ensures
        models(r@) == page_model(page@, limit as int),
{
    let n = page.len();
    let keep: usize = if (limit as usize) < n {
        limit as usize
    } else {
        n
    };
    let mut out: Vec<DisplayMessage> = Vec::new();
    let mut i: usize = 0;
    while i < keep
        invariant
            i <= keep,
            keep <= n,
            n == page@.len(),
            keep == if (limit as int) < n { limit as int } else { n as int },
            out@.len() == i,
            forall|k: int| 0 <= k < i ==> #[trigger] out@[k]@ == page@[keep - 1 - k]@,
        decreases keep - i,
    {
        out.push(page[keep - 1 - i].duplicate());
        i += 1;
    }
    proof {
        assert(models(out@) =~= page_model(page@, limit as int));
    }
    out
}

/// Prepend an older page to the displayed list, keeping the newer messages in
/// place after it.
pub fn prepend_messages(displayed: &mut Vec<DisplayMessage>, older: Vec<DisplayMessage>)
    ensures
        final(displayed)@.len() == older@.len() + old(displayed)@.len(),
        models(final(displayed)@) == models(older@) + models(old(displayed)@),
{
    let ghost olderv = older@;
    let mut merged = older;
    let n = displayed.len();
    let mut i: usize = 0;
    while i < n
        invariant
            i <= n,
            displayed@ == old(displayed)@,
            n == displayed@.len(),
            merged@.len() == olderv.len() + i,
            models(merged@) =~= models(olderv) + models(displayed@.subrange(0, i as int)),
        decreases n - i,
    {
        let ghost pre = merged@;
        merged.push(displayed[i].duplicate());
        proof {
            assert(merged@ == pre.push(merged@.last()));
            assert(merged@.last()@ == displayed@[i as int]@);
            assert forall|k: int| 0 <= k < pre.len() + 1 implies #[trigger] models(merged@)[k]
                == (models(olderv) + models(displayed@.subrange(0, i + 1)))[k] by {
                if k < pre.len() {
                    assert(models(merged@)[k] == pre[k]@);
                    assert(models(pre)[k] == pre[k]@);
                    if k >= olderv.len() {
                        assert(models(displayed@.subrange(0, i as int))[k - olderv.len()]
                            == displayed@[k - olderv.len()]@);
                        assert(models(displayed@.subrange(0, i + 1))[k - olderv.len()]
                            == displayed@[k - olderv.len()]@);
                    }
                } else {
                    assert(models(displayed@.subrange(0, i + 1))[i as int] == displayed@[i as int]@);
                }
            }
            assert(models(merged@) =~= models(olderv) + models(
                displayed@.subrange(0, i + 1),
            ));
        }
        i += 1;
    }
    proof {
        assert(displayed@.subrange(0, n as int) =~= displayed@);
    }
    *displayed = merged;
}


/// Message lookup sees only the models: two lists that model alike give the
/// same first index for every event id.
pub proof fn lemma_msg_index_congruent(
    a: Seq<DisplayMessage>,
    b: Seq<DisplayMessage>,
    eid: Seq<char>,
    from: int,
)
    requires
        models(a) == models(b),
        0 <= from <= a.len(),
    ensures
        msg_index(a, eid, from) == msg_index(b, eid, from),
    decreases a.len() - from,
{
    assert(a.len() == b.len()) by {
        assert(models(a).len() == a.len());
        assert(models(b).len() == b.len());
    }
    if from < a.len() {
        assert(models(a)[from] == models(b)[from]);
        assert(a[from]@ == b[from]@);
        assert((a[from].event_id matches Some(e) && e@ == eid) == (b[from].event_id matches Some(
            e2,
        ) && e2@ == eid)) by {
            assert(crate::types::view_opt_string(a[from].event_id) == crate::types::view_opt_string(
                b[from].event_id,
            ));
        }
        if !(a[from].event_id matches Some(e) && e@ == eid) {
            lemma_msg_index_congruent(a, b, eid, from + 1);
        }
    }
}

/// Batch reply resolution sees only the models: two lists that model alike
/// resolve every position alike.
pub proof fn lemma_resolved_model_congruent(a: Seq<DisplayMessage>, b: Seq<DisplayMessage>, i: int)
    requires
        models(a) == models(b),
        0 <= i < a.len(),
    ensures
        resolved_model(a, a[i]) == resolved_model(b, b[i]),
{
    assert(a.len() == b.len()) by {
        assert(models(a).len() == a.len());
        assert(models(b).len() == b.len());
    }
    assert(a[i]@ == b[i]@) by {
        assert(models(a)[i] == models(b)[i]);
    }
    assert(crate::types::view_opt_string(a[i].reply_to_sender) == crate::types::view_opt_string(
        b[i].reply_to_sender,
    ));
    assert(crate::types::view_opt_string(a[i].reply_to_event_id_raw)
        == crate::types::view_opt_string(b[i].reply_to_event_id_raw));
    if a[i].reply_to_sender is None && (a[i].reply_to_event_id_raw matches Some(eid)) {
        let ev = a[i].reply_to_event_id_raw->Some_0@;
        lemma_msg_index(a, ev, 0);
        lemma_msg_index_congruent(a, b, ev, 0);
        if has_msg(a, ev) {
            let t = msg_index(a, ev, 0);
            assert(a[t]@ == b[t]@) by {
                assert(models(a)[t] == models(b)[t]);
            }
            assert(a[t].sender@ == b[t].sender@);
            assert(a[t].body_view() == b[t].body_view());
            assert(resolved_model(a, a[i]) =~= resolved_model(b, b[i]));
        } else {
            assert(resolved_model(a, a[i]) =~= resolved_model(b, b[i]));
        }
    } else {
        assert(resolved_model(a, a[i]) =~= resolved_model(b, b[i]));
    }
}

} // verus!
