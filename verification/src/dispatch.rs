//! The coordinator's backend-event handling: one function per event kind,
//! and the dispatcher that routes a `MatrixEvent` to it.  Every network call
//! that a handler wants leaves as an `Effect`.

use vstd::prelude::*;
use crate::reconcile;
use crate::state::AppState;
use crate::state::account_index;
use crate::state::lemma_account_index;
use crate::state::find_account;
use crate::state::same_forms;
use crate::state::same_nav;
use crate::state::same_prefs;
use crate::state::same_room_panel;
use crate::text;
use crate::types::ContentModel;
use crate::types::DisplayMessage;
use crate::types::Effect;
use crate::types::MessageContent;
use crate::types::MessageModel;
use crate::types::models;
use crate::types::view_opt_string;

verus! {

/// First index in the pending-echo list holding exactly `body`.
pub open spec fn echo_index(s: Seq<String>, body: Seq<char>, from: int) -> int
    decreases s.len() - from when 0 <= from <= s.len()
{
    if from >= s.len() {
        s.len() as int
    } else if s[from]@ == body {
        from
    } else {
        echo_index(s, body, from + 1)
    }
}

/// Scan the pending-echo list for a body.
pub fn find_echo(echoes: &Vec<String>, body: &str) -> (r: Option<usize>)
    ensures
        match r {
            Some(i) => i == echo_index(echoes@, body@, 0) && i < echoes@.len(),
            None => echo_index(echoes@, body@, 0) == echoes@.len(),
        },
{
    let n = echoes.len();
    let mut i: usize = 0;
    while i < n
        invariant
            i <= n,
            n == echoes@.len(),
            echo_index(echoes@, body@, 0) == echo_index(echoes@, body@, i as int),
        decreases n - i,
    {
        if text::str_eq(echoes[i].as_str(), body) {
            return Some(i);
        }
        i += 1;
    }
    None
}

/// An incoming message is swallowed as the confirmation of a local echo when
/// its body is pending and its sender is one of the logged-in accounts.
pub open spec fn echo_hit(s: &AppState, sender: Seq<char>, body: Seq<char>) -> bool {
    echo_index(s.pending_echoes@, body, 0) < s.pending_echoes@.len() && s.has_account(sender)
}

/// The reply context an incoming message resolves to: the displayed list is
/// searched first, then the room's cache.
pub open spec fn incoming_ctx(s: &AppState, room_id: Seq<char>, reply: Option<Seq<char>>) -> Option<
    (Seq<char>, Seq<char>),
> {
    match reply {
        Some(eid) => {
            let p = reconcile::reply_context_of(s.chat.messages@, eid);
            if p is Some {
                p
            } else {
                reconcile::reply_context_of(s.room_messages.msgs_of(room_id), eid)
            }
        },
        None => None,
    }
}

/// The model of the message an incoming event appends.
pub open spec fn incoming_model(
    s: &AppState,
    room_id: Seq<char>,
    sender: Seq<char>,
    content: ContentModel,
    timestamp: u64,
    event_id: Seq<char>,
    reply: Option<Seq<char>>,
) -> MessageModel {
    let ctx = incoming_ctx(s, room_id, reply);
    MessageModel {
        event_id: Some(event_id),
        sender: sender,
        content: content,
        timestamp: timestamp,
        reply_to_sender: match ctx {
            Some(c) => Some(c.0),
            None => None,
        },
        reply_to_body: match ctx {
            Some(c) => Some(c.1),
            None => None,
        },
        reply_to_event_id_raw: reply,
        reactions: Seq::empty(),
    }
}

impl AppState {
    /// A backend-pushed room message: either it confirms a pending local echo
    /// from one of this user's own accounts and is swallowed, or its reply
    /// reference is resolved and it is appended to the room's cache, and to
    /// the displayed list when its room is the active one, with a read
    /// receipt requested for it.
    pub fn apply_message_event(
        &mut self,
        room_id: &str,
        sender: &str,
        body: String,
        timestamp: u64,
        event_id: String,
        reply_to_event_id: Option<String>,
    ) -> (effects: Vec<Effect>)
        ensures
            message_event_post(
                old(self),
                final(self),
                room_id@,
                sender@,
                body@,
                timestamp,
                event_id@,
                view_opt_string(reply_to_event_id),
                effects@,
            ),
    {
        let mut effects: Vec<Effect> = Vec::new();
        // Echo suppression: a pending body sent by one of our own accounts.
        if let Some(pos) = find_echo(&self.pending_echoes, body.as_str()) {
            if find_account(&self.accounts, sender).is_some() {
                proof {
                    lemma_account_index(self.accounts@, sender@, 0);
                }
                self.pending_echoes.remove(pos);
                return effects;
            }
        }
        proof {
            lemma_account_index(self.accounts@, sender@, 0);
        }
        // Resolve the reply reference, displayed list first, then the cache.
        let (reply_to_sender, reply_to_body) = match &reply_to_event_id {
            Some(eid) => reconcile::resolve_reply_context(
                &self.chat.messages,
                self.room_messages.get(room_id),
                eid.as_str(),
            ),
            None => (None, None),
        };
        let receipt_eid = event_id.clone();
        let msg = DisplayMessage {
            event_id: Some(event_id),
            sender: <String as vstd::string::StringExecFns>::from_str(sender),
            content: MessageContent::Text(body),
            timestamp,
            reply_to_sender,
            reply_to_body,
            reply_to_event_id_raw: reply_to_event_id,
            reactions: Vec::new(),
        };
        let ghost m = incoming_model(
            old(self),
            room_id@,
            sender@,
            ContentModel::Text(msg.content.body_view()),
            timestamp,
            receipt_eid@,
            view_opt_string(msg.reply_to_event_id_raw),
        );
        proof {
            assert(msg@ =~= m);
        }
        let is_active = match &self.active_room {
            Some(r) => text::str_eq(r.as_str(), room_id),
            None => false,
        };
        if is_active {
            let copy = msg.duplicate();
            self.room_messages.push_msg(room_id, copy);
            self.chat.messages.push(msg);
            proof {
                assert(models(self.chat.messages@) =~= models(old(self).chat.messages@).push(m));
                assert(models(self.room_messages.msgs_of(room_id@)) =~= models(
                    old(self).room_messages.msgs_of(room_id@),
                ).push(m));
            }
            if let Some(aid) = &self.active_account_id {
                effects.push(
                    Effect::SendReadReceipt {
                        account_id: aid.clone(),
                        room_id: <String as vstd::string::StringExecFns>::from_str(room_id),
                        event_id: receipt_eid,
                    },
                );
            }
        } else {
            self.room_messages.push_msg(room_id, msg);
            proof {
                assert(models(self.room_messages.msgs_of(room_id@)) =~= models(
                    old(self).room_messages.msgs_of(room_id@),
                ).push(m));
            }
        }
        effects
    }


    /// A backend-pushed image or file message: no echo suppression, otherwise
    /// handled as a text message is.
    pub fn apply_media_event(
        &mut self,
        room_id: &str,
        sender: &str,
        content: MessageContent,
        timestamp: u64,
        event_id: String,
        reply_to_event_id: Option<String>,
    ) -> (effects: Vec<Effect>)
        ensures
            media_event_post(
                old(self),
                final(self),
                room_id@,
                sender@,
                content@,
                timestamp,
                event_id@,
                view_opt_string(reply_to_event_id),
            ),
            effects@.len() == 0,
    {
        let effects: Vec<Effect> = Vec::new();
        let (reply_to_sender, reply_to_body) = match &reply_to_event_id {
            Some(eid) => reconcile::resolve_reply_context(
                &self.chat.messages,
                self.room_messages.get(room_id),
                eid.as_str(),
            ),
            None => (None, None),
        };
        let msg = DisplayMessage {
            event_id: Some(event_id),
            sender: <String as vstd::string::StringExecFns>::from_str(sender),
            content,
            timestamp,
            reply_to_sender,
            reply_to_body,
            reply_to_event_id_raw: reply_to_event_id,
            reactions: Vec::new(),
        };
        let ghost m = incoming_model(
            old(self),
            room_id@,
            sender@,
            msg.content@,
            timestamp,
            msg.event_id->Some_0@,
            view_opt_string(msg.reply_to_event_id_raw),
        );
        proof {
            assert(msg@ =~= m);
        }
        let is_active = match &self.active_room {
            Some(r) => text::str_eq(r.as_str(), room_id),
            None => false,
        };
        if is_active {
            let copy = msg.duplicate();
            self.room_messages.push_msg(room_id, copy);
            self.chat.messages.push(msg);
            proof {
                assert(models(self.chat.messages@) =~= models(old(self).chat.messages@).push(m));
                assert(models(self.room_messages.msgs_of(room_id@)) =~= models(
                    old(self).room_messages.msgs_of(room_id@),
                ).push(m));
            }
        } else {
            self.room_messages.push_msg(room_id, msg);
            proof {
                assert(models(self.room_messages.msgs_of(room_id@)) =~= models(
                    old(self).room_messages.msgs_of(room_id@),
                ).push(m));
            }
        }
        effects
    }

    /// A reaction event: one more `key` on the message `event_id`, counted in
    /// the displayed list when the room is active, and in the room's cache.
    pub fn apply_reaction_event(&mut self, room_id: &str, event_id: &str, key: &str)
        ensures
            reaction_event_post(old(self), final(self), room_id@, event_id@, key@),
    {
        let is_active = match &self.active_room {
            Some(r) => text::str_eq(r.as_str(), room_id),
            None => false,
        };
        if is_active {
            let ghost pre = self.chat.messages@;
            reconcile::apply_reaction_to_list(&mut self.chat.messages, event_id, key);
            proof {
                if reconcile::has_msg(pre, event_id@) {
                    let i = reconcile::msg_index(pre, event_id@, 0);
                    reconcile::lemma_msg_index(pre, event_id@, 0);
                    assert(models(self.chat.messages@)[i] == self.chat.messages@[i]@);
                }
            }
        }
        match self.room_messages.take(room_id) {
            Some(mut cached) => {
                let ghost prec = cached@;
                reconcile::apply_reaction_to_list(&mut cached, event_id, key);
                self.room_messages.set_msgs(room_id, cached);
                proof {
                    if reconcile::has_msg(prec, event_id@) {
                        let i = reconcile::msg_index(prec, event_id@, 0);
                        reconcile::lemma_msg_index(prec, event_id@, 0);
                        assert(self.room_messages.msgs_of(room_id@) == cached@);
                        assert(models(self.room_messages.msgs_of(room_id@))[i]
                            == self.room_messages.msgs_of(room_id@)[i]@);
                    }
                }
            },
            None => {},
        }
    }

    /// A typing notification for the active room: every typist who is not one
    /// of this user's own accounts is shown by the local part of their id.
    pub fn apply_typing_event(&mut self, room_id: &str, user_ids: &Vec<String>)
        ensures
            typing_event_post(old(self), final(self), room_id@, crate::rooms::strs(user_ids@)),
    {
        let is_active = match &self.active_room {
            Some(r) => text::str_eq(r.as_str(), room_id),
            None => false,
        };
        if !is_active {
            return ;
        }
        let ghost all = crate::rooms::strs(user_ids@);
        let n = user_ids.len();
        let mut out: Vec<String> = Vec::new();
        let mut j: usize = 0;
        proof {
            assert(all.skip(0) =~= all);
            assert(crate::rooms::strs(out@) + visible_typers(old(self), all) =~= visible_typers(
                old(self),
                all,
            ));
        }
        while j < n
            invariant
                j <= n,
                n == user_ids@.len(),
                self == old(self),
                all == crate::rooms::strs(user_ids@),
                visible_typers(old(self), all) == crate::rooms::strs(out@) + visible_typers(
                    old(self),
                    all.skip(j as int),
                ),
            decreases n - j,
        {
            proof {
                assert(all.skip(j as int)[0] == user_ids@[j as int]@);
                assert(all.skip(j as int).drop_first() =~= all.skip(j + 1));
            }
            let ghost pre = out@;
            if find_account(&self.accounts, user_ids[j].as_str()).is_none() {
                let lp = text::localpart(user_ids[j].as_str());
                out.push(lp);
                proof {
                    lemma_account_index(self.accounts@, user_ids@[j as int]@, 0);
                    assert(crate::rooms::strs(out@) =~= crate::rooms::strs(pre) + seq![
                        text::localpart_of(user_ids@[j as int]@),
                    ]);
                    assert(crate::rooms::strs(pre) + (seq![
                        text::localpart_of(user_ids@[j as int]@),
                    ] + visible_typers(old(self), all.skip(j + 1))) =~= (crate::rooms::strs(pre)
                        + seq![text::localpart_of(user_ids@[j as int]@)]) + visible_typers(
                        old(self),
                        all.skip(j + 1),
                    ));
                }
            } else {
                proof {
                    lemma_account_index(self.accounts@, user_ids@[j as int]@, 0);
                }
            }
            j += 1;
        }
        proof {
            assert(all.skip(n as int) =~= Seq::<Seq<char>>::empty());
            assert(crate::rooms::strs(out@) + visible_typers(old(self), all.skip(n as int))
                =~= crate::rooms::strs(out@));
        }
        self.chat.typing_users = out;
    }

    /// The first sync round of an account finished: mark it synced and ask
    /// for a room refresh; when the active room belongs to it and nothing is
    /// displayed yet, ask for its history too.
    pub fn apply_sync_complete(&mut self, account_id: &str) -> (effects: Vec<Effect>)
        ensures
            same_forms(old(self), final(self)),
            same_prefs(old(self), final(self)),
            same_nav(old(self), final(self)),
            same_room_panel(old(self), final(self)),
            final(self).chat == old(self).chat,
            final(self).sas == old(self).sas,
            final(self).pending_echoes == old(self).pending_echoes,
            final(self).room_messages == old(self).room_messages,
            final(self).room_history_tokens == old(self).room_history_tokens,
            ({
                let idx = account_index(old(self).accounts@, account_id@, 0);
                if idx < old(self).accounts@.len() {
                    final(self).accounts@ == old(self).accounts@.update(
                        idx,
                        crate::types::Account {
                            sync_complete: true,
                            ..old(self).accounts@[idx]
                        },
                    )
                } else {
                    final(self).accounts == old(self).accounts
                }
            }),
            effects@.len() >= 1 && effects@[0] is RefreshRooms,
            ({
                let refetch = old(self).active_room matches Some(r)
                    && (old(self).active_account_id matches Some(aid) && aid@ == account_id@)
                    && old(self).chat.messages@.len() == 0 && old(self).has_account(account_id@);
                if refetch {
                    effects@.len() == 2 && (effects@[1] matches Effect::FetchHistory {
                        account_id: a2,
                        room_id: r2,
                        limit,
                    } && a2@ == account_id@ && (old(self).active_room matches Some(r) && r2@ == r@)
                        && limit == 50)
                } else {
                    effects@.len() == 1
                }
            }),
    {
        let mut effects: Vec<Effect> = Vec::new();
        if let Some(idx) = find_account(&self.accounts, account_id) {
            let mut a = self.accounts[idx].duplicate();
            a.sync_complete = true;
            self.accounts.set(idx, a);
            proof {
                crate::state::lemma_account_index_update(
                    old(self).accounts@,
                    account_id@,
                    0,
                    idx as int,
                    self.accounts@[idx as int],
                );
            }
        }
        // Status line: one entry per account with its sync state.
        let ghost snap = *self;
        let mut status = String::new();
        let an = self.accounts.len();
        let mut i: usize = 0;
        while i < an
            invariant
                i <= an,
                an == self.accounts@.len(),
                *self == snap,
            decreases an - i,
        {
            if i > 0 {
                vstd::string::StringExecFns::append(&mut status, " | ");
            }
            vstd::string::StringExecFns::append(&mut status, self.accounts[i].homeserver.as_str());
            if self.accounts[i].sync_complete {
                vstd::string::StringExecFns::append(&mut status, ": synced");
            } else {
                vstd::string::StringExecFns::append(&mut status, ": syncing");
            }
            i += 1;
        }
        self.status_msg = status;
        effects.push(Effect::RefreshRooms);
        proof {
            lemma_account_index(old(self).accounts@, account_id@, 0);
            if account_index(old(self).accounts@, account_id@, 0) < old(self).accounts@.len() {
                crate::state::lemma_account_index_update(
                    old(self).accounts@,
                    account_id@,
                    0,
                    account_index(old(self).accounts@, account_id@, 0),
                    self.accounts@[account_index(old(self).accounts@, account_id@, 0)],
                );
            }
        }
        let refetch_room: Option<String> = match (&self.active_room, &self.active_account_id) {
            (Some(r), Some(aid)) => {
                if text::str_eq(aid.as_str(), account_id) && self.chat.messages.len() == 0
                    && find_account(&self.accounts, account_id).is_some() {
                    Some(r.clone())
                } else {
                    None
                }
            },
            _ => None,
        };
        if let Some(r) = refetch_room {
            effects.push(
                Effect::FetchHistory {
                    account_id: <String as vstd::string::StringExecFns>::from_str(account_id),
                    room_id: r,
                    limit: 50,
                },
            );
        }
        effects
    }

    /// A sync failure: only the failing account is marked, everything else
    /// stands.
    pub fn apply_sync_error(&mut self, account_id: &str, error: &str)
        ensures
            same_forms(old(self), final(self)),
            same_prefs(old(self), final(self)),
            same_nav(old(self), final(self)),
            same_room_panel(old(self), final(self)),
            final(self).chat == old(self).chat,
            final(self).sas == old(self).sas,
            final(self).pending_echoes == old(self).pending_echoes,
            final(self).room_messages == old(self).room_messages,
            final(self).room_history_tokens == old(self).room_history_tokens,
            ({
                let idx = account_index(old(self).accounts@, account_id@, 0);
                if idx < old(self).accounts@.len() {
                    final(self).accounts@ == old(self).accounts@.update(
                        idx,
                        crate::types::Account {
                            syncing: false,
                            sync_complete: false,
                            ..old(self).accounts@[idx]
                        },
                    )
                } else {
                    final(self).accounts == old(self).accounts
                }
            }),
    {
        if let Some(idx) = find_account(&self.accounts, account_id) {
            let mut a = self.accounts[idx].duplicate();
            a.syncing = false;
            a.sync_complete = false;
            self.accounts.set(idx, a);
        }
        let mut status = <String as vstd::string::StringExecFns>::from_str(account_id);
        vstd::string::StringExecFns::append(&mut status, ": sync error - ");
        vstd::string::StringExecFns::append(&mut status, error);
        self.status_msg = status;
        proof {
            lemma_account_index(old(self).accounts@, account_id@, 0);
        }
    }

    /// Room keys finished downloading: when the room is still the active one
    /// for the same account, ask for its history again.
    pub fn apply_keys_downloaded(&mut self, room_id: &str, account_id: &str) -> (effects: Vec<
        Effect,
    >)
        ensures
            keys_downloaded_post(old(self), final(self), room_id@, account_id@, effects@),
    {
        let mut effects: Vec<Effect> = Vec::new();
        self.chat.downloading_keys = false;
        let room_matches = match &self.active_room {
            Some(r) => text::str_eq(r.as_str(), room_id),
            None => false,
        };
        let account_matches = match &self.active_account_id {
            Some(aid) => text::str_eq(aid.as_str(), account_id),
            None => false,
        };
        proof {
            lemma_account_index(self.accounts@, account_id@, 0);
        }
        if room_matches && account_matches && find_account(&self.accounts, account_id).is_some() {
            effects.push(
                Effect::FetchHistory {
                    account_id: <String as vstd::string::StringExecFns>::from_str(account_id),
                    room_id: <String as vstd::string::StringExecFns>::from_str(room_id),
                    limit: 50,
                },
            );
        }
        effects
    }

    /// An incoming verification request: surface it in the overlay, but only
    /// when no other modal (except settings) is open and the account exists.
    pub fn apply_verification_incoming(&mut self, account_id: &str, user_id: String, flow_id: String)
        ensures
            verification_incoming_post(old(self), final(self), account_id@, user_id@, flow_id@),
    {
        let eligible = match self.overlay {
            crate::types::Overlay::Closed | crate::types::Overlay::Settings => true,
            _ => false,
        };
        if !eligible {
            return ;
        }
        proof {
            lemma_account_index(self.accounts@, account_id@, 0);
        }
        if let Some(idx) = find_account(&self.accounts, account_id) {
            self.sas = crate::state::SasUiState {
                state: crate::types::SasOverlayState::Incoming,
                emojis: Vec::new(),
                error: None,
                account_idx: idx,
                flow_id: Some(flow_id),
                user_id: Some(user_id),
                has_handle: false,
            };
            self.overlay = crate::types::Overlay::SasVerify;
        }
    }

    /// Whether a SAS event for `flow_id` may touch the overlay state: an
    /// event for a flow other than the bound one is stale and is ignored;
    /// while the verification overlay is still waiting for its first flow,
    /// the event binds it.
    pub open spec fn sas_event_applies(&self, flow_id: Seq<char>) -> bool {
        match self.sas.flow_id {
            Some(f) => f@ == flow_id,
            None => self.overlay is SasVerify,
        }
    }

    fn sas_event_applies_exec(&self, flow_id: &str) -> (r: bool)
        ensures
            r == self.sas_event_applies(flow_id@),
    {
        match &self.sas.flow_id {
            Some(f) => text::str_eq(f.as_str(), flow_id),
            None => matches!(self.overlay, crate::types::Overlay::SasVerify),
        }
    }

    /// The SAS flow started: remember the flow and that a handle is held.
    pub fn apply_sas_started(&mut self, flow_id: String)
        ensures
            sas_started_post(old(self), final(self), flow_id@),
    {
        if self.sas_event_applies_exec(flow_id.as_str()) {
            self.sas.has_handle = true;
            self.sas.flow_id = Some(flow_id);
        }
    }

    /// The emoji set arrived for the active flow: show it.
    pub fn apply_sas_emojis(&mut self, flow_id: &str, emojis: Vec<(String, String)>)
        ensures
            sas_emojis_post(old(self), final(self), flow_id@, emojis@),
    {
        if self.sas_event_applies_exec(flow_id) {
            self.sas.emojis = emojis;
            self.sas.state = crate::types::SasOverlayState::Emojis;
        }
    }

    /// The active flow finished successfully.
    pub fn apply_sas_done(&mut self, flow_id: &str)
        ensures
            sas_done_post(old(self), final(self), flow_id@),
    {
        if self.sas_event_applies_exec(flow_id) {
            self.sas.state = crate::types::SasOverlayState::Done;
            self.status_msg = <String as vstd::string::StringExecFns>::from_str(
                "Session verified!",
            );
        }
    }

    /// The active flow was cancelled, with the peer's reason.
    pub fn apply_sas_cancelled(&mut self, flow_id: &str, reason: String)
        ensures
            sas_cancelled_post(old(self), final(self), flow_id@, reason@),
    {
        if self.sas_event_applies_exec(flow_id) {
            self.sas.state = crate::types::SasOverlayState::Failed;
            self.sas.error = Some(reason);
        }
    }

    /// Whether another older page can be requested right now: an active room
    /// with an account and a stored, unexhausted token.
    pub open spec fn can_fetch_older(&self) -> bool {
        (self.active_room matches Some(r) && (self.active_account_id is Some)
            && self.room_history_tokens.has_more(r@))
    }

    /// Ask for the page behind the stored token of the active room.  Once the
    /// token is exhausted this is a no-op apart from the status line: nothing
    /// is requested, nothing changes, and repeated calls stay no-ops.
    pub fn begin_fetch_older(&mut self) -> (r: Option<Effect>)
        ensures
            same_forms(old(self), final(self)),
            same_prefs(old(self), final(self)),
            same_nav(old(self), final(self)),
            same_room_panel(old(self), final(self)),
            final(self).accounts == old(self).accounts,
            final(self).chat == old(self).chat,
            final(self).sas == old(self).sas,
            final(self).pending_echoes == old(self).pending_echoes,
            final(self).room_messages == old(self).room_messages,
            final(self).room_history_tokens == old(self).room_history_tokens,
            r is Some <==> old(self).can_fetch_older(),
            final(self).can_fetch_older() == old(self).can_fetch_older(),
            (r matches Some(e) ==> (e matches Effect::FetchOlder { account_id, room_id, token, limit }
                && (old(self).active_account_id matches Some(aid) && account_id@ == aid@)
                && (old(self).active_room matches Some(ar) && room_id@ == ar@ && (old(
                    self,
                ).room_history_tokens.token_of(ar@) matches Some(t) && token@ == t@))
                && limit == 50)),
            !old(self).can_fetch_older() ==> final(self).chat == old(self).chat,
    {
        let (room_id, account_id) = match (&self.active_room, &self.active_account_id) {
            (Some(r), Some(a)) => (r.clone(), a.clone()),
            _ => {
                return None;
            },
        };
        let token: Option<String> = match self.room_history_tokens.get(room_id.as_str()) {
            Some(stored) => match stored {
                Some(t) => Some(t.clone()),
                None => {
                    // Exhausted: the visible signal, and nothing else.
                    self.status_msg = <String as vstd::string::StringExecFns>::from_str(
                        "No more messages",
                    );
                    None
                },
            },
            None => None,
        };
        match token {
            Some(t) => {
                self.status_msg = <String as vstd::string::StringExecFns>::from_str(
                    "Loading older messages...",
                );
                Some(
                    Effect::FetchOlder {
                        account_id,
                        room_id,
                        token: t,
                        limit: 50,
                    },
                )
            },
            None => None,
        }
    }

    /// Merge a fetched older page in: an empty page exhausts the token; a
    /// non-empty one is prepended to the displayed list with the selection
    /// and scroll shifted so the visual position does not jump.
    pub fn apply_older_page(
        &mut self,
        room_id: &str,
        msgs: Vec<DisplayMessage>,
        next_token: Option<String>,
    )
        requires
            old(self).chat.messages@.len() + msgs@.len() <= usize::MAX,
            (old(self).chat.selected_message matches Some(sel) ==> sel + msgs@.len() <= usize::MAX),
            old(self).chat.scroll_offset + msgs@.len() <= usize::MAX,
        ensures
            same_forms(old(self), final(self)),
            same_prefs(old(self), final(self)),
            same_nav(old(self), final(self)),
            same_room_panel(old(self), final(self)),
            final(self).accounts == old(self).accounts,
            final(self).sas == old(self).sas,
            final(self).pending_echoes == old(self).pending_echoes,
            final(self).room_messages == old(self).room_messages,
            msgs@.len() == 0 ==> {
                &&& final(self).chat == old(self).chat
                &&& final(self).room_history_tokens.token_of(room_id@) is None
                &&& final(self).room_history_tokens.contains_room(room_id@)
                &&& final(self).status_msg@ == "No more messages"@
            },
            msgs@.len() > 0 ==> {
                &&& models(final(self).chat.messages@) == models(msgs@) + models(
                    old(self).chat.messages@,
                )
                &&& final(self).chat.selected_message == (match old(self).chat.selected_message {
                    Some(sel) => Some((sel + msgs@.len()) as usize),
                    None => None,
                })
                &&& final(self).chat.scroll_offset == old(self).chat.scroll_offset + msgs@.len()
                &&& final(self).room_history_tokens.token_of(room_id@) == next_token
                &&& final(self).room_history_tokens.contains_room(room_id@)
            },
            tokens_preserved_except(old(self), final(self), room_id@),
    {
        if msgs.len() == 0 {
            self.room_history_tokens.set(room_id, None);
            self.status_msg = <String as vstd::string::StringExecFns>::from_str(
                "No more messages",
            );
            return ;
        }
        let count = msgs.len();
        reconcile::prepend_messages(&mut self.chat.messages, msgs);
        if let Some(sel) = self.chat.selected_message {
            self.chat.selected_message = Some(sel + count);
        }
        self.chat.scroll_offset = self.chat.scroll_offset + count;
        self.room_history_tokens.set(room_id, next_token);
        self.status_msg = <String as vstd::string::StringExecFns>::from_str(
            "Loaded older messages",
        );
    }

    /// After a message was handed to the network: show it immediately as a
    /// provisional message with no event id, cache it, and remember its body
    /// so the sync echo of it is swallowed.
    pub fn record_local_echo(
        &mut self,
        room_id: &str,
        sender: &str,
        body: &str,
        now_ts: u64,
        reply: Option<(String, String)>,
    )
        ensures
            same_forms(old(self), final(self)),
            same_prefs(old(self), final(self)),
            same_nav(old(self), final(self)),
            same_room_panel(old(self), final(self)),
            final(self).accounts == old(self).accounts,
            final(self).sas == old(self).sas,
            final(self).room_history_tokens == old(self).room_history_tokens,
            final(self).status_msg == old(self).status_msg,
            ({
                let m = echo_model(sender@, body@, now_ts, match reply {
                    Some(r) => Some((r.0@, r.1@)),
                    None => None,
                });
                &&& models(final(self).chat.messages@) == models(old(self).chat.messages@).push(m)
                &&& models(final(self).room_messages.msgs_of(room_id@)) == models(
                    old(self).room_messages.msgs_of(room_id@),
                ).push(m)
                &&& forall|other: Seq<char>|
                    other != room_id@ ==> #[trigger] final(self).room_messages.msgs_of(other)
                        == old(self).room_messages.msgs_of(other)
            }),
            final(self).pending_echoes@.len() == old(self).pending_echoes@.len() + 1,
            final(self).pending_echoes@ == old(self).pending_echoes@.push(
                final(self).pending_echoes@.last(),
            ),
            final(self).pending_echoes@.last()@ == body@,
            final(self).chat.scroll_offset == 0,
            final(self).chat.selected_message == old(self).chat.selected_message,
    {
        let (reply_to_sender, reply_to_eid): (Option<String>, Option<String>) = match reply {
            Some((eid, rsender)) => (Some(rsender), Some(eid)),
            None => (None, None),
        };
        let msg = DisplayMessage {
            event_id: None,
            sender: <String as vstd::string::StringExecFns>::from_str(sender),
            content: MessageContent::Text(<String as vstd::string::StringExecFns>::from_str(body)),
            timestamp: now_ts,
            reply_to_sender,
            reply_to_body: None,
            reply_to_event_id_raw: reply_to_eid,
            reactions: Vec::new(),
        };
        let ghost m = msg@;
        let copy = msg.duplicate();
        self.chat.messages.push(msg);
        self.room_messages.push_msg(room_id, copy);
        self.pending_echoes.push(<String as vstd::string::StringExecFns>::from_str(body));
        self.chat.scroll_offset = 0;
        proof {
            assert(models(self.chat.messages@) =~= models(old(self).chat.messages@).push(m));
            assert(models(self.room_messages.msgs_of(room_id@)) =~= models(
                old(self).room_messages.msgs_of(room_id@),
            ).push(m));
            assert(m =~= echo_model(sender@, body@, now_ts, match reply {
                Some(r) => Some((r.0@, r.1@)),
                None => None,
            }));
        }
    }

    /// Route one backend event to its handler; the dispatcher adds nothing
    /// of its own, and each event kind carries its handler's full guarantee.
    /// A `RoomsUpdated` only asks for a room-list refresh.
    pub fn handle_matrix_event(&mut self, ev: crate::types::MatrixEvent) -> (effects: Vec<Effect>)
        ensures
            same_prefs(old(self), final(self)),
            final(self).running == old(self).running,
            match ev {
                crate::types::MatrixEvent::Message {
                    room_id,
                    sender,
                    body,
                    timestamp,
                    event_id,
                    reply_to_event_id,
                } => message_event_post(
                    old(self),
                    final(self),
                    room_id@,
                    sender@,
                    body@,
                    timestamp,
                    event_id@,
                    view_opt_string(reply_to_event_id),
                    effects@,
                ),
                crate::types::MatrixEvent::ImageMessage {
                    room_id,
                    sender,
                    timestamp,
                    event_id,
                    body,
                    reply_to_event_id,
                } => media_event_post(
                    old(self),
                    final(self),
                    room_id@,
                    sender@,
                    ContentModel::Image(body@),
                    timestamp,
                    event_id@,
                    view_opt_string(reply_to_event_id),
                ) && effects@.len() == 0,
                crate::types::MatrixEvent::FileMessage {
                    room_id,
                    sender,
                    timestamp,
                    event_id,
                    body,
                    media_type,
                    reply_to_event_id,
                } => media_event_post(
                    old(self),
                    final(self),
                    room_id@,
                    sender@,
                    ContentModel::File(body@, media_type),
                    timestamp,
                    event_id@,
                    view_opt_string(reply_to_event_id),
                ) && effects@.len() == 0,
                crate::types::MatrixEvent::Typing { room_id, user_ids } => typing_event_post(
                    old(self),
                    final(self),
                    room_id@,
                    crate::rooms::strs(user_ids@),
                ) && effects@.len() == 0,
                crate::types::MatrixEvent::Reaction { room_id, event_id, key } => reaction_event_post(
                    old(self),
                    final(self),
                    room_id@,
                    event_id@,
                    key@,
                ) && effects@.len() == 0,
                crate::types::MatrixEvent::RoomsUpdated => *final(self) == *old(self)
                    && effects@.len() == 1 && effects@[0] is RefreshRooms,
                crate::types::MatrixEvent::SyncComplete { account_id } => sync_complete_post(
                    old(self),
                    final(self),
                    account_id@,
                    effects@,
                ),
                crate::types::MatrixEvent::SyncError { account_id, error } => sync_error_post(
                    old(self),
                    final(self),
                    account_id@,
                ) && effects@.len() == 0,
                crate::types::MatrixEvent::KeysDownloaded { room_id, account_id } => keys_downloaded_post(
                    old(self),
                    final(self),
                    room_id@,
                    account_id@,
                    effects@,
                ),
                crate::types::MatrixEvent::VerificationIncoming {
                    account_id,
                    user_id,
                    flow_id,
                } => verification_incoming_post(
                    old(self),
                    final(self),
                    account_id@,
                    user_id@,
                    flow_id@,
                ) && effects@.len() == 0,
                crate::types::MatrixEvent::SasStarted { flow_id } => sas_started_post(
                    old(self),
                    final(self),
                    flow_id@,
                ) && effects@.len() == 0,
                crate::types::MatrixEvent::SasEmojis { flow_id, emojis } => sas_emojis_post(
                    old(self),
                    final(self),
                    flow_id@,
                    emojis@,
                ) && effects@.len() == 0,
                crate::types::MatrixEvent::SasDone { flow_id } => sas_done_post(
                    old(self),
                    final(self),
                    flow_id@,
                ) && effects@.len() == 0,
                crate::types::MatrixEvent::SasCancelled { flow_id, reason } => sas_cancelled_post(
                    old(self),
                    final(self),
                    flow_id@,
                    reason@,
                ) && effects@.len() == 0,
            },
    {
        match ev {
            crate::types::MatrixEvent::Message {
                room_id,
                sender,
                body,
                timestamp,
                event_id,
                reply_to_event_id,
            } => self.apply_message_event(
                room_id.as_str(),
                sender.as_str(),
                body,
                timestamp,
                event_id,
                reply_to_event_id,
            ),
            crate::types::MatrixEvent::ImageMessage {
                room_id,
                sender,
                timestamp,
                event_id,
                body,
                reply_to_event_id,
            } => self.apply_media_event(
                room_id.as_str(),
                sender.as_str(),
                MessageContent::Image { name: body },
                timestamp,
                event_id,
                reply_to_event_id,
            ),
            crate::types::MatrixEvent::FileMessage {
                room_id,
                sender,
                timestamp,
                event_id,
                body,
                media_type,
                reply_to_event_id,
            } => self.apply_media_event(
                room_id.as_str(),
                sender.as_str(),
                MessageContent::File { name: body, kind: media_type },
                timestamp,
                event_id,
                reply_to_event_id,
            ),
            crate::types::MatrixEvent::Typing { room_id, user_ids } => {
                self.apply_typing_event(room_id.as_str(), &user_ids);
                Vec::new()
            },
            crate::types::MatrixEvent::Reaction { room_id, event_id, key } => {
                self.apply_reaction_event(room_id.as_str(), event_id.as_str(), key.as_str());
                Vec::new()
            },
            crate::types::MatrixEvent::RoomsUpdated => {
                let mut effects: Vec<Effect> = Vec::new();
                effects.push(Effect::RefreshRooms);
                effects
            },
            crate::types::MatrixEvent::SyncComplete { account_id } => self.apply_sync_complete(
                account_id.as_str(),
            ),
            crate::types::MatrixEvent::SyncError { account_id, error } => {
                self.apply_sync_error(account_id.as_str(), error.as_str());
                Vec::new()
            },
            crate::types::MatrixEvent::KeysDownloaded { room_id, account_id } => self
                .apply_keys_downloaded(room_id.as_str(), account_id.as_str()),
            crate::types::MatrixEvent::VerificationIncoming { account_id, user_id, flow_id } => {
                self.apply_verification_incoming(account_id.as_str(), user_id, flow_id);
                Vec::new()
            },
            crate::types::MatrixEvent::SasStarted { flow_id } => {
                self.apply_sas_started(flow_id);
                Vec::new()
            },
            crate::types::MatrixEvent::SasEmojis { flow_id, emojis } => {
                self.apply_sas_emojis(flow_id.as_str(), emojis);
                Vec::new()
            },
            crate::types::MatrixEvent::SasDone { flow_id } => {
                self.apply_sas_done(flow_id.as_str());
                Vec::new()
            },
            crate::types::MatrixEvent::SasCancelled { flow_id, reason } => {
                self.apply_sas_cancelled(flow_id.as_str(), reason);
                Vec::new()
            },
        }
    }
}

/// The model of a local echo: provisional (no event id), text content, and
/// with the replied-to message named but its snippet left for later.
pub open spec fn echo_model(
    sender: Seq<char>,
    body: Seq<char>,
    now_ts: u64,
    reply: Option<(Seq<char>, Seq<char>)>,
) -> MessageModel {
    MessageModel {
        event_id: None,
        sender: sender,
        content: ContentModel::Text(body),
        timestamp: now_ts,
        reply_to_sender: match reply {
            Some(r) => Some(r.1),
            None => None,
        },
        reply_to_body: None,
        reply_to_event_id_raw: match reply {
            Some(r) => Some(r.0),
            None => None,
        },
        reactions: Seq::empty(),
    }
}

/// Every room but `room` keeps its pagination entry and token.
pub open spec fn tokens_preserved_except(a: &AppState, b: &AppState, room: Seq<char>) -> bool {
    crate::store::tokens_agree_except(&a.room_history_tokens, &b.room_history_tokens, room)
}

/// Everything a SAS event leaves untouched.
pub open spec fn sas_frame(a: &AppState, b: &AppState) -> bool {
    same_forms(a, b) && same_prefs(a, b) && same_nav(a, b) && same_room_panel(a, b) && a.accounts
        == b.accounts && a.chat == b.chat && a.pending_echoes == b.pending_echoes
        && a.room_messages == b.room_messages && a.room_history_tokens == b.room_history_tokens
        && a.input == b.input
}



/// What finishing an account's first sync does: the account is marked
/// synced, the status line is rebuilt, a room refresh is requested, and an
/// active-but-empty room of that account gets its history asked for again.
pub open spec fn sync_complete_post(
    a: &AppState,
    b: &AppState,
    account_id: Seq<char>,
    effects: Seq<Effect>,
) -> bool {
    &&& same_forms(a, b)
    &&& same_prefs(a, b)
    &&& same_nav(a, b)
    &&& same_room_panel(a, b)
    &&& b.chat == a.chat
    &&& b.sas == a.sas
    &&& b.pending_echoes == a.pending_echoes
    &&& b.room_messages == a.room_messages
    &&& b.room_history_tokens == a.room_history_tokens
    &&& ({
        let idx = account_index(a.accounts@, account_id, 0);
        if idx < a.accounts@.len() {
            b.accounts@ == a.accounts@.update(
                idx,
                crate::types::Account { sync_complete: true, ..a.accounts@[idx] },
            )
        } else {
            b.accounts == a.accounts
        }
    })
    &&& effects.len() >= 1 && effects[0] is RefreshRooms
    &&& ({
        let refetch = a.active_room matches Some(r) && (a.active_account_id matches Some(aid)
            && aid@ == account_id) && a.chat.messages@.len() == 0 && a.has_account(account_id);
        if refetch {
            effects.len() == 2 && (effects[1] matches Effect::FetchHistory {
                account_id: a2,
                room_id: r2,
                limit,
            } && a2@ == account_id && (a.active_room matches Some(r) && r2@ == r@) && limit
                == 50)
        } else {
            effects.len() == 1
        }
    })
}

/// What a sync failure does: only the failing account is marked, everything
/// else stands.
pub open spec fn sync_error_post(a: &AppState, b: &AppState, account_id: Seq<char>) -> bool {
    &&& same_forms(a, b)
    &&& same_prefs(a, b)
    &&& same_nav(a, b)
    &&& same_room_panel(a, b)
    &&& b.chat == a.chat
    &&& b.sas == a.sas
    &&& b.pending_echoes == a.pending_echoes
    &&& b.room_messages == a.room_messages
    &&& b.room_history_tokens == a.room_history_tokens
    &&& ({
        let idx = account_index(a.accounts@, account_id, 0);
        if idx < a.accounts@.len() {
            b.accounts@ == a.accounts@.update(
                idx,
                crate::types::Account {
                    syncing: false,
                    sync_complete: false,
                    ..a.accounts@[idx]
                },
            )
        } else {
            b.accounts == a.accounts
        }
    })
}

/// What a finished key download does: the downloading flag clears, and a
/// still-active room of the same account gets its history asked for again.
pub open spec fn keys_downloaded_post(
    a: &AppState,
    b: &AppState,
    room_id: Seq<char>,
    account_id: Seq<char>,
    effects: Seq<Effect>,
) -> bool {
    &&& same_forms(a, b)
    &&& same_prefs(a, b)
    &&& same_nav(a, b)
    &&& same_room_panel(a, b)
    &&& b.accounts == a.accounts
    &&& b.sas == a.sas
    &&& b.pending_echoes == a.pending_echoes
    &&& b.room_messages == a.room_messages
    &&& b.room_history_tokens == a.room_history_tokens
    &&& b.status_msg == a.status_msg
    &&& !b.chat.downloading_keys
    &&& b.chat == (crate::state::ChatState { downloading_keys: false, ..a.chat })
    &&& ({
        let again = (a.active_room matches Some(r) && r@ == room_id) && (a.active_account_id
            matches Some(aid) && aid@ == account_id) && a.has_account(account_id);
        if again {
            effects.len() == 1 && (effects[0] matches Effect::FetchHistory {
                account_id: a2,
                room_id: r2,
                limit,
            } && a2@ == account_id && r2@ == room_id && limit == 50)
        } else {
            effects.len() == 0
        }
    })
}

/// What an incoming verification request does: when no other modal (except
/// settings) is open and the account exists, the overlay opens on the
/// incoming request; otherwise nothing moves.
pub open spec fn verification_incoming_post(
    a: &AppState,
    b: &AppState,
    account_id: Seq<char>,
    user_id: Seq<char>,
    flow_id: Seq<char>,
) -> bool {
    &&& same_forms(a, b)
    &&& same_prefs(a, b)
    &&& same_room_panel(a, b)
    &&& b.accounts == a.accounts
    &&& b.chat == a.chat
    &&& b.pending_echoes == a.pending_echoes
    &&& b.room_messages == a.room_messages
    &&& b.room_history_tokens == a.room_history_tokens
    &&& b.status_msg == a.status_msg
    &&& b.focus == a.focus
    &&& b.running == a.running
    &&& ({
        let eligible = (a.overlay is Closed || a.overlay is Settings) && a.has_account(
            account_id,
        );
        if eligible {
            &&& b.overlay is SasVerify
            &&& b.sas.state is Incoming
            &&& b.sas.account_idx == account_index(a.accounts@, account_id, 0)
            &&& b.sas.flow_id matches Some(f) && f@ == flow_id
            &&& b.sas.user_id matches Some(u) && u@ == user_id
            &&& b.sas.emojis@.len() == 0
            &&& b.sas.error is None
            &&& !b.sas.has_handle
        } else {
            b.overlay == a.overlay && b.sas == a.sas
        }
    })
}

/// What a started SAS flow does: when the event names the bound flow (or
/// binds a waiting overlay), the handle is noted; a stale flow id changes
/// nothing.
pub open spec fn sas_started_post(a: &AppState, b: &AppState, flow_id: Seq<char>) -> bool {
    &&& sas_frame(a, b)
    &&& b.status_msg == a.status_msg
    &&& (if a.sas_event_applies(flow_id) {
        &&& b.sas == (crate::state::SasUiState {
            has_handle: true,
            flow_id: b.sas.flow_id,
            ..a.sas
        })
        &&& b.sas.flow_id matches Some(f) && f@ == flow_id
    } else {
        b.sas == a.sas
    })
}

/// What an arrived emoji set does for the bound flow; a stale flow id
/// changes nothing.
pub open spec fn sas_emojis_post(
    a: &AppState,
    b: &AppState,
    flow_id: Seq<char>,
    emojis: Seq<(String, String)>,
) -> bool {
    &&& sas_frame(a, b)
    &&& b.status_msg == a.status_msg
    &&& (if a.sas_event_applies(flow_id) {
        b.sas == (crate::state::SasUiState {
            emojis: b.sas.emojis,
            state: crate::types::SasOverlayState::Emojis,
            ..a.sas
        }) && b.sas.emojis@ == emojis
    } else {
        b.sas == a.sas
    })
}

/// What a successful SAS finish does for the bound flow; a stale flow id
/// changes nothing.
pub open spec fn sas_done_post(a: &AppState, b: &AppState, flow_id: Seq<char>) -> bool {
    &&& sas_frame(a, b)
    &&& (if a.sas_event_applies(flow_id) {
        b.sas == (crate::state::SasUiState {
            state: crate::types::SasOverlayState::Done,
            ..a.sas
        })
    } else {
        b.sas == a.sas && b.status_msg == a.status_msg
    })
}

/// What a cancelled SAS flow does for the bound flow, the reason kept; a
/// stale flow id changes nothing.
pub open spec fn sas_cancelled_post(
    a: &AppState,
    b: &AppState,
    flow_id: Seq<char>,
    reason: Seq<char>,
) -> bool {
    &&& sas_frame(a, b)
    &&& b.status_msg == a.status_msg
    &&& (if a.sas_event_applies(flow_id) {
        b.sas == (crate::state::SasUiState {
            state: crate::types::SasOverlayState::Failed,
            error: b.sas.error,
            ..a.sas
        }) && (b.sas.error matches Some(e) && e@ == reason)
    } else {
        b.sas == a.sas
    })
}

/// What a backend room message does to the state: the echo branch swallows
/// it, the other branch appends the resolved message to the cache and, for
/// the active room, to the displayed list with a read receipt requested.
pub open spec fn message_event_post(
    a: &AppState,
    b: &AppState,
    room_id: Seq<char>,
    sender: Seq<char>,
    body: Seq<char>,
    timestamp: u64,
    event_id: Seq<char>,
    reply: Option<Seq<char>>,
    effects: Seq<Effect>,
) -> bool {
    &&& same_forms(a, b)
    &&& same_prefs(a, b)
    &&& same_nav(a, b)
    &&& same_room_panel(a, b)
    &&& b.accounts == a.accounts
    &&& b.sas == a.sas
    &&& b.input == a.input
    &&& b.room_history_tokens == a.room_history_tokens
    &&& b.status_msg == a.status_msg
    &&& (echo_hit(a, sender, body) ==> {
        &&& b.chat == a.chat
        &&& b.room_messages == a.room_messages
        &&& b.pending_echoes@ == a.pending_echoes@.remove(
            echo_index(a.pending_echoes@, body, 0),
        )
        &&& effects.len() == 0
    })
    &&& (!echo_hit(a, sender, body) ==> {
        let m = incoming_model(
            a,
            room_id,
            sender,
            ContentModel::Text(body),
            timestamp,
            event_id,
            reply,
        );
        &&& b.pending_echoes == a.pending_echoes
        &&& models(b.room_messages.msgs_of(room_id)) == models(
            a.room_messages.msgs_of(room_id),
        ).push(m)
        &&& forall|other: Seq<char>|
            other != room_id ==> #[trigger] b.room_messages.msgs_of(other)
                == a.room_messages.msgs_of(other)
        &&& (if a.active_room matches Some(r) && r@ == room_id {
            &&& models(b.chat.messages@) == models(a.chat.messages@).push(m)
            &&& (match a.active_account_id {
                Some(aid) => effects.len() == 1 && (effects[0] matches
                    Effect::SendReadReceipt { account_id, room_id: r2, event_id: e2 }
                    && account_id@ == aid@ && r2@ == room_id && e2@ == event_id),
                None => effects.len() == 0,
            })
        } else {
            &&& b.chat == a.chat
            &&& effects.len() == 0
        })
    })
}

/// What a backend image or file message does to the state: as a text
/// message, with no echo branch.
pub open spec fn media_event_post(
    a: &AppState,
    b: &AppState,
    room_id: Seq<char>,
    sender: Seq<char>,
    content: ContentModel,
    timestamp: u64,
    event_id: Seq<char>,
    reply: Option<Seq<char>>,
) -> bool {
    &&& same_forms(a, b)
    &&& same_prefs(a, b)
    &&& same_nav(a, b)
    &&& same_room_panel(a, b)
    &&& b.accounts == a.accounts
    &&& b.sas == a.sas
    &&& b.input == a.input
    &&& b.pending_echoes == a.pending_echoes
    &&& b.room_history_tokens == a.room_history_tokens
    &&& ({
        let m = incoming_model(a, room_id, sender, content, timestamp, event_id, reply);
        &&& models(b.room_messages.msgs_of(room_id)) == models(
            a.room_messages.msgs_of(room_id),
        ).push(m)
        &&& forall|other: Seq<char>|
            other != room_id ==> #[trigger] b.room_messages.msgs_of(other)
                == a.room_messages.msgs_of(other)
        &&& (if a.active_room matches Some(r) && r@ == room_id {
            models(b.chat.messages@) == models(a.chat.messages@).push(m)
        } else {
            b.chat == a.chat
        })
    })
}

/// What one more reaction does to a message list: the first message
/// confirmed under the event id gains exactly one `key` count, every other
/// message and every other field of the target stand untouched; without a
/// match the list keeps its models.
pub open spec fn reaction_applied(
    pre: Seq<DisplayMessage>,
    post: Seq<DisplayMessage>,
    event_id: Seq<char>,
    key: Seq<char>,
) -> bool {
    &&& post.len() == pre.len()
    &&& (if reconcile::has_msg(pre, event_id) {
        let i = reconcile::msg_index(pre, event_id, 0);
        &&& models(post)[i] == (MessageModel {
            reactions: reconcile::bumped_reactions(pre[i]@.reactions, key),
            ..pre[i]@
        })
        &&& forall|k: int| 0 <= k < pre.len() && k != i ==> #[trigger] post[k] == pre[k]
    } else {
        post == pre
    })
}

/// What a reaction event does to the state: counted in the displayed list
/// when the room is active, and in the room's cache; nothing else moves.
pub open spec fn reaction_event_post(
    a: &AppState,
    b: &AppState,
    room_id: Seq<char>,
    event_id: Seq<char>,
    key: Seq<char>,
) -> bool {
    &&& same_forms(a, b)
    &&& same_prefs(a, b)
    &&& same_nav(a, b)
    &&& same_room_panel(a, b)
    &&& b.accounts == a.accounts
    &&& b.sas == a.sas
    &&& b.input == a.input
    &&& b.pending_echoes == a.pending_echoes
    &&& b.room_history_tokens == a.room_history_tokens
    &&& b.status_msg == a.status_msg
    &&& b.chat == (crate::state::ChatState { messages: b.chat.messages, ..a.chat })
    &&& (if a.active_room matches Some(r) && r@ == room_id {
        reaction_applied(a.chat.messages@, b.chat.messages@, event_id, key)
    } else {
        b.chat == a.chat
    })
    &&& (a.room_messages.contains_room(room_id) ==> reaction_applied(
        a.room_messages.msgs_of(room_id),
        b.room_messages.msgs_of(room_id),
        event_id,
        key,
    ))
    &&& forall|other: Seq<char>|
        other != room_id ==> #[trigger] b.room_messages.msgs_of(other)
            == a.room_messages.msgs_of(other)
}

/// What a typing notification does to the state: for the active room the
/// typist list is rebuilt (own accounts hidden, local parts shown); any
/// other room changes nothing.
pub open spec fn typing_event_post(
    a: &AppState,
    b: &AppState,
    room_id: Seq<char>,
    user_ids: Seq<Seq<char>>,
) -> bool {
    &&& same_forms(a, b)
    &&& same_prefs(a, b)
    &&& same_nav(a, b)
    &&& same_room_panel(a, b)
    &&& b.accounts == a.accounts
    &&& b.sas == a.sas
    &&& b.pending_echoes == a.pending_echoes
    &&& b.room_messages == a.room_messages
    &&& b.room_history_tokens == a.room_history_tokens
    &&& b.status_msg == a.status_msg
    &&& b.chat.messages == a.chat.messages
    &&& (if a.active_room matches Some(r) && r@ == room_id {
        &&& crate::rooms::strs(b.chat.typing_users@) == visible_typers(a, user_ids)
        &&& b.chat == (crate::state::ChatState { typing_users: b.chat.typing_users, ..a.chat })
    } else {
        b.chat == a.chat
    })
}

/// The typists shown for a typing event: own accounts dropped, everyone else
/// by the local part of their user id, in arrival order.
pub open spec fn visible_typers(s: &AppState, users: Seq<Seq<char>>) -> Seq<Seq<char>>
    decreases users.len(),
{
    if users.len() == 0 {
        Seq::empty()
    } else {
        let rest = visible_typers(s, users.drop_first());
        if s.has_account(users[0]) {
            rest
        } else {
            seq![text::localpart_of(users[0])] + rest
        }
    }
}

} // verus!
