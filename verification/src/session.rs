//! The session registry: which accounts are logged in, duplicate-login
//! rejection, restore bookkeeping, and account removal.  The network calls
//! themselves (login, restore, sync) happen outside; their outcomes are
//! applied here.

use vstd::prelude::*;
use crate::config::SavedAccount;
use crate::state::AppState;
use crate::state::same_forms;
use crate::state::same_nav;
use crate::state::same_prefs;
use crate::text;
use crate::types::Account;
use crate::types::Effect;

verus! {

/// A leading `@` stripped from a typed user name.
pub open spec fn stripped_user(user: Seq<char>) -> Seq<char> {
    if user.len() > 0 && user[0] == '@' {
        user.skip(1)
    } else {
        user
    }
}

/// The canonical id a login form denotes: `@user:homeserver`.
pub open spec fn canonical_id(user: Seq<char>, hs: Seq<char>) -> Seq<char> {
    seq!['@'] + user + seq![':'] + hs
}

/// Case-insensitive equality of two identities, typed input trimmed first.
pub open spec fn ids_equal(stored: Seq<char>, typed: Seq<char>) -> bool {
    text::lowercase_of(stored) == text::lowercase_of(typed)
}

/// Whether one logged-in account collides with the identity a login form
/// names, compared case-insensitively on the whitespace-trimmed input: by
/// the typed id, by the canonical form with or without the typed `@`, or by
/// homeserver plus matching local part.
pub open spec fn login_matches(a: Account, user: Seq<char>, hs: Seq<char>) -> bool {
    let tu = text::trimmed(user);
    let th = text::trimmed(hs);
    ||| ids_equal(a.user_id@, canonical_id(tu, th))
    ||| ids_equal(a.user_id@, canonical_id(stripped_user(tu), th))
    ||| ids_equal(a.user_id@, tu)
    ||| (ids_equal(a.homeserver@, th) && text::is_prefix_of(
        text::lowercase_of(seq!['@'] + stripped_user(tu) + seq![':']),
        text::lowercase_of(a.user_id@),
    ))
}

/// Whether some active account already holds the identity.
pub open spec fn dup_login(accounts: Seq<Account>, user: Seq<char>, hs: Seq<char>) -> bool {
    exists|i: int| 0 <= i < accounts.len() && login_matches(#[trigger] accounts[i], user, hs)
}

/// Build `@user:hs` as a string.
fn make_canonical_id(user: &str, hs: &str) -> (r: String)
    ensures
        r@ == canonical_id(user@, hs@),
{
    proof {
        reveal_strlit("@");
        reveal_strlit(":");
    }
    let mut out = <String as vstd::string::StringExecFns>::from_str("@");
    vstd::string::StringExecFns::append(&mut out, user);
    vstd::string::StringExecFns::append(&mut out, ":");
    vstd::string::StringExecFns::append(&mut out, hs);
    proof {
        assert(out@ =~= canonical_id(user@, hs@));
    }
    out
}

/// Strip one leading `@`.
fn strip_user(user: &str) -> (r: String)
    ensures
        r@ == stripped_user(user@),
{
    let n = vstd::string::StrSliceExecFns::unicode_len(user);
    if n > 0 && vstd::string::StrSliceExecFns::get_char(user, 0) == '@' {
        vstd::string::StrSliceExecFns::substring_char(user, 1, n).to_owned()
    } else {
        user.to_owned()
    }
}

impl AppState {
    /// Whether logging in with this user and homeserver would duplicate an
    /// active account's identity, after trimming and case-folding.
    pub fn duplicate_login(&self, user: &str, hs: &str) -> (r: bool)
        ensures
            r == dup_login(self.accounts@, user@, hs@),
    {
        let tu = text::trim_spaces(user);
        let th = text::trim_spaces(hs);
        let check_id = text::to_lowercase(make_canonical_id(tu.as_str(), th.as_str()).as_str());
        let stripped = strip_user(tu.as_str());
        let check_id_stripped = text::to_lowercase(
            make_canonical_id(stripped.as_str(), th.as_str()).as_str(),
        );
        let typed = text::to_lowercase(tu.as_str());
        let typed_hs = text::to_lowercase(th.as_str());
        let mut prefix = <String as vstd::string::StringExecFns>::from_str("@");
        proof {
            reveal_strlit("@");
            reveal_strlit(":");
        }
        vstd::string::StringExecFns::append(&mut prefix, stripped.as_str());
        vstd::string::StringExecFns::append(&mut prefix, ":");
        proof {
            assert(prefix@ =~= seq!['@'] + stripped_user(text::trimmed(user@)) + seq![':']);
        }
        let prefix_lower = text::to_lowercase(prefix.as_str());
        let n = self.accounts.len();
        let mut i: usize = 0;
        while i < n
            invariant
                i <= n,
                n == self.accounts@.len(),
                check_id@ == text::lowercase_of(
                    canonical_id(text::trimmed(user@), text::trimmed(hs@)),
                ),
                check_id_stripped@ == text::lowercase_of(
                    canonical_id(stripped_user(text::trimmed(user@)), text::trimmed(hs@)),
                ),
                typed@ == text::lowercase_of(text::trimmed(user@)),
                typed_hs@ == text::lowercase_of(text::trimmed(hs@)),
                prefix_lower@ == text::lowercase_of(
                    seq!['@'] + stripped_user(text::trimmed(user@)) + seq![':'],
                ),
                forall|k: int| 0 <= k < i ==> !login_matches(#[trigger] self.accounts@[k], user@, hs@),
            decreases n - i,
        {
            let uid_lower = text::to_lowercase(self.accounts[i].user_id.as_str());
            let hs_lower = text::to_lowercase(self.accounts[i].homeserver.as_str());
            let hit = text::str_eq(uid_lower.as_str(), check_id.as_str()) || text::str_eq(
                uid_lower.as_str(),
                check_id_stripped.as_str(),
            ) || text::str_eq(uid_lower.as_str(), typed.as_str()) || (text::str_eq(
                hs_lower.as_str(),
                typed_hs.as_str(),
            ) && text::starts_with_str(uid_lower.as_str(), prefix_lower.as_str()));
            if hit {
                assert(login_matches(self.accounts@[i as int], user@, hs@));
                return true;
            }
            i += 1;
        }
        false
    }

    /// A session was restored or a login succeeded: register the account.
    pub fn add_account_record(&mut self, account: Account)
        ensures
            same_forms(old(self), final(self)),
            same_prefs(old(self), final(self)),
            same_nav(old(self), final(self)),
            final(self).accounts@ == old(self).accounts@.push(account),
            final(self).chat == old(self).chat,
            final(self).rooms == old(self).rooms,
            final(self).active_room == old(self).active_room,
            final(self).active_account_id == old(self).active_account_id,
            final(self).room_messages == old(self).room_messages,
            final(self).room_history_tokens == old(self).room_history_tokens,
            final(self).pending_echoes == old(self).pending_echoes,
            final(self).sas == old(self).sas,
    {
        self.accounts.push(account);
    }

    /// Remove the account at `idx`: drop it from the registry and the saved
    /// configuration, clear the active room when it belonged to it, and ask
    /// the caller to stop its sync task, save the configuration and refresh.
    pub fn remove_account_by_index(&mut self, idx: usize) -> (effects: Vec<Effect>)
        ensures
            same_forms(old(self), final(self)),
            final(self).running == old(self).running,
            final(self).overlay == old(self).overlay,
            final(self).focus == old(self).focus,
            final(self).sas == old(self).sas,
            final(self).room_messages == old(self).room_messages,
            final(self).room_history_tokens == old(self).room_history_tokens,
            final(self).pending_echoes == old(self).pending_echoes,
            idx >= old(self).accounts@.len() ==> *final(self) == *old(self) && effects@.len() == 0,
            idx < old(self).accounts@.len() ==> ({
                let uid = old(self).accounts@[idx as int].user_id@;
                &&& final(self).accounts@ == old(self).accounts@.remove(idx as int)
                &&& final(self).config.accounts@ == old(self).config.accounts@.filter(
                    |a: SavedAccount| a.user_id@ != uid,
                )
                &&& (if old(self).active_account_id matches Some(aid) && aid@ == uid {
                    final(self).active_room is None && final(self).active_account_id is None
                        && final(self).chat.messages@.len() == 0
                } else {
                    final(self).active_room == old(self).active_room && final(self).active_account_id == old(self).active_account_id && final(self).chat == old(
                        self,
                    ).chat
                })
                &&& effects@.len() == 3
                &&& (effects@[0] matches Effect::StopSync { account_id } && account_id@ == uid)
                &&& effects@[1] is SaveConfig
                &&& effects@[2] is RefreshRooms
            }),
    {
        let mut effects: Vec<Effect> = Vec::new();
        if idx >= self.accounts.len() {
            return effects;
        }
        let user_id = self.accounts[idx].user_id.clone();
        self.accounts.remove(idx);
        self.config.remove_account(user_id.as_str());
        proof {
            let uid = old(self).accounts@[idx as int].user_id@;
            assert((|a: SavedAccount| a.user_id@ != user_id@) =~= (
            |a: SavedAccount| a.user_id@ != uid));
        }
        let owned_active = match &self.active_account_id {
            Some(aid) => text::str_eq(aid.as_str(), user_id.as_str()),
            None => false,
        };
        if owned_active {
            self.active_room = None;
            self.active_account_id = None;
            self.chat.messages = Vec::new();
        }
        effects.push(Effect::StopSync { account_id: user_id });
        effects.push(Effect::SaveConfig);
        effects.push(Effect::RefreshRooms);
        self.status_msg = <String as vstd::string::StringExecFns>::from_str("Account removed");
        effects
    }

    /// Begin reconnecting the account at `idx`: its sync stops and it leaves
    /// the registry; the caller restores it again from the saved session and
    /// hands the result to `add_account_record`.
    pub fn begin_reconnect(&mut self, idx: usize) -> (effects: Vec<Effect>)
        ensures
            same_forms(old(self), final(self)),
            same_prefs(old(self), final(self)),
            same_nav(old(self), final(self)),
            final(self).chat == old(self).chat,
            final(self).sas == old(self).sas,
            final(self).room_messages == old(self).room_messages,
            final(self).room_history_tokens == old(self).room_history_tokens,
            final(self).pending_echoes == old(self).pending_echoes,
            idx >= old(self).accounts@.len() ==> *final(self) == *old(self) && effects@.len() == 0,
            idx < old(self).accounts@.len() ==> ({
                let uid = old(self).accounts@[idx as int].user_id@;
                &&& final(self).accounts@ == old(self).accounts@.remove(idx as int)
                &&& effects@.len() == 2
                &&& (effects@[0] matches Effect::StopSync { account_id } && account_id@ == uid)
                &&& (effects@[1] matches Effect::RestoreAccount { user_id } && user_id@ == uid)
            }),
    {
        let mut effects: Vec<Effect> = Vec::new();
        if idx >= self.accounts.len() {
            return effects;
        }
        let user_id = self.accounts[idx].user_id.clone();
        self.accounts.remove(idx);
        effects.push(Effect::StopSync { account_id: user_id.clone() });
        effects.push(Effect::RestoreAccount { user_id });
        effects
    }

    /// One saved session failed to restore: the registry keeps going; only
    /// the status line reports it.
    pub fn record_restore_failure(&mut self, user_id: &str, error: &str)
        ensures
            final(self).status_msg@ == "Restore failed: "@ + user_id@ + ": "@ + error@,
            same_forms(old(self), final(self)),
            same_prefs(old(self), final(self)),
            same_nav(old(self), final(self)),
            final(self).accounts == old(self).accounts,
            final(self).chat == old(self).chat,
            final(self).rooms == old(self).rooms,
            final(self).room_messages == old(self).room_messages,
            final(self).room_history_tokens == old(self).room_history_tokens,
            final(self).pending_echoes == old(self).pending_echoes,
            final(self).sas == old(self).sas,
    {
        let mut status = <String as vstd::string::StringExecFns>::from_str("Restore failed: ");
        vstd::string::StringExecFns::append(&mut status, user_id);
        vstd::string::StringExecFns::append(&mut status, ": ");
        vstd::string::StringExecFns::append(&mut status, error);
        proof {
            assert(status@ =~= "Restore failed: "@ + user_id@ + ": "@ + error@);
        }
        self.status_msg = status;
    }
}

} // verus!
