//! Persisted preferences: saved account credentials, favorite room ids, the
//! sort mode and the theme name.  Loading and saving the file is the caller's
//! job; the library owns the data and its mutations.

use vstd::prelude::*;

verus! {

broadcast use vstd::string::group_string_axioms;

/// Credentials of one saved session.
#[derive(Debug, Clone)]
pub struct SavedAccount {
    pub homeserver: String,
    pub user_id: String,
    /// Stored session token, so the session can be restored without a login.
    pub access_token: String,
    pub device_id: String,
}

impl SavedAccount {
    /// A field-for-field copy, visible to the verifier.
    pub fn duplicate(&self) -> (r: SavedAccount)
        ensures
            r == *self,
    {
        SavedAccount {
            homeserver: self.homeserver.clone(),
            user_id: self.user_id.clone(),
            access_token: self.access_token.clone(),
            device_id: self.device_id.clone(),
        }
    }
}

/// Sort mode used when none was ever chosen.
pub fn default_room_sort() -> (r: String)
    ensures
        r@ == "unread"@,
{
    <String as vstd::string::StringExecFns>::from_str("unread")
}

/// The persisted configuration.
#[derive(Debug, Clone)]
pub struct Config {
    pub accounts: Vec<SavedAccount>,
    pub theme: String,
    pub favorites: Vec<String>,
    pub room_sort: String,
}

/// Index of the first saved account with the given user id, or the length.
pub open spec fn saved_index(s: Seq<SavedAccount>, uid: Seq<char>, from: int) -> int
    decreases s.len() - from when 0 <= from <= s.len()
{
    if from >= s.len() {
        s.len() as int
    } else if s[from].user_id@ == uid {
        from
    } else {
        saved_index(s, uid, from + 1)
    }
}

impl Config {
    /// A configuration with nothing set.
    pub fn empty() -> (r: Config)
        ensures
            r.accounts@.len() == 0,
            r.theme@.len() == 0,
            r.favorites@.len() == 0,
            r.room_sort@ == "unread"@,
    {
        Config {
            accounts: Vec::new(),
            theme: String::new(),
            favorites: Vec::new(),
            room_sort: default_room_sort(),
        }
    }

    /// Replace the saved entry carrying the same user id, or append a new one.
    pub fn add_account(&mut self, account: SavedAccount)
        ensures
            ({
                let idx = saved_index(old(self).accounts@, account.user_id@, 0);
                if idx < old(self).accounts@.len() {
                    final(self).accounts@ == old(self).accounts@.update(idx, account)
                } else {
                    final(self).accounts@ == old(self).accounts@.push(account)
                }
            }),
            final(self).theme == old(self).theme,
            final(self).favorites == old(self).favorites,
            final(self).room_sort == old(self).room_sort,
    {
        let n = self.accounts.len();
        let mut i: usize = 0;
        while i < n
            invariant
                i <= n,
                self == old(self),
                n == self.accounts@.len(),
                saved_index(self.accounts@, account.user_id@, 0) == saved_index(
                    self.accounts@,
                    account.user_id@,
                    i as int,
                ),
            decreases n - i,
        {
            if crate::text::str_eq(self.accounts[i].user_id.as_str(), account.user_id.as_str()) {
                self.accounts.set(i, account);
                return ;
            }
            i += 1;
        }
        self.accounts.push(account);
    }

    /// Drop every saved entry with the given user id.
    pub fn remove_account(&mut self, user_id: &str)
        ensures
            final(self).accounts@ == old(self).accounts@.filter(
                |a: SavedAccount| a.user_id@ != user_id@,
            ),
            final(self).theme == old(self).theme,
            final(self).favorites == old(self).favorites,
            final(self).room_sort == old(self).room_sort,
    {
        let ghost keep = |a: SavedAccount| a.user_id@ != user_id@;
        let n = self.accounts.len();
        let mut out: Vec<SavedAccount> = Vec::new();
        let mut i: usize = 0;
        proof {
            reveal(Seq::filter);
            assert(self.accounts@.subrange(0, 0).filter(keep) =~= out@);
        }
        while i < n
            invariant
                i <= n,
                self == old(self),
                n == self.accounts@.len(),
                keep == (|a: SavedAccount| a.user_id@ != user_id@),
                out@ == self.accounts@.subrange(0, i as int).filter(keep),
            decreases n - i,
        {
            let a = self.accounts[i].duplicate();
            proof {
                reveal(Seq::filter);
                let pre = self.accounts@.subrange(0, i as int);
                assert(self.accounts@.subrange(0, i + 1).drop_last() =~= pre);
                assert(self.accounts@.subrange(0, i + 1).last() == self.accounts@[i as int]);
            }
            if !crate::text::str_eq(a.user_id.as_str(), user_id) {
                assert(a.user_id@ == self.accounts@[i as int].user_id@);
                out.push(a);
            }
            i += 1;
        }
        proof {
            assert(self.accounts@.subrange(0, n as int) =~= self.accounts@);
        }
        self.accounts = out;
    }
}

} // verus!
