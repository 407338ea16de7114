//! Saved accounts: which sessions are stored, which one is active, and how saving,
//! switching and removing change that.
use vstd::prelude::*;

use crate::text::{push_str, strings_equal};

verus! {

#[derive(Debug, Clone, PartialEq, Eq)]
pub struct Session {
    pub service: String,
    pub handle: String,
    pub did: String,
    pub access_jwt: String,
    pub refresh_jwt: String,
}

impl Session {
    pub fn duplicate(&self) -> (r: Session)
        ensures
            r == *self,
    {
        Session {
            service: self.service.clone(),
            handle: self.handle.clone(),
            did: self.did.clone(),
            access_jwt: self.access_jwt.clone(),
            refresh_jwt: self.refresh_jwt.clone(),
        }
    }
}

#[derive(Debug, Clone, PartialEq, Eq)]
pub struct AccountSession {
    pub label: String,
    pub session: Session,
}

impl AccountSession {
    /// An account is named by its label, its handle or its DID.
    pub open spec fn spec_matches(&self, query: Seq<char>) -> bool {
        self.label@ == query || self.session.handle@ == query || self.session.did@ == query
    }

    pub fn matches(&self, query: &str) -> (r: bool)
        ensures
            r == self.spec_matches(query@),
    {
        strings_equal(self.label.as_str(), query) || strings_equal(self.session.handle.as_str(), query)
            || strings_equal(self.session.did.as_str(), query)
    }

    pub fn duplicate(&self) -> (r: AccountSession)
        ensures
            r == *self,
    {
        AccountSession { label: self.label.clone(), session: self.session.duplicate() }
    }
}

#[derive(Debug, Clone, Default, PartialEq, Eq)]
pub struct AccountConfig {
    pub active: Option<String>,
    pub accounts: Vec<AccountSession>,
}

#[derive(Debug, Clone, PartialEq, Eq)]
pub enum AccountError {
    /// No account is active.
    NoActiveAccount,
    /// The active account's name matches no saved account.
    ActiveAccountMissing(String),
    /// No saved account matches the name.
    AccountNotFound(String),
    /// There is nothing to remove: no name was given and none is active.
    NoActiveAccountToRemove,
}

impl AccountError {
    /// The message shown for the error.
    pub fn message(&self) -> (r: String)
        ensures
            r@ == match self {
                AccountError::NoActiveAccount => "no active account; run `at-tui login` first"@,
                AccountError::ActiveAccountMissing(name) => "active account `"@ + name@
                    + "` was not found"@,
                AccountError::AccountNotFound(name) => "account `"@ + name@ + "` was not found"@,
                AccountError::NoActiveAccountToRemove => "no active account to remove"@,
            },
    {
        match self {
            AccountError::NoActiveAccount => "no active account; run `at-tui login` first".to_owned(),
            AccountError::ActiveAccountMissing(name) => {
                let mut s = "active account `".to_owned();
                push_str(&mut s, name.as_str());
                push_str(&mut s, "` was not found");
                s
            },
            AccountError::AccountNotFound(name) => {
                let mut s = "account `".to_owned();
                push_str(&mut s, name.as_str());
                push_str(&mut s, "` was not found");
                s
            },
            AccountError::NoActiveAccountToRemove => "no active account to remove".to_owned(),
        }
    }
}

/// `accounts[k]` is the first account that `query` names.
pub open spec fn is_first_match(accounts: Seq<AccountSession>, query: Seq<char>, k: int) -> bool {
    &&& 0 <= k < accounts.len()
    &&& accounts[k].spec_matches(query)
    &&& forall|j: int| 0 <= j < k ==> !(#[trigger] accounts[j]).spec_matches(query)
}

pub open spec fn some_match(accounts: Seq<AccountSession>, query: Seq<char>) -> bool {
    exists|k: int| 0 <= k < accounts.len() && (#[trigger] accounts[k]).spec_matches(query)
}

/// The account to update when saving `label` with `session`: the first with that label
/// or that DID.
pub open spec fn is_first_upsert_target(accounts: Seq<AccountSession>, label: Seq<char>, did: Seq<char>, k: int) -> bool {
    &&& 0 <= k < accounts.len()
    &&& (accounts[k].label@ == label || accounts[k].session.did@ == did)
    &&& forall|j: int| 0 <= j < k ==> !((#[trigger] accounts[j]).label@ == label || accounts[j].session.did@ == did)
}

pub open spec fn has_upsert_target(accounts: Seq<AccountSession>, label: Seq<char>, did: Seq<char>) -> bool {
    exists|k: int| 0 <= k < accounts.len() && ((#[trigger] accounts[k]).label@ == label || accounts[k].session.did@ == did)
}

fn find_upsert_target(accounts: &Vec<AccountSession>, label: &str, did: &str) -> (r: Option<usize>)
    ensures
        match r {
            Some(k) => is_first_upsert_target(accounts@, label@, did@, k as int),
            None => !has_upsert_target(accounts@, label@, did@),
        },
{
    let mut i: usize = 0;
    while i < accounts.len()
        invariant
            i <= accounts@.len(),
            forall|j: int| 0 <= j < i ==> !((#[trigger] accounts@[j]).label@ == label@
                || accounts@[j].session.did@ == did@),
        decreases accounts@.len() - i,
    {
        if strings_equal(accounts[i].label.as_str(), label) || strings_equal(
            accounts[i].session.did.as_str(),
            did,
        ) {
            return Some(i);
        }
        i += 1;
    }
    None
}

fn find_did(accounts: &Vec<AccountSession>, did: &str) -> (r: Option<usize>)
    ensures
        match r {
            Some(k) => k < accounts@.len() && did_label(accounts@, did@) == Some(accounts@[k as int].label@),
            None => did_label(accounts@, did@) is None,
        },
{
    let mut i: usize = 0;
    assert(accounts@.skip(0) =~= accounts@);
    while i < accounts.len()
        invariant
            i <= accounts@.len(),
            did_label(accounts@, did@) == did_label(accounts@.skip(i as int), did@),
        decreases accounts@.len() - i,
    {
        proof {
            assert(accounts@.skip(i as int).drop_first() =~= accounts@.skip(i + 1));
        }
        if strings_equal(accounts[i].session.did.as_str(), did) {
            return Some(i);
        }
        i += 1;
    }
    assert(accounts@.skip(i as int).len() == 0);
    None
}

fn find_match(accounts: &Vec<AccountSession>, query: &str) -> (r: Option<usize>)
    ensures
        match r {
            Some(k) => is_first_match(accounts@, query@, k as int),
            None => !some_match(accounts@, query@),
        },
{
    let mut i: usize = 0;
    while i < accounts.len()
        invariant
            i <= accounts@.len(),
            forall|j: int| 0 <= j < i ==> !(#[trigger] accounts@[j]).spec_matches(query@),
        decreases accounts@.len() - i,
    {
        if accounts[i].matches(query) {
            return Some(i);
        }
        i += 1;
    }
    None
}

impl AccountConfig {
    pub fn empty() -> (r: AccountConfig)
        ensures
            r.active is None,
            r.accounts@.len() == 0,
    {
        AccountConfig { active: None, accounts: Vec::new() }
    }

    /// The configuration made from a single session saved by older versions: that one
    /// account, labelled by its handle and active.
    pub fn from_legacy_session(session: Session) -> (r: AccountConfig)
        ensures
            r.active matches Some(a) && a@ == session.handle@,
            r.accounts@.len() == 1,
            r.accounts@[0].label@ == session.handle@,
            r.accounts@[0].session == session,
    {
        let label = session.handle.clone();
        let active = session.handle.clone();
        AccountConfig { active: Some(active), accounts: vec![AccountSession { label, session }] }
    }

    /// The active account: the first saved account its name matches.
    pub fn active_account(&self) -> (r: Result<AccountSession, AccountError>)
        ensures
            match self.active {
                None => r == Err::<AccountSession, AccountError>(AccountError::NoActiveAccount),
                Some(name) => if some_match(self.accounts@, name@) {
                    r matches Ok(a) && exists|k: int|
                        is_first_match(self.accounts@, name@, k) && a == self.accounts@[k]
                } else {
                    r matches Err(AccountError::ActiveAccountMissing(n)) && n@ == name@
                },
            },
    {
        let name = match &self.active {
            None => return Err(AccountError::NoActiveAccount),
            Some(name) => name,
        };
        match find_match(&self.accounts, name.as_str()) {
            Some(k) => Ok(self.accounts[k].duplicate()),
            None => Err(AccountError::ActiveAccountMissing(name.clone())),
        }
    }

    /// Makes the first account that `query` names the active one, by its label.
    pub fn switch_account(&mut self, query: &str) -> (r: Result<AccountSession, AccountError>)
        ensures
            final(self).accounts == old(self).accounts,
            some_match(old(self).accounts@, query@) ==> exists|k: int| {
                &&& is_first_match(old(self).accounts@, query@, k)
                &&& r == Ok::<AccountSession, AccountError>(old(self).accounts@[k])
                &&& final(self).active matches Some(a) && a@ == old(self).accounts@[k].label@
            },
            !some_match(old(self).accounts@, query@) ==> {
                &&& r matches Err(AccountError::AccountNotFound(n)) && n@ == query@
                &&& final(self).active == old(self).active
            },
    {
        match find_match(&self.accounts, query) {
            Some(k) => {
                let account = self.accounts[k].duplicate();
                self.active = Some(account.label.clone());
                Ok(account)
            },
            None => Err(AccountError::AccountNotFound(query.to_owned())),
        }
    }

    /// Removes the first account that `query` (or, without one, the active name)
    /// names. When it was the active account, the first remaining account becomes
    /// active, or none.
    pub fn remove_account(&mut self, query: Option<&str>) -> (r: Result<Option<AccountSession>, AccountError>)
        ensures
            query is None && old(self).active is None ==> {
                &&& r == Err::<Option<AccountSession>, AccountError>(AccountError::NoActiveAccountToRemove)
                &&& *final(self) == *old(self)
            },
            query is Some || old(self).active is Some ==> ({
                let target = match query {
                    Some(q) => q@,
                    None => old(self).active.unwrap()@,
                };
                let accounts = old(self).accounts@;
                if some_match(accounts, target) {
                    exists|k: int| {
                        &&& is_first_match(accounts, target, k)
                        &&& r == Ok::<Option<AccountSession>, AccountError>(Some(accounts[k]))
                        &&& final(self).accounts@ == accounts.remove(k)
                        &&& (old(self).active matches Some(a) && accounts[k].spec_matches(a@)) ==> if accounts.len() > 1 {
                            final(self).active matches Some(n) && n@ == accounts.remove(k)[0].label@
                        } else {
                            final(self).active is None
                        }
                        &&& !(old(self).active matches Some(a) && accounts[k].spec_matches(a@)) ==> final(self).active == old(self).active
                    }
                } else {
                    &&& r == Ok::<Option<AccountSession>, AccountError>(None)
                    &&& *final(self) == *old(self)
                }
            }),
    {
        let target: String = match query {
            Some(q) => q.to_owned(),
            None => match &self.active {
                Some(a) => a.clone(),
                None => return Err(AccountError::NoActiveAccountToRemove),
            },
        };
        let index = match find_match(&self.accounts, target.as_str()) {
            None => return Ok(None),
            Some(index) => index,
        };
        let removed = self.accounts.remove(index);
        let was_active = match &self.active {
            Some(a) => removed.matches(a.as_str()),
            None => false,
        };
        if was_active {
            self.active = if self.accounts.len() > 0 {
                Some(self.accounts[0].label.clone())
            } else {
                None
            };
        }
        Ok(Some(removed))
    }

    /// Saves `session` under `label`: it replaces the first account with that label or
    /// the same DID, or is added at the end. The account becomes active when asked to,
    /// or when no account is active.
    pub fn upsert_account(&mut self, label: String, session: Session, make_active: bool)
        ensures
            ({
                let accounts = old(self).accounts@;
                let entry = AccountSession { label, session };
                &&& has_upsert_target(accounts, label@, session.did@) ==> exists|k: int|
                    is_first_upsert_target(accounts, label@, session.did@, k) && final(self).accounts@
                        == accounts.update(k, entry)
                &&& !has_upsert_target(accounts, label@, session.did@) ==> final(self).accounts@
                    == accounts.push(entry)
                &&& if make_active || old(self).active is None {
                    final(self).active == Some(label)
                } else {
                    final(self).active == old(self).active
                }
            }),
    {
        let found = find_upsert_target(&self.accounts, label.as_str(), session.did.as_str());
        let active_label = label.clone();
        let entry = AccountSession { label, session };
        match found {
            Some(k) => {
                self.accounts.set(k, entry);
            },
            None => {
                self.accounts.push(entry);
            },
        }
        if make_active || self.active.is_none() {
            self.active = Some(active_label);
        }
    }

    /// Saves a refreshed or new session, keeping the label of the account with the
    /// same DID (the handle otherwise); it becomes active only when none is.
    pub fn save_session(&mut self, session: &Session)
        ensures
            ({
                let accounts = old(self).accounts@;
                let label = saved_label(accounts, *session);
                &&& has_upsert_target(accounts, label, session.did@) ==> exists|k: int| {
                    &&& is_first_upsert_target(accounts, label, session.did@, k)
                    &&& final(self).accounts@.len() == accounts.len()
                    &&& final(self).accounts@[k].label@ == label
                    &&& final(self).accounts@[k].session == *session
                    &&& forall|j: int| 0 <= j < accounts.len() && j != k ==> final(self).accounts@[j] == accounts[j]
                }
                &&& !has_upsert_target(accounts, label, session.did@) ==> {
                    &&& final(self).accounts@.len() == accounts.len() + 1
                    &&& final(self).accounts@.take(accounts.len() as int) == accounts
                    &&& final(self).accounts@.last().label@ == label
                    &&& final(self).accounts@.last().session == *session
                }
                &&& old(self).active is None ==> (final(self).active matches Some(a) && a@ == label)
                &&& old(self).active is Some ==> final(self).active == old(self).active
            }),
    {
        let label = match find_did(&self.accounts, session.did.as_str()) {
            Some(k) => self.accounts[k].label.clone(),
            None => session.handle.clone(),
        };
        assert(label@ == saved_label(self.accounts@, *session));
        let make_active = self.active.is_none();
        self.upsert_account(label, session.duplicate(), make_active);
        proof {
            let accounts = old(self).accounts@;
            if !has_upsert_target(accounts, label@, session.did@) {
                assert(self.accounts@.take(accounts.len() as int) =~= accounts);
            }
        }
    }
}

/// The label of the first account with this DID.
pub open spec fn did_label(accounts: Seq<AccountSession>, did: Seq<char>) -> Option<Seq<char>>
    decreases accounts.len(),
{
    if accounts.len() == 0 {
        None
    } else if accounts[0].session.did@ == did {
        Some(accounts[0].label@)
    } else {
        did_label(accounts.drop_first(), did)
    }
}

/// A saved session keeps the label of the account with its DID, or takes its handle.
pub open spec fn saved_label(accounts: Seq<AccountSession>, session: Session) -> Seq<char> {
    match did_label(accounts, session.did@) {
        Some(label) => label,
        None => session.handle@,
    }
}

/// What is saved as active is what is loaded: after saving `session` as the active
/// account under `label`, the active account is that session, unless another saved
/// account is also named by `label`.
pub proof fn law_saved_active_account_loads(before: AccountConfig, after: AccountConfig, label: String, session: Session)
    requires
        has_upsert_target(before.accounts@, label@, session.did@) ==> exists|k: int|
            is_first_upsert_target(before.accounts@, label@, session.did@, k) && after.accounts@
                == before.accounts@.update(k, AccountSession { label, session }),
        !has_upsert_target(before.accounts@, label@, session.did@) ==> after.accounts@
            == before.accounts@.push(AccountSession { label, session }),
        after.active == Some(label),
        forall|j: int| 0 <= j < before.accounts@.len() && !((#[trigger] before.accounts@[j]).label@ == label@ || before.accounts@[j].session.did@ == session.did@) ==> !before.accounts@[j].spec_matches(label@),
    ensures
        some_match(after.accounts@, label@),
        forall|k: int| is_first_match(after.accounts@, label@, k) ==> after.accounts@[k].session == session,
{
    let accounts = before.accounts@;
    let entry = AccountSession { label, session };
    if has_upsert_target(accounts, label@, session.did@) {
        let k = choose|k: int| is_first_upsert_target(accounts, label@, session.did@, k) && after.accounts@ == accounts.update(k, entry);
        assert(after.accounts@[k].spec_matches(label@));
        assert forall|m: int| is_first_match(after.accounts@, label@, m) implies after.accounts@[m].session == session by {
            if m != k {
                if m < k {
                    assert(!(accounts[m].label@ == label@ || accounts[m].session.did@ == session.did@));
                    assert(!accounts[m].spec_matches(label@));
                    assert(after.accounts@[m] == accounts[m]);
                } else {
                    assert(!after.accounts@[k].spec_matches(label@));
                }
            }
        }
    } else {
        let n = accounts.len() as int;
        assert(after.accounts@[n].spec_matches(label@));
        assert forall|m: int| is_first_match(after.accounts@, label@, m) implies after.accounts@[m].session == session by {
            if m < n {
                assert(after.accounts@[m] == accounts[m]);
                assert(!(accounts[m].label@ == label@ || accounts[m].session.did@ == session.did@));
            }
        }
    }
}

} // verus!
