use std::collections::HashMap;

use vstd::prelude::*;

use crate::economy_state::{apply_form, update_economy_state, Model, UpdateEconomyStateForm};

verus! {

/// What an account store holds: one account per user identifier, and the row
/// identifier that the next new account gets.
pub struct StoreState {
    pub accounts: Map<i32, Model>,
    pub next_id: int,
}

/// Why the store refused an operation.
#[derive(Clone, Copy, Debug, PartialEq, Eq, Structural)]
pub enum StoreError {
    /// No account belongs to the user.
    NotFound,
    /// The account was written since the version named was read.
    Conflict,
    /// The write would leave a negative balance.
    NegativeBalance,
    /// No row identifier is left for a new account.
    Exhausted,
}

/// A write to one account, valid only against the version it was planned on.
#[derive(Clone, Copy, Debug, PartialEq, Eq, Structural)]
pub struct RowUpdate {
    pub user_id: i32,
    pub expected_version: u64,
    pub form: UpdateEconomyStateForm,
}

/// The accounts a store may hold: each is filed under its owner and none has
/// a negative balance.
pub open spec fn valid_store(s: StoreState) -> bool {
    &&& 1 <= s.next_id <= i32::MAX
    &&& forall|k: i32| #[trigger]
        s.accounts.contains_key(k) ==> s.accounts[k].user_id == k && s.accounts[k].balance >= 0
}

/// The account that is created for `user_id` with row identifier `id`.
pub open spec fn fresh_account(id: int, user_id: i32) -> Model {
    Model { id: id as i32, user_id, balance: 0, banker: false, version: 0 }
}

/// The version that follows `v`; it wraps only after 2^64 writes.
pub open spec fn next_version(v: u64) -> u64 {
    if v == u64::MAX {
        0
    } else {
        (v + 1) as u64
    }
}

/// Returns the account of `user_id`, inserting a fresh one when there is none.
pub open spec fn create_spec(s: StoreState, user_id: i32) -> (StoreState, Result<Model, StoreError>) {
    if s.accounts.contains_key(user_id) {
        (s, Ok(s.accounts[user_id]))
    } else if s.next_id >= i32::MAX {
        (s, Err(StoreError::Exhausted))
    } else {
        let a = fresh_account(s.next_id, user_id);
        (StoreState { accounts: s.accounts.insert(user_id, a), next_id: s.next_id + 1 }, Ok(a))
    }
}

/// The account `current` after the write `u`, when `u` was planned on its version.
pub open spec fn updated_spec(current: Model, u: RowUpdate) -> Result<Model, StoreError> {
    if current.version != u.expected_version {
        Err(StoreError::Conflict)
    } else if apply_form(current, u.form).balance < 0 {
        Err(StoreError::NegativeBalance)
    } else {
        Ok(Model { version: next_version(current.version), ..apply_form(current, u.form) })
    }
}

/// A compare-and-update of one account: nothing changes unless it succeeds.
pub open spec fn cas_spec(s: StoreState, u: RowUpdate) -> (StoreState, Result<Model, StoreError>) {
    if !s.accounts.contains_key(u.user_id) {
        (s, Err(StoreError::NotFound))
    } else {
        match updated_spec(s.accounts[u.user_id], u) {
            Ok(m) => (StoreState { accounts: s.accounts.insert(u.user_id, m), ..s }, Ok(m)),
            Err(e) => (s, Err(e)),
        }
    }
}

/// Two writes applied in order as one: both take effect or neither does.
pub open spec fn commit_pair_spec(s: StoreState, a: RowUpdate, b: RowUpdate) -> (
    StoreState,
    Result<(), StoreError>,
) {
    let (s1, r1) = cas_spec(s, a);
    match r1 {
        Err(e) => (s, Err(e)),
        Ok(_) => {
            let (s2, r2) = cas_spec(s1, b);
            match r2 {
                Err(e) => (s, Err(e)),
                Ok(_) => (s2, Ok(())),
            }
        },
    }
}

/// Creating an account keeps a store valid.
pub proof fn lemma_create_keeps_valid(s: StoreState, user_id: i32)
    requires
        valid_store(s),
    ensures
        valid_store(create_spec(s, user_id).0),
        create_spec(s, user_id).1 matches Ok(m) ==> create_spec(s, user_id).0.accounts.contains_key(user_id)
            && create_spec(s, user_id).0.accounts[user_id] == m,
{
    let s1 = create_spec(s, user_id).0;
    assert forall|k: i32| #[trigger] s1.accounts.contains_key(k) implies s1.accounts[k].user_id == k
        && s1.accounts[k].balance >= 0 by {
        if k != user_id {
            assert(s.accounts.contains_key(k));
        }
    }
}

/// A compare-and-update keeps a store valid.
pub proof fn lemma_cas_keeps_valid(s: StoreState, u: RowUpdate)
    requires
        valid_store(s),
    ensures
        valid_store(cas_spec(s, u).0),
{
    let s1 = cas_spec(s, u).0;
    assert forall|k: i32| #[trigger] s1.accounts.contains_key(k) implies s1.accounts[k].user_id == k
        && s1.accounts[k].balance >= 0 by {
        assert(s.accounts.contains_key(k));
    }
}

/// A paired write keeps a store valid.
pub proof fn lemma_commit_pair_keeps_valid(s: StoreState, a: RowUpdate, b: RowUpdate)
    requires
        valid_store(s),
    ensures
        valid_store(commit_pair_spec(s, a, b).0),
{
    lemma_cas_keeps_valid(s, a);
    lemma_cas_keeps_valid(cas_spec(s, a).0, b);
}

/// The account after a write that was planned on its version, or why the
/// write is refused.
pub fn updated(current: Model, u: &RowUpdate) -> (r: Result<Model, StoreError>)
    ensures
        r == updated_spec(current, *u),
{
    if current.version != u.expected_version {
        return Err(StoreError::Conflict);
    }
    let next = update_economy_state(current, u.form);
    if next.balance < 0 {
        return Err(StoreError::NegativeBalance);
    }
    let version = if current.version == u64::MAX {
        0
    } else {
        current.version + 1
    };
    Ok(Model { version, ..next })
}

/// Accounts held in memory, with versioned writes.
pub struct AccountStore {
    accounts: HashMap<i32, Model>,
    next_id: i32,
}

impl View for AccountStore {
    type V = StoreState;

    closed spec fn view(&self) -> StoreState {
        StoreState { accounts: self.accounts@, next_id: self.next_id as int }
    }
}

impl AccountStore {
    pub open spec fn wf(&self) -> bool {
        valid_store(self@)
    }

    /// A store without accounts.
    pub fn new() -> (r: AccountStore)
        ensures
            r.wf(),
            r@.accounts == Map::<i32, Model>::empty(),
            r@.next_id == 1,
    {
        AccountStore { accounts: HashMap::new(), next_id: 1 }
    }

    /// The account of `user_id`, if there is one.
    pub fn get(&self, user_id: i32) -> (r: Option<Model>)
        ensures
            r == (if self@.accounts.contains_key(user_id) {
                Some(self@.accounts[user_id])
            } else {
                None::<Model>
            }),
    {
        match self.accounts.get(&user_id) {
            Some(m) => Some(*m),
            None => None,
        }
    }

    /// The account of `user_id`; a fresh one with balance 0 and no banker
    /// privilege is inserted when there is none. Calling it again returns the
    /// same account and changes nothing.
    pub fn create_if_absent(&mut self, user_id: i32) -> (r: Result<Model, StoreError>)
        requires
            old(self).wf(),
        ensures
            final(self).wf(),
            (final(self)@, r) == create_spec(old(self)@, user_id),
    {
        match self.accounts.get(&user_id) {
            Some(m) => Ok(*m),
            None => {
                if self.next_id == i32::MAX {
                    return Err(StoreError::Exhausted);
                }
                let a = Model { id: self.next_id, user_id, balance: 0, banker: false, version: 0 };
                self.accounts.insert(user_id, a);
                self.next_id = self.next_id + 1;
                proof {
                    assert forall|k: i32| #[trigger] self@.accounts.contains_key(k) implies
                        self@.accounts[k].user_id == k && self@.accounts[k].balance >= 0 by {
                        if k != user_id {
                            assert(old(self)@.accounts.contains_key(k));
                        }
                    }
                }
                Ok(a)
            },
        }
    }

    /// Applies `u` if the account exists and still has the version `u` names.
    pub fn compare_and_update(&mut self, u: RowUpdate) -> (r: Result<Model, StoreError>)
        requires
            old(self).wf(),
        ensures
            final(self).wf(),
            (final(self)@, r) == cas_spec(old(self)@, u),
    {
        match self.accounts.get(&u.user_id) {
            None => Err(StoreError::NotFound),
            Some(current) => {
                assert(*current == old(self)@.accounts[u.user_id]);
                let next = updated(*current, &u);
                match next {
                    Ok(m) => {
                        self.accounts.insert(u.user_id, m);
                        proof {
                            assert forall|k: i32| #[trigger] self@.accounts.contains_key(k) implies
                                self@.accounts[k].user_id == k && self@.accounts[k].balance >= 0 by {
                                assert(old(self)@.accounts.contains_key(k));
                                if k == u.user_id {
                                    assert(old(self)@.accounts[k].user_id == k);
                                }
                            }
                        }
                        Ok(m)
                    },
                    Err(e) => Err(e),
                }
            },
        }
    }

    /// Applies `a` and then `b` as one write: if either is refused, the store
    /// is left as it was.
    pub fn commit_pair(&mut self, a: RowUpdate, b: RowUpdate) -> (r: Result<(), StoreError>)
        requires
            old(self).wf(),
        ensures
            final(self).wf(),
            (final(self)@, r) == commit_pair_spec(old(self)@, a, b),
    {
        let first = match self.accounts.get(&a.user_id) {
            None => return Err(StoreError::NotFound),
            Some(current) => updated(*current, &a),
        };
        let first = match first {
            Err(e) => return Err(e),
            Ok(m) => m,
        };
        let second_base = if b.user_id == a.user_id {
            first
        } else {
            match self.accounts.get(&b.user_id) {
                None => return Err(StoreError::NotFound),
                Some(current) => *current,
            }
        };
        let second = match updated(second_base, &b) {
            Err(e) => return Err(e),
            Ok(m) => m,
        };
        self.accounts.insert(a.user_id, first);
        self.accounts.insert(b.user_id, second);
        proof {
            let s1 = StoreState { accounts: old(self)@.accounts.insert(a.user_id, first), ..old(self)@ };
            assert(s1.accounts.insert(b.user_id, second) =~= self@.accounts);
        }
        Ok(())
    }
}

} // verus!
