use vstd::prelude::*;

verus! {

/// The stored record of one user's account.
///
/// `id` is the row identifier of the store and `user_id` the identity of the
/// owner. `version` grows by one on every committed write; a write that names
/// an older version is refused.
#[derive(Clone, Copy, Debug, PartialEq, Eq, Structural)]
pub struct Model {
    pub id: i32,
    pub user_id: i32,
    pub balance: i32,
    pub banker: bool,
    pub version: u64,
}

/// What the service reports about an account to another service.
#[derive(Clone, Copy, Debug, PartialEq, Eq, Structural)]
pub struct EconomyStateMessage {
    pub user_id: i32,
    pub balance: i32,
}

impl Model {
    /// The account as handed to other services: its owner and its balance.
    pub fn into_message(&self) -> (r: EconomyStateMessage)
        ensures
            r.user_id == self.user_id,
            r.balance == self.balance,
    {
        EconomyStateMessage { user_id: self.user_id, balance: self.balance }
    }
}

/// A partial change of an account: each field that is `Some` replaces the
/// stored one, each `None` leaves it as it is.
#[derive(Clone, Copy, Debug, PartialEq, Eq, Structural)]
pub struct UpdateEconomyStateForm {
    pub balance: Option<i32>,
    pub banker: Option<bool>,
}

impl Default for UpdateEconomyStateForm {
    fn default() -> (r: Self)
        ensures
            r.balance is None,
            r.banker is None,
    {
        UpdateEconomyStateForm { balance: None, banker: None }
    }
}

/// The account after `form` has been applied to `state`.
pub open spec fn apply_form(state: Model, form: UpdateEconomyStateForm) -> Model {
    Model {
        balance: match form.balance {
            Some(b) => b,
            None => state.balance,
        },
        banker: match form.banker {
            Some(b) => b,
            None => state.banker,
        },
        ..state
    }
}

/// Applies the fields that `form` sets to `state`; identity and version are kept.
pub fn update_economy_state(state: Model, form: UpdateEconomyStateForm) -> (r: Model)
    ensures
        r == apply_form(state, form),
{
    let mut next = state;
    if let Some(balance) = form.balance {
        next.balance = balance;
    }
    if let Some(banker) = form.banker {
        next.banker = banker;
    }
    next
}

} // verus!
