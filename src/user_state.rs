use vstd::prelude::*;

use crate::economy_state::EconomyStateMessage;

verus! {

/// A row of the users' states table, read as it is stored.
#[derive(Clone, Copy, Debug, Default, PartialEq, Eq, Structural)]
pub struct UserStateModel {
    pub id: i32,
    pub user_id: i32,
    pub balance: i32,
    pub banker: bool,
}

impl UserStateModel {
    /// The row as handed to other services: its owner and its balance.
    pub fn into_message(&self) -> (r: EconomyStateMessage)
        ensures
            r.user_id == self.user_id,
            r.balance == self.balance,
    {
        EconomyStateMessage { user_id: self.user_id, balance: self.balance }
    }
}

} // verus!
