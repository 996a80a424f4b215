use vstd::prelude::*;

use crate::economy_state::Model;
use crate::ledger::{
    check_amount, check_transfer_request, credit_plan, debit_plan, plan_credit, plan_debit,
    plan_transfer, request_check, require_banker, retry_after_conflict, transfer_plan,
    MAX_ATTEMPTS,
};
use crate::responses::LedgerError;
use crate::store::RowUpdate;
use crate::users::{target_outcome, GetUserResponse};

verus! {

/// A ledger operation to be carried out against an outside store.
#[derive(Clone, Copy, Debug, PartialEq, Eq, Structural)]
pub enum Operation {
    Transfer { payer_id: i32, payee_id: i32, amount: i32 },
    Credit { caller_id: i32, target_id: i32, amount: i32 },
    Debit { caller_id: i32, target_id: i32, amount: i32 },
}

/// Where a session stands.
#[derive(Clone, Copy, Debug)]
pub enum Phase {
    /// Nothing has been asked for yet.
    Start,
    /// Waiting for the caller's account.
    CallerRequested,
    /// Waiting for the identity service's answer about the target.
    TargetRequested,
    /// Waiting for the accounts to be read.
    AccountsRequested,
    /// Waiting for the outcome of the commit.
    CommitRequested,
    /// Finished with this outcome.
    Finished(Result<(), LedgerError>),
}

/// What the driver of a session reports back.
#[derive(Clone, Debug)]
pub enum Event {
    /// Begins the session.
    Begin,
    /// The identity service's answer about the target.
    Resolved(GetUserResponse),
    /// The accounts that were asked for, read or created: the first, and the
    /// second when two were asked for.
    Loaded(Model, Option<Model>),
    /// The writes were committed.
    Committed,
    /// A version check refused the writes; nothing was written.
    Conflicted,
    /// A collaborator failed or timed out.
    Failed,
}

/// What the driver of a session must do next.
#[derive(Clone, Copy, Debug)]
pub enum Action {
    /// Ask the identity service about `user_id`, and report `Resolved`.
    Resolve { user_id: i32 },
    /// Read the accounts of `first` (and of `second`), creating those that do
    /// not exist, and report `Loaded`.
    Load { first: i32, second: Option<i32> },
    /// Commit the writes as one, and report `Committed` or `Conflicted`.
    Commit { first: RowUpdate, second: Option<RowUpdate> },
    /// Report this outcome; the session is over.
    Finish(Result<(), LedgerError>),
}

/// One operation in progress: its phase and the number of the current
/// attempt to read and commit.
#[derive(Clone, Copy, Debug)]
pub struct Session {
    pub op: Operation,
    pub phase: Phase,
    pub attempt: u32,
}

/// The accounts an operation writes: the payer and payee, or the target.
pub open spec fn written_accounts(op: Operation) -> (i32, Option<i32>) {
    match op {
        Operation::Transfer { payer_id, payee_id, .. } => (payer_id, Some(payee_id)),
        Operation::Credit { target_id, .. } => (target_id, None),
        Operation::Debit { target_id, .. } => (target_id, None),
    }
}

/// Whether `loaded` are the accounts that were asked for.
pub open spec fn loaded_match(first: Model, second: Option<Model>, ids: (i32, Option<i32>)) -> bool {
    &&& first.user_id == ids.0
    &&& match (second, ids.1) {
        (None, None) => true,
        (Some(m), Some(id)) => m.user_id == id,
        _ => false,
    }
}

/// The writes an operation plans on the accounts as read.
pub open spec fn planned(op: Operation, first: Model, second: Option<Model>) -> Result<
    (RowUpdate, Option<RowUpdate>),
    LedgerError,
> {
    match op {
        Operation::Transfer { amount, .. } => match transfer_plan(first, second->Some_0, amount) {
            Ok((d, c)) => Ok((d, Some(c))),
            Err(e) => Err(e),
        },
        Operation::Credit { amount, .. } => match credit_plan(first, amount) {
            Ok(u) => Ok((u, None)),
            Err(e) => Err(e),
        },
        Operation::Debit { amount, .. } => match debit_plan(first, amount) {
            Ok(u) => Ok((u, None)),
            Err(e) => Err(e),
        },
    }
}

pub open spec fn finish(s: Session, r: Result<(), LedgerError>) -> (Session, Action) {
    (Session { phase: Phase::Finished(r), ..s }, Action::Finish(r))
}

pub open spec fn load_written(s: Session) -> (Session, Action) {
    let ids = written_accounts(s.op);
    (Session { phase: Phase::AccountsRequested, ..s }, Action::Load { first: ids.0, second: ids.1 })
}

/// The session after `e`, and what its driver must do next. An event that
/// the phase does not wait for ends the session as a failure of the driver.
pub open spec fn step_spec(s: Session, e: Event) -> (Session, Action) {
    match s.phase {
        Phase::Finished(r) => (s, Action::Finish(r)),
        Phase::Start => match e {
            Event::Begin => match s.op {
                Operation::Transfer { payer_id, payee_id, amount } => match request_check(
                    payer_id,
                    payee_id,
                    amount,
                ) {
                    Err(err) => finish(s, Err(err)),
                    Ok(_) => (
                        Session { phase: Phase::TargetRequested, ..s },
                        Action::Resolve { user_id: payee_id },
                    ),
                },
                Operation::Credit { caller_id, .. } => (
                    Session { phase: Phase::CallerRequested, ..s },
                    Action::Load { first: caller_id, second: None },
                ),
                Operation::Debit { caller_id, .. } => (
                    Session { phase: Phase::CallerRequested, ..s },
                    Action::Load { first: caller_id, second: None },
                ),
            },
            _ => finish(s, Err(LedgerError::Dependency)),
        },
        Phase::CallerRequested => match e {
            Event::Loaded(caller, None) => match s.op {
                Operation::Credit { caller_id, target_id, .. } => if caller.user_id != caller_id {
                    finish(s, Err(LedgerError::Dependency))
                } else if !caller.banker {
                    finish(s, Err(LedgerError::Forbidden))
                } else {
                    (
                        Session { phase: Phase::TargetRequested, ..s },
                        Action::Resolve { user_id: target_id },
                    )
                },
                Operation::Debit { caller_id, target_id, .. } => if caller.user_id != caller_id {
                    finish(s, Err(LedgerError::Dependency))
                } else if !caller.banker {
                    finish(s, Err(LedgerError::Forbidden))
                } else {
                    (
                        Session { phase: Phase::TargetRequested, ..s },
                        Action::Resolve { user_id: target_id },
                    )
                },
                Operation::Transfer { .. } => finish(s, Err(LedgerError::Dependency)),
            },
            _ => finish(s, Err(LedgerError::Dependency)),
        },
        Phase::TargetRequested => match e {
            Event::Resolved(answer) => match target_outcome(answer) {
                Err(err) => finish(s, Err(err)),
                Ok(_) => match s.op {
                    Operation::Transfer { .. } => load_written(s),
                    Operation::Credit { amount, .. } => if amount <= 0 {
                        finish(s, Err(LedgerError::InvalidAmount))
                    } else {
                        load_written(s)
                    },
                    Operation::Debit { amount, .. } => if amount <= 0 {
                        finish(s, Err(LedgerError::InvalidAmount))
                    } else {
                        load_written(s)
                    },
                },
            },
            _ => finish(s, Err(LedgerError::Dependency)),
        },
        Phase::AccountsRequested => match e {
            Event::Loaded(first, second) => if !loaded_match(
                first,
                second,
                written_accounts(s.op),
            ) {
                finish(s, Err(LedgerError::Dependency))
            } else {
                match planned(s.op, first, second) {
                    Err(err) => finish(s, Err(err)),
                    Ok((a, b)) => (
                        Session { phase: Phase::CommitRequested, ..s },
                        Action::Commit { first: a, second: b },
                    ),
                }
            },
            _ => finish(s, Err(LedgerError::Dependency)),
        },
        Phase::CommitRequested => match e {
            Event::Committed => finish(s, Ok(())),
            Event::Conflicted => if s.attempt < MAX_ATTEMPTS {
                load_written(Session { attempt: (s.attempt + 1) as u32, ..s })
            } else {
                finish(s, Err(LedgerError::Conflict))
            },
            _ => finish(s, Err(LedgerError::Dependency)),
        },
    }
}

impl Session {
    /// A session that has not begun `op` yet.
    pub fn new(op: Operation) -> (r: Session)
        ensures
            r == (Session { op, phase: Phase::Start, attempt: 1 }),
    {
        Session { op, phase: Phase::Start, attempt: 1 }
    }

    fn finish(&mut self, r: Result<(), LedgerError>) -> (a: Action)
        ensures
            (*final(self), a) == finish(*old(self), r),
    {
        self.phase = Phase::Finished(r);
        Action::Finish(r)
    }

    fn load_written(&mut self) -> (a: Action)
        ensures
            (*final(self), a) == load_written(*old(self)),
    {
        let (first, second) = match self.op {
            Operation::Transfer { payer_id, payee_id, .. } => (payer_id, Some(payee_id)),
            Operation::Credit { target_id, .. } => (target_id, None),
            Operation::Debit { target_id, .. } => (target_id, None),
        };
        self.phase = Phase::AccountsRequested;
        Action::Load { first, second }
    }

    fn on_caller(&mut self, caller: Model) -> (a: Action)
        requires
            old(self).phase == Phase::CallerRequested,
        ensures
            (*final(self), a) == step_spec(*old(self), Event::Loaded(caller, None)),
    {
        let (caller_id, target_id) = match self.op {
            Operation::Credit { caller_id, target_id, .. } => (caller_id, target_id),
            Operation::Debit { caller_id, target_id, .. } => (caller_id, target_id),
            Operation::Transfer { .. } => return self.finish(Err(LedgerError::Dependency)),
        };
        if caller.user_id != caller_id {
            return self.finish(Err(LedgerError::Dependency));
        }
        match require_banker(&caller) {
            Err(e) => self.finish(Err(e)),
            Ok(()) => {
                self.phase = Phase::TargetRequested;
                Action::Resolve { user_id: target_id }
            },
        }
    }

    fn on_target(&mut self, answer: GetUserResponse) -> (a: Action)
        requires
            old(self).phase == Phase::TargetRequested,
        ensures
            (*final(self), a) == step_spec(*old(self), Event::Resolved(answer)),
    {
        match answer.require_found() {
            Err(e) => return self.finish(Err(e)),
            Ok(()) => {},
        }
        let amount_check = match self.op {
            Operation::Transfer { .. } => Ok(()),
            Operation::Credit { amount, .. } => check_amount(amount),
            Operation::Debit { amount, .. } => check_amount(amount),
        };
        match amount_check {
            Err(e) => self.finish(Err(e)),
            Ok(()) => self.load_written(),
        }
    }

    fn on_accounts(&mut self, first: Model, second: Option<Model>) -> (a: Action)
        requires
            old(self).phase == Phase::AccountsRequested,
        ensures
            (*final(self), a) == step_spec(*old(self), Event::Loaded(first, second)),
    {
        let plan = match self.op {
            Operation::Transfer { payer_id, payee_id, amount } => match second {
                Some(payee) => if first.user_id != payer_id || payee.user_id != payee_id {
                    return self.finish(Err(LedgerError::Dependency));
                } else {
                    match plan_transfer(&first, &payee, amount) {
                        Ok((debit, credit)) => Ok((debit, Some(credit))),
                        Err(e) => Err(e),
                    }
                },
                None => return self.finish(Err(LedgerError::Dependency)),
            },
            Operation::Credit { target_id, amount, .. } => if first.user_id != target_id
                || second.is_some() {
                return self.finish(Err(LedgerError::Dependency));
            } else {
                match plan_credit(&first, amount) {
                    Ok(u) => Ok((u, None)),
                    Err(e) => Err(e),
                }
            },
            Operation::Debit { target_id, amount, .. } => if first.user_id != target_id
                || second.is_some() {
                return self.finish(Err(LedgerError::Dependency));
            } else {
                match plan_debit(&first, amount) {
                    Ok(u) => Ok((u, None)),
                    Err(e) => Err(e),
                }
            },
        };
        match plan {
            Err(e) => self.finish(Err(e)),
            Ok((a, b)) => {
                self.phase = Phase::CommitRequested;
                Action::Commit { first: a, second: b }
            },
        }
    }

    /// Takes in what the driver reports and says what it must do next.
    pub fn step(&mut self, event: Event) -> (r: Action)
        ensures
            (*final(self), r) == step_spec(*old(self), event),
    {
        match self.phase {
            Phase::Finished(r) => Action::Finish(r),
            Phase::Start => match event {
                Event::Begin => match self.op {
                    Operation::Transfer { payer_id, payee_id, amount } => match check_transfer_request(
                        payer_id,
                        payee_id,
                        amount,
                    ) {
                        Err(e) => self.finish(Err(e)),
                        Ok(()) => {
                            self.phase = Phase::TargetRequested;
                            Action::Resolve { user_id: payee_id }
                        },
                    },
                    Operation::Credit { caller_id, .. } => {
                        self.phase = Phase::CallerRequested;
                        Action::Load { first: caller_id, second: None }
                    },
                    Operation::Debit { caller_id, .. } => {
                        self.phase = Phase::CallerRequested;
                        Action::Load { first: caller_id, second: None }
                    },
                },
                _ => self.finish(Err(LedgerError::Dependency)),
            },
            Phase::CallerRequested => match event {
                Event::Loaded(caller, None) => self.on_caller(caller),
                _ => self.finish(Err(LedgerError::Dependency)),
            },
            Phase::TargetRequested => match event {
                Event::Resolved(answer) => self.on_target(answer),
                _ => self.finish(Err(LedgerError::Dependency)),
            },
            Phase::AccountsRequested => match event {
                Event::Loaded(first, second) => self.on_accounts(first, second),
                _ => self.finish(Err(LedgerError::Dependency)),
            },
            Phase::CommitRequested => match event {
                Event::Committed => self.finish(Ok(())),
                Event::Conflicted => match retry_after_conflict(self.attempt) {
                    Ok(next) => {
                        self.attempt = next;
                        self.load_written()
                    },
                    Err(e) => self.finish(Err(e)),
                },
                _ => self.finish(Err(LedgerError::Dependency)),
            },
        }
    }
}

} // verus!
