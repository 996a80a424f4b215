use vstd::prelude::*;

use crate::economy_state::{Model, UpdateEconomyStateForm};
use crate::responses::LedgerError;
use crate::store::{cas_spec, commit_pair_spec, create_spec, AccountStore, RowUpdate, StoreState};
use crate::users::{target_outcome, GetUserResponse, User};

verus! {

/// The write that sets the balance of `m` to `balance`, planned on its version.
pub open spec fn set_balance(m: Model, balance: int) -> RowUpdate {
    RowUpdate {
        user_id: m.user_id,
        expected_version: m.version,
        form: UpdateEconomyStateForm { balance: Some(balance as i32), banker: None },
    }
}

/// The checks of a transfer that need no account: a positive amount between
/// two different users.
pub open spec fn request_check(payer_id: i32, payee_id: i32, amount: i32) -> Result<(), LedgerError> {
    if amount <= 0 {
        Err(LedgerError::InvalidAmount)
    } else if payer_id == payee_id {
        Err(LedgerError::SelfTransfer)
    } else {
        Ok(())
    }
}

/// The two writes of a transfer of `amount` from `payer` to `payee`, as read.
pub open spec fn transfer_plan(payer: Model, payee: Model, amount: i32) -> Result<
    (RowUpdate, RowUpdate),
    LedgerError,
> {
    if amount <= 0 {
        Err(LedgerError::InvalidAmount)
    } else if payer.user_id == payee.user_id {
        Err(LedgerError::SelfTransfer)
    } else if payer.balance < amount {
        Err(LedgerError::InsufficientFunds)
    } else if payee.balance + amount > i32::MAX {
        Err(LedgerError::BalanceOverflow)
    } else {
        Ok((set_balance(payer, payer.balance - amount), set_balance(payee, payee.balance + amount)))
    }
}

/// The write of a privileged credit of `amount` to `target`, as read.
pub open spec fn credit_plan(target: Model, amount: i32) -> Result<RowUpdate, LedgerError> {
    if amount <= 0 {
        Err(LedgerError::InvalidAmount)
    } else if target.balance + amount > i32::MAX {
        Err(LedgerError::BalanceOverflow)
    } else {
        Ok(set_balance(target, target.balance + amount))
    }
}

/// The write of a privileged debit of `amount` from `target`, as read.
pub open spec fn debit_plan(target: Model, amount: i32) -> Result<RowUpdate, LedgerError> {
    if amount <= 0 {
        Err(LedgerError::InvalidAmount)
    } else if target.balance < amount {
        Err(LedgerError::InsufficientFunds)
    } else {
        Ok(set_balance(target, target.balance - amount))
    }
}

/// Get-or-create as the engine reports it: a refusal of the store is a
/// failure of a collaborator.
pub open spec fn get_or_create_spec(s: StoreState, user_id: i32) -> (StoreState, Result<Model, LedgerError>) {
    let (s1, r) = create_spec(s, user_id);
    match r {
        Ok(m) => (s1, Ok(m)),
        Err(_) => (s1, Err(LedgerError::Dependency)),
    }
}

/// A transfer of `amount` from `payer_id` to `payee_id`, where `payee` is the
/// identity service's answer about the payee.
pub open spec fn transfer_spec(
    s: StoreState,
    payer_id: i32,
    payee_id: i32,
    amount: i32,
    payee: GetUserResponse,
) -> (StoreState, Result<(), LedgerError>) {
    if request_check(payer_id, payee_id, amount) is Err {
        (s, Err(request_check(payer_id, payee_id, amount)->Err_0))
    } else if target_outcome(payee) is Err {
        (s, Err(target_outcome(payee)->Err_0))
    } else {
        let (s1, r1) = get_or_create_spec(s, payer_id);
        match r1 {
            Err(e) => (s1, Err(e)),
            Ok(payer) => {
                let (s2, r2) = get_or_create_spec(s1, payee_id);
                match r2 {
                    Err(e) => (s2, Err(e)),
                    Ok(payee_state) => match transfer_plan(payer, payee_state, amount) {
                        Err(e) => (s2, Err(e)),
                        Ok((debit, credit)) => {
                            let (s3, r3) = commit_pair_spec(s2, debit, credit);
                            match r3 {
                                Ok(_) => (s3, Ok(())),
                                Err(_) => (s3, Err(LedgerError::Conflict)),
                            }
                        },
                    },
                }
            },
        }
    }
}

/// A banker's adjustment of the balance of `target_id` by `amount`: added
/// when `credit`, taken away otherwise. `target` is the identity service's
/// answer about the target.
pub open spec fn adjust_spec(
    s: StoreState,
    caller_id: i32,
    target_id: i32,
    amount: i32,
    target: GetUserResponse,
    credit: bool,
) -> (StoreState, Result<(), LedgerError>) {
    let (s1, r1) = get_or_create_spec(s, caller_id);
    match r1 {
        Err(e) => (s1, Err(e)),
        Ok(caller) => if !caller.banker {
            (s1, Err(LedgerError::Forbidden))
        } else if target_outcome(target) is Err {
            (s1, Err(target_outcome(target)->Err_0))
        } else if amount <= 0 {
            (s1, Err(LedgerError::InvalidAmount))
        } else {
            let (s2, r2) = get_or_create_spec(s1, target_id);
            match r2 {
                Err(e) => (s2, Err(e)),
                Ok(acct) => {
                    let plan = if credit {
                        credit_plan(acct, amount)
                    } else {
                        debit_plan(acct, amount)
                    };
                    match plan {
                        Err(e) => (s2, Err(e)),
                        Ok(u) => {
                            let (s3, r3) = cas_spec(s2, u);
                            match r3 {
                                Ok(_) => (s3, Ok(())),
                                Err(_) => (s3, Err(LedgerError::Conflict)),
                            }
                        },
                    }
                },
            }
        },
    }
}

/// How many times an operation reads and commits before a conflict is given up.
pub const MAX_ATTEMPTS: u32 = 3;

/// After the commit of attempt number `attempts` (counted from 1) was refused
/// as a conflict: the number of the next attempt, or `Conflict` once all
/// attempts are spent.
pub fn retry_after_conflict(attempts: u32) -> (r: Result<u32, LedgerError>)
    ensures
        attempts < MAX_ATTEMPTS ==> r == Ok::<u32, LedgerError>((attempts + 1) as u32),
        attempts >= MAX_ATTEMPTS ==> r == Err::<u32, LedgerError>(LedgerError::Conflict),
{
    if attempts < MAX_ATTEMPTS {
        Ok(attempts + 1)
    } else {
        Err(LedgerError::Conflict)
    }
}

fn set_balance_update(m: &Model, balance: i32) -> (r: RowUpdate)
    ensures
        r == set_balance(*m, balance as int),
{
    RowUpdate {
        user_id: m.user_id,
        expected_version: m.version,
        form: UpdateEconomyStateForm { balance: Some(balance), banker: None },
    }
}

/// Checks what a transfer can be refused for before any account is read.
pub fn check_transfer_request(payer_id: i32, payee_id: i32, amount: i32) -> (r: Result<(), LedgerError>)
    ensures
        r == request_check(payer_id, payee_id, amount),
{
    match check_amount(amount) {
        Err(e) => Err(e),
        Ok(()) => if payer_id == payee_id {
            Err(LedgerError::SelfTransfer)
        } else {
            Ok(())
        },
    }
}

/// Refuses an amount that is zero or negative.
pub fn check_amount(amount: i32) -> (r: Result<(), LedgerError>)
    ensures
        amount > 0 ==> r == Ok::<(), LedgerError>(()),
        amount <= 0 ==> r == Err::<(), LedgerError>(LedgerError::InvalidAmount),
{
    if amount <= 0 {
        Err(LedgerError::InvalidAmount)
    } else {
        Ok(())
    }
}

/// Refuses a caller whose account is not a banker's.
pub fn require_banker(caller: &Model) -> (r: Result<(), LedgerError>)
    ensures
        caller.banker ==> r == Ok::<(), LedgerError>(()),
        !caller.banker ==> r == Err::<(), LedgerError>(LedgerError::Forbidden),
{
    if caller.banker {
        Ok(())
    } else {
        Err(LedgerError::Forbidden)
    }
}

/// Plans a transfer on the accounts as read: the debit of the payer and the
/// credit of the payee, each valid only against the version read. The two
/// new balances add up to the two old ones.
pub fn plan_transfer(payer: &Model, payee: &Model, amount: i32) -> (r: Result<
    (RowUpdate, RowUpdate),
    LedgerError,
>)
    ensures
        r == transfer_plan(*payer, *payee, amount),
        r matches Ok((debit, credit)) ==> debit.form.balance->0 + credit.form.balance->0
            == payer.balance + payee.balance,
{
    if amount <= 0 {
        return Err(LedgerError::InvalidAmount);
    }
    if payer.user_id == payee.user_id {
        return Err(LedgerError::SelfTransfer);
    }
    if payer.balance < amount {
        return Err(LedgerError::InsufficientFunds);
    }
    if payee.balance > i32::MAX - amount {
        return Err(LedgerError::BalanceOverflow);
    }
    Ok((set_balance_update(payer, payer.balance - amount), set_balance_update(payee, payee.balance + amount)))
}

/// Plans a privileged credit on the target account as read.
pub fn plan_credit(target: &Model, amount: i32) -> (r: Result<RowUpdate, LedgerError>)
    ensures
        r == credit_plan(*target, amount),
{
    if amount <= 0 {
        return Err(LedgerError::InvalidAmount);
    }
    if target.balance > i32::MAX - amount {
        return Err(LedgerError::BalanceOverflow);
    }
    Ok(set_balance_update(target, target.balance + amount))
}

/// Plans a privileged debit on the target account as read; it never plans a
/// negative balance.
pub fn plan_debit(target: &Model, amount: i32) -> (r: Result<RowUpdate, LedgerError>)
    ensures
        r == debit_plan(*target, amount),
{
    if amount <= 0 {
        return Err(LedgerError::InvalidAmount);
    }
    if target.balance < amount {
        return Err(LedgerError::InsufficientFunds);
    }
    Ok(set_balance_update(target, target.balance - amount))
}

/// The account of `user_id`, created with balance 0 and no banker privilege
/// when it does not exist yet.
pub fn get_or_create_economy_state(store: &mut AccountStore, user_id: i32) -> (r: Result<Model, LedgerError>)
    requires
        old(store).wf(),
    ensures
        final(store).wf(),
        (final(store)@, r) == get_or_create_spec(old(store)@, user_id),
{
    match store.create_if_absent(user_id) {
        Ok(m) => Ok(m),
        Err(_) => Err(LedgerError::Dependency),
    }
}

/// The account of `user_id` if it exists; nothing is created.
pub fn get_economy_state(store: &AccountStore, user_id: i32) -> (r: Result<Model, LedgerError>)
    ensures
        r == (if store@.accounts.contains_key(user_id) {
            Ok::<Model, LedgerError>(store@.accounts[user_id])
        } else {
            Err::<Model, LedgerError>(LedgerError::NotFound)
        }),
{
    match store.get(user_id) {
        Some(m) => Ok(m),
        None => Err(LedgerError::NotFound),
    }
}

/// The caller's own account, created when absent.
pub fn get_self(store: &mut AccountStore, caller: &User) -> (r: Result<Model, LedgerError>)
    requires
        old(store).wf(),
    ensures
        final(store).wf(),
        (final(store)@, r) == get_or_create_spec(old(store)@, caller.id),
{
    get_or_create_economy_state(store, caller.id)
}

/// The account of user `id`, created when absent, provided that the identity
/// service knows the user (`user` is its answer).
pub fn get_by_id(store: &mut AccountStore, id: i32, user: &GetUserResponse) -> (r: Result<Model, LedgerError>)
    requires
        old(store).wf(),
    ensures
        final(store).wf(),
        target_outcome(*user) is Err ==> final(store)@ == old(store)@ && r == Err::<Model, LedgerError>(
            target_outcome(*user)->Err_0,
        ),
        target_outcome(*user) is Ok ==> (final(store)@, r) == get_or_create_spec(old(store)@, id),
{
    match user.require_found() {
        Err(e) => Err(e),
        Ok(()) => get_or_create_economy_state(store, id),
    }
}

/// Moves `amount` from the account of `payer_id` to that of `payee_id`;
/// `payee` is the identity service's answer about the payee. Both accounts
/// change together or not at all, and their sum is kept.
pub fn transfer(
    store: &mut AccountStore,
    payer_id: i32,
    payee_id: i32,
    amount: i32,
    payee: &GetUserResponse,
) -> (r: Result<(), LedgerError>)
    requires
        old(store).wf(),
    ensures
        final(store).wf(),
        (final(store)@, r) == transfer_spec(old(store)@, payer_id, payee_id, amount, *payee),
{
    match check_transfer_request(payer_id, payee_id, amount) {
        Err(e) => return Err(e),
        Ok(()) => {},
    }
    match payee.require_found() {
        Err(e) => return Err(e),
        Ok(()) => {},
    }
    let payer = match get_or_create_economy_state(store, payer_id) {
        Err(e) => return Err(e),
        Ok(m) => m,
    };
    let payee_state = match get_or_create_economy_state(store, payee_id) {
        Err(e) => return Err(e),
        Ok(m) => m,
    };
    let (debit, credit) = match plan_transfer(&payer, &payee_state, amount) {
        Err(e) => return Err(e),
        Ok(p) => p,
    };
    match store.commit_pair(debit, credit) {
        Ok(()) => Ok(()),
        Err(_) => Err(LedgerError::Conflict),
    }
}

fn privileged_adjust(
    store: &mut AccountStore,
    caller_id: i32,
    target_id: i32,
    amount: i32,
    target: &GetUserResponse,
    credit: bool,
) -> (r: Result<(), LedgerError>)
    requires
        old(store).wf(),
    ensures
        final(store).wf(),
        (final(store)@, r) == adjust_spec(old(store)@, caller_id, target_id, amount, *target, credit),
{
    let caller = match get_or_create_economy_state(store, caller_id) {
        Err(e) => return Err(e),
        Ok(m) => m,
    };
    match require_banker(&caller) {
        Err(e) => return Err(e),
        Ok(()) => {},
    }
    match target.require_found() {
        Err(e) => return Err(e),
        Ok(()) => {},
    }
    match check_amount(amount) {
        Err(e) => return Err(e),
        Ok(()) => {},
    }
    let acct = match get_or_create_economy_state(store, target_id) {
        Err(e) => return Err(e),
        Ok(m) => m,
    };
    let plan = if credit {
        plan_credit(&acct, amount)
    } else {
        plan_debit(&acct, amount)
    };
    let u = match plan {
        Err(e) => return Err(e),
        Ok(u) => u,
    };
    match store.compare_and_update(u) {
        Ok(_) => Ok(()),
        Err(_) => Err(LedgerError::Conflict),
    }
}

/// A banker adds `amount` to the account of `target_id`; `target` is the
/// identity service's answer about the target. A caller whose account is not
/// a banker's is refused whatever the amount and target.
pub fn privileged_credit(
    store: &mut AccountStore,
    caller_id: i32,
    target_id: i32,
    amount: i32,
    target: &GetUserResponse,
) -> (r: Result<(), LedgerError>)
    requires
        old(store).wf(),
    ensures
        final(store).wf(),
        (final(store)@, r) == adjust_spec(old(store)@, caller_id, target_id, amount, *target, true),
{
    privileged_adjust(store, caller_id, target_id, amount, target, true)
}

/// A banker takes `amount` from the account of `target_id`; the balance never
/// goes below zero.
pub fn privileged_debit(
    store: &mut AccountStore,
    caller_id: i32,
    target_id: i32,
    amount: i32,
    target: &GetUserResponse,
) -> (r: Result<(), LedgerError>)
    requires
        old(store).wf(),
    ensures
        final(store).wf(),
        (final(store)@, r) == adjust_spec(old(store)@, caller_id, target_id, amount, *target, false),
{
    privileged_adjust(store, caller_id, target_id, amount, target, false)
}

} // verus!
