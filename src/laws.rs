use vstd::prelude::*;

use crate::economy_state::Model;
use crate::ledger::{
    adjust_spec, credit_plan, debit_plan, get_or_create_spec, request_check, transfer_plan,
    transfer_spec, MAX_ATTEMPTS,
};
use crate::responses::LedgerError;
use crate::session::{
    loaded_match, planned, step_spec, written_accounts, Action, Event, Operation, Phase, Session,
};
use crate::store::{
    cas_spec, commit_pair_spec, lemma_cas_keeps_valid, lemma_commit_pair_keeps_valid,
    lemma_create_keeps_valid, valid_store, RowUpdate, StoreError, StoreState,
};
use crate::users::{target_outcome, GetUserResponse};

verus! {

/// The balance of `user_id`; an account that does not exist yet counts as
/// the zero balance it will be created with.
pub open spec fn balance_in(s: StoreState, user_id: i32) -> int {
    if s.accounts.contains_key(user_id) {
        s.accounts[user_id].balance as int
    } else {
        0
    }
}

/// One operation of the ledger, with the identity service's answer it saw.
pub enum LedgerOp {
    GetOrCreate { user_id: i32 },
    Transfer { payer_id: i32, payee_id: i32, amount: i32, payee: GetUserResponse },
    Credit { caller_id: i32, target_id: i32, amount: i32, target: GetUserResponse },
    Debit { caller_id: i32, target_id: i32, amount: i32, target: GetUserResponse },
}

/// The store after `op`, whatever its outcome.
pub open spec fn apply_op(s: StoreState, op: LedgerOp) -> StoreState {
    match op {
        LedgerOp::GetOrCreate { user_id } => get_or_create_spec(s, user_id).0,
        LedgerOp::Transfer { payer_id, payee_id, amount, payee } => transfer_spec(
            s,
            payer_id,
            payee_id,
            amount,
            payee,
        ).0,
        LedgerOp::Credit { caller_id, target_id, amount, target } => adjust_spec(
            s,
            caller_id,
            target_id,
            amount,
            target,
            true,
        ).0,
        LedgerOp::Debit { caller_id, target_id, amount, target } => adjust_spec(
            s,
            caller_id,
            target_id,
            amount,
            target,
            false,
        ).0,
    }
}

/// The store after `ops`, in order.
pub open spec fn run_ops(s: StoreState, ops: Seq<LedgerOp>) -> StoreState
    decreases ops.len(),
{
    if ops.len() == 0 {
        s
    } else {
        run_ops(apply_op(s, ops[0]), ops.drop_first())
    }
}

/// `get_or_create_spec` applied `n` times in a row to one user.
pub open spec fn repeat_get_or_create(s: StoreState, user_id: i32, n: nat) -> (
    StoreState,
    Result<Model, LedgerError>,
)
    decreases n,
{
    if n <= 1 {
        get_or_create_spec(s, user_id)
    } else {
        repeat_get_or_create(get_or_create_spec(s, user_id).0, user_id, (n - 1) as nat)
    }
}

proof fn lemma_get_or_create_keeps_valid(s: StoreState, user_id: i32)
    requires
        valid_store(s),
    ensures
        valid_store(get_or_create_spec(s, user_id).0),
        get_or_create_spec(s, user_id).1 matches Ok(m) ==> get_or_create_spec(s, user_id).0.accounts.contains_key(
            user_id,
        ) && get_or_create_spec(s, user_id).0.accounts[user_id] == m,
{
    lemma_create_keeps_valid(s, user_id);
}

proof fn lemma_op_keeps_valid(s: StoreState, op: LedgerOp)
    requires
        valid_store(s),
    ensures
        valid_store(apply_op(s, op)),
{
    match op {
        LedgerOp::GetOrCreate { user_id } => {
            lemma_get_or_create_keeps_valid(s, user_id);
        },
        LedgerOp::Transfer { payer_id, payee_id, amount, payee } => {
            lemma_get_or_create_keeps_valid(s, payer_id);
            let s1 = get_or_create_spec(s, payer_id).0;
            lemma_get_or_create_keeps_valid(s1, payee_id);
            let s2 = get_or_create_spec(s1, payee_id).0;
            let p = get_or_create_spec(s, payer_id).1;
            let q = get_or_create_spec(s1, payee_id).1;
            if p is Ok && q is Ok && transfer_plan(p->Ok_0, q->Ok_0, amount) is Ok {
                let (d, c) = transfer_plan(p->Ok_0, q->Ok_0, amount)->Ok_0;
                lemma_commit_pair_keeps_valid(s2, d, c);
            }
        },
        LedgerOp::Credit { caller_id, target_id, amount, target } => {
            lemma_adjust_keeps_valid(s, caller_id, target_id, amount, target, true);
        },
        LedgerOp::Debit { caller_id, target_id, amount, target } => {
            lemma_adjust_keeps_valid(s, caller_id, target_id, amount, target, false);
        },
    }
}

proof fn lemma_adjust_keeps_valid(
    s: StoreState,
    caller_id: i32,
    target_id: i32,
    amount: i32,
    target: GetUserResponse,
    credit: bool,
)
    requires
        valid_store(s),
    ensures
        valid_store(adjust_spec(s, caller_id, target_id, amount, target, credit).0),
{
    lemma_get_or_create_keeps_valid(s, caller_id);
    let s1 = get_or_create_spec(s, caller_id).0;
    lemma_get_or_create_keeps_valid(s1, target_id);
    let s2 = get_or_create_spec(s1, target_id).0;
    let acct = get_or_create_spec(s1, target_id).1;
    if acct is Ok {
        let plan = if credit {
            credit_plan(acct->Ok_0, amount)
        } else {
            debit_plan(acct->Ok_0, amount)
        };
        if plan is Ok {
            lemma_cas_keeps_valid(s2, plan->Ok_0);
        }
    }
}

/// A transfer neither creates nor destroys money. Whatever its outcome, the
/// balances of payer and payee add up to what they did before and no other
/// account changes; when it succeeds, exactly `amount` has moved from the
/// payer to the payee.
pub proof fn lemma_transfer_conserves(
    s: StoreState,
    payer_id: i32,
    payee_id: i32,
    amount: i32,
    payee: GetUserResponse,
)
    requires
        valid_store(s),
    ensures
        ({
            let (s2, r) = transfer_spec(s, payer_id, payee_id, amount, payee);
            &&& balance_in(s2, payer_id) + balance_in(s2, payee_id) == balance_in(s, payer_id)
                + balance_in(s, payee_id)
            &&& forall|k: i32|
                k != payer_id && k != payee_id ==> (#[trigger] s2.accounts.contains_key(k)
                    == s.accounts.contains_key(k)) && (s.accounts.contains_key(k)
                    ==> s2.accounts[k] == s.accounts[k])
            &&& r is Ok ==> balance_in(s2, payer_id) == balance_in(s, payer_id) - amount
                && balance_in(s2, payee_id) == balance_in(s, payee_id) + amount
        }),
{
    lemma_get_or_create_keeps_valid(s, payer_id);
    let s1 = get_or_create_spec(s, payer_id).0;
    lemma_get_or_create_keeps_valid(s1, payee_id);
}

/// No sequence of operations ever leaves a negative balance behind.
pub proof fn lemma_no_negative_balances(s: StoreState, ops: Seq<LedgerOp>)
    requires
        valid_store(s),
    ensures
        valid_store(run_ops(s, ops)),
        forall|k: i32| #[trigger]
            run_ops(s, ops).accounts.contains_key(k) ==> run_ops(s, ops).accounts[k].balance >= 0,
    decreases ops.len(),
{
    if ops.len() > 0 {
        lemma_op_keeps_valid(s, ops[0]);
        lemma_no_negative_balances(apply_op(s, ops[0]), ops.drop_first());
    }
}

/// Get-or-create is idempotent: once it has returned an account, calling it
/// again for the same user, any number of times, returns that account and
/// leaves the store as the first call left it. The first call adds at most
/// that one account.
pub proof fn lemma_get_or_create_idempotent(s: StoreState, user_id: i32, n: nat)
    requires
        valid_store(s),
        n >= 1,
        get_or_create_spec(s, user_id).1 is Ok,
    ensures
        repeat_get_or_create(s, user_id, n) == get_or_create_spec(s, user_id),
        get_or_create_spec(s, user_id).0.accounts.dom() == s.accounts.dom().insert(user_id),
    decreases n,
{
    let s1 = get_or_create_spec(s, user_id).0;
    lemma_get_or_create_keeps_valid(s, user_id);
    assert(s1.accounts.dom() =~= s.accounts.dom().insert(user_id));
    if n > 1 {
        assert(get_or_create_spec(s1, user_id) == get_or_create_spec(s, user_id));
        lemma_get_or_create_idempotent(s1, user_id, (n - 1) as nat);
    }
}

/// A caller whose account is not a banker's is refused with `Forbidden`,
/// whatever the amount, the target and the identity service's answer, and
/// nothing is written.
pub proof fn lemma_privilege_gate(
    s: StoreState,
    caller_id: i32,
    target_id: i32,
    amount: i32,
    target: GetUserResponse,
    credit: bool,
)
    requires
        valid_store(s),
        s.accounts.contains_key(caller_id),
        !s.accounts[caller_id].banker,
    ensures
        adjust_spec(s, caller_id, target_id, amount, target, credit) == (s, Err::<(), LedgerError>(
            LedgerError::Forbidden,
        )),
{
}

/// Two transfers planned on the same read of a payer, each of which fits the
/// balance but which together exceed it, cannot both be committed: the first
/// commits, the second is refused as a conflict without any write, and
/// planned again on a fresh read it is refused for insufficient funds.
pub proof fn lemma_concurrent_debits(
    s: StoreState,
    payer_id: i32,
    payee1: i32,
    payee2: i32,
    amount1: i32,
    amount2: i32,
)
    requires
        valid_store(s),
        s.accounts.contains_key(payer_id),
        s.accounts.contains_key(payee1),
        s.accounts.contains_key(payee2),
        transfer_plan(s.accounts[payer_id], s.accounts[payee1], amount1) is Ok,
        transfer_plan(s.accounts[payer_id], s.accounts[payee2], amount2) is Ok,
        amount1 + amount2 > s.accounts[payer_id].balance,
    ensures
        ({
            let (d1, c1) = transfer_plan(s.accounts[payer_id], s.accounts[payee1], amount1)->Ok_0;
            let (d2, c2) = transfer_plan(s.accounts[payer_id], s.accounts[payee2], amount2)->Ok_0;
            let (s1, r1) = commit_pair_spec(s, d1, c1);
            let (s2, r2) = commit_pair_spec(s1, d2, c2);
            &&& r1 is Ok
            &&& r2 == Err::<(), StoreError>(StoreError::Conflict)
            &&& s2 == s1
            &&& transfer_plan(s1.accounts[payer_id], s1.accounts[payee2], amount2) == Err::<
                (crate::store::RowUpdate, crate::store::RowUpdate),
                LedgerError,
            >(LedgerError::InsufficientFunds)
        }),
{
}

/// The same two transfers run one after the other on the store: the first
/// succeeds and the second is refused for insufficient funds, leaving the
/// store as the first left it. The premises are symmetric, so this holds
/// whichever of the two runs first.
pub proof fn lemma_serialized_debits(
    s: StoreState,
    payer_id: i32,
    payee1: i32,
    payee2: i32,
    amount1: i32,
    amount2: i32,
    answer1: GetUserResponse,
    answer2: GetUserResponse,
)
    requires
        valid_store(s),
        s.accounts.contains_key(payer_id),
        s.accounts.contains_key(payee1),
        s.accounts.contains_key(payee2),
        transfer_plan(s.accounts[payer_id], s.accounts[payee1], amount1) is Ok,
        transfer_plan(s.accounts[payer_id], s.accounts[payee2], amount2) is Ok,
        amount1 + amount2 > s.accounts[payer_id].balance,
        answer1 is Found,
        answer2 is Found,
    ensures
        ({
            let (s1, r1) = transfer_spec(s, payer_id, payee1, amount1, answer1);
            let (s2, r2) = transfer_spec(s1, payer_id, payee2, amount2, answer2);
            &&& r1 is Ok
            &&& r2 == Err::<(), LedgerError>(LedgerError::InsufficientFunds)
            &&& s2 == s1
        }),
{
    let (s1, r1) = transfer_spec(s, payer_id, payee1, amount1, answer1);
    lemma_transfer_conserves(s, payer_id, payee1, amount1, answer1);
    assert(s1.accounts.contains_key(payer_id));
    assert(s1.accounts.contains_key(payee2));
}

/// A session asks for a commit only right after the accounts it asked for
/// were reported, and only for the writes the operation plans on them. The
/// two writes of a transfer keep the sum of the two balances, and no write
/// leaves a negative balance when none was read.
pub proof fn lemma_session_commits_planned_writes(s: Session, e: Event)
    requires
        step_spec(s, e).1 is Commit,
        e matches Event::Loaded(first, second) ==> first.balance >= 0 && (second matches Some(
            m,
        ) ==> m.balance >= 0),
    ensures
        s.phase == Phase::AccountsRequested,
        e is Loaded,
        ({
            let (first, second) = (e->Loaded_0, e->Loaded_1);
            let (a, b) = (step_spec(s, e).1->Commit_first, step_spec(s, e).1->Commit_second);
            &&& loaded_match(first, second, written_accounts(s.op))
            &&& planned(s.op, first, second) == Ok::<(RowUpdate, Option<RowUpdate>), LedgerError>((a, b))
            &&& a.form.balance is Some && a.form.balance->0 >= 0
            &&& b matches Some(c) ==> c.form.balance is Some && c.form.balance->0 >= 0
            &&& s.op is Transfer ==> (b is Some && a.form.balance->0 + b->0.form.balance->0
                == first.balance + second->0.balance)
        }),
{
}

/// A session never counts more attempts than `MAX_ATTEMPTS`: each conflict
/// starts one more attempt until they are spent, then the session finishes
/// with `Conflict`.
pub proof fn lemma_session_attempts_bounded(s: Session, e: Event)
    requires
        1 <= s.attempt <= MAX_ATTEMPTS,
    ensures
        s.attempt <= step_spec(s, e).0.attempt <= MAX_ATTEMPTS,
        s.phase == Phase::CommitRequested && e is Conflicted && s.attempt == MAX_ATTEMPTS
            ==> step_spec(s, e).1 == Action::Finish(Err(LedgerError::Conflict)),
{
}

/// A privileged session begins by asking for the caller's account, and a
/// caller reported without the banker privilege ends it with `Forbidden`
/// before the target is looked up or anything is written.
pub proof fn lemma_session_privilege_gate(op: Operation, caller: Model)
    requires
        op is Credit || op is Debit,
        caller.user_id == (if op is Credit {
            op->Credit_caller_id
        } else {
            op->Debit_caller_id
        }),
        !caller.banker,
    ensures
        ({
            let s0 = Session { op, phase: Phase::Start, attempt: 1 };
            let (s1, a1) = step_spec(s0, Event::Begin);
            let (s2, a2) = step_spec(s1, Event::Loaded(caller, None));
            &&& a1 == Action::Load { first: caller.user_id, second: None }
            &&& s1.phase == Phase::CallerRequested
            &&& a2 == Action::Finish(Err(LedgerError::Forbidden))
            &&& s2.phase == Phase::Finished(Err(LedgerError::Forbidden))
        }),
{
}

/// What a store that keeps the store contract reports for `a`, and the store
/// afterwards; `answer` is what the identity service says.
pub open spec fn store_event(st: StoreState, answer: GetUserResponse, a: Action) -> (StoreState, Event) {
    match a {
        Action::Resolve { .. } => (st, Event::Resolved(answer)),
        Action::Load { first, second } => {
            let (s1, r1) = get_or_create_spec(st, first);
            match r1 {
                Err(_) => (s1, Event::Failed),
                Ok(m1) => match second {
                    None => (s1, Event::Loaded(m1, None)),
                    Some(id) => {
                        let (s2, r2) = get_or_create_spec(s1, id);
                        match r2 {
                            Err(_) => (s2, Event::Failed),
                            Ok(m2) => (s2, Event::Loaded(m1, Some(m2))),
                        }
                    },
                }
            }
        },
        Action::Commit { first, second } => match second {
            None => {
                let (s1, r) = cas_spec(st, first);
                (s1, if r is Ok { Event::Committed } else { Event::Conflicted })
            },
            Some(b) => {
                let (s1, r) = commit_pair_spec(st, first, b);
                (s1, if r is Ok { Event::Committed } else { Event::Conflicted })
            },
        },
        Action::Finish(_) => (st, Event::Failed),
    }
}

/// Runs session `s` on event `e` against the store `st` for at most `fuel`
/// requests, and returns the store and the session's outcome.
pub open spec fn run_session(st: StoreState, answer: GetUserResponse, s: Session, e: Event, fuel: nat) -> (
    StoreState,
    Result<(), LedgerError>,
)
    decreases fuel,
{
    let (s1, a) = step_spec(s, e);
    match a {
        Action::Finish(r) => (st, r),
        _ => if fuel == 0 {
            (st, Err(LedgerError::Dependency))
        } else {
            let (st1, e1) = store_event(st, answer, a);
            run_session(st1, answer, s1, e1, (fuel - 1) as nat)
        },
    }
}

proof fn lemma_fresh_write_commits(st: StoreState, u: RowUpdate)
    requires
        valid_store(st),
        st.accounts.contains_key(u.user_id),
        st.accounts[u.user_id].version == u.expected_version,
        u.form.balance matches Some(b) && b >= 0,
    ensures
        cas_spec(st, u).1 is Ok,
        cas_spec(st, u).0.accounts.dom() == st.accounts.dom(),
        forall|k: i32| k != u.user_id && #[trigger] st.accounts.contains_key(k)
            ==> cas_spec(st, u).0.accounts[k] == st.accounts[k],
{
    assert(cas_spec(st, u).0.accounts.dom() =~= st.accounts.dom());
}

/// Driven against a store that keeps the store contract, a transfer session
/// ends with the store and the outcome of `transfer_spec`.
pub proof fn lemma_transfer_session_agrees(
    st: StoreState,
    payer_id: i32,
    payee_id: i32,
    amount: i32,
    payee: GetUserResponse,
)
    requires
        valid_store(st),
    ensures
        run_session(
            st,
            payee,
            Session { op: Operation::Transfer { payer_id, payee_id, amount }, phase: Phase::Start, attempt: 1 },
            Event::Begin,
            3,
        ) == transfer_spec(st, payer_id, payee_id, amount, payee),
{
    reveal_with_fuel(run_session, 4);
    lemma_get_or_create_keeps_valid(st, payer_id);
    let s1 = get_or_create_spec(st, payer_id).0;
    lemma_get_or_create_keeps_valid(s1, payee_id);
    let s2 = get_or_create_spec(s1, payee_id).0;
    let r1 = get_or_create_spec(st, payer_id).1;
    let r2 = get_or_create_spec(s1, payee_id).1;
    if request_check(payer_id, payee_id, amount) is Ok && target_outcome(payee) is Ok && r1 is Ok
        && r2 is Ok {
        let p = r1->Ok_0;
        let q = r2->Ok_0;
        assert(s2.accounts.contains_key(payer_id));
        assert(s2.accounts[payer_id] == p);
        if transfer_plan(p, q, amount) is Ok {
            let (d, c) = transfer_plan(p, q, amount)->Ok_0;
            lemma_fresh_write_commits(s2, d);
            let s3 = cas_spec(s2, d).0;
            lemma_cas_keeps_valid(s2, d);
            assert(s3.accounts.contains_key(payee_id));
            lemma_fresh_write_commits(s3, c);
        }
    }
}

/// Driven against a store that keeps the store contract, a credit or debit
/// session ends with the store and the outcome of `adjust_spec`.
pub proof fn lemma_adjust_session_agrees(
    st: StoreState,
    caller_id: i32,
    target_id: i32,
    amount: i32,
    target: GetUserResponse,
    credit: bool,
)
    requires
        valid_store(st),
    ensures
        run_session(
            st,
            target,
            Session {
                op: if credit {
                    Operation::Credit { caller_id, target_id, amount }
                } else {
                    Operation::Debit { caller_id, target_id, amount }
                },
                phase: Phase::Start,
                attempt: 1,
            },
            Event::Begin,
            4,
        ) == adjust_spec(st, caller_id, target_id, amount, target, credit),
{
    reveal_with_fuel(run_session, 5);
    lemma_get_or_create_keeps_valid(st, caller_id);
    let s1 = get_or_create_spec(st, caller_id).0;
    lemma_get_or_create_keeps_valid(s1, target_id);
    let s2 = get_or_create_spec(s1, target_id).0;
    let r2 = get_or_create_spec(s1, target_id).1;
    if r2 is Ok {
        let t = r2->Ok_0;
        let plan = if credit {
            credit_plan(t, amount)
        } else {
            debit_plan(t, amount)
        };
        if plan is Ok {
            lemma_fresh_write_commits(s2, plan->Ok_0);
        }
    }
}

} // verus!
