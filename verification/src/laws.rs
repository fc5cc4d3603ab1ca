//! What holds of the ledger whatever the stream: the laws of deposits,
//! disputes, chargebacks, duplicate ids and locked accounts.

use crate::ledger::disputed_amount;
use crate::ledger::Account;
use crate::ledger::Ledger;
use crate::ledger::Step;
use crate::state::ProcessError;
use crate::types::transaction::ClientId;
use crate::types::transaction::Transaction;
use crate::types::transaction::TransactionId;
use crate::types::transaction::TransactionInner;
use crate::types::transaction::TransactionState;
use vstd::prelude::*;

verus! {

/// Whether every transaction of `txns` is a deposit to `client`.
pub open spec fn deposits_to(txns: Seq<Transaction>, client: ClientId) -> bool {
    forall|i: int|
        0 <= i < txns.len() ==> (#[trigger] txns[i]).client_id == client
            && txns[i].inner is Deposit
}

/// Whether the ids of `txns` differ from each other and from every id that
/// `ledger` has recorded.
pub open spec fn fresh_ids(ledger: Ledger, txns: Seq<Transaction>) -> bool {
    &&& forall|i: int|
        0 <= i < txns.len() ==> !ledger.history.contains_key((#[trigger] txns[i]).transaction_id)
    &&& forall|i: int, j: int|
        0 <= i < j < txns.len() ==> (#[trigger] txns[i]).transaction_id != (
        #[trigger] txns[j]).transaction_id
}

/// The amounts of the deposits among `txns`, added up.
pub open spec fn deposited(txns: Seq<Transaction>) -> int
    decreases txns.len(),
{
    if txns.len() == 0 {
        0
    } else {
        let rest = deposited(txns.drop_first());
        match txns[0].inner {
            TransactionInner::Deposit(amount) => amount@ + rest,
            _ => rest,
        }
    }
}

/// Deposits to one client add up: after a stream of nothing but deposits to
/// `client`, the client's available funds have grown by the sum of the
/// deposits that were applied, and nothing else about the account has
/// changed.
pub proof fn deposits_add_up(ledger: Ledger, client: ClientId, txns: Seq<Transaction>)
    requires
        deposits_to(txns, client),
    ensures
        ({
            let before = ledger.account(client);
            let after = ledger.run(txns).ledger.account(client);
            after == (Account {
                available: before.available + deposited(ledger.processed(txns)),
                ..before
            })
        }),
    decreases txns.len(),
{
    if txns.len() > 0 {
        let first = ledger.step(txns[0]);
        let rest = txns.drop_first();
        let amount = txns[0].inner->Deposit_0@;
        assert(first.ledger.account(client).available == ledger.account(client).available
            + amount);
        if first.result is Ok {
            assert(deposits_to(rest, client));
            deposits_add_up(first.ledger, client, rest);
            let applied = seq![txns[0]] + first.ledger.processed(rest);
            assert(applied.drop_first() =~= first.ledger.processed(rest));
        } else {
            assert(deposited(seq![txns[0]].drop_first()) == 0);
        }
    }
}

/// A stream of deposits under fresh ids is applied to the end.
pub proof fn fresh_deposits_all_apply(ledger: Ledger, txns: Seq<Transaction>)
    requires
        forall|i: int| 0 <= i < txns.len() ==> (#[trigger] txns[i]).inner is Deposit,
        fresh_ids(ledger, txns),
    ensures
        ledger.run(txns).result is Ok,
        ledger.processed(txns) == txns,
    decreases txns.len(),
{
    if txns.len() > 0 {
        let first = ledger.step(txns[0]);
        let rest = txns.drop_first();
        assert(fresh_ids(first.ledger, rest));
        fresh_deposits_all_apply(first.ledger, rest);
    }
}

/// Deposits to a new client: after a stream of nothing but deposits to a
/// client that had no account, the client's available funds are the sum of
/// the deposits that were applied, nothing is held and the account is not
/// locked. Under fresh ids every deposit of the stream is applied.
pub proof fn deposits_to_new_client(ledger: Ledger, client: ClientId, txns: Seq<Transaction>)
    requires
        !ledger.accounts.contains_key(client),
        deposits_to(txns, client),
    ensures
        ledger.run(txns).ledger.account(client) == (Account {
            available: deposited(ledger.processed(txns)),
            held: 0,
            locked: false,
        }),
        fresh_ids(ledger, txns) ==> {
            &&& ledger.run(txns).result is Ok
            &&& ledger.processed(txns) == txns
            &&& ledger.run(txns).ledger.account(client).available == deposited(txns)
        },
{
    deposits_add_up(ledger, client, txns);
    if fresh_ids(ledger, txns) {
        fresh_deposits_all_apply(ledger, txns);
    }
}

/// A dispute and its resolution: disputing an alive record moves the amount
/// under dispute from available to held and marks the record disputed;
/// resolving it then gives back the ledger as it was before the dispute, so
/// that a second dispute and resolution do the same once more. The client
/// named by the dispute or the resolution plays no part.
pub proof fn dispute_then_resolve(ledger: Ledger, dispute: Transaction, resolve: Transaction)
    requires
        dispute.inner is Dispute,
        resolve.inner is Resolve,
        resolve.transaction_id == dispute.transaction_id,
        ledger.history.contains_key(dispute.transaction_id),
        ledger.history[dispute.transaction_id].state is Alive,
        disputed_amount(ledger.history[dispute.transaction_id]) is Some,
        ledger.accounts.contains_key(ledger.history[dispute.transaction_id].client_id),
    ensures
        ({
            let id = dispute.transaction_id;
            let record = ledger.history[id];
            let amount = disputed_amount(record)->Some_0;
            let before = ledger.accounts[record.client_id];
            let disputed = ledger.step(dispute);
            let resolved = disputed.ledger.step(resolve);
            &&& disputed.result is Ok
            &&& disputed.ledger.history[id] == (Transaction {
                state: TransactionState::Disputed,
                ..record
            })
            &&& disputed.ledger.accounts[record.client_id] == (Account {
                available: before.available - amount,
                held: before.held + amount,
                ..before
            })
            &&& resolved.result is Ok
            &&& resolved.ledger == ledger
            &&& resolved.ledger.step(dispute) == disputed
            &&& resolved.ledger.step(dispute).ledger.step(resolve) == resolved
        }),
{
    let resolved = ledger.step(dispute).ledger.step(resolve);
    assert(resolved.ledger.history =~= ledger.history);
    assert(resolved.ledger.accounts =~= ledger.accounts);
}

/// A disputed withdrawal: where an unlocked account covers a withdrawal,
/// withdrawing and then disputing the withdrawal leaves the available funds
/// as they were before the withdrawal and lowers the held funds by the
/// amount withdrawn.
pub proof fn disputed_withdrawal(ledger: Ledger, withdrawal: Transaction, dispute: Transaction)
    requires
        withdrawal.inner is Withdrawal,
        dispute.inner is Dispute,
        dispute.transaction_id == withdrawal.transaction_id,
        !ledger.history.contains_key(withdrawal.transaction_id),
        !ledger.account(withdrawal.client_id).locked,
        ledger.account(withdrawal.client_id).available >= withdrawal.inner->Withdrawal_0@,
    ensures
        ({
            let amount = withdrawal.inner->Withdrawal_0@;
            let before = ledger.account(withdrawal.client_id);
            let withdrawn = ledger.step(withdrawal);
            let disputed = withdrawn.ledger.step(dispute);
            &&& withdrawn.result is Ok
            &&& withdrawn.ledger.account(withdrawal.client_id) == (Account {
                available: before.available - amount,
                ..before
            })
            &&& disputed.result is Ok
            &&& disputed.ledger.account(withdrawal.client_id) == (Account {
                available: before.available,
                held: before.held - amount,
                ..before
            })
            &&& disputed.ledger.history[withdrawal.transaction_id].state is Disputed
        }),
{
}

/// A chargeback: charging back a disputed record takes the amount under
/// dispute out of the held funds, locks the account, leaves the available
/// funds alone and marks the record charged back. That is final: a later
/// dispute, resolution or chargeback of the record changes nothing.
pub proof fn chargeback_is_final(ledger: Ledger, chargeback: Transaction, later: Transaction)
    requires
        chargeback.inner is Chargeback,
        later.transaction_id == chargeback.transaction_id,
        later.inner is Dispute || later.inner is Resolve || later.inner is Chargeback,
        ledger.history.contains_key(chargeback.transaction_id),
        ledger.history[chargeback.transaction_id].state is Disputed,
        disputed_amount(ledger.history[chargeback.transaction_id]) is Some,
        ledger.accounts.contains_key(ledger.history[chargeback.transaction_id].client_id),
    ensures
        ({
            let id = chargeback.transaction_id;
            let record = ledger.history[id];
            let amount = disputed_amount(record)->Some_0;
            let before = ledger.accounts[record.client_id];
            let charged = ledger.step(chargeback);
            &&& charged.result is Ok
            &&& charged.ledger.history[id] == (Transaction {
                state: TransactionState::ChargedBack,
                ..record
            })
            &&& charged.ledger.accounts[record.client_id] == (Account {
                available: before.available,
                held: before.held - amount,
                locked: true,
            })
            &&& charged.ledger.step(later) == (Step { result: Ok(()), ledger: charged.ledger })
        }),
{
}

/// A duplicate id: a deposit or a withdrawal from an unlocked account under
/// an id that is already recorded fails with `DuplicateTransactionId`, and
/// the record that is there stays as it is.
pub proof fn duplicate_id_is_refused(ledger: Ledger, txn: Transaction)
    requires
        ledger.history.contains_key(txn.transaction_id),
        txn.inner is Deposit || (txn.inner is Withdrawal && !ledger.account(txn.client_id).locked),
    ensures
        ledger.step(txn).result == Err::<(), ProcessError>(
            ProcessError::DuplicateTransactionId(txn.transaction_id),
        ),
        ledger.step(txn).ledger.history == ledger.history,
{
}

/// Two deposits under one id: the first, under a fresh id, is applied; the
/// second fails with `DuplicateTransactionId`; and whatever follows it in
/// the stream is not applied.
pub proof fn second_deposit_ends_stream(
    ledger: Ledger,
    first: Transaction,
    second: Transaction,
    rest: Seq<Transaction>,
)
    requires
        first.inner is Deposit,
        second.inner is Deposit,
        second.transaction_id == first.transaction_id,
        !ledger.history.contains_key(first.transaction_id),
    ensures
        ledger.step(first).result is Ok,
        ledger.step(first).ledger.step(second).result == Err::<(), ProcessError>(
            ProcessError::DuplicateTransactionId(first.transaction_id),
        ),
        ledger.run(seq![first, second] + rest) == ledger.step(first).ledger.step(second),
        ledger.processed(seq![first, second] + rest) == seq![first, second],
{
    let txns = seq![first, second] + rest;
    let after_first = ledger.step(first).ledger;
    assert(after_first.run(txns.drop_first()) == after_first.step(second));
    assert(after_first.processed(txns.drop_first()) == seq![second]);
}

/// A stream ends at its first error: the ledger after the stream is the
/// ledger after the transactions that were applied, and no transaction
/// after a failed one is among them.
pub proof fn stream_ends_at_first_error(ledger: Ledger, txns: Seq<Transaction>)
    ensures
        ledger.processed(txns).len() <= txns.len(),
        ledger.processed(txns) == txns.take(ledger.processed(txns).len() as int),
        ledger.run(ledger.processed(txns)) == ledger.run(txns),
        ledger.run(txns).result is Err ==> ledger.processed(txns).len() > 0,
        ledger.run(txns).result is Ok ==> ledger.processed(txns) == txns,
    decreases txns.len(),
{
    if txns.len() > 0 {
        let first = ledger.step(txns[0]);
        let rest = txns.drop_first();
        if first.result is Ok {
            stream_ends_at_first_error(first.ledger, rest);
            let tail = first.ledger.processed(rest);
            let applied = seq![txns[0]] + tail;
            assert(applied =~= txns.take(applied.len() as int));
            assert(applied.drop_first() =~= tail);
        }
    }
}

/// A locked account gives nothing out: a withdrawal from a locked account
/// changes no balance and no record, and leaves none of its own.
pub proof fn locked_account_keeps_funds(ledger: Ledger, withdrawal: Transaction)
    requires
        withdrawal.inner is Withdrawal,
        ledger.account(withdrawal.client_id).locked,
    ensures
        ledger.step(withdrawal) == (Step { result: Ok(()), ledger }),
{
}

/// Records follow their life cycle: a record that is in the ledger stays
/// there under its id with its client and its kind, and its state either
/// stays or goes from alive to disputed, or from disputed to alive or to
/// charged back. Accounts are never removed, and an unlocked account is
/// locked by a chargeback only.
pub proof fn records_follow_life_cycle(ledger: Ledger, txn: Transaction)
    ensures
        forall|id: TransactionId| #[trigger]
            ledger.history.contains_key(id) ==> {
                let before = ledger.history[id];
                let after = ledger.step(txn).ledger.history[id];
                &&& ledger.step(txn).ledger.history.contains_key(id)
                &&& after == (Transaction { state: after.state, ..before })
                &&& {
                    ||| after.state == before.state
                    ||| before.state is Alive && after.state is Disputed && txn.inner is Dispute
                    ||| before.state is Disputed && after.state is Alive && txn.inner is Resolve
                    ||| before.state is Disputed && after.state is ChargedBack
                        && txn.inner is Chargeback
                }
                &&& after.state != before.state ==> txn.transaction_id == id
            },
        forall|client: ClientId| #[trigger]
            ledger.accounts.contains_key(client) ==> {
                &&& ledger.step(txn).ledger.accounts.contains_key(client)
                &&& (ledger.step(txn).ledger.accounts[client].locked
                    != ledger.accounts[client].locked ==> txn.inner is Chargeback
                    && !ledger.accounts[client].locked)
            },
{
}

/// Every step keeps a well-formed ledger well formed, and on a well-formed
/// ledger a step can fail in one way only: on a duplicate id.
pub proof fn step_keeps_well_formed(ledger: Ledger, txn: Transaction)
    requires
        ledger.well_formed(),
    ensures
        ledger.step(txn).ledger.well_formed(),
        ledger.step(txn).result matches Err(error) ==> error
            == ProcessError::DuplicateTransactionId(txn.transaction_id),
{
}

/// The empty ledger is well formed, and so is every ledger that a stream
/// has built from a well-formed one.
pub proof fn run_keeps_well_formed(ledger: Ledger, txns: Seq<Transaction>)
    requires
        ledger.well_formed(),
    ensures
        Ledger::empty().well_formed(),
        ledger.run(txns).ledger.well_formed(),
        ledger.run(txns).result matches Err(error) ==> error
            is DuplicateTransactionId,
    decreases txns.len(),
{
    if txns.len() > 0 {
        step_keeps_well_formed(ledger, txns[0]);
        if ledger.step(txns[0]).result is Ok {
            run_keeps_well_formed(ledger.step(txns[0]).ledger, txns.drop_first());
        }
    }
}

} // verus!
