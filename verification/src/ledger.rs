//! The ledger as a mathematical value, and the rule by which one
//! transaction changes it.

use crate::state::ProcessError;
use crate::types::fixed_float::FixedFloat;
use crate::types::transaction::ClientId;
use crate::types::transaction::Transaction;
use crate::types::transaction::TransactionId;
use crate::types::transaction::TransactionInner;
use crate::types::transaction::TransactionState;
use vstd::prelude::*;

verus! {

/// The balances of one client, in ten-thousandths. Either balance may be
/// negative.
pub struct Account {
    pub available: int,
    pub held: int,
    pub locked: bool,
}

impl Account {
    /// The account of a client that no transaction has touched yet.
    pub open spec fn empty() -> Account {
        Account { available: 0, held: 0, locked: false }
    }

    /// Available and held funds together.
    pub open spec fn total(self) -> int {
        self.available + self.held
    }

    /// Whether both balances can be stored.
    pub open spec fn in_range(self) -> bool {
        FixedFloat::representable(self.available) && FixedFloat::representable(self.held)
    }
}

/// The records of the deposits and withdrawals applied so far, by
/// transaction id, and the accounts of the clients seen so far.
pub struct Ledger {
    pub history: Map<TransactionId, Transaction>,
    pub accounts: Map<ClientId, Account>,
}

/// What applying a transaction gives: the ledger after it, and whether the
/// stream may go on.
pub struct Step {
    pub result: Result<(), ProcessError>,
    pub ledger: Ledger,
}

/// What a dispute, a resolution or a chargeback finds under the id that it
/// refers to.
pub enum Target {
    /// Nothing to act on: no record, or a record in another state.
    Skip,
    /// A record that cannot be acted on.
    Fault(ProcessError),
    /// A record, the amount under dispute, and the account of the record's
    /// client.
    Found(Transaction, int, Account),
}

/// The amount under dispute for a record: the amount of a deposit, the
/// negated amount of a withdrawal, and none for any other kind.
pub open spec fn disputed_amount(record: Transaction) -> Option<int> {
    match record.inner {
        TransactionInner::Deposit(amount) => Some(amount@),
        TransactionInner::Withdrawal(amount) => Some(-amount@),
        _ => None,
    }
}

impl Ledger {
    /// The ledger before any transaction.
    pub open spec fn empty() -> Ledger {
        Ledger { history: Map::empty(), accounts: Map::empty() }
    }

    /// The account of `client`, or the empty account where the client has
    /// none yet.
    pub open spec fn account(self, client: ClientId) -> Account {
        if self.accounts.contains_key(client) {
            self.accounts[client]
        } else {
            Account::empty()
        }
    }

    /// The ledger with the account of `client` replaced.
    pub open spec fn with_account(self, client: ClientId, account: Account) -> Ledger {
        Ledger { accounts: self.accounts.insert(client, account), ..self }
    }

    /// The ledger with the state of the record under `id` replaced.
    pub open spec fn with_state(self, id: TransactionId, state: TransactionState) -> Ledger {
        Ledger {
            history: self.history.insert(id, Transaction { state, ..self.history[id] }),
            ..self
        }
    }

    /// Records a deposit or a withdrawal as alive under its id. Where the id
    /// is taken the ledger stays as it is and the stream ends.
    pub open spec fn record(self, txn: Transaction) -> Step {
        if self.history.contains_key(txn.transaction_id) {
            Step { result: Err(ProcessError::DuplicateTransactionId(txn.transaction_id)), ledger: self }
        } else {
            Step {
                result: Ok(()),
                ledger: Ledger {
                    history: self.history.insert(
                        txn.transaction_id,
                        Transaction { state: TransactionState::Alive, ..txn },
                    ),
                    ..self
                },
            }
        }
    }

    /// A deposit: the amount is added to the client's available funds,
    /// whether the account is locked or not, and then the deposit is
    /// recorded. Where its id is taken the amount stays added.
    pub open spec fn deposit(self, txn: Transaction, amount: int) -> Step {
        let account = self.account(txn.client_id);
        self.with_account(
            txn.client_id,
            Account { available: account.available + amount, ..account },
        ).record(txn)
    }

    /// A withdrawal: dropped where the account is locked; otherwise the
    /// amount leaves the available funds if they cover it, and the
    /// withdrawal is recorded either way.
    pub open spec fn withdraw(self, txn: Transaction, amount: int) -> Step {
        let account = self.account(txn.client_id);
        if account.locked {
            Step { result: Ok(()), ledger: self }
        } else if account.available >= amount {
            self.with_account(
                txn.client_id,
                Account { available: account.available - amount, ..account },
            ).record(txn)
        } else {
            self.with_account(txn.client_id, account).record(txn)
        }
    }

    /// What a transaction that refers to `id` acts on, if the record has to
    /// be in state `required`.
    pub open spec fn target(self, id: TransactionId, required: TransactionState) -> Target {
        if !self.history.contains_key(id) {
            Target::Skip
        } else if self.history[id].state != required {
            Target::Skip
        } else {
            let record = self.history[id];
            match disputed_amount(record) {
                None => Target::Fault(ProcessError::DisputeTargetInvalid(id)),
                Some(amount) => if self.accounts.contains_key(record.client_id) {
                    Target::Found(record, amount, self.accounts[record.client_id])
                } else {
                    Target::Fault(
                        ProcessError::DisputedTransactionClientMissing(record.client_id),
                    )
                },
            }
        }
    }

    /// A dispute of the record under `id`: an alive record becomes disputed,
    /// and the amount under dispute moves from available to held.
    pub open spec fn dispute(self, id: TransactionId) -> Step {
        match self.target(id, TransactionState::Alive) {
            Target::Skip => Step { result: Ok(()), ledger: self },
            Target::Fault(error) => Step { result: Err(error), ledger: self },
            Target::Found(record, amount, account) => Step {
                result: Ok(()),
                ledger: self.with_state(id, TransactionState::Disputed).with_account(
                    record.client_id,
                    Account {
                        available: account.available - amount,
                        held: account.held + amount,
                        ..account
                    },
                ),
            },
        }
    }

    /// A resolution of the record under `id`: a disputed record becomes
    /// alive again, and the amount under dispute moves back from held to
    /// available.
    pub open spec fn resolve(self, id: TransactionId) -> Step {
        match self.target(id, TransactionState::Disputed) {
            Target::Skip => Step { result: Ok(()), ledger: self },
            Target::Fault(error) => Step { result: Err(error), ledger: self },
            Target::Found(record, amount, account) => Step {
                result: Ok(()),
                ledger: self.with_state(id, TransactionState::Alive).with_account(
                    record.client_id,
                    Account {
                        available: account.available + amount,
                        held: account.held - amount,
                        ..account
                    },
                ),
            },
        }
    }

    /// A chargeback of the record under `id`: a disputed record becomes
    /// charged back, the amount under dispute leaves the held funds, and
    /// the account is locked.
    pub open spec fn chargeback(self, id: TransactionId) -> Step {
        match self.target(id, TransactionState::Disputed) {
            Target::Skip => Step { result: Ok(()), ledger: self },
            Target::Fault(error) => Step { result: Err(error), ledger: self },
            Target::Found(record, amount, account) => Step {
                result: Ok(()),
                ledger: self.with_state(id, TransactionState::ChargedBack).with_account(
                    record.client_id,
                    Account { held: account.held - amount, locked: true, ..account },
                ),
            },
        }
    }

    /// The ledger after one transaction, and whether the stream may go on.
    pub open spec fn step(self, txn: Transaction) -> Step {
        match txn.inner {
            TransactionInner::Deposit(amount) => self.deposit(txn, amount@),
            TransactionInner::Withdrawal(amount) => self.withdraw(txn, amount@),
            TransactionInner::Dispute => self.dispute(txn.transaction_id),
            TransactionInner::Resolve => self.resolve(txn.transaction_id),
            TransactionInner::Chargeback => self.chargeback(txn.transaction_id),
        }
    }

    /// The ledger after a stream of transactions, applied in order up to and
    /// including the first that fails.
    pub open spec fn run(self, txns: Seq<Transaction>) -> Step
        decreases txns.len(),
    {
        if txns.len() == 0 {
            Step { result: Ok(()), ledger: self }
        } else {
            let first = self.step(txns[0]);
            if first.result is Ok {
                first.ledger.run(txns.drop_first())
            } else {
                first
            }
        }
    }

    /// The transactions of a stream that are applied: all of them up to and
    /// including the first that fails.
    pub open spec fn processed(self, txns: Seq<Transaction>) -> Seq<Transaction>
        decreases txns.len(),
    {
        if txns.len() == 0 {
            Seq::empty()
        } else {
            let first = self.step(txns[0]);
            if first.result is Ok {
                seq![txns[0]] + first.ledger.processed(txns.drop_first())
            } else {
                seq![txns[0]]
            }
        }
    }

    /// Whether every balance can be stored.
    pub open spec fn in_range(self) -> bool {
        forall|client: ClientId| #[trigger]
            self.accounts.contains_key(client) ==> self.accounts[client].in_range()
    }

    /// What holds of every ledger that transactions have built from the
    /// empty one: each record is a deposit or a withdrawal, stands under
    /// its own id, and belongs to a client that has an account.
    pub open spec fn well_formed(self) -> bool {
        forall|id: TransactionId| #[trigger]
            self.history.contains_key(id) ==> {
                &&& self.history[id].transaction_id == id
                &&& disputed_amount(self.history[id]) is Some
                &&& self.accounts.contains_key(self.history[id].client_id)
            }
    }
}

} // verus!
