//! The ledger engine: the accounts and the history of one stream, and the
//! application of its transactions.

use crate::laws::step_keeps_well_formed;
use crate::ledger::Account;
use crate::ledger::Ledger;
use crate::ledger::Target;
use crate::report::accounts_of;
use crate::report::header_text;
use crate::report::push_row;
use crate::report::rows_text;
use crate::report::table_text;
use crate::text::decimal;
use crate::text::push_decimal;
use crate::types::fixed_float::FixedFloat;
use crate::types::transaction::ClientId;
use crate::types::transaction::Transaction;
use crate::types::transaction::TransactionId;
use crate::types::transaction::TransactionInner;
use crate::types::transaction::TransactionState;
use std::collections::hash_map::Entry;
use std::collections::HashMap;
use vstd::prelude::*;
use vstd::std_specs::iter::IteratorSpec;
use vstd::string::StringExecFns;

verus! {

/// The balances of one client.
#[derive(Debug, PartialEq, Clone, Copy, Structural)]
pub struct AccountState {
    pub available: FixedFloat,
    pub held: FixedFloat,
    pub locked: bool,
}

impl View for AccountState {
    type V = Account;

    open spec fn view(&self) -> Account {
        Account { available: self.available@, held: self.held@, locked: self.locked }
    }
}

impl Default for AccountState {
    fn default() -> (account: Self)
        ensures
            account@ == Account::empty(),
    {
        AccountState { available: FixedFloat(0), held: FixedFloat(0), locked: false }
    }
}

/// Why a stream of transactions cannot go on.
#[derive(Debug, PartialEq, Eq, Clone, Copy, Structural)]
pub enum ProcessError {
    /// A disputed record belongs to a client without an account.
    DisputedTransactionClientMissing(ClientId),
    /// A disputed record is neither a deposit nor a withdrawal.
    DisputeTargetInvalid(TransactionId),
    /// A deposit or a withdrawal came under an id that is already recorded.
    DuplicateTransactionId(TransactionId),
}

impl ProcessError {
    /// The message that describes the error, with the offending id.
    pub open spec fn message(&self) -> Seq<char> {
        match self {
            Self::DisputedTransactionClientMissing(client_id) => {
                "Disputed transaction refers to non-existent client id: "@ + decimal(
                    client_id.0 as nat,
                )
            },
            Self::DisputeTargetInvalid(transaction_id) => {
                "Dispute of non-disputable transaction id: "@ + decimal(transaction_id.0 as nat)
            },
            Self::DuplicateTransactionId(transaction_id) => {
                "Duplicate transaction id: "@ + decimal(transaction_id.0 as nat)
            },
        }
    }

    /// The message that describes the error, with the offending id.
    pub fn to_string(&self) -> (s: String)
        ensures
            s@ == self.message(),
    {
        match self {
            Self::DisputedTransactionClientMissing(client_id) => {
                let mut s = String::from_str(
                    "Disputed transaction refers to non-existent client id: ",
                );
                push_decimal(&mut s, client_id.0 as u128);
                s
            },
            Self::DisputeTargetInvalid(transaction_id) => {
                let mut s = String::from_str("Dispute of non-disputable transaction id: ");
                push_decimal(&mut s, transaction_id.0 as u128);
                s
            },
            Self::DuplicateTransactionId(transaction_id) => {
                let mut s = String::from_str("Duplicate transaction id: ");
                push_decimal(&mut s, transaction_id.0 as u128);
                s
            },
        }
    }
}

/// Whether `v` ten-thousandths can be held by a `FixedFloat`.
fn storable(v: i128) -> (ok: bool)
    ensures
        ok == FixedFloat::representable(v as int),
{
    i64::MIN as i128 <= v && v <= i64::MAX as i128
}

/// The ledger of one stream of transactions.
pub struct State {
    transactions: HashMap<u32, Transaction>,
    accounts: HashMap<u16, AccountState>,
}

impl View for State {
    type V = Ledger;

    closed spec fn view(&self) -> Ledger {
        Ledger {
            history: Map::new(
                |id: TransactionId| self.transactions@.contains_key(id.0),
                |id: TransactionId| self.transactions@[id.0],
            ),
            accounts: Map::new(
                |client: ClientId| self.accounts@.contains_key(client.0),
                |client: ClientId| self.accounts@[client.0]@,
            ),
        }
    }
}

impl Default for State {
    fn default() -> (state: Self)
        ensures
            state@ == Ledger::empty(),
            state@.well_formed(),
    {
        let state = State { transactions: HashMap::new(), accounts: HashMap::new() };
        assert(state@.history =~= Ledger::empty().history);
        assert(state@.accounts =~= Ledger::empty().accounts);
        state
    }
}

impl State {
    /// Applies one transaction of the stream. After an error the stream
    /// cannot go on.
    ///
    /// The balances that the transaction leads to have to be storable;
    /// [`State::fits`] tests that. On a ledger that transactions have built
    /// from the empty one, the only error is a duplicate id.
    pub fn process(&mut self, txn: Transaction) -> (result: Result<(), ProcessError>)
        requires
            old(self)@.step(txn).ledger.in_range(),
        ensures
            result == old(self)@.step(txn).result,
            final(self)@ == old(self)@.step(txn).ledger,
            old(self)@.well_formed() ==> final(self)@.well_formed(),
            old(self)@.well_formed() ==> (result matches Err(error) ==> error
                == ProcessError::DuplicateTransactionId(txn.transaction_id)),
    {
        proof {
            if old(self)@.well_formed() {
                step_keeps_well_formed(old(self)@, txn);
            }
        }
        match txn.inner {
            TransactionInner::Deposit(amount) => {
                let account = self.get_or_create_account(txn.client_id);
                proof {
                    let after = old(self)@.deposit(txn, amount@).ledger;
                    assert(after.accounts.contains_key(txn.client_id));
                }
                // A locked account still takes deposits.
                account.available = FixedFloat(account.available.0 + amount.0);
                proof {
                    self.account_stored(*old(self), txn.client_id);
                }
                self.cache_transaction(txn)
            },
            TransactionInner::Withdrawal(amount) => {
                let account = self.get_or_create_account(txn.client_id);
                // A locked account gives nothing out, and the withdrawal
                // leaves no record, so it can never be disputed.
                if !account.locked {
                    proof {
                        let after = old(self)@.withdraw(txn, amount@).ledger;
                        assert(after.accounts.contains_key(txn.client_id));
                    }
                    if account.available.0 >= amount.0 {
                        account.available = FixedFloat(account.available.0 - amount.0);
                    }
                    proof {
                        self.account_stored(*old(self), txn.client_id);
                    }
                    self.cache_transaction(txn)
                } else {
                    proof {
                        self.account_stored(*old(self), txn.client_id);
                        assert(self@.accounts =~= old(self)@.accounts);
                    }
                    Ok(())
                }
            },
            TransactionInner::Dispute => {
                match self.target(txn.transaction_id, TransactionState::Alive)? {
                    None => Ok(()),
                    Some((record, amount, account)) => {
                        proof {
                            let after = old(self)@.dispute(txn.transaction_id).ledger;
                            assert(after.accounts.contains_key(record.client_id));
                        }
                        let moved = AccountState {
                            available: FixedFloat((account.available.0 as i128 - amount) as i64),
                            held: FixedFloat((account.held.0 as i128 + amount) as i64),
                            locked: account.locked,
                        };
                        self.settle(txn.transaction_id, record, TransactionState::Disputed, moved);
                        Ok(())
                    },
                }
            },
            TransactionInner::Resolve => {
                match self.target(txn.transaction_id, TransactionState::Disputed)? {
                    None => Ok(()),
                    Some((record, amount, account)) => {
                        proof {
                            let after = old(self)@.resolve(txn.transaction_id).ledger;
                            assert(after.accounts.contains_key(record.client_id));
                        }
                        let moved = AccountState {
                            available: FixedFloat((account.available.0 as i128 + amount) as i64),
                            held: FixedFloat((account.held.0 as i128 - amount) as i64),
                            locked: account.locked,
                        };
                        self.settle(txn.transaction_id, record, TransactionState::Alive, moved);
                        Ok(())
                    },
                }
            },
            TransactionInner::Chargeback => {
                match self.target(txn.transaction_id, TransactionState::Disputed)? {
                    None => Ok(()),
                    Some((record, amount, account)) => {
                        proof {
                            let after = old(self)@.chargeback(txn.transaction_id).ledger;
                            assert(after.accounts.contains_key(record.client_id));
                        }
                        let moved = AccountState {
                            available: account.available,
                            held: FixedFloat((account.held.0 as i128 - amount) as i64),
                            locked: true,
                        };
                        self.settle(
                            txn.transaction_id,
                            record,
                            TransactionState::ChargedBack,
                            moved,
                        );
                        Ok(())
                    },
                }
            },
        }
    }

    /// Whether the balances that `txn` leads to can be stored, which is what
    /// [`State::process`] asks of its caller.
    pub fn fits(&self, txn: &Transaction) -> (ok: bool)
        ensures
            ok == self@.step(*txn).ledger.in_range(),
    {
        proof {
            self.stored_in_range();
        }
        let ghost after = self@.step(*txn).ledger;
        match txn.inner {
            TransactionInner::Deposit(amount) => {
                let account = self.account_or_default(txn.client_id);
                assert(after.accounts.contains_key(txn.client_id));
                storable(account.available.0 as i128 + amount.0 as i128)
            },
            TransactionInner::Withdrawal(amount) => {
                let account = self.account_or_default(txn.client_id);
                if account.locked || account.available.0 < amount.0 {
                    true
                } else {
                    assert(after.accounts.contains_key(txn.client_id));
                    storable(account.available.0 as i128 - amount.0 as i128)
                }
            },
            TransactionInner::Dispute => {
                match self.target(txn.transaction_id, TransactionState::Alive) {
                    Ok(Some((record, amount, account))) => {
                        assert(after.accounts.contains_key(record.client_id));
                        storable(account.available.0 as i128 - amount) && storable(
                            account.held.0 as i128 + amount,
                        )
                    },
                    _ => true,
                }
            },
            TransactionInner::Resolve => {
                match self.target(txn.transaction_id, TransactionState::Disputed) {
                    Ok(Some((record, amount, account))) => {
                        assert(after.accounts.contains_key(record.client_id));
                        storable(account.available.0 as i128 + amount) && storable(
                            account.held.0 as i128 - amount,
                        )
                    },
                    _ => true,
                }
            },
            TransactionInner::Chargeback => {
                match self.target(txn.transaction_id, TransactionState::Disputed) {
                    Ok(Some((record, amount, account))) => {
                        assert(after.accounts.contains_key(record.client_id));
                        storable(account.held.0 as i128 - amount)
                    },
                    _ => true,
                }
            },
        }
    }

    /// The account of `client_id`, if the client has one.
    pub fn account(&self, client_id: ClientId) -> (account: Option<AccountState>)
        ensures
            match account {
                Some(account) => self@.accounts.contains_key(client_id)
                    && self@.accounts[client_id] == account@,
                None => !self@.accounts.contains_key(client_id),
            },
    {
        match self.accounts.get(&client_id.0) {
            Some(account) => Some(*account),
            None => None,
        }
    }

    /// The record of the deposit or withdrawal that was applied under
    /// `transaction_id`, if there is one.
    pub fn transaction(&self, transaction_id: TransactionId) -> (record: Option<Transaction>)
        ensures
            match record {
                Some(record) => self@.history.contains_key(transaction_id)
                    && self@.history[transaction_id] == record,
                None => !self@.history.contains_key(transaction_id),
            },
    {
        match self.transactions.get(&transaction_id.0) {
            Some(record) => Some(*record),
            None => None,
        }
    }

    /// The accounts of all clients, one row each, in no particular order.
    pub fn snapshot(&self) -> (rows: Vec<(ClientId, AccountState)>)
        ensures
            self@.listed_by(accounts_of(rows@)),
    {
        let mut rows: Vec<(ClientId, AccountState)> = Vec::new();
        let ghost pairs = self.accounts.iter().remaining();
        for (client, account) in it: self.accounts.iter()
            invariant
                it.seq() == pairs,
                pairs.no_duplicates(),
                rows.len() == it.index(),
                forall|i: int|
                    0 <= i < rows.len() ==> (#[trigger] rows[i]).0.0 == *pairs[i].0 && rows[i].1
                        == *pairs[i].1,
        {
            rows.push((ClientId(*client), *account));
        }
        proof {
            let listed = accounts_of(rows@);
            assert forall|i: int, j: int| 0 <= i < j < listed.len() implies (
            #[trigger] listed[i]).0 != (#[trigger] listed[j]).0 by {
                // Two entries under one key would be one entry twice.
                if listed[i].0 == listed[j].0 {
                    assert(self.accounts@[*pairs[i].0] == *pairs[i].1);
                    assert(self.accounts@[*pairs[j].0] == *pairs[j].1);
                    assert(pairs[i] == pairs[j]);
                }
            }
            assert forall|client: ClientId| #[trigger]
                self@.accounts.contains_key(client) implies exists|i: int|
                0 <= i < listed.len() && (#[trigger] listed[i]).0 == client by {
                let key = client.0;
                assert(pairs.contains((&key, &self.accounts@[key])));
                let i = choose|i: int|
                    0 <= i < pairs.len() && pairs[i] == (&key, &self.accounts@[key]);
                assert(listed[i].0 == client);
            }
        }
        rows
    }

    /// Appends the balance table to `f`: the column names, then one line
    /// for each client, in no particular order.
    pub fn write(self, f: &mut String)
        ensures
            exists|rows: Seq<(ClientId, Account)>| #[trigger]
                self@.listed_by(rows) && final(f)@ == old(f)@ + table_text(rows),
    {
        let rows = self.snapshot();
        let ghost listed = accounts_of(rows@);
        f.append("client,available,held,total,locked\n");
        let mut i: usize = 0;
        while i < rows.len()
            invariant
                i <= rows.len(),
                listed == accounts_of(rows@),
                f@ == old(f)@ + header_text() + rows_text(listed.take(i as int)),
            decreases rows.len() - i,
        {
            push_row(f, rows[i].0, &rows[i].1);
            proof {
                let longer = listed.take(i + 1);
                assert(longer.drop_last() =~= listed.take(i as int));
            }
            i += 1;
        }
        proof {
            assert(listed.take(rows.len() as int) =~= listed);
        }
    }

    /// Every stored balance is within the range of the type that holds it.
    pub proof fn stored_in_range(&self)
        ensures
            self@.in_range(),
    {
    }

    fn account_or_default(&self, client_id: ClientId) -> (account: AccountState)
        ensures
            account@ == self@.account(client_id),
    {
        match self.accounts.get(&client_id.0) {
            Some(account) => *account,
            None => AccountState::default(),
        }
    }

    /// What a dispute, a resolution or a chargeback of `id` acts on: nothing
    /// where there is no record in state `required`; otherwise the record,
    /// the amount under dispute and the account of the record's client.
    fn target(&self, id: TransactionId, required: TransactionState) -> (found: Result<
        Option<(Transaction, i128, AccountState)>,
        ProcessError,
    >)
        ensures
            match self@.target(id, required) {
                Target::Skip => found matches Ok(None),
                Target::Fault(error) => found == Err::<Option<(Transaction, i128, AccountState)>, ProcessError>(
                    error,
                ),
                Target::Found(record, amount, account) => {
                    &&& found matches Ok(Some(hit))
                    &&& hit.0 == record
                    &&& hit.1 == amount
                    &&& hit.2@ == account
                },
            },
    {
        // An id without a record is the partner's mistake, not ours.
        let record = match self.transactions.get(&id.0) {
            Some(record) => *record,
            None => { return Ok(None); },
        };
        if record.state != required {
            return Ok(None);
        }
        // A disputed withdrawal is undone like a deposit of the negated
        // amount.
        let amount: i128 = match record.inner {
            TransactionInner::Deposit(amount) => amount.0 as i128,
            TransactionInner::Withdrawal(amount) => -(amount.0 as i128),
            _ => { return Err(ProcessError::DisputeTargetInvalid(id)); },
        };
        // The amounts move on the account of the record's client, whoever
        // sent the dispute.
        match self.accounts.get(&record.client_id.0) {
            Some(account) => Ok(Some((record, amount, *account))),
            None => Err(ProcessError::DisputedTransactionClientMissing(record.client_id)),
        }
    }

    /// Stores the new state of the record under `id` and the new account of
    /// the record's client.
    fn settle(
        &mut self,
        id: TransactionId,
        record: Transaction,
        state: TransactionState,
        account: AccountState,
    )
        requires
            old(self)@.history.contains_key(id),
            old(self)@.history[id] == record,
        ensures
            final(self)@ == old(self)@.with_state(id, state).with_account(
                record.client_id,
                account@,
            ),
    {
        self.transactions.insert(id.0, Transaction { state, ..record });
        self.accounts.insert(record.client_id.0, account);
        proof {
            let after = old(self)@.with_state(id, state).with_account(record.client_id, account@);
            assert(self@.history =~= after.history);
            assert(self@.accounts =~= after.accounts);
        }
    }

    /// What storing `client`'s account means for the ledger.
    proof fn account_stored(&self, before: State, client: ClientId)
        requires
            self.transactions == before.transactions,
            self.accounts@.contains_key(client.0),
            self.accounts@ == before.accounts@.insert(client.0, self.accounts@[client.0]),
        ensures
            self@ == before@.with_account(client, self.accounts@[client.0]@),
    {
        let after = before@.with_account(client, self.accounts@[client.0]@);
        assert(self@.accounts =~= after.accounts);
    }

    fn cache_transaction(&mut self, txn: Transaction) -> (result: Result<(), ProcessError>)
        ensures
            result == old(self)@.record(txn).result,
            final(self)@ == old(self)@.record(txn).ledger,
    {
        let result = match self.transactions.entry(txn.transaction_id.0) {
            Entry::Occupied(_) => Err(ProcessError::DuplicateTransactionId(txn.transaction_id)),
            Entry::Vacant(entry) => {
                entry.insert(Transaction { state: TransactionState::Alive, ..txn });
                Ok(())
            },
        };
        proof {
            let after = old(self)@.record(txn).ledger;
            assert(self@.history =~= after.history);
        }
        result
    }

    fn get_or_create_account(&mut self, client_id: ClientId) -> (account: &mut AccountState)
        ensures
            account@ == old(self)@.account(client_id),
            final(self).transactions == old(self).transactions,
            final(self).accounts@ == old(self).accounts@.insert(client_id.0, *final(account)),
    {
        self.accounts.entry(client_id.0).or_insert(AccountState::default())
    }
}

} // verus!
