use crate::text::decimal;
use crate::text::push_decimal;
use crate::text::same_text;
use crate::types::fixed_float::FixedFloat;
use vstd::prelude::*;
use vstd::std_specs::convert::TryFromSpecImpl;
use vstd::string::StringExecFns;

verus! {

/// Identifies a transaction; deposits and withdrawals are recorded under it.
#[derive(Debug, Clone, Copy, PartialEq, Eq, Hash, Structural)]
pub struct TransactionId(pub u32);

impl TransactionId {
    /// The identifier as a decimal numeral.
    pub fn to_string(&self) -> (s: String)
        ensures
            s@ == decimal(self.0 as nat),
    {
        let mut s = String::new();
        push_decimal(&mut s, self.0 as u128);
        s
    }
}

/// Identifies a client; accounts are held under it.
#[derive(Debug, Clone, Copy, PartialEq, Eq, Hash, Structural)]
pub struct ClientId(pub u16);

impl ClientId {
    /// The identifier as a decimal numeral.
    pub fn to_string(&self) -> (s: String)
        ensures
            s@ == decimal(self.0 as nat),
    {
        let mut s = String::new();
        push_decimal(&mut s, self.0 as u128);
        s
    }
}

/// Where a recorded deposit or withdrawal stands: `Alive` until disputed,
/// `Disputed` until resolved (back to `Alive`) or charged back, and
/// `ChargedBack` for good.
#[derive(Debug, Clone, Copy, PartialEq, Eq, Structural)]
pub enum TransactionState {
    Alive,
    Disputed,
    ChargedBack,
}

/// What a transaction asks for. Only deposits and withdrawals carry an
/// amount; the other three refer to an earlier transaction by its id.
#[derive(Debug, Clone, Copy, PartialEq, Structural)]
pub enum TransactionInner {
    Deposit(FixedFloat),
    Withdrawal(FixedFloat),
    Dispute,
    Resolve,
    Chargeback,
}

/// One transaction of the input stream, and, for a deposit or a
/// withdrawal, the record that the ledger keeps of it.
#[derive(Debug, Clone, Copy, PartialEq, Structural)]
pub struct Transaction {
    pub transaction_id: TransactionId,
    pub client_id: ClientId,
    pub inner: TransactionInner,
    pub state: TransactionState,
}

impl Transaction {
    /// A transaction that has not been disputed.
    pub fn new(transaction_id: TransactionId, client_id: ClientId, inner: TransactionInner) -> (txn:
        Self)
        ensures
            txn == (Transaction { transaction_id, client_id, inner, state: TransactionState::Alive }),
    {
        Self { transaction_id, client_id, inner, state: TransactionState::Alive }
    }
}

/// The fields of one input record, before the kind of transaction has been
/// told from its name.
#[derive(Debug)]
pub struct TransactionFields {
    pub type_: String,
    pub client_id: u16,
    pub transaction_id: u32,
    pub amount: Option<FixedFloat>,
}

/// Why the fields of a record do not make a transaction.
#[derive(Debug)]
pub enum TransactionFieldsError {
    DepositMissingAmount,
    WithdrawalMissingAmount,
    UnrecognisedType(String),
}

impl TransactionFieldsError {
    /// The message that describes the error.
    pub open spec fn message(&self) -> Seq<char> {
        match self {
            Self::DepositMissingAmount => "Deposit \"amount\" field is blank"@,
            Self::WithdrawalMissingAmount => "Withdrawal \"amount\" field is blank"@,
            Self::UnrecognisedType(other) => "Unrecognised transaction type \""@ + other@ + "\""@,
        }
    }

    /// The message that describes the error.
    pub fn to_string(&self) -> (s: String)
        ensures
            s@ == self.message(),
    {
        match self {
            Self::DepositMissingAmount => String::from_str("Deposit \"amount\" field is blank"),
            Self::WithdrawalMissingAmount => String::from_str(
                "Withdrawal \"amount\" field is blank",
            ),
            Self::UnrecognisedType(other) => {
                let mut s = String::from_str("Unrecognised transaction type \"");
                s.append(other.as_str());
                s.append("\"");
                s
            },
        }
    }
}

/// The kind of transaction that a record names, given the amount that came
/// with it; the names are matched exactly. A deposit or a withdrawal
/// without an amount is an error, and so is any other name. An amount that
/// comes with one of the other three kinds is ignored.
pub open spec fn kind_of(type_: String, amount: Option<FixedFloat>) -> Result<
    TransactionInner,
    TransactionFieldsError,
> {
    if type_@ == "deposit"@ {
        match amount {
            Some(amount) => Ok(TransactionInner::Deposit(amount)),
            None => Err(TransactionFieldsError::DepositMissingAmount),
        }
    } else if type_@ == "withdrawal"@ {
        match amount {
            Some(amount) => Ok(TransactionInner::Withdrawal(amount)),
            None => Err(TransactionFieldsError::WithdrawalMissingAmount),
        }
    } else if type_@ == "dispute"@ {
        Ok(TransactionInner::Dispute)
    } else if type_@ == "resolve"@ {
        Ok(TransactionInner::Resolve)
    } else if type_@ == "chargeback"@ {
        Ok(TransactionInner::Chargeback)
    } else {
        Err(TransactionFieldsError::UnrecognisedType(type_))
    }
}

/// The transaction that a record stands for: undisputed, with the record's
/// identifiers and the kind that it names.
pub open spec fn decode(fields: TransactionFields) -> Result<Transaction, TransactionFieldsError> {
    match kind_of(fields.type_, fields.amount) {
        Ok(inner) => Ok(
            Transaction {
                transaction_id: TransactionId(fields.transaction_id),
                client_id: ClientId(fields.client_id),
                inner,
                state: TransactionState::Alive,
            },
        ),
        Err(error) => Err(error),
    }
}

impl TryFromSpecImpl<TransactionFields> for Transaction {
    open spec fn obeys_try_from_spec() -> bool {
        true
    }

    open spec fn try_from_spec(fields: TransactionFields) -> Result<Self, TransactionFieldsError> {
        decode(fields)
    }
}

impl TryFrom<TransactionFields> for Transaction {
    type Error = TransactionFieldsError;

    /// Decodes a record: an undisputed transaction of the kind that the
    /// record names, or the reason why there is none.
    fn try_from(fields: TransactionFields) -> (decoded: Result<Self, Self::Error>)
        ensures
            decoded == decode(fields),
    {
        let type_ = fields.type_;
        let inner = if same_text(type_.as_str(), "deposit") {
            match fields.amount {
                Some(amount) => TransactionInner::Deposit(amount),
                None => { return Err(TransactionFieldsError::DepositMissingAmount); },
            }
        } else if same_text(type_.as_str(), "withdrawal") {
            match fields.amount {
                Some(amount) => TransactionInner::Withdrawal(amount),
                None => { return Err(TransactionFieldsError::WithdrawalMissingAmount); },
            }
        } else if same_text(type_.as_str(), "dispute") {
            TransactionInner::Dispute
        } else if same_text(type_.as_str(), "resolve") {
            TransactionInner::Resolve
        } else if same_text(type_.as_str(), "chargeback") {
            TransactionInner::Chargeback
        } else {
            return Err(TransactionFieldsError::UnrecognisedType(type_));
        };
        Ok(
            Transaction::new(
                TransactionId(fields.transaction_id),
                ClientId(fields.client_id),
                inner,
            ),
        )
    }
}

} // verus!
