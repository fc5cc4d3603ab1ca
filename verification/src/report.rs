//! The balance table: one line per client under a line of column names.

use crate::ledger::Account;
use crate::ledger::Ledger;
use crate::state::AccountState;
use crate::text::amount_text;
use crate::text::bool_text;
use crate::text::decimal;
use crate::text::push_amount;
use crate::text::push_bool;
use crate::text::push_decimal;
use crate::types::transaction::ClientId;
use vstd::prelude::*;
use vstd::string::StringExecFns;

verus! {

/// The names of the columns.
pub open spec fn header_text() -> Seq<char> {
    "client,available,held,total,locked\n"@
}

/// The line of one client: the client's id, the available, the held and the
/// total funds, and whether the account is locked, with commas between them
/// and a line feed at the end.
pub open spec fn row_text(client: ClientId, account: Account) -> Seq<char> {
    decimal(client.0 as nat) + seq![','] + amount_text(account.available) + seq![',']
        + amount_text(account.held) + seq![','] + amount_text(account.total()) + seq![',']
        + bool_text(account.locked) + seq!['\n']
}

/// The lines of `rows`, in their order.
pub open spec fn rows_text(rows: Seq<(ClientId, Account)>) -> Seq<char>
    decreases rows.len(),
{
    if rows.len() == 0 {
        Seq::empty()
    } else {
        rows_text(rows.drop_last()) + row_text(rows.last().0, rows.last().1)
    }
}

/// The table of `rows`: the column names, then the lines.
pub open spec fn table_text(rows: Seq<(ClientId, Account)>) -> Seq<char> {
    header_text() + rows_text(rows)
}

/// The accounts that `rows` hold, as mathematical values.
pub open spec fn accounts_of(rows: Seq<(ClientId, AccountState)>) -> Seq<(ClientId, Account)> {
    Seq::new(rows.len(), |i: int| (rows[i].0, rows[i].1@))
}

impl Ledger {
    /// Whether `rows` list the accounts of the ledger: every row is the
    /// account of its client, and every client that has an account has
    /// exactly one row. The order of the rows is free.
    pub open spec fn listed_by(self, rows: Seq<(ClientId, Account)>) -> bool {
        &&& forall|i: int|
            0 <= i < rows.len() ==> self.accounts.contains_key((#[trigger] rows[i]).0)
                && self.accounts[rows[i].0] == rows[i].1
        &&& forall|i: int, j: int|
            0 <= i < j < rows.len() ==> (#[trigger] rows[i]).0 != (#[trigger] rows[j]).0
        &&& forall|client: ClientId| #[trigger]
            self.accounts.contains_key(client) ==> exists|i: int|
                0 <= i < rows.len() && (#[trigger] rows[i]).0 == client
    }
}

/// Appends the line of one client to `out`.
pub fn push_row(out: &mut String, client: ClientId, account: &AccountState)
    ensures
        final(out)@ == old(out)@ + row_text(client, account@),
{
    proof {
        reveal_strlit(",");
        reveal_strlit("\n");
    }
    push_decimal(out, client.0 as u128);
    out.append(",");
    push_amount(out, account.available.0 as i128);
    out.append(",");
    push_amount(out, account.held.0 as i128);
    out.append(",");
    push_amount(out, account.available.0 as i128 + account.held.0 as i128);
    out.append(",");
    push_bool(out, account.locked);
    out.append("\n");
}

} // verus!
