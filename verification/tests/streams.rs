use ledger_engine::state::AccountState;
use ledger_engine::state::ProcessError;
use ledger_engine::state::State;
use ledger_engine::types::ClientId;
use ledger_engine::types::FixedFloat;
use ledger_engine::types::Transaction;
use ledger_engine::types::TransactionId;
use ledger_engine::types::TransactionInner;
use ledger_engine::types::TransactionState;

fn deposit(id: u32, client: u16, scaled: i64) -> Transaction {
    Transaction::new(
        TransactionId(id),
        ClientId(client),
        TransactionInner::Deposit(FixedFloat(scaled)),
    )
}

fn withdrawal(id: u32, client: u16, scaled: i64) -> Transaction {
    Transaction::new(
        TransactionId(id),
        ClientId(client),
        TransactionInner::Withdrawal(FixedFloat(scaled)),
    )
}

fn dispute(id: u32, client: u16) -> Transaction {
    Transaction::new(TransactionId(id), ClientId(client), TransactionInner::Dispute)
}

fn resolve(id: u32, client: u16) -> Transaction {
    Transaction::new(TransactionId(id), ClientId(client), TransactionInner::Resolve)
}

fn chargeback(id: u32, client: u16) -> Transaction {
    Transaction::new(TransactionId(id), ClientId(client), TransactionInner::Chargeback)
}

fn apply(state: &mut State, txn: Transaction) -> Result<(), ProcessError> {
    assert!(state.fits(&txn));
    state.process(txn)
}

fn account(available: i64, held: i64, locked: bool) -> AccountState {
    AccountState {
        available: FixedFloat(available),
        held: FixedFloat(held),
        locked,
    }
}

#[test]
fn a_new_account_is_empty() {
    assert_eq!(AccountState::default(), account(0, 0, false));
}

#[test]
fn a_new_ledger_is_empty() {
    let state = State::default();
    assert!(state.snapshot().is_empty());
    assert_eq!(state.account(ClientId(1)), None);
    assert_eq!(state.transaction(TransactionId(1)), None);
}

#[test]
fn deposits_to_a_new_client_add_up() {
    let mut state = State::default();
    let amounts: [i64; 5] = [10000, 1, 25000, 999999, 12345];
    let mut sum = 0;
    for (i, scaled) in amounts.iter().enumerate() {
        apply(&mut state, deposit(i as u32 + 1, 7, *scaled)).unwrap();
        sum += *scaled;
        assert_eq!(state.account(ClientId(7)), Some(account(sum, 0, false)));
    }
    assert_eq!(sum, 1047345);
    assert_eq!(state.snapshot(), vec![(ClientId(7), account(1047345, 0, false))]);
}

#[test]
fn a_deposit_is_recorded_as_alive() {
    let mut state = State::default();
    let mut txn = deposit(1, 1, 10000);
    txn.state = TransactionState::ChargedBack;
    apply(&mut state, txn).unwrap();
    assert_eq!(
        state.transaction(TransactionId(1)),
        Some(deposit(1, 1, 10000))
    );
    apply(&mut state, dispute(1, 1)).unwrap();
    assert_eq!(state.account(ClientId(1)), Some(account(0, 10000, false)));
}

#[test]
fn a_second_dispute_and_resolution_change_nothing_in_the_end() {
    let mut state = State::default();
    apply(&mut state, deposit(1, 1, 70000)).unwrap();
    apply(&mut state, deposit(2, 1, 30000)).unwrap();
    for _ in 0..2 {
        apply(&mut state, dispute(1, 1)).unwrap();
        assert_eq!(state.account(ClientId(1)), Some(account(30000, 70000, false)));
        assert_eq!(
            state.transaction(TransactionId(1)).unwrap().state,
            TransactionState::Disputed
        );
        apply(&mut state, resolve(1, 1)).unwrap();
        assert_eq!(state.account(ClientId(1)), Some(account(100000, 0, false)));
        assert_eq!(
            state.transaction(TransactionId(1)).unwrap().state,
            TransactionState::Alive
        );
    }
}

#[test]
fn a_disputed_withdrawal_lowers_held() {
    let mut state = State::default();
    apply(&mut state, deposit(1, 1, 100000)).unwrap();
    apply(&mut state, withdrawal(2, 1, 40000)).unwrap();
    assert_eq!(state.account(ClientId(1)), Some(account(60000, 0, false)));
    apply(&mut state, dispute(2, 1)).unwrap();
    assert_eq!(state.account(ClientId(1)), Some(account(100000, -40000, false)));
    apply(&mut state, resolve(2, 1)).unwrap();
    assert_eq!(state.account(ClientId(1)), Some(account(60000, 0, false)));
}

#[test]
fn a_chargeback_of_a_withdrawal_raises_held_and_locks() {
    let mut state = State::default();
    apply(&mut state, deposit(1, 1, 100000)).unwrap();
    apply(&mut state, withdrawal(2, 1, 40000)).unwrap();
    apply(&mut state, dispute(2, 1)).unwrap();
    apply(&mut state, chargeback(2, 1)).unwrap();
    assert_eq!(state.account(ClientId(1)), Some(account(100000, 0, true)));
    assert_eq!(
        state.transaction(TransactionId(2)).unwrap().state,
        TransactionState::ChargedBack
    );
}

#[test]
fn a_chargeback_is_final() {
    let mut state = State::default();
    apply(&mut state, deposit(1, 1, 1230000)).unwrap();
    apply(&mut state, deposit(2, 1, 4560000)).unwrap();
    apply(&mut state, dispute(1, 1)).unwrap();
    assert_eq!(state.account(ClientId(1)), Some(account(4560000, 1230000, false)));
    apply(&mut state, chargeback(1, 1)).unwrap();
    assert_eq!(state.account(ClientId(1)), Some(account(4560000, 0, true)));
    for later in [dispute(1, 1), resolve(1, 1), chargeback(1, 1)] {
        apply(&mut state, later).unwrap();
        assert_eq!(state.account(ClientId(1)), Some(account(4560000, 0, true)));
        assert_eq!(
            state.transaction(TransactionId(1)).unwrap().state,
            TransactionState::ChargedBack
        );
    }
}

#[test]
fn a_second_deposit_under_one_id_is_refused() {
    let mut state = State::default();
    assert_eq!(apply(&mut state, deposit(1, 1, 10000)), Ok(()));
    assert_eq!(
        apply(&mut state, deposit(1, 1, 20000)),
        Err(ProcessError::DuplicateTransactionId(TransactionId(1)))
    );
    // The record that was there stays.
    assert_eq!(
        state.transaction(TransactionId(1)),
        Some(deposit(1, 1, 10000))
    );
    // The amount was added before the id was found to be taken.
    assert_eq!(state.account(ClientId(1)), Some(account(30000, 0, false)));
}

#[test]
fn a_withdrawal_under_a_taken_id_is_refused() {
    let mut state = State::default();
    apply(&mut state, deposit(1, 1, 10000)).unwrap();
    assert_eq!(
        apply(&mut state, withdrawal(1, 2, 5000)),
        Err(ProcessError::DuplicateTransactionId(TransactionId(1)))
    );
    assert_eq!(state.account(ClientId(2)), Some(account(0, 0, false)));
    assert_eq!(
        state.transaction(TransactionId(1)),
        Some(deposit(1, 1, 10000))
    );
}

#[test]
fn a_locked_account_gives_nothing_out() {
    let mut state = State::default();
    apply(&mut state, deposit(1, 1, 50000)).unwrap();
    apply(&mut state, deposit(2, 1, 20000)).unwrap();
    apply(&mut state, dispute(1, 1)).unwrap();
    apply(&mut state, chargeback(1, 1)).unwrap();
    assert_eq!(state.account(ClientId(1)), Some(account(20000, 0, true)));

    assert_eq!(apply(&mut state, withdrawal(3, 1, 10000)), Ok(()));
    assert_eq!(state.account(ClientId(1)), Some(account(20000, 0, true)));
    assert_eq!(state.transaction(TransactionId(3)), None);

    // Not even an id that is taken matters: the withdrawal is dropped first.
    assert_eq!(apply(&mut state, withdrawal(2, 1, 10000)), Ok(()));
    assert_eq!(
        state.transaction(TransactionId(2)),
        Some(deposit(2, 1, 20000))
    );

    // A dispute of the dropped withdrawal finds no record.
    assert_eq!(apply(&mut state, dispute(3, 1)), Ok(()));
    assert_eq!(state.account(ClientId(1)), Some(account(20000, 0, true)));
}

#[test]
fn a_locked_account_takes_deposits() {
    let mut state = State::default();
    apply(&mut state, deposit(1, 1, 50000)).unwrap();
    apply(&mut state, dispute(1, 1)).unwrap();
    apply(&mut state, chargeback(1, 1)).unwrap();
    assert_eq!(state.account(ClientId(1)), Some(account(0, 0, true)));
    apply(&mut state, deposit(2, 1, 30000)).unwrap();
    assert_eq!(state.account(ClientId(1)), Some(account(30000, 0, true)));
    assert_eq!(
        state.transaction(TransactionId(2)),
        Some(deposit(2, 1, 30000))
    );
}

#[test]
fn an_uncovered_withdrawal_is_recorded_and_can_be_disputed() {
    let mut state = State::default();
    apply(&mut state, deposit(1, 1, 10000)).unwrap();
    apply(&mut state, withdrawal(2, 1, 20000)).unwrap();
    assert_eq!(state.account(ClientId(1)), Some(account(10000, 0, false)));
    assert_eq!(
        state.transaction(TransactionId(2)),
        Some(withdrawal(2, 1, 20000))
    );
    apply(&mut state, dispute(2, 1)).unwrap();
    assert_eq!(state.account(ClientId(1)), Some(account(30000, -20000, false)));
}

#[test]
fn a_withdrawal_of_all_funds_is_covered() {
    let mut state = State::default();
    apply(&mut state, deposit(1, 1, 10000)).unwrap();
    apply(&mut state, withdrawal(2, 1, 10000)).unwrap();
    assert_eq!(state.account(ClientId(1)), Some(account(0, 0, false)));
}

#[test]
fn a_withdrawal_creates_the_account() {
    let mut state = State::default();
    apply(&mut state, withdrawal(1, 9, 10000)).unwrap();
    assert_eq!(state.account(ClientId(9)), Some(account(0, 0, false)));
    assert_eq!(
        state.transaction(TransactionId(1)),
        Some(withdrawal(1, 9, 10000))
    );
}

#[test]
fn references_to_nothing_are_passed_over() {
    let mut state = State::default();
    apply(&mut state, deposit(1, 1, 10000)).unwrap();
    for txn in [dispute(5, 1), resolve(5, 1), chargeback(5, 1)] {
        assert_eq!(apply(&mut state, txn), Ok(()));
    }
    assert_eq!(state.snapshot(), vec![(ClientId(1), account(10000, 0, false))]);
    assert_eq!(state.transaction(TransactionId(5)), None);
    // A dispute names a client, but makes no account for it.
    assert_eq!(apply(&mut state, dispute(5, 3)), Ok(()));
    assert_eq!(state.account(ClientId(3)), None);
}

#[test]
fn references_in_the_wrong_state_are_passed_over() {
    let mut state = State::default();
    apply(&mut state, deposit(1, 1, 10000)).unwrap();
    // Alive: neither resolved nor charged back.
    apply(&mut state, resolve(1, 1)).unwrap();
    apply(&mut state, chargeback(1, 1)).unwrap();
    assert_eq!(state.account(ClientId(1)), Some(account(10000, 0, false)));
    assert_eq!(
        state.transaction(TransactionId(1)).unwrap().state,
        TransactionState::Alive
    );
    // Disputed: not disputed again.
    apply(&mut state, dispute(1, 1)).unwrap();
    apply(&mut state, dispute(1, 1)).unwrap();
    assert_eq!(state.account(ClientId(1)), Some(account(0, 10000, false)));
    assert_eq!(
        state.transaction(TransactionId(1)).unwrap().state,
        TransactionState::Disputed
    );
}

#[test]
fn a_dispute_acts_on_the_client_of_the_record() {
    let mut state = State::default();
    apply(&mut state, deposit(1, 1, 10000)).unwrap();
    apply(&mut state, deposit(2, 2, 50000)).unwrap();
    apply(&mut state, dispute(1, 2)).unwrap();
    assert_eq!(state.account(ClientId(1)), Some(account(0, 10000, false)));
    assert_eq!(state.account(ClientId(2)), Some(account(50000, 0, false)));
    apply(&mut state, chargeback(1, 2)).unwrap();
    assert_eq!(state.account(ClientId(1)), Some(account(0, 0, true)));
    assert_eq!(state.account(ClientId(2)), Some(account(50000, 0, false)));
}

#[test]
fn a_dispute_may_leave_available_negative() {
    let mut state = State::default();
    apply(&mut state, deposit(1, 1, 10000)).unwrap();
    apply(&mut state, withdrawal(2, 1, 10000)).unwrap();
    apply(&mut state, dispute(1, 1)).unwrap();
    assert_eq!(state.account(ClientId(1)), Some(account(-10000, 10000, false)));
}

#[test]
fn balances_that_cannot_be_stored_do_not_fit() {
    let mut state = State::default();
    apply(&mut state, deposit(1, 1, i64::MAX)).unwrap();
    assert!(!state.fits(&deposit(2, 1, 1)));
    assert!(state.fits(&deposit(2, 1, 0)));
    assert!(state.fits(&deposit(2, 1, -1)));
    assert!(state.fits(&deposit(2, 2, 1)));
    // Covered, but the funds would grow past the largest amount.
    assert!(!state.fits(&withdrawal(2, 1, -1)));
    assert!(state.fits(&withdrawal(2, 1, 1)));
    assert!(state.fits(&dispute(1, 1)));
    apply(&mut state, dispute(1, 1)).unwrap();
    assert_eq!(state.account(ClientId(1)), Some(account(0, i64::MAX, false)));
    // Not applied, so nothing has changed.
    assert_eq!(state.transaction(TransactionId(2)), None);
}

#[test]
fn a_dispute_of_the_smallest_withdrawal_does_not_fit() {
    let mut state = State::default();
    // From nothing, the funds would grow past the largest amount.
    assert!(!state.fits(&withdrawal(1, 1, i64::MIN)));
    apply(&mut state, deposit(1, 1, -1)).unwrap();
    apply(&mut state, withdrawal(2, 1, i64::MIN)).unwrap();
    assert_eq!(state.account(ClientId(1)), Some(account(i64::MAX, 0, false)));
    // Held would have to grow to one more than the largest amount.
    assert!(!state.fits(&dispute(2, 1)));
    assert!(state.fits(&resolve(2, 1)));
    assert!(state.fits(&chargeback(2, 1)));
    // Giving back the deposit of minus one would add one to the largest
    // amount.
    assert!(!state.fits(&dispute(1, 1)));
}

#[test]
fn a_snapshot_lists_every_client_once() {
    let mut state = State::default();
    for client in 0..40u16 {
        apply(&mut state, deposit(u32::from(client) + 1, client, i64::from(client) * 10000)).unwrap();
        apply(&mut state, deposit(u32::from(client) + 100, client, 1)).unwrap();
    }
    let mut rows = state.snapshot();
    rows.sort_by_key(|row| row.0 .0);
    assert_eq!(rows.len(), 40);
    for (i, row) in rows.iter().enumerate() {
        assert_eq!(row.0, ClientId(i as u16));
        assert_eq!(row.1, account(i as i64 * 10000 + 1, 0, false));
    }
}

#[test]
fn the_table_of_an_empty_ledger_is_its_header() {
    let mut out = String::from("# ");
    State::default().write(&mut out);
    assert_eq!(out, "# client,available,held,total,locked\n");
}

#[test]
fn the_table_of_one_client() {
    let mut state = State::default();
    apply(&mut state, deposit(1, 12, 15000)).unwrap();
    apply(&mut state, deposit(2, 12, 20001)).unwrap();
    apply(&mut state, dispute(1, 12)).unwrap();
    let mut out = String::new();
    state.write(&mut out);
    assert_eq!(
        out,
        "client,available,held,total,locked\n12,2.0001,1.5,3.5001,false\n"
    );
}

#[test]
fn the_table_of_several_clients() {
    let mut state = State::default();
    apply(&mut state, deposit(1, 1, 10000)).unwrap();
    apply(&mut state, deposit(2, 2, 20000)).unwrap();
    apply(&mut state, deposit(3, 1, 20000)).unwrap();
    apply(&mut state, withdrawal(4, 1, 15000)).unwrap();
    apply(&mut state, withdrawal(5, 2, 30000)).unwrap();
    apply(&mut state, deposit(6, 3, 5)).unwrap();
    apply(&mut state, dispute(6, 3)).unwrap();
    apply(&mut state, chargeback(6, 3)).unwrap();
    apply(&mut state, withdrawal(7, 4, 2500)).unwrap();
    apply(&mut state, dispute(7, 4)).unwrap();
    let mut out = String::new();
    state.write(&mut out);
    let mut lines: Vec<&str> = out.lines().collect();
    assert_eq!(lines.remove(0), "client,available,held,total,locked");
    lines.sort();
    assert_eq!(
        lines,
        vec![
            "1,1.5,0,1.5,false",
            "2,2,0,2,false",
            "3,0,0,0,true",
            "4,0.25,-0.25,0,false",
        ]
    );
    assert!(out.ends_with('\n'));
}

#[test]
fn the_total_is_exact_beyond_the_largest_amount() {
    let mut state = State::default();
    apply(&mut state, deposit(1, 1, i64::MAX)).unwrap();
    apply(&mut state, dispute(1, 1)).unwrap();
    apply(&mut state, deposit(2, 1, i64::MAX)).unwrap();
    let mut out = String::new();
    state.write(&mut out);
    assert_eq!(
        out,
        "client,available,held,total,locked\n\
         1,922337203685477.5807,922337203685477.5807,1844674407370955.1614,false\n"
    );
}

#[test]
fn the_messages_of_the_errors() {
    assert_eq!(
        ProcessError::DuplicateTransactionId(TransactionId(17)).to_string(),
        "Duplicate transaction id: 17"
    );
    assert_eq!(
        ProcessError::DisputeTargetInvalid(TransactionId(4294967295)).to_string(),
        "Dispute of non-disputable transaction id: 4294967295"
    );
    assert_eq!(
        ProcessError::DisputedTransactionClientMissing(ClientId(0)).to_string(),
        "Disputed transaction refers to non-existent client id: 0"
    );
}
