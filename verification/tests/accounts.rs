use executor_service::accounts::{
    count_executed, verify_sequence_numbers, SubmittedTransaction, TransactionStatus,
    VerificationError,
};

fn sent(sender: usize, status: TransactionStatus) -> SubmittedTransaction {
    SubmittedTransaction { sender, status }
}

#[test]
fn counts_executed_transactions_per_account() {
    let transactions = vec![
        sent(0, TransactionStatus::Executed),
        sent(2, TransactionStatus::Executed),
        sent(0, TransactionStatus::Discarded),
        sent(0, TransactionStatus::Executed),
        sent(1, TransactionStatus::Aborted),
        sent(7, TransactionStatus::Executed),
    ];
    assert_eq!(count_executed(3, &transactions), vec![2usize, 0, 1]);
    assert_eq!(count_executed(0, &transactions), Vec::<usize>::new());
    assert_eq!(count_executed(2, &vec![]), vec![0usize, 0]);
}

#[test]
fn sequence_number_verification_scenario() {
    let initial: Vec<u64> = vec![0, 10, 7];
    let transactions = vec![
        sent(0, TransactionStatus::Executed),
        sent(1, TransactionStatus::Executed),
        sent(0, TransactionStatus::Executed),
        sent(0, TransactionStatus::Executed),
        sent(1, TransactionStatus::Executed),
    ];
    let executed = count_executed(3, &transactions);
    assert_eq!(executed, vec![3usize, 2, 0]);
    assert_eq!(verify_sequence_numbers(&initial, &executed, &vec![3, 12, 7]), Ok(()));
}

#[test]
fn off_by_one_post_state_fails_verification() {
    let initial: Vec<u64> = vec![0, 10, 7];
    let executed: Vec<usize> = vec![3, 2, 0];
    assert_eq!(
        verify_sequence_numbers(&initial, &executed, &vec![3, 13, 7]),
        Err(VerificationError::SequenceNumber { account: 1, initial: 10, executed: 2, observed: 13 })
    );
    assert_eq!(
        verify_sequence_numbers(&initial, &executed, &vec![3, 12, 6]),
        Err(VerificationError::SequenceNumber { account: 2, initial: 7, executed: 0, observed: 6 })
    );
}

#[test]
fn first_differing_account_is_named() {
    let initial: Vec<u64> = vec![1, 1, 1];
    let executed: Vec<usize> = vec![1, 1, 1];
    assert_eq!(
        verify_sequence_numbers(&initial, &executed, &vec![2, 0, 0]),
        Err(VerificationError::SequenceNumber { account: 1, initial: 1, executed: 1, observed: 0 })
    );
}

#[test]
fn populations_of_different_size_are_refused() {
    assert_eq!(
        verify_sequence_numbers(&vec![1], &vec![0, 0], &vec![1]),
        Err(VerificationError::PopulationMismatch { initial_len: 1, executed_len: 2, observed_len: 1 })
    );
    assert_eq!(verify_sequence_numbers(&vec![], &vec![], &vec![]), Ok(()));
}

#[test]
fn expected_number_beyond_u64_never_matches() {
    assert_eq!(
        verify_sequence_numbers(&vec![u64::MAX], &vec![1], &vec![0]),
        Err(VerificationError::SequenceNumber {
            account: 0,
            initial: u64::MAX,
            executed: 1,
            observed: 0
        })
    );
}
