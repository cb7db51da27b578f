//! The verification that follows a run: every account's sequence number
//! must be the one it started with plus the number of its transactions that
//! were executed.

use vstd::prelude::*;

verus! {

/// How a transaction ended.
#[derive(Clone, Copy, Debug, PartialEq, Eq, Structural)]
pub enum TransactionStatus {
    /// It was applied and succeeded.
    Executed,
    /// It was not applied.
    Discarded,
    /// It was applied and failed.
    Aborted,
}

/// A transaction of the run: the account that sent it, as its position in
/// the population, and how it ended.
#[derive(Clone, Copy, Debug, PartialEq, Eq, Structural)]
pub struct SubmittedTransaction {
    pub sender: usize,
    pub status: TransactionStatus,
}

/// Why the state after a run is not the expected one.
#[derive(Clone, Copy, Debug, PartialEq, Eq, Structural)]
pub enum VerificationError {
    /// The three lists do not speak of the same number of accounts.
    PopulationMismatch { initial_len: usize, executed_len: usize, observed_len: usize },
    /// The account at this position started at `initial`, had `executed`
    /// transactions executed, and is at `observed`.
    SequenceNumber { account: usize, initial: u64, executed: usize, observed: u64 },
}

/// The number of transactions that the account sent and that were executed.
pub open spec fn executed_by(transactions: Seq<SubmittedTransaction>, account: int) -> nat
    decreases transactions.len(),
{
    if transactions.len() == 0 {
        0
    } else {
        let last = transactions.last();
        let earlier = executed_by(transactions.drop_last(), account);
        if last.sender == account && last.status is Executed {
            earlier + 1
        } else {
            earlier
        }
    }
}

/// The sequence number that an account must have after the run.
pub open spec fn expected_sequence_number(initial: u64, executed: usize) -> int {
    initial + executed
}

/// The account at this position has the sequence number that it must have.
pub open spec fn account_matches(
    initial: Seq<u64>,
    executed: Seq<usize>,
    observed: Seq<u64>,
    account: int,
) -> bool {
    observed[account] == expected_sequence_number(initial[account], executed[account])
}

/// The three lists speak of the same accounts, and every account has the
/// sequence number that it must have.
pub open spec fn sequence_numbers_match(
    initial: Seq<u64>,
    executed: Seq<usize>,
    observed: Seq<u64>,
) -> bool {
    &&& initial.len() == executed.len()
    &&& initial.len() == observed.len()
    &&& forall|account: int|
        0 <= account < initial.len() ==> #[trigger] account_matches(
            initial,
            executed,
            observed,
            account,
        )
}

/// The number of executed transactions never exceeds the number of
/// transactions.
pub proof fn lemma_executed_by_bounded(transactions: Seq<SubmittedTransaction>, account: int)
    ensures
        executed_by(transactions, account) <= transactions.len(),
    decreases transactions.len(),
{
    if transactions.len() > 0 {
        lemma_executed_by_bounded(transactions.drop_last(), account);
    }
}

/// A state that matches stops matching when one account's sequence number
/// is changed, by one or by anything else.
pub proof fn lemma_corrupted_state_fails(
    initial: Seq<u64>,
    executed: Seq<usize>,
    observed: Seq<u64>,
    account: int,
    corrupted: u64,
)
    requires
        sequence_numbers_match(initial, executed, observed),
        0 <= account < observed.len(),
        corrupted != observed[account],
    ensures
        !sequence_numbers_match(initial, executed, observed.update(account, corrupted)),
{
    assert(account_matches(initial, executed, observed, account));
    assert(!account_matches(initial, executed, observed.update(account, corrupted), account));
}

/// Counts, for each of `num_accounts` accounts, the transactions that it
/// sent and that were executed. A transaction whose sender is no account of
/// the population counts for nobody.
pub fn count_executed(num_accounts: usize, transactions: &Vec<SubmittedTransaction>) -> (counts:
    Vec<usize>)
    ensures
        counts@.len() == num_accounts,
        forall|account: int|
            0 <= account < num_accounts ==> #[trigger] counts@[account] == executed_by(
                transactions@,
                account,
            ),
{
    let mut counts: Vec<usize> = Vec::new();
    let mut a: usize = 0;
    while a < num_accounts
        invariant
            a <= num_accounts,
            counts@.len() == a,
            forall|k: int| 0 <= k < a ==> #[trigger] counts@[k] == 0,
        decreases num_accounts - a,
    {
        counts.push(0);
        a = a + 1;
    }
    let n: usize = transactions.len();
    let mut i: usize = 0;
    while i < n
        invariant
            i <= n,
            n == transactions@.len(),
            counts@.len() == num_accounts,
            forall|account: int|
                0 <= account < num_accounts ==> #[trigger] counts@[account] == executed_by(
                    transactions@.subrange(0, i as int),
                    account,
                ),
        decreases n - i,
    {
        let transaction = transactions[i];
        let ghost before = transactions@.subrange(0, i as int);
        let ghost after = transactions@.subrange(0, i + 1);
        assert(after.drop_last() =~= before);
        assert(after.last() == transaction);
        if transaction.sender < num_accounts {
            match transaction.status {
                TransactionStatus::Executed => {
                    proof {
                        lemma_executed_by_bounded(before, transaction.sender as int);
                    }
                    let count: usize = counts[transaction.sender];
                    counts.set(transaction.sender, count + 1);
                },
                _ => {},
            }
        }
        i = i + 1;
    }
    assert(transactions@.subrange(0, n as int) =~= transactions@);
    counts
}

/// Checks the sequence numbers observed after a run against those expected.
/// It accepts exactly when the three lists have one entry per account and
/// every observed number is the initial one plus the number of executed
/// transactions; otherwise it names the first account that differs.
pub fn verify_sequence_numbers(
    initial: &Vec<u64>,
    executed: &Vec<usize>,
    observed: &Vec<u64>,
) -> (r: Result<(), VerificationError>)
    ensures
        r is Ok <==> sequence_numbers_match(initial@, executed@, observed@),
        r matches Err(
            VerificationError::PopulationMismatch {
                initial_len: i,
                executed_len: e,
                observed_len: o,
            },
        ) ==> {
            &&& !(initial@.len() == executed@.len() && initial@.len() == observed@.len())
            &&& i == initial@.len()
            &&& e == executed@.len()
            &&& o == observed@.len()
        },
        r matches Err(
            VerificationError::SequenceNumber { account, initial: i, executed: e, observed: o },
        ) ==> {
            &&& initial@.len() == executed@.len()
            &&& initial@.len() == observed@.len()
            &&& account < initial@.len()
            &&& !account_matches(initial@, executed@, observed@, account as int)
            &&& forall|earlier: int|
                0 <= earlier < account ==> #[trigger] account_matches(
                    initial@,
                    executed@,
                    observed@,
                    earlier,
                )
            &&& i == initial@[account as int]
            &&& e == executed@[account as int]
            &&& o == observed@[account as int]
        },
{
    let n: usize = initial.len();
    if executed.len() != n || observed.len() != n {
        return Err(
            VerificationError::PopulationMismatch {
                initial_len: n,
                executed_len: executed.len(),
                observed_len: observed.len(),
            },
        );
    }
    let mut account: usize = 0;
    while account < n
        invariant
            account <= n,
            n == initial@.len(),
            n == executed@.len(),
            n == observed@.len(),
            forall|earlier: int|
                0 <= earlier < account ==> #[trigger] account_matches(
                    initial@,
                    executed@,
                    observed@,
                    earlier,
                ),
        decreases n - account,
    {
        let expected: u128 = initial[account] as u128 + executed[account] as u128;
        if observed[account] as u128 != expected {
            assert(!account_matches(initial@, executed@, observed@, account as int));
            return Err(
                VerificationError::SequenceNumber {
                    account,
                    initial: initial[account],
                    executed: executed[account],
                    observed: observed[account],
                },
            );
        }
        assert(account_matches(initial@, executed@, observed@, account as int));
        account = account + 1;
    }
    Ok(())
}

} // verus!
