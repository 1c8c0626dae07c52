//! The decisions of block execution and block building: which block
//! number a batch starts at, which results it keeps, which transactions a
//! block keeps; and transactions paired with their execution environment.
use std::sync::Arc;
use vstd::prelude::*;

verus! {

/// `Arc::clone`: another pointer to the same value.
#[verifier::external_body]
fn arc_clone<T>(a: &Arc<T>) -> (res: Arc<T>)
    ensures
        res == *a,
{
    a.clone()
}

/// A transaction together with its environment for the EVM.
#[derive(Debug)]
pub struct WithTxEnv<TxEnv, T> {
    /// The transaction environment for the EVM.
    pub tx_env: TxEnv,
    /// The recovered transaction.
    pub tx: Arc<T>,
}

impl<TxEnv: Clone, T> Clone for WithTxEnv<TxEnv, T> {
    /// Clones the environment and shares the transaction.
    fn clone(&self) -> (res: Self)
        ensures
            res.tx == self.tx,
            cloned::<TxEnv>(self.tx_env, res.tx_env),
    {
        WithTxEnv { tx_env: self.tx_env.clone(), tx: arc_clone(&self.tx) }
    }
}

impl<TxEnv, T> WithTxEnv<TxEnv, T> {
    /// Splits into the environment and the shared transaction.
    pub fn into_parts(self) -> (parts: (TxEnv, Arc<T>))
        ensures
            parts == (self.tx_env, self.tx),
    {
        (self.tx_env, self.tx)
    }
}


/// What a batch execution has gathered: the number of its first block, once
/// a block has started, and the results of the blocks executed so far.
pub open spec fn batch_started<R>(state: (Option<u64>, Seq<R>), number: u64) -> (Option<u64>, Seq<R>) {
    match state.0 {
        Some(first) => (Some(first), state.1),
        None => (Some(number), state.1),
    }
}

/// The batch state after a block's result has been recorded.
pub open spec fn batch_recorded<R>(state: (Option<u64>, Seq<R>), result: R) -> (Option<u64>, Seq<R>) {
    (state.0, state.1.push(result))
}

/// The batch state after executing the blocks numbered `numbers`, in order,
/// with the results `results`: each block starts, then its result is
/// recorded.
pub open spec fn batch_run<R>(numbers: Seq<u64>, results: Seq<R>) -> (Option<u64>, Seq<R>)
    recommends
        numbers.len() == results.len(),
    decreases numbers.len(),
{
    if numbers.len() == 0 || results.len() == 0 {
        (None, Seq::empty())
    } else {
        batch_recorded(
            batch_started(batch_run(numbers.drop_last(), results.drop_last()), numbers.last()),
            results.last(),
        )
    }
}

/// The progress of executing a batch of blocks: the number of the first
/// block and the results in block order. Executing stops at the first
/// failure, so a failed block is never recorded.
pub struct BatchExecution<R> {
    first_block: Option<u64>,
    results: Vec<R>,
}

impl<R> View for BatchExecution<R> {
    type V = (Option<u64>, Seq<R>);

    closed spec fn view(&self) -> (Option<u64>, Seq<R>) {
        (self.first_block, self.results@)
    }
}

impl<R> BatchExecution<R> {
    /// A batch in which no block has started.
    pub fn new() -> (batch: Self)
        ensures
            batch@ == (None::<u64>, Seq::<R>::empty()),
    {
        BatchExecution { first_block: None, results: Vec::new() }
    }

    /// Whether a block has started, so that the first block number is known.
    pub fn started(&self) -> (started: bool)
        ensures
            started == (self@.0 is Some),
    {
        self.first_block.is_some()
    }

    /// Notes that the block numbered `number` starts executing; the first
    /// block that starts gives the batch its first block number.
    pub fn start_block(&mut self, number: u64)
        ensures
            final(self)@ == batch_started(old(self)@, number),
    {
        if self.first_block.is_none() {
            self.first_block = Some(number);
        }
    }

    /// Records the result of the block that has just executed.
    pub fn record(&mut self, result: R)
        ensures
            final(self)@ == batch_recorded(old(self)@, result),
    {
        self.results.push(result);
    }

    /// Takes the outcome of executing the block that has just started: a
    /// result is recorded and the batch goes on (`Ok`); a failure stops the
    /// batch and is handed back, and nothing is recorded for that block.
    pub fn record_outcome<E>(&mut self, outcome: Result<R, E>) -> (res: Result<(), E>)
        ensures
            match outcome {
                Ok(result) => res is Ok && final(self)@ == batch_recorded(old(self)@, result),
                Err(err) => res == Err::<(), E>(err) && final(self)@ == old(self)@,
            },
    {
        match outcome {
            Ok(result) => {
                self.record(result);
                Ok(())
            },
            Err(err) => Err(err),
        }
    }

    /// The number of the first block, 0 when no block was executed, and the
    /// results in block order.
    pub fn finish(self) -> (outcome: (u64, Vec<R>))
        ensures
            outcome.0 == (match self@.0 {
                Some(first) => first,
                None => 0u64,
            }),
            outcome.1@ == self@.1,
    {
        let first = match self.first_block {
            Some(first) => first,
            None => 0,
        };
        (first, self.results)
    }
}

/// A batch that executed the blocks numbered `numbers` with the results
/// `results` starts at the first of those numbers, or at 0 when it is empty,
/// and holds the results in block order.
pub proof fn lemma_batch_run<R>(numbers: Seq<u64>, results: Seq<R>)
    requires
        numbers.len() == results.len(),
    ensures
        batch_run(numbers, results).1 == results,
        batch_run(numbers, results).0 == (if numbers.len() == 0 {
            None
        } else {
            Some(numbers[0])
        }),
    decreases numbers.len(),
{
    if numbers.len() > 0 {
        lemma_batch_run(numbers.drop_last(), results.drop_last());
        assert(results.drop_last().push(results.last()) =~= results);
        if numbers.len() > 1 {
            assert(numbers.drop_last()[0] == numbers[0]);
        }
    }
}

/// Keeps `tx` among a block's transactions when executing it gave a gas
/// figure, that is when its changes were committed, and passes the figure
/// on.
pub fn record_committed<T>(transactions: &mut Vec<T>, tx: T, gas_used: Option<u64>) -> (res: Option<u64>)
    ensures
        res == gas_used,
        final(transactions)@ == (match gas_used {
            Some(_) => old(transactions)@.push(tx),
            None => old(transactions)@,
        }),
{
    match gas_used {
        Some(gas) => {
            transactions.push(tx);
            Some(gas)
        },
        None => None,
    }
}


/// The transactions a block keeps after a commit-condition call on `tx`
/// answered `outcome`: `tx` is appended when the call committed it (gave a
/// gas figure); nothing changes when it was not committed or failed.
pub open spec fn commit_kept<T, E>(txs: Seq<T>, tx: T, outcome: Result<Option<u64>, E>) -> Seq<T> {
    match outcome {
        Ok(Some(_)) => txs.push(tx),
        _ => txs,
    }
}

/// The transactions a block keeps, starting from `kept`, after commit-condition
/// calls on `txs` that answered `outcomes`, in order.
pub open spec fn commits_run<T, E>(kept: Seq<T>, txs: Seq<T>, outcomes: Seq<Result<Option<u64>, E>>) -> Seq<T>
    decreases txs.len(),
{
    if txs.len() == 0 || outcomes.len() == 0 {
        kept
    } else {
        commit_kept(
            commits_run(kept, txs.drop_last(), outcomes.drop_last()),
            txs.last(),
            outcomes.last(),
        )
    }
}

/// The transactions among `txs` whose call answered `Ok(Some(_))`, in order.
pub open spec fn committed_txs<T, E>(txs: Seq<T>, outcomes: Seq<Result<Option<u64>, E>>) -> Seq<T>
    decreases txs.len(),
{
    if txs.len() == 0 || outcomes.len() == 0 {
        Seq::empty()
    } else {
        let head = if outcomes[0] matches Ok(Some(_)) {
            seq![txs[0]]
        } else {
            Seq::empty()
        };
        head + committed_txs(txs.skip(1), outcomes.skip(1))
    }
}

/// Takes the answer of a commit-condition call on `tx`: keeps `tx` when it
/// was committed, and hands the answer back, a failure included.
pub fn record_commit_outcome<T, E>(
    transactions: &mut Vec<T>,
    tx: T,
    outcome: Result<Option<u64>, E>,
) -> (res: Result<Option<u64>, E>)
    ensures
        res == outcome,
        final(transactions)@ == commit_kept(old(transactions)@, tx, outcome),
{
    match outcome {
        Ok(gas_used) => Ok(record_committed(transactions, tx, gas_used)),
        Err(err) => Err(err),
    }
}

proof fn lemma_committed_txs_last<T, E>(txs: Seq<T>, outcomes: Seq<Result<Option<u64>, E>>)
    requires
        txs.len() == outcomes.len(),
        txs.len() > 0,
    ensures
        committed_txs(txs, outcomes) == commit_kept(
            committed_txs(txs.drop_last(), outcomes.drop_last()),
            txs.last(),
            outcomes.last(),
        ),
    decreases txs.len(),
{
    let head = if outcomes[0] matches Ok(Some(_)) {
        seq![txs[0]]
    } else {
        Seq::<T>::empty()
    };
    if txs.len() == 1 {
        assert(committed_txs(txs.skip(1), outcomes.skip(1)) =~= Seq::<T>::empty());
        assert(committed_txs(txs, outcomes) =~= head);
        assert(committed_txs(txs.drop_last(), outcomes.drop_last()) =~= Seq::<T>::empty());
    } else {
        lemma_committed_txs_last(txs.skip(1), outcomes.skip(1));
        assert(txs.skip(1).drop_last() =~= txs.drop_last().skip(1));
        assert(outcomes.skip(1).drop_last() =~= outcomes.drop_last().skip(1));
        let rest = committed_txs(txs.drop_last().skip(1), outcomes.drop_last().skip(1));
        assert(committed_txs(txs.drop_last(), outcomes.drop_last()) == head + rest);
        if outcomes.last() matches Ok(Some(_)) {
            assert((head + rest).push(txs.last()) =~= head + rest.push(txs.last()));
        }
    }
}

/// A run of commit-condition calls keeps the transactions it started with,
/// followed, in call order, by exactly the transactions whose call was
/// committed; calls that were not committed or failed add nothing.
pub proof fn lemma_commits_run<T, E>(kept: Seq<T>, txs: Seq<T>, outcomes: Seq<Result<Option<u64>, E>>)
    requires
        txs.len() == outcomes.len(),
    ensures
        commits_run(kept, txs, outcomes) == kept + committed_txs(txs, outcomes),
    decreases txs.len(),
{
    if txs.len() == 0 {
        assert(kept + committed_txs(txs, outcomes) =~= kept);
    } else {
        lemma_commits_run(kept, txs.drop_last(), outcomes.drop_last());
        lemma_committed_txs_last(txs, outcomes);
        let prev = committed_txs(txs.drop_last(), outcomes.drop_last());
        match outcomes.last() {
            Ok(Some(_)) => {
                assert((kept + prev).push(txs.last()) =~= kept + prev.push(txs.last()));
            },
            _ => {},
        }
    }
}

} // verus!
