//! Executing blocks: the executor's default methods, over the executor's
//! own block, result, state and bundle types.
use crate::execute::{BatchExecution, batch_started, batch_recorded};
use vstd::prelude::*;

verus! {

/// The output of executing one block: the state changes (the bundle) and the
/// result.
pub struct BlockExecutionOutput<B, R> {
    /// The state changes.
    pub state: B,
    /// The block's execution result.
    pub result: R,
}

/// The outcome of executing a batch of blocks: the number of the first
/// block, the state changes of the whole batch and each block's result, in
/// block order.
pub struct ExecutionOutcome<B, R> {
    /// Number of the first block of the batch, 0 for an empty batch.
    pub first_block: u64,
    /// The state changes of the batch.
    pub bundle: B,
    /// The blocks' results, in block order.
    pub results: Vec<R>,
}

/// Whether `k` indexes one of `answers`: the blocks of a batch that have
/// been executed so far.
pub open spec fn is_answered<A>(answers: Seq<A>, k: int) -> bool {
    0 <= k < answers.len()
}

/// Executes blocks.
pub trait Executor: Sized {
    /// The block type.
    type Block;
    /// The result of executing one block (receipts, gas used, requests).
    type Output;
    /// The error type.
    type Error;
    /// The state the executor accumulates its changes in.
    type State;
    /// The state changes taken out of the state.
    type Bundle;

    /// Executes one block; its state changes stay in the executor's state.
    fn execute_one(&mut self, block: &Self::Block) -> Result<Self::Output, Self::Error>;

    /// Consumes the executor and returns the state with all changes.
    fn into_state(self) -> Self::State;

    /// Takes the accumulated changes out of a state.
    fn take_bundle(state: &mut Self::State) -> Self::Bundle;

    /// Executes the block and returns its output: the result and the state
    /// changes. Nothing is validated. On a failure the error comes back and
    /// the state is not taken.
    fn execute(self, block: &Self::Block) -> (res: Result<BlockExecutionOutput<Self::Bundle, Self::Output>, Self::Error>)
        ensures
            exists|r: &mut Self, one: Result<Self::Output, Self::Error>|
                #![auto]
                mut_ref_current(r) == self && call_ensures(Self::execute_one, (r, block), one) && match one {
                    Err(e) => res == Err::<BlockExecutionOutput<Self::Bundle, Self::Output>, Self::Error>(e),
                    Ok(result) => exists|st: Self::State, bundle: Self::Bundle|
                        #![auto]
                        call_ensures(Self::into_state, (mut_ref_future(r),), st) && (exists|sr: &mut Self::State|
                            #![auto]
                            mut_ref_current(sr) == st && call_ensures(Self::take_bundle, (sr,), bundle)) && res == Ok::<
                            BlockExecutionOutput<Self::Bundle, Self::Output>,
                            Self::Error,
                        >(BlockExecutionOutput { state: bundle, result }),
                },
    {
        let mut executor = self;
        let one = executor.execute_one(block);
        match one {
            Err(e) => Err(e),
            Ok(result) => {
                let mut state = executor.into_state();
                let bundle = Self::take_bundle(&mut state);
                Ok(BlockExecutionOutput { state: bundle, result })
            },
        }
    }

    /// Executes one block, handing its state changes to `state_hook` as
    /// they are made; the changes stay in the executor's state.
    fn execute_one_with_state_hook<H>(&mut self, block: &Self::Block, state_hook: H) -> Result<
        Self::Output,
        Self::Error,
    >;

    /// The number in the block's header.
    fn block_number(block: &Self::Block) -> u64;

    /// A hint of the size of the tracked state.
    fn size_hint(&self) -> usize;

    /// Executes the block with a state hook and returns its output. On a
    /// failure the error comes back and the state is not taken.
    fn execute_with_state_hook<H>(self, block: &Self::Block, state_hook: H) -> (res: Result<BlockExecutionOutput<Self::Bundle, Self::Output>, Self::Error>)
        ensures
            exists|r: &mut Self, one: Result<Self::Output, Self::Error>|
                #![auto]
                mut_ref_current(r) == self && call_ensures(
                    Self::execute_one_with_state_hook,
                    (r, block, state_hook),
                    one,
                ) && match one {
                    Err(e) => res == Err::<BlockExecutionOutput<Self::Bundle, Self::Output>, Self::Error>(e),
                    Ok(result) => exists|st: Self::State, bundle: Self::Bundle|
                        #![auto]
                        call_ensures(Self::into_state, (mut_ref_future(r),), st) && (exists|sr: &mut Self::State|
                            #![auto]
                            mut_ref_current(sr) == st && call_ensures(Self::take_bundle, (sr,), bundle))
                            && res == Ok::<BlockExecutionOutput<Self::Bundle, Self::Output>, Self::Error>(BlockExecutionOutput { state: bundle, result }),
                },
    {
        let mut executor = self;
        let one = executor.execute_one_with_state_hook(block, state_hook);
        match one {
            Err(e) => Err(e),
            Ok(result) => {
                let mut state = executor.into_state();
                let bundle = Self::take_bundle(&mut state);
                Ok(BlockExecutionOutput { state: bundle, result })
            },
        }
    }

    /// Executes the block, shows the state to `f` after execution, and
    /// returns the output; `f` sees the state before its changes are taken.
    /// On a failure the error comes back, the state is not taken and `f` is
    /// not called.
    fn execute_with_state_closure<F: FnMut(&Self::State)>(self, block: &Self::Block, f: F) -> (res: Result<BlockExecutionOutput<Self::Bundle, Self::Output>, Self::Error>)
        requires
            forall|s: &Self::State| #[trigger] call_requires(f, (s,)),
        ensures
            exists|r: &mut Self, one: Result<Self::Output, Self::Error>|
                #![auto]
                mut_ref_current(r) == self && call_ensures(Self::execute_one, (r, block), one) && match one {
                    Err(e) => res == Err::<BlockExecutionOutput<Self::Bundle, Self::Output>, Self::Error>(e),
                    Ok(result) => exists|st: Self::State, bundle: Self::Bundle|
                        #![auto]
                        call_ensures(Self::into_state, (mut_ref_future(r),), st) && call_ensures(f, (&st,), ())
                            && (exists|sr: &mut Self::State|
                            #![auto]
                            mut_ref_current(sr) == st && call_ensures(Self::take_bundle, (sr,), bundle))
                            && res == Ok::<BlockExecutionOutput<Self::Bundle, Self::Output>, Self::Error>(BlockExecutionOutput { state: bundle, result }),
                },
    {
        let mut executor = self;
        let one = executor.execute_one(block);
        match one {
            Err(e) => Err(e),
            Ok(result) => {
                let mut state = executor.into_state();
                let mut f = f;
                f(&state);
                let bundle = Self::take_bundle(&mut state);
                Ok(BlockExecutionOutput { state: bundle, result })
            },
        }
    }

    /// Executes the block and shows the state to `f` after execution, even
    /// when execution failed; `f` sees the state before its changes are
    /// taken. Returns the output, or the execution's error.
    fn execute_with_state_closure_always<F: FnMut(&Self::State)>(self, block: &Self::Block, f: F) -> (res: Result<BlockExecutionOutput<Self::Bundle, Self::Output>, Self::Error>)
        requires
            forall|s: &Self::State| #[trigger] call_requires(f, (s,)),
        ensures
            exists|
                r: &mut Self,
                one: Result<Self::Output, Self::Error>,
                st: Self::State,
                sr: &mut Self::State,
                bundle: Self::Bundle,
            |
                #![trigger call_ensures(Self::execute_one, (r, block), one), call_ensures(Self::into_state, (mut_ref_future(r),), st), call_ensures(Self::take_bundle, (sr,), bundle)]
                mut_ref_current(r) == self && call_ensures(Self::execute_one, (r, block), one)
                    && call_ensures(Self::into_state, (mut_ref_future(r),), st) && call_ensures(f, (&st,), ())
                    && mut_ref_current(sr) == st && call_ensures(Self::take_bundle, (sr,), bundle) && res == match one {
                    Err(e) => Err::<BlockExecutionOutput<Self::Bundle, Self::Output>, Self::Error>(e),
                    Ok(result) => Ok::<BlockExecutionOutput<Self::Bundle, Self::Output>, Self::Error>(BlockExecutionOutput { state: bundle, result }),
                },
    {
        let mut executor = self;
        let one = executor.execute_one(block);
        let mut state = executor.into_state();
        let mut f = f;
        f(&state);
        let bundle = Self::take_bundle(&mut state);
        match one {
            Err(e) => Err(e),
            Ok(result) => Ok(BlockExecutionOutput { state: bundle, result }),
        }
    }

    /// Executes the blocks in order and returns the aggregated outcome. The
    /// first failure stops the batch and is returned; the blocks after it
    /// are not executed and the state is not taken.
    fn execute_batch(self, blocks: &[Self::Block]) -> (res: Result<ExecutionOutcome<Self::Bundle, Self::Output>, Self::Error>)
        ensures
            (exists|states: Seq<Self>, answers: Seq<Result<Self::Output, Self::Error>>|
                #![trigger states.len(), answers.len()]
                {
                    &&& states.len() == answers.len() + 1
                    &&& answers.len() <= blocks@.len()
                    &&& states[0] == self
                    &&& forall|i: int|
                        #[trigger] is_answered(answers, i) ==> (exists|r: &mut Self|
                            #![trigger call_ensures(Self::execute_one, (r, &blocks@[i]), answers[i])]
                            mut_ref_current(r) == states[i] && mut_ref_future(r) == states[i + 1]
                                && call_ensures(Self::execute_one, (r, &blocks@[i]), answers[i]))
                    &&& forall|i: int| 0 <= i < answers.len() - 1 ==> (#[trigger] answers[i] is Ok)
                    &&& (match res {
                        Err(e) => answers.len() > 0 && answers.last() == Err::<Self::Output, Self::Error>(e),
                        Ok(outcome) => {
                            &&& answers.len() == blocks@.len()
                            &&& outcome.results@.len() == answers.len()
                            &&& forall|i: int|
                                0 <= i < answers.len() ==> #[trigger] answers[i] == Ok::<
                                    Self::Output,
                                    Self::Error,
                                >(outcome.results@[i])
                            &&& blocks@.len() == 0 ==> outcome.first_block == 0
                            &&& blocks@.len() > 0 ==> call_ensures(Self::block_number, (&blocks@[0],), outcome.first_block)
                            &&& (exists|st: Self::State|
                                #![trigger call_ensures(Self::into_state, (states.last(),), st)]
                                call_ensures(Self::into_state, (states.last(),), st) && (exists|sr: &mut Self::State|
                                    #![auto]
                                    mut_ref_current(sr) == st && call_ensures(Self::take_bundle, (sr,), outcome.bundle)))
                        },
                    })
                }),
    {
        let mut executor = self;
        let mut batch: BatchExecution<Self::Output> = BatchExecution::new();
        let ghost mut states: Seq<Self> = seq![executor];
        let ghost mut answers: Seq<Result<Self::Output, Self::Error>> = Seq::empty();
        let ghost mut first_number: u64 = 0;
        let mut i: usize = 0;
        while i < blocks.len()
            invariant
                i <= blocks@.len(),
                states.len() == answers.len() + 1,
                answers.len() == i,
                states.last() == executor,
                states[0] == self,
                forall|k: int|
                    #[trigger] is_answered(answers, k) ==> (exists|r: &mut Self|
                        #![trigger call_ensures(Self::execute_one, (r, &blocks@[k]), answers[k])]
                        mut_ref_current(r) == states[k] && mut_ref_future(r) == states[k + 1]
                            && call_ensures(Self::execute_one, (r, &blocks@[k]), answers[k])),
                forall|k: int| 0 <= k < answers.len() ==> (#[trigger] answers[k] is Ok),
                batch@.1.len() == i,
                forall|k: int|
                    0 <= k < i ==> #[trigger] answers[k] == Ok::<Self::Output, Self::Error>(batch@.1[k]),
                i == 0 ==> batch@.0 is None,
                i > 0 ==> batch@.0 == Some(first_number) && call_ensures(
                    Self::block_number,
                    (&blocks@[0],),
                    first_number,
                ),
            decreases blocks@.len() - i,
        {
            let block = &blocks[i];
            if !batch.started() {
                let number = Self::block_number(block);
                proof {
                    first_number = number;
                }
                batch.start_block(number);
            }
            let ghost before = executor;
            let ghost old_states = states;
            let ghost old_answers = answers;
            let one = executor.execute_one(block);
            proof {
                assert(exists|r: &mut Self|
                    #![trigger call_ensures(Self::execute_one, (r, block), one)]
                    mut_ref_current(r) == before && mut_ref_future(r) == executor
                        && call_ensures(Self::execute_one, (r, block), one));
                assert(*block == blocks@[i as int]);
                states = states.push(executor);
                answers = answers.push(one);
                assert forall|k: int| #[trigger] is_answered(answers, k) implies (exists|r: &mut Self|
                    #![trigger call_ensures(Self::execute_one, (r, &blocks@[k]), answers[k])]
                    mut_ref_current(r) == states[k] && mut_ref_future(r) == states[k + 1]
                        && call_ensures(Self::execute_one, (r, &blocks@[k]), answers[k])) by {
                    if k < old_answers.len() {
                        assert(is_answered(old_answers, k));
                        assert(answers[k] == old_answers[k]);
                        assert(states[k] == old_states[k]);
                        assert(states[k + 1] == old_states[k + 1]);
                    } else {
                        assert(answers[k] == one);
                        assert(states[k] == before);
                        assert(states[k + 1] == executor);
                    }
                }
                assert(states[0] == self);
            }
            match one {
                Ok(result) => {
                    batch.record(result);
                },
                Err(e) => {
                    assert forall|k: int| 0 <= k < answers.len() - 1 implies (#[trigger] answers[k] is Ok) by {
                        assert(answers[k] == old_answers[k]);
                    }
                    assert(answers.last() == Err::<Self::Output, Self::Error>(e));
                    assert(answers.len() <= blocks@.len());
                    assert(states.len() == answers.len() + 1);
                    assert(states[0] == self);
                    assert(forall|k: int|
                        #[trigger] is_answered(answers, k) ==> (exists|r: &mut Self|
                            #![trigger call_ensures(Self::execute_one, (r, &blocks@[k]), answers[k])]
                            mut_ref_current(r) == states[k] && mut_ref_future(r) == states[k + 1]
                                && call_ensures(Self::execute_one, (r, &blocks@[k]), answers[k])));
                    assert(forall|k: int| 0 <= k < answers.len() - 1 ==> (#[trigger] answers[k] is Ok));
                    return Err(e);
                },
            }
            i = i + 1;
        }
        let (first_block, results) = batch.finish();
        let ghost last = executor;
        let mut state = executor.into_state();
        let ghost taken = state;
        let bundle = Self::take_bundle(&mut state);
        assert(call_ensures(Self::into_state, (states.last(),), taken));
        Ok(ExecutionOutcome { first_block, bundle, results })
    }
}


/// Whether the state changes of an executed transaction are committed.
#[derive(Clone, Copy, Debug, PartialEq, Eq)]
pub enum CommitChanges {
    /// Commit the changes.
    Yes,
    /// Discard the changes.
    No,
}

/// The gas a transaction used, from the answer of a commit-condition call:
/// the gas figure when the transaction was committed, 0 when it was not,
/// and the failure as it came.
pub open spec fn gas_of_answer<E>(answer: Result<Option<u64>, E>) -> Result<u64, E> {
    match answer {
        Ok(Some(gas)) => Ok(gas),
        Ok(None) => Ok(0),
        Err(e) => Err(e),
    }
}

/// Reads the answer of a commit-condition call as the gas used.
pub fn gas_of_commit_answer<E>(answer: Result<Option<u64>, E>) -> (gas: Result<u64, E>)
    ensures
        gas == gas_of_answer(answer),
{
    match answer {
        Ok(Some(gas)) => Ok(gas),
        Ok(None) => Ok(0),
        Err(e) => Err(e),
    }
}

/// Executes transactions and builds a block from them.
pub trait BlockBuilder {
    /// The block executor inside the builder.
    type Executor;
    /// The transaction type.
    type Transaction;
    /// The result of executing one transaction.
    type ExecutionResult;
    /// The error type.
    type Error;

    /// Applies the changes due before any transaction executes.
    fn apply_pre_execution_changes(&mut self) -> Result<(), Self::Error>;

    /// Executes `tx`, asks `f` whether to commit its changes, and keeps the
    /// transaction only when they are committed; the gas used comes back
    /// then, `None` when they were not committed.
    fn execute_transaction_with_commit_condition<F: FnOnce(&Self::ExecutionResult) -> CommitChanges>(
        &mut self,
        tx: Self::Transaction,
        f: F,
    ) -> Result<Option<u64>, Self::Error>;

    /// Executes `tx`, shows its result to `f`, always commits it, and
    /// returns the gas used (0 when no figure came back).
    fn execute_transaction_with_result_closure<F: FnOnce(&Self::ExecutionResult)>(
        &mut self,
        tx: Self::Transaction,
        f: F,
    ) -> (res: Result<u64, Self::Error>)
        ensures
            exists|answer: Result<Option<u64>, Self::Error>| res == gas_of_answer(answer),
    {
        let always_commit = (move |result: &Self::ExecutionResult| -> (commit: CommitChanges)
            requires
                call_requires(f, (result,)),
            ensures
                commit == CommitChanges::Yes,
            {
                f(result);
                CommitChanges::Yes
            });
        let answer = self.execute_transaction_with_commit_condition(tx, always_commit);
        gas_of_commit_answer(answer)
    }

    /// Executes `tx`, always commits it, and returns the gas used.
    fn execute_transaction(&mut self, tx: Self::Transaction) -> (res: Result<u64, Self::Error>)
        ensures
            exists|answer: Result<Option<u64>, Self::Error>| res == gas_of_answer(answer),
    {
        self.execute_transaction_with_result_closure(tx, |_result: &Self::ExecutionResult| {})
    }

    /// The executor inside the builder.
    fn executor(&self) -> &Self::Executor;

    /// Consumes the builder and returns its executor.
    fn into_executor(self) -> Self::Executor;
}

} // verus!
