use reth_core::executor::{
    gas_of_commit_answer, BlockBuilder, CommitChanges, Executor,
};

/// A toy executor: a block is (number, value); a value of 0 fails. The state
/// is the running sum of values; the bundle is the sum taken out.
struct Summer {
    sum: u64,
    hooks_seen: u32,
}

impl Executor for Summer {
    type Block = (u64, u64);
    type Output = u64;
    type Error = String;
    type State = (u64, u32);
    type Bundle = u64;

    fn execute_one(&mut self, block: &(u64, u64)) -> Result<u64, String> {
        if block.1 == 0 {
            return Err(format!("block {} failed", block.0));
        }
        self.sum += block.1;
        Ok(block.1 * 10)
    }

    fn into_state(self) -> (u64, u32) {
        (self.sum, self.hooks_seen)
    }

    fn take_bundle(state: &mut (u64, u32)) -> u64 {
        let taken = state.0;
        state.0 = 0;
        taken
    }

    fn execute_one_with_state_hook<H>(&mut self, block: &(u64, u64), _hook: H) -> Result<u64, String> {
        self.hooks_seen += 1;
        self.execute_one(block)
    }

    fn block_number(block: &(u64, u64)) -> u64 {
        block.0
    }

    fn size_hint(&self) -> usize {
        self.sum as usize
    }
}

fn summer() -> Summer {
    Summer { sum: 100, hooks_seen: 0 }
}

#[test]
fn execute_returns_result_and_bundle() {
    let out = summer().execute(&(7, 5)).unwrap();
    assert_eq!(out.result, 50);
    assert_eq!(out.state, 105);
}

#[test]
fn execute_failure_is_returned() {
    assert_eq!(summer().execute(&(7, 0)).err(), Some("block 7 failed".to_string()));
}

#[test]
fn execute_with_state_hook_uses_the_hook_variant() {
    let out = summer().execute_with_state_hook(&(1, 2), ()).unwrap();
    assert_eq!((out.result, out.state), (20, 102));
}

#[test]
fn state_closure_sees_state_before_bundle_is_taken() {
    let mut seen = None;
    let out = summer().execute_with_state_closure(&(1, 3), |s: &(u64, u32)| seen = Some(s.0)).unwrap();
    assert_eq!(seen, Some(103));
    assert_eq!(out.state, 103);
}

#[test]
fn state_closure_not_called_on_failure() {
    let mut called = false;
    let res = summer().execute_with_state_closure(&(1, 0), |_s: &(u64, u32)| called = true);
    assert!(res.is_err());
    assert!(!called);
}

#[test]
fn state_closure_always_called_even_on_failure() {
    let mut seen = None;
    let res = summer().execute_with_state_closure_always(&(1, 0), |s: &(u64, u32)| seen = Some(s.0));
    assert!(res.is_err());
    assert_eq!(seen, Some(100));
}

#[test]
fn batch_aggregates_in_order() {
    let out = summer().execute_batch(&[(5, 1), (6, 2), (7, 3)]).unwrap();
    assert_eq!(out.first_block, 5);
    assert_eq!(out.results, vec![10, 20, 30]);
    assert_eq!(out.bundle, 106);
}

#[test]
fn empty_block_list_starts_at_zero() {
    let out = summer().execute_batch(&[]).unwrap();
    assert_eq!(out.first_block, 0);
    assert!(out.results.is_empty());
    assert_eq!(out.bundle, 100);
}

#[test]
fn batch_stops_at_first_failed_block() {
    let res = summer().execute_batch(&[(5, 1), (6, 0), (7, 3)]);
    assert_eq!(res.err(), Some("block 6 failed".to_string()));
}

#[test]
fn gas_of_answers() {
    assert_eq!(gas_of_commit_answer::<String>(Ok(Some(21_000))), Ok(21_000));
    assert_eq!(gas_of_commit_answer::<String>(Ok(None)), Ok(0));
    assert_eq!(gas_of_commit_answer::<String>(Err("x".to_string())), Err("x".to_string()));
}

/// A builder that commits when asked and records the transactions.
struct Builder {
    kept: Vec<&'static str>,
    seen: Vec<u64>,
}

impl BlockBuilder for Builder {
    type Executor = Vec<&'static str>;
    type Transaction = (&'static str, u64);
    type ExecutionResult = u64;
    type Error = String;

    fn apply_pre_execution_changes(&mut self) -> Result<(), String> {
        Ok(())
    }

    fn execute_transaction_with_commit_condition<F: FnOnce(&u64) -> CommitChanges>(
        &mut self,
        tx: (&'static str, u64),
        f: F,
    ) -> Result<Option<u64>, String> {
        if tx.1 == 0 {
            return Err("invalid transaction".to_string());
        }
        match f(&tx.1) {
            CommitChanges::Yes => {
                self.kept.push(tx.0);
                Ok(Some(tx.1))
            }
            CommitChanges::No => Ok(None),
        }
    }

    fn executor(&self) -> &Vec<&'static str> {
        &self.kept
    }

    fn into_executor(self) -> Vec<&'static str> {
        self.kept
    }
}

#[test]
fn result_closure_always_commits_and_returns_gas() {
    let mut b = Builder { kept: vec![], seen: vec![] };
    let mut seen = vec![];
    assert_eq!(b.execute_transaction_with_result_closure(("a", 21), |r: &u64| seen.push(*r)), Ok(21));
    assert_eq!(b.execute_transaction(("b", 5)), Ok(5));
    assert_eq!(b.execute_transaction(("c", 0)), Err("invalid transaction".to_string()));
    assert_eq!(seen, vec![21]);
    assert!(b.seen.is_empty());
    assert_eq!(b.executor(), &vec!["a", "b"]);
    assert_eq!(b.into_executor(), vec!["a", "b"]);
}
