//! Resuming a state root computation from a checkpoint.
//!
//! The checkpoint's hash builder state and walker stack entries are turned
//! into a hash builder and walker stack entries by their `From` conversions;
//! the state and node types stay parameters, since the conversions belong to
//! the types that are plugged in.
use crate::hashed_cursor::Account;
use alloy_primitives::{B256, U256};
use vstd::prelude::*;
use vstd::std_specs::convert::FromSpecImpl;

verus! {

/// Checkpoint of the storage root computation of one account.
pub struct StorageRootMerkleCheckpoint<S, N> {
    /// The last hashed storage key processed.
    pub last_storage_key: B256,
    /// The walker stack at the checkpoint.
    pub walker_stack: Vec<N>,
    /// The hash builder state at the checkpoint.
    pub state: S,
    /// Nonce of the account whose storage root is computed.
    pub account_nonce: u64,
    /// Balance of that account.
    pub account_balance: U256,
    /// Bytecode hash of that account.
    pub account_bytecode_hash: B256,
}

/// Checkpoint of a state root computation.
pub struct MerkleCheckpoint<S, N> {
    /// The block the computation is for.
    pub target_block: u64,
    /// The last hashed account key processed.
    pub last_account_key: B256,
    /// The walker stack of the account trie at the checkpoint.
    pub walker_stack: Vec<N>,
    /// The hash builder state of the account trie at the checkpoint.
    pub state: S,
    /// The storage root computation under way, if any.
    pub storage_root_checkpoint: Option<StorageRootMerkleCheckpoint<S, N>>,
}

/// Intermediate state of a root computation (account or storage root).
pub struct IntermediateRootState<B, W> {
    /// The hash builder built so far.
    pub hash_builder: B,
    /// The walker stack, which records where the trie walk stands.
    pub walker_stack: Vec<W>,
    /// The last hashed key processed; resuming starts after it.
    pub last_hashed_key: B256,
}

/// Intermediate state of a storage root computation, with its account.
pub struct IntermediateStorageRootState<B, W> {
    /// The intermediate storage trie state.
    pub state: IntermediateRootState<B, W>,
    /// The account whose storage root is computed.
    pub account: Account,
}

/// Intermediate state of a state root computation.
pub struct IntermediateStateRootState<B, W> {
    /// Intermediate state of the account root computation.
    pub account_root_state: IntermediateRootState<B, W>,
    /// Intermediate state of the storage root computation under way, if any.
    pub storage_root_state: Option<IntermediateStorageRootState<B, W>>,
}

/// Progress of a state root computation: done, or paused with the state to
/// resume from. Both carry the number of entries walked and the trie updates
/// gathered so far.
pub enum StateRootProgress<B, W, U> {
    /// Done: the state root, the entries walked and the trie updates.
    Complete(B256, usize, U),
    /// Paused: the state to resume from, the entries walked and the trie
    /// updates.
    Progress(Box<IntermediateStateRootState<B, W>>, usize, U),
}

/// Progress of a storage root computation, as [`StateRootProgress`] for
/// one account's storage trie.
pub enum StorageRootProgress<B, W, U> {
    /// Done: the storage root, the slots walked and the storage trie updates.
    Complete(B256, usize, U),
    /// Paused: the state to resume from, the slots walked and the updates.
    Progress(Box<IntermediateRootState<B, W>>, usize, U),
}

/// Each entry of `to` is what `From` makes of the entry of `from` at the
/// same place.
pub open spec fn each_converted<N, W: From<N>>(from: Seq<N>, to: Seq<W>) -> bool {
    &&& to.len() == from.len()
    &&& forall|i: int| 0 <= i < from.len() ==> call_ensures(W::from, (from[i],), #[trigger] to[i])
}

/// `r` is the intermediate root state resumed from a hash builder state, a
/// walker stack and the last key processed.
pub open spec fn resumed_root<S, N, B: From<S>, W: From<N>>(
    state: S,
    walker_stack: Seq<N>,
    last_key: B256,
    r: IntermediateRootState<B, W>,
) -> bool {
    &&& call_ensures(B::from, (state,), r.hash_builder)
    &&& each_converted(walker_stack, r.walker_stack@)
    &&& r.last_hashed_key == last_key
}

/// `r` is the intermediate state resumed from the checkpoint `value`: the
/// account root state from the checkpoint's builder, walker stack and last
/// account key; a storage root state exactly when the checkpoint has a
/// storage part, from that part's builder, walker stack and last storage
/// key, with the account made of its nonce, balance and bytecode hash.
pub open spec fn resumed_from_checkpoint<S, N, B: From<S>, W: From<N>>(
    value: MerkleCheckpoint<S, N>,
    r: IntermediateStateRootState<B, W>,
) -> bool {
    &&& resumed_root(value.state, value.walker_stack@, value.last_account_key, r.account_root_state)
    &&& (r.storage_root_state is Some) == (value.storage_root_checkpoint is Some)
    &&& value.storage_root_checkpoint matches Some(c) ==> {
        let s = r.storage_root_state.unwrap();
        &&& resumed_root(c.state, c.walker_stack@, c.last_storage_key, s.state)
        &&& s.account == Account {
            nonce: c.account_nonce,
            balance: c.account_balance,
            bytecode_hash: Some(c.account_bytecode_hash),
        }
    }
}

/// Converts each walker stack entry, keeping their order.
fn convert_stack<N, W: From<N>>(stack: Vec<N>) -> (converted: Vec<W>)
    ensures
        each_converted(stack@, converted@),
{
    let ghost orig = stack@;
    let mut rest = stack;
    let mut reversed: Vec<N> = Vec::new();
    while rest.len() > 0
        invariant
            rest@.len() + reversed@.len() == orig.len(),
            forall|k: int| 0 <= k < rest@.len() ==> rest@[k] == orig[k],
            forall|k: int| 0 <= k < reversed@.len() ==> reversed@[k] == orig[orig.len() - 1 - k],
        decreases rest.len(),
    {
        let entry = rest.pop().unwrap();
        reversed.push(entry);
    }
    let mut converted: Vec<W> = Vec::new();
    while reversed.len() > 0
        invariant
            reversed@.len() + converted@.len() == orig.len(),
            forall|k: int| 0 <= k < reversed@.len() ==> reversed@[k] == orig[orig.len() - 1 - k],
            forall|k: int|
                0 <= k < converted@.len() ==> call_ensures(W::from, (orig[k],), #[trigger] converted@[k]),
        decreases reversed.len(),
    {
        let entry = reversed.pop().unwrap();
        converted.push(W::from(entry));
    }
    converted
}

/// Resumes a root computation from a hash builder state, a walker stack and
/// the last key processed.
fn resume_root<S, N, B: From<S>, W: From<N>>(state: S, walker_stack: Vec<N>, last_hashed_key: B256) -> (r:
    IntermediateRootState<B, W>)
    ensures
        resumed_root(state, walker_stack@, last_hashed_key, r),
{
    let hash_builder = B::from(state);
    let walker_stack = convert_stack(walker_stack);
    IntermediateRootState { hash_builder, walker_stack, last_hashed_key }
}

/// Resumes a state root computation from a checkpoint.
pub fn intermediate_state_from_checkpoint<S, N, B: From<S>, W: From<N>>(value: MerkleCheckpoint<S, N>) -> (r:
    IntermediateStateRootState<B, W>)
    ensures
        resumed_from_checkpoint(value, r),
{
    let account_root_state = resume_root(value.state, value.walker_stack, value.last_account_key);
    let storage_root_state = match value.storage_root_checkpoint {
        Some(checkpoint) => Some(
            IntermediateStorageRootState {
                state: resume_root(checkpoint.state, checkpoint.walker_stack, checkpoint.last_storage_key),
                account: Account {
                    nonce: checkpoint.account_nonce,
                    balance: checkpoint.account_balance,
                    bytecode_hash: Some(checkpoint.account_bytecode_hash),
                },
            },
        ),
        None => None,
    };
    IntermediateStateRootState { account_root_state, storage_root_state }
}

impl<S, N, B: From<S>, W: From<N>> From<MerkleCheckpoint<S, N>> for IntermediateStateRootState<B, W> {
    /// Resumes a state root computation from a checkpoint.
    fn from(value: MerkleCheckpoint<S, N>) -> (r: Self)
        ensures
            resumed_from_checkpoint(value, r),
    {
        intermediate_state_from_checkpoint(value)
    }
}

impl<S, N, B: From<S>, W: From<N>> FromSpecImpl<MerkleCheckpoint<S, N>> for IntermediateStateRootState<B, W> {
    /// The result is given by the conversions of the plugged-in types,
    /// which `from`'s own `ensures` states; it is not claimed to be a
    /// function of the checkpoint alone.
    open spec fn obeys_from_spec() -> bool {
        false
    }

    open spec fn from_spec(value: MerkleCheckpoint<S, N>) -> Self {
        arbitrary()
    }
}

} // verus!
