# reth_core

Verified pieces of a Merkle Patricia Trie and block execution stack, written
in Verus.

- `src/nibbles.rs` — the view of `nybbles::Nibbles` and `alloy_primitives::B256`
  as sequences, and the packing of nibbles into bytes.
- `src/provider.rs` — revealed trie nodes, node providers, and
  `pad_path_to_key`, with the proofs that the padded key keeps the path and
  that padding an unpacked key gives it back.
- `src/errors.rs` — state root, storage root, proof, sparse trie and witness
  errors, their conversions, and the laws the conversions obey.
- `src/trie_cursor.rs`, `src/hashed_cursor.rs` — cursor traits and the
  iterator over a trie cursor.
- `src/progress.rs` — resuming a state root computation from a checkpoint;
  the hash builder state and walker entries are converted by the `From`
  conversions of the types plugged in.
- `src/executor.rs` — the `Executor` trait with its default methods (single
  block, state hook, state closures, batch) and the `BlockBuilder` trait
  with its always-commit default methods, over the executor's own block,
  result, state and bundle types.
- `src/execute.rs` — the decisions of a batch (first block, results in
  order, stop at the first failure) and of keeping committed transactions.
- `src/node.rs` — the node primitive types.
- `app/` — error messages, which need `Display`.

Not here: the concrete block executor and block builder (`BasicBlockExecutor`,
`BasicBlockBuilder::finish`, `BlockAssemblerInput`), whose every step is a
call into the EVM, block-assembly and state-provider crates, on which this
crate does not depend; and the type aliases over the EVM configuration.
