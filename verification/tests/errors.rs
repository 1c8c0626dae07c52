use alloy_primitives::{Bytes, B256};
use nybbles::Nibbles;
use reth_core::errors::{
    DatabaseError, DatabaseErrorInfo, ProviderError, SparseStateTrieError, SparseStateTrieErrorKind,
    SparseTrieError, SparseTrieErrorKind, StateProofError, StateRootError, StorageRootError,
    TrieWitnessError,
};

fn read_error() -> DatabaseError {
    DatabaseError::Read(DatabaseErrorInfo { message: "read failed".to_string(), code: -30798 })
}

fn is_read_error(e: &DatabaseError) -> bool {
    matches!(e, DatabaseError::Read(info) if info.code == -30798 && info.message == "read failed")
}

#[test]
fn state_root_database_error_becomes_provider_database_error() {
    let p: ProviderError = StateRootError::from(read_error()).into();
    assert!(matches!(&p, ProviderError::Database(e) if is_read_error(e)));
}

#[test]
fn state_root_storage_database_error_becomes_provider_database_error() {
    let storage = StorageRootError::from(DatabaseError::Decode);
    let p: ProviderError = StateRootError::from(storage).into();
    assert!(matches!(p, ProviderError::Database(DatabaseError::Decode)));
}

#[test]
fn prefix_set_load_error_is_the_provider_error() {
    let inner = ProviderError::TrieWitnessError("missing account".to_string());
    let p: ProviderError = StateRootError::from(inner).into();
    assert!(matches!(&p, ProviderError::TrieWitnessError(m) if m == "missing account"));
}

#[test]
fn storage_root_error_round_trip() {
    let e: DatabaseError = StorageRootError::from(read_error()).into();
    assert!(is_read_error(&e));
}

#[test]
fn state_proof_errors_become_provider_errors() {
    let p: ProviderError = StateProofError::from(DatabaseError::Other("x".to_string())).into();
    assert!(matches!(&p, ProviderError::Database(DatabaseError::Other(m)) if m == "x"));
    let p: ProviderError = StateProofError::from(alloy_rlp::Error::InputTooShort).into();
    assert!(matches!(p, ProviderError::Rlp(alloy_rlp::Error::InputTooShort)));
}

#[test]
fn sparse_trie_error_kind_round_trip() {
    let err = SparseTrieError::from(SparseTrieErrorKind::Blind);
    assert!(matches!(err.kind(), SparseTrieErrorKind::Blind));
    assert!(matches!(err.into_kind(), SparseTrieErrorKind::Blind));
    let err = SparseTrieError::from(alloy_rlp::Error::Overflow);
    assert!(matches!(err.into_kind(), SparseTrieErrorKind::Rlp(alloy_rlp::Error::Overflow)));
}

#[test]
fn sparse_state_trie_error_keeps_sparse_kind() {
    let path = Nibbles::from_nibbles([0x1, 0x2]);
    let hash = B256::repeat_byte(0xaa);
    let sparse = SparseTrieError::from(SparseTrieErrorKind::BlindedNode { path, hash });
    let state = SparseStateTrieError::from(sparse);
    match state.into_kind() {
        SparseStateTrieErrorKind::Sparse(SparseTrieErrorKind::BlindedNode { path: p, hash: h }) => {
            assert_eq!(p, path);
            assert_eq!(h, hash);
        }
        other => panic!("unexpected kind {other:?}"),
    }
}

#[test]
fn sparse_state_trie_error_from_kinds() {
    let e = SparseStateTrieError::from(SparseTrieErrorKind::NodeNotFoundInProvider {
        path: Nibbles::from_nibbles([0x5]),
    });
    assert!(matches!(
        e.kind(),
        SparseStateTrieErrorKind::Sparse(SparseTrieErrorKind::NodeNotFoundInProvider { .. })
    ));
    let e = SparseStateTrieError::from(alloy_rlp::Error::LeadingZero);
    assert!(matches!(e.kind(), SparseStateTrieErrorKind::Rlp(alloy_rlp::Error::LeadingZero)));
    let e = SparseStateTrieError::from(SparseStateTrieErrorKind::InvalidRootNode {
        path: Nibbles::new(),
        node: Bytes::from_static(&[0x80]),
    });
    assert!(matches!(e.into_kind(), SparseStateTrieErrorKind::InvalidRootNode { .. }));
    let kind: SparseStateTrieErrorKind = SparseTrieError::from(SparseTrieErrorKind::Blind).into();
    assert!(matches!(kind, SparseStateTrieErrorKind::Sparse(SparseTrieErrorKind::Blind)));
}

#[test]
fn trie_witness_error_from_sparse_kind() {
    let w = TrieWitnessError::from(SparseStateTrieErrorKind::Rlp(alloy_rlp::Error::UnexpectedList));
    match w {
        TrieWitnessError::Sparse(e) => {
            assert!(matches!(e.into_kind(), SparseStateTrieErrorKind::Rlp(alloy_rlp::Error::UnexpectedList)))
        }
        other => panic!("unexpected error {other:?}"),
    }
    let w = TrieWitnessError::from(StateProofError::Database(DatabaseError::Decode));
    assert!(matches!(w, TrieWitnessError::Proof(StateProofError::Database(DatabaseError::Decode))));
    let w = TrieWitnessError::from(alloy_rlp::Error::Overflow);
    assert!(matches!(w, TrieWitnessError::Rlp(alloy_rlp::Error::Overflow)));
}
