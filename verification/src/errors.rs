//! Errors of state root, storage root, proof, sparse trie and witness
//! computations, and the conversions between them.
use alloy_primitives::{Bytes, B256};
use nybbles::Nibbles;
use vstd::prelude::*;
use vstd::std_specs::convert::{FromSpec, FromSpecImpl};

verus! {

#[verifier::external_type_specification]
#[verifier::external_body]
pub struct ExRlpError(alloy_rlp::Error);

#[verifier::external_type_specification]
#[verifier::external_body]
pub struct ExBytes(alloy_primitives::Bytes);

/// `Clone` of `alloy_primitives::Bytes`: a second handle on the same bytes.
/// `Bytes` is opaque here, so nothing is stated of the result.
pub assume_specification[ <alloy_primitives::Bytes as Clone>::clone ](b: &alloy_primitives::Bytes) -> alloy_primitives::Bytes;

/// `Clone` of `alloy_rlp::Error`: the type is `Copy` and its derived `clone`
/// hands back the same value.
pub assume_specification[ <alloy_rlp::Error as Clone>::clone ](e: &alloy_rlp::Error) -> (res: alloy_rlp::Error)
    ensures
        res == *e,
;

/// What a database backend reports with a failure.
#[derive(Clone, Debug)]
pub struct DatabaseErrorInfo {
    /// Human-readable message.
    pub message: String,
    /// Backend error code.
    pub code: i32,
}

/// A failure of the database that holds trie nodes and hashed state.
#[derive(Clone, Debug)]
pub enum DatabaseError {
    /// Opening the database failed.
    Open(DatabaseErrorInfo),
    /// Creating a table failed.
    CreateTable(DatabaseErrorInfo),
    /// Writing failed.
    Write(DatabaseErrorInfo),
    /// Reading failed.
    Read(DatabaseErrorInfo),
    /// Deleting failed.
    Delete(DatabaseErrorInfo),
    /// Committing a transaction failed.
    Commit(DatabaseErrorInfo),
    /// Opening a transaction failed.
    InitTx(DatabaseErrorInfo),
    /// Opening a cursor failed.
    InitCursor(DatabaseErrorInfo),
    /// A stored value could not be decoded.
    Decode,
    /// Reading statistics failed.
    Stats(DatabaseErrorInfo),
    /// Any other failure.
    Other(String),
}

/// A failure of a state provider.
#[derive(Clone, Debug)]
pub enum ProviderError {
    /// The underlying database failed.
    Database(DatabaseError),
    /// RLP decoding failed.
    Rlp(alloy_rlp::Error),
    /// Computing a trie witness failed; the rendered witness error.
    TrieWitnessError(String),
}

/// State root error.
#[derive(Clone, Debug)]
pub enum StateRootError {
    /// Internal database error.
    Database(DatabaseError),
    /// Storage root error.
    StorageRootError(StorageRootError),
    /// Provider error while loading prefix sets.
    PrefixSetLoadError(ProviderError),
}

/// Storage root error.
#[derive(Clone, Debug)]
pub enum StorageRootError {
    /// Internal database error.
    Database(DatabaseError),
}

/// State proof errors.
#[derive(Clone, Debug)]
pub enum StateProofError {
    /// Internal database error.
    Database(DatabaseError),
    /// RLP decoding error.
    Rlp(alloy_rlp::Error),
}

/// Error encountered in the sparse state trie: a boxed error kind.
#[derive(Debug)]
pub struct SparseStateTrieError(pub Box<SparseStateTrieErrorKind>);

/// Result type with [`SparseStateTrieError`] as error.
pub type SparseStateTrieResult<T> = Result<T, SparseStateTrieError>;

/// Kinds of sparse state trie errors.
#[derive(Debug)]
pub enum SparseStateTrieErrorKind {
    /// Encountered invalid root node.
    InvalidRootNode {
        /// Path to first proof node.
        path: Nibbles,
        /// Encoded first proof node.
        node: Bytes,
    },
    /// Storage sparse trie error, with the hashed address of the account.
    SparseStorageTrie(B256, SparseTrieErrorKind),
    /// Sparse trie error.
    Sparse(SparseTrieErrorKind),
    /// RLP error.
    Rlp(alloy_rlp::Error),
}

/// Error encountered in a sparse trie: a boxed error kind.
#[derive(Debug)]
pub struct SparseTrieError(pub Box<SparseTrieErrorKind>);

/// Result type with [`SparseTrieError`] as error.
pub type SparseTrieResult<T> = Result<T, SparseTrieError>;

/// Kinds of sparse trie errors.
#[derive(Debug)]
pub enum SparseTrieErrorKind {
    /// The sparse trie is still blind; raised on an update attempt.
    Blind,
    /// An update reached a blind node.
    BlindedNode {
        /// Blind node path.
        path: Nibbles,
        /// Node hash.
        hash: B256,
    },
    /// Encountered an unexpected node at a path when revealing.
    Reveal {
        /// Path to the node.
        path: Nibbles,
        /// The debug rendering of the node that was at the path.
        node: String,
    },
    /// RLP error.
    Rlp(alloy_rlp::Error),
    /// Node not found in the provider during revealing.
    NodeNotFoundInProvider {
        /// Path to the missing node.
        path: Nibbles,
    },
    /// Any other failure, rendered.
    Other(String),
}

/// Trie witness errors.
#[derive(Debug)]
pub enum TrieWitnessError {
    /// Error while gathering proofs.
    Proof(StateProofError),
    /// RLP decoding error.
    Rlp(alloy_rlp::Error),
    /// Sparse state trie error.
    Sparse(SparseStateTrieError),
    /// Missing account, by hashed address.
    MissingAccount(B256),
}

// ---------------------------------------------------------------------------
// What each conversion gives.
// ---------------------------------------------------------------------------

/// The provider error that a state root error becomes: database failures,
/// also those inside a storage root error, stay database failures; a prefix
/// set loading failure is the provider error it carried.
pub open spec fn state_root_error_to_provider(e: StateRootError) -> ProviderError {
    match e {
        StateRootError::Database(err) => ProviderError::Database(err),
        StateRootError::StorageRootError(StorageRootError::Database(err)) => ProviderError::Database(err),
        StateRootError::PrefixSetLoadError(err) => err,
    }
}

/// The database error inside a storage root error.
pub open spec fn storage_root_error_to_database(e: StorageRootError) -> DatabaseError {
    match e {
        StorageRootError::Database(err) => err,
    }
}

/// The provider error that a state proof error becomes.
pub open spec fn state_proof_error_to_provider(e: StateProofError) -> ProviderError {
    match e {
        StateProofError::Database(err) => ProviderError::Database(err),
        StateProofError::Rlp(err) => ProviderError::Rlp(err),
    }
}

// ---------------------------------------------------------------------------
// StateRootError
// ---------------------------------------------------------------------------

impl From<DatabaseError> for StateRootError {
    fn from(err: DatabaseError) -> (res: Self) {
        StateRootError::Database(err)
    }
}

impl FromSpecImpl<DatabaseError> for StateRootError {
    open spec fn obeys_from_spec() -> bool {
        true
    }

    open spec fn from_spec(err: DatabaseError) -> Self {
        StateRootError::Database(err)
    }
}

impl From<StorageRootError> for StateRootError {
    fn from(err: StorageRootError) -> (res: Self) {
        StateRootError::StorageRootError(err)
    }
}

impl FromSpecImpl<StorageRootError> for StateRootError {
    open spec fn obeys_from_spec() -> bool {
        true
    }

    open spec fn from_spec(err: StorageRootError) -> Self {
        StateRootError::StorageRootError(err)
    }
}

impl From<ProviderError> for StateRootError {
    fn from(err: ProviderError) -> (res: Self) {
        StateRootError::PrefixSetLoadError(err)
    }
}

impl FromSpecImpl<ProviderError> for StateRootError {
    open spec fn obeys_from_spec() -> bool {
        true
    }

    open spec fn from_spec(err: ProviderError) -> Self {
        StateRootError::PrefixSetLoadError(err)
    }
}

impl From<StateRootError> for ProviderError {
    fn from(value: StateRootError) -> (res: Self) {
        match value {
            StateRootError::Database(err) => ProviderError::Database(err),
            StateRootError::StorageRootError(StorageRootError::Database(err)) => {
                ProviderError::Database(err)
            },
            StateRootError::PrefixSetLoadError(err) => err,
        }
    }
}

impl FromSpecImpl<StateRootError> for ProviderError {
    open spec fn obeys_from_spec() -> bool {
        true
    }

    open spec fn from_spec(value: StateRootError) -> Self {
        state_root_error_to_provider(value)
    }
}


// ---------------------------------------------------------------------------
// StorageRootError
// ---------------------------------------------------------------------------

impl From<DatabaseError> for StorageRootError {
    fn from(err: DatabaseError) -> (res: Self) {
        StorageRootError::Database(err)
    }
}

impl FromSpecImpl<DatabaseError> for StorageRootError {
    open spec fn obeys_from_spec() -> bool {
        true
    }

    open spec fn from_spec(err: DatabaseError) -> Self {
        StorageRootError::Database(err)
    }
}

impl From<StorageRootError> for DatabaseError {
    fn from(err: StorageRootError) -> (res: Self) {
        match err {
            StorageRootError::Database(err) => err,
        }
    }
}

impl FromSpecImpl<StorageRootError> for DatabaseError {
    open spec fn obeys_from_spec() -> bool {
        true
    }

    open spec fn from_spec(err: StorageRootError) -> Self {
        storage_root_error_to_database(err)
    }
}

// ---------------------------------------------------------------------------
// StateProofError
// ---------------------------------------------------------------------------

impl From<DatabaseError> for StateProofError {
    fn from(err: DatabaseError) -> (res: Self) {
        StateProofError::Database(err)
    }
}

impl FromSpecImpl<DatabaseError> for StateProofError {
    open spec fn obeys_from_spec() -> bool {
        true
    }

    open spec fn from_spec(err: DatabaseError) -> Self {
        StateProofError::Database(err)
    }
}

impl From<alloy_rlp::Error> for StateProofError {
    fn from(err: alloy_rlp::Error) -> (res: Self) {
        StateProofError::Rlp(err)
    }
}

impl FromSpecImpl<alloy_rlp::Error> for StateProofError {
    open spec fn obeys_from_spec() -> bool {
        true
    }

    open spec fn from_spec(err: alloy_rlp::Error) -> Self {
        StateProofError::Rlp(err)
    }
}

impl From<StateProofError> for ProviderError {
    fn from(value: StateProofError) -> (res: Self) {
        match value {
            StateProofError::Database(error) => ProviderError::Database(error),
            StateProofError::Rlp(error) => ProviderError::Rlp(error),
        }
    }
}

impl FromSpecImpl<StateProofError> for ProviderError {
    open spec fn obeys_from_spec() -> bool {
        true
    }

    open spec fn from_spec(value: StateProofError) -> Self {
        state_proof_error_to_provider(value)
    }
}

// ---------------------------------------------------------------------------
// SparseStateTrieError
// ---------------------------------------------------------------------------

impl SparseStateTrieError {
    /// Returns the error kind.
    pub fn kind(&self) -> (kind: &SparseStateTrieErrorKind)
        ensures
            *kind == *self.0,
    {
        &self.0
    }

    /// Consumes the error and returns the error kind.
    pub fn into_kind(self) -> (kind: SparseStateTrieErrorKind)
        ensures
            kind == *self.0,
    {
        *self.0
    }
}

impl From<Box<SparseStateTrieErrorKind>> for SparseStateTrieError {
    fn from(kind: Box<SparseStateTrieErrorKind>) -> (res: Self) {
        SparseStateTrieError(kind)
    }
}

impl FromSpecImpl<Box<SparseStateTrieErrorKind>> for SparseStateTrieError {
    open spec fn obeys_from_spec() -> bool {
        true
    }

    open spec fn from_spec(kind: Box<SparseStateTrieErrorKind>) -> Self {
        SparseStateTrieError(kind)
    }
}

impl From<SparseStateTrieErrorKind> for SparseStateTrieError {
    fn from(kind: SparseStateTrieErrorKind) -> (res: Self) {
        SparseStateTrieError(Box::new(kind))
    }
}

impl FromSpecImpl<SparseStateTrieErrorKind> for SparseStateTrieError {
    open spec fn obeys_from_spec() -> bool {
        true
    }

    open spec fn from_spec(kind: SparseStateTrieErrorKind) -> Self {
        SparseStateTrieError(Box::new(kind))
    }
}

impl From<SparseTrieErrorKind> for SparseStateTrieError {
    fn from(kind: SparseTrieErrorKind) -> (res: Self) {
        SparseStateTrieError(Box::new(SparseStateTrieErrorKind::Sparse(kind)))
    }
}

impl FromSpecImpl<SparseTrieErrorKind> for SparseStateTrieError {
    open spec fn obeys_from_spec() -> bool {
        true
    }

    open spec fn from_spec(kind: SparseTrieErrorKind) -> Self {
        SparseStateTrieError(Box::new(SparseStateTrieErrorKind::Sparse(kind)))
    }
}

impl From<SparseTrieError> for SparseStateTrieError {
    fn from(err: SparseTrieError) -> (res: Self) {
        SparseStateTrieError(Box::new(SparseStateTrieErrorKind::from(err)))
    }
}

impl FromSpecImpl<SparseTrieError> for SparseStateTrieError {
    open spec fn obeys_from_spec() -> bool {
        true
    }

    open spec fn from_spec(err: SparseTrieError) -> Self {
        SparseStateTrieError(Box::new(SparseStateTrieErrorKind::Sparse(*err.0)))
    }
}

impl From<alloy_rlp::Error> for SparseStateTrieError {
    fn from(err: alloy_rlp::Error) -> (res: Self) {
        SparseStateTrieError(Box::new(SparseStateTrieErrorKind::Rlp(err)))
    }
}

impl FromSpecImpl<alloy_rlp::Error> for SparseStateTrieError {
    open spec fn obeys_from_spec() -> bool {
        true
    }

    open spec fn from_spec(err: alloy_rlp::Error) -> Self {
        SparseStateTrieError(Box::new(SparseStateTrieErrorKind::Rlp(err)))
    }
}

impl From<SparseTrieError> for SparseStateTrieErrorKind {
    fn from(value: SparseTrieError) -> (res: Self) {
        SparseStateTrieErrorKind::Sparse(*value.0)
    }
}

impl FromSpecImpl<SparseTrieError> for SparseStateTrieErrorKind {
    open spec fn obeys_from_spec() -> bool {
        true
    }

    open spec fn from_spec(value: SparseTrieError) -> Self {
        SparseStateTrieErrorKind::Sparse(*value.0)
    }
}

impl From<SparseTrieErrorKind> for SparseStateTrieErrorKind {
    fn from(kind: SparseTrieErrorKind) -> (res: Self) {
        SparseStateTrieErrorKind::Sparse(kind)
    }
}

impl FromSpecImpl<SparseTrieErrorKind> for SparseStateTrieErrorKind {
    open spec fn obeys_from_spec() -> bool {
        true
    }

    open spec fn from_spec(kind: SparseTrieErrorKind) -> Self {
        SparseStateTrieErrorKind::Sparse(kind)
    }
}

impl From<alloy_rlp::Error> for SparseStateTrieErrorKind {
    fn from(err: alloy_rlp::Error) -> (res: Self) {
        SparseStateTrieErrorKind::Rlp(err)
    }
}

impl FromSpecImpl<alloy_rlp::Error> for SparseStateTrieErrorKind {
    open spec fn obeys_from_spec() -> bool {
        true
    }

    open spec fn from_spec(err: alloy_rlp::Error) -> Self {
        SparseStateTrieErrorKind::Rlp(err)
    }
}

// ---------------------------------------------------------------------------
// SparseTrieError
// ---------------------------------------------------------------------------

impl SparseTrieError {
    /// Returns the error kind.
    pub fn kind(&self) -> (kind: &SparseTrieErrorKind)
        ensures
            *kind == *self.0,
    {
        &self.0
    }

    /// Consumes the error and returns the error kind.
    pub fn into_kind(self) -> (kind: SparseTrieErrorKind)
        ensures
            kind == *self.0,
    {
        *self.0
    }
}

impl From<Box<SparseTrieErrorKind>> for SparseTrieError {
    fn from(kind: Box<SparseTrieErrorKind>) -> (res: Self) {
        SparseTrieError(kind)
    }
}

impl FromSpecImpl<Box<SparseTrieErrorKind>> for SparseTrieError {
    open spec fn obeys_from_spec() -> bool {
        true
    }

    open spec fn from_spec(kind: Box<SparseTrieErrorKind>) -> Self {
        SparseTrieError(kind)
    }
}

impl From<SparseTrieErrorKind> for SparseTrieError {
    fn from(kind: SparseTrieErrorKind) -> (res: Self) {
        SparseTrieError(Box::new(kind))
    }
}

impl FromSpecImpl<SparseTrieErrorKind> for SparseTrieError {
    open spec fn obeys_from_spec() -> bool {
        true
    }

    open spec fn from_spec(kind: SparseTrieErrorKind) -> Self {
        SparseTrieError(Box::new(kind))
    }
}

impl From<alloy_rlp::Error> for SparseTrieError {
    fn from(err: alloy_rlp::Error) -> (res: Self) {
        SparseTrieError(Box::new(SparseTrieErrorKind::Rlp(err)))
    }
}

impl FromSpecImpl<alloy_rlp::Error> for SparseTrieError {
    open spec fn obeys_from_spec() -> bool {
        true
    }

    open spec fn from_spec(err: alloy_rlp::Error) -> Self {
        SparseTrieError(Box::new(SparseTrieErrorKind::Rlp(err)))
    }
}

impl From<alloy_rlp::Error> for SparseTrieErrorKind {
    fn from(err: alloy_rlp::Error) -> (res: Self) {
        SparseTrieErrorKind::Rlp(err)
    }
}

impl FromSpecImpl<alloy_rlp::Error> for SparseTrieErrorKind {
    open spec fn obeys_from_spec() -> bool {
        true
    }

    open spec fn from_spec(err: alloy_rlp::Error) -> Self {
        SparseTrieErrorKind::Rlp(err)
    }
}

// ---------------------------------------------------------------------------
// TrieWitnessError
// ---------------------------------------------------------------------------

impl From<StateProofError> for TrieWitnessError {
    fn from(err: StateProofError) -> (res: Self) {
        TrieWitnessError::Proof(err)
    }
}

impl FromSpecImpl<StateProofError> for TrieWitnessError {
    open spec fn obeys_from_spec() -> bool {
        true
    }

    open spec fn from_spec(err: StateProofError) -> Self {
        TrieWitnessError::Proof(err)
    }
}

impl From<alloy_rlp::Error> for TrieWitnessError {
    fn from(err: alloy_rlp::Error) -> (res: Self) {
        TrieWitnessError::Rlp(err)
    }
}

impl FromSpecImpl<alloy_rlp::Error> for TrieWitnessError {
    open spec fn obeys_from_spec() -> bool {
        true
    }

    open spec fn from_spec(err: alloy_rlp::Error) -> Self {
        TrieWitnessError::Rlp(err)
    }
}

impl From<SparseStateTrieError> for TrieWitnessError {
    fn from(err: SparseStateTrieError) -> (res: Self) {
        TrieWitnessError::Sparse(err)
    }
}

impl FromSpecImpl<SparseStateTrieError> for TrieWitnessError {
    open spec fn obeys_from_spec() -> bool {
        true
    }

    open spec fn from_spec(err: SparseStateTrieError) -> Self {
        TrieWitnessError::Sparse(err)
    }
}

impl From<SparseStateTrieErrorKind> for TrieWitnessError {
    fn from(error: SparseStateTrieErrorKind) -> (res: Self) {
        TrieWitnessError::Sparse(SparseStateTrieError::from(error))
    }
}

impl FromSpecImpl<SparseStateTrieErrorKind> for TrieWitnessError {
    open spec fn obeys_from_spec() -> bool {
        true
    }

    open spec fn from_spec(error: SparseStateTrieErrorKind) -> Self {
        TrieWitnessError::Sparse(SparseStateTrieError(Box::new(error)))
    }
}


// ---------------------------------------------------------------------------
// Laws
// ---------------------------------------------------------------------------

/// A provider error carried through a state root error (as a prefix set
/// loading failure) comes back unchanged.
pub proof fn lemma_provider_error_through_state_root(p: ProviderError)
    ensures
        <ProviderError as FromSpec<StateRootError>>::from_spec(
            <StateRootError as FromSpec<ProviderError>>::from_spec(p),
        ) == p,
{
}

/// A database error stays the same database error when it reaches a
/// provider error, directly from a state root error or from a storage root
/// error inside one.
pub proof fn lemma_database_error_through_state_root(e: DatabaseError)
    ensures
        <ProviderError as FromSpec<StateRootError>>::from_spec(
            <StateRootError as FromSpec<DatabaseError>>::from_spec(e),
        ) == ProviderError::Database(e),
        <ProviderError as FromSpec<StateRootError>>::from_spec(
            <StateRootError as FromSpec<StorageRootError>>::from_spec(
                <StorageRootError as FromSpec<DatabaseError>>::from_spec(e),
            ),
        ) == ProviderError::Database(e),
{
}

/// Wrapping a database error in a storage root error and unwrapping it are
/// inverse to each other.
pub proof fn lemma_storage_root_error_round_trip(e: DatabaseError, s: StorageRootError)
    ensures
        <DatabaseError as FromSpec<StorageRootError>>::from_spec(
            <StorageRootError as FromSpec<DatabaseError>>::from_spec(e),
        ) == e,
        <StorageRootError as FromSpec<DatabaseError>>::from_spec(
            <DatabaseError as FromSpec<StorageRootError>>::from_spec(s),
        ) == s,
{
}

/// A state proof error becomes the provider error of the same cause.
pub proof fn lemma_state_proof_error_to_provider(e: DatabaseError, r: alloy_rlp::Error)
    ensures
        <ProviderError as FromSpec<StateProofError>>::from_spec(
            <StateProofError as FromSpec<DatabaseError>>::from_spec(e),
        ) == ProviderError::Database(e),
        <ProviderError as FromSpec<StateProofError>>::from_spec(
            <StateProofError as FromSpec<alloy_rlp::Error>>::from_spec(r),
        ) == ProviderError::Rlp(r),
{
}

/// Boxing a kind into a sparse trie error and taking the kind back out
/// gives the same kind; so for a sparse state trie error.
pub proof fn lemma_error_kind_round_trip(k: SparseTrieErrorKind, sk: SparseStateTrieErrorKind)
    ensures
        *<SparseTrieError as FromSpec<SparseTrieErrorKind>>::from_spec(k).0 == k,
        *<SparseStateTrieError as FromSpec<SparseStateTrieErrorKind>>::from_spec(sk).0 == sk,
{
}

/// A sparse trie error keeps its kind when it becomes a sparse state trie
/// error, and a witness error made from a sparse state trie error kind holds
/// that kind.
pub proof fn lemma_sparse_kind_preserved(e: SparseTrieError, sk: SparseStateTrieErrorKind)
    ensures
        *<SparseStateTrieError as FromSpec<SparseTrieError>>::from_spec(e).0
            == SparseStateTrieErrorKind::Sparse(*e.0),
        <TrieWitnessError as FromSpec<SparseStateTrieErrorKind>>::from_spec(sk)
            == TrieWitnessError::Sparse(SparseStateTrieError(Box::new(sk))),
{
}

/// A state root error keeps apart the three failures it can record: a
/// database failure of the state root computation, a storage root failure
/// and a prefix set loading failure never become the same error, and each
/// conversion keeps apart the failures it is given.
pub proof fn lemma_state_root_error_sources_distinct(
    e1: DatabaseError,
    e2: DatabaseError,
    s1: StorageRootError,
    s2: StorageRootError,
    p1: ProviderError,
    p2: ProviderError,
)
    ensures
        <StateRootError as FromSpec<DatabaseError>>::from_spec(e1)
            != <StateRootError as FromSpec<StorageRootError>>::from_spec(s1),
        <StateRootError as FromSpec<DatabaseError>>::from_spec(e1)
            != <StateRootError as FromSpec<ProviderError>>::from_spec(p1),
        <StateRootError as FromSpec<StorageRootError>>::from_spec(s1)
            != <StateRootError as FromSpec<ProviderError>>::from_spec(p1),
        <StateRootError as FromSpec<DatabaseError>>::from_spec(e1)
            == <StateRootError as FromSpec<DatabaseError>>::from_spec(e2) ==> e1 == e2,
        <StateRootError as FromSpec<StorageRootError>>::from_spec(s1)
            == <StateRootError as FromSpec<StorageRootError>>::from_spec(s2) ==> s1 == s2,
        <StateRootError as FromSpec<ProviderError>>::from_spec(p1)
            == <StateRootError as FromSpec<ProviderError>>::from_spec(p2) ==> p1 == p2,
{
}

/// A database failure of the state root computation is not reported as a
/// storage root failure: converting a database error into a state root
/// error gives a different error than wrapping it in a storage root error
/// first, though both reach the provider as the same database error.
pub proof fn lemma_state_root_database_error_is_its_own(e: DatabaseError)
    ensures
        <StateRootError as FromSpec<DatabaseError>>::from_spec(e)
            != <StateRootError as FromSpec<StorageRootError>>::from_spec(
            <StorageRootError as FromSpec<DatabaseError>>::from_spec(e),
        ),
        <ProviderError as FromSpec<StateRootError>>::from_spec(
            <StateRootError as FromSpec<DatabaseError>>::from_spec(e),
        ) == ProviderError::Database(e),
{
}

/// A state proof error keeps apart database and RLP failures, and each
/// conversion keeps apart the failures it is given; the provider error it
/// becomes says which failure it was.
pub proof fn lemma_state_proof_error_sources_distinct(
    e1: DatabaseError,
    e2: DatabaseError,
    r1: alloy_rlp::Error,
    r2: alloy_rlp::Error,
)
    ensures
        <StateProofError as FromSpec<DatabaseError>>::from_spec(e1)
            != <StateProofError as FromSpec<alloy_rlp::Error>>::from_spec(r1),
        <StateProofError as FromSpec<DatabaseError>>::from_spec(e1)
            == <StateProofError as FromSpec<DatabaseError>>::from_spec(e2) ==> e1 == e2,
        <StateProofError as FromSpec<alloy_rlp::Error>>::from_spec(r1)
            == <StateProofError as FromSpec<alloy_rlp::Error>>::from_spec(r2) ==> r1 == r2,
        <ProviderError as FromSpec<StateProofError>>::from_spec(
            <StateProofError as FromSpec<DatabaseError>>::from_spec(e1),
        ) != <ProviderError as FromSpec<StateProofError>>::from_spec(
            <StateProofError as FromSpec<alloy_rlp::Error>>::from_spec(r1),
        ),
{
}

/// A sparse state trie error kind keeps an RLP failure of the state trie
/// apart from every failure of a sparse trie, the RLP failure of a sparse
/// trie included; and the kind made of an RLP error is the kind inside the
/// sparse state trie error made of it.
pub proof fn lemma_sparse_state_rlp_kind_is_its_own(
    r: alloy_rlp::Error,
    r2: alloy_rlp::Error,
    k: SparseTrieErrorKind,
    e: SparseTrieError,
)
    ensures
        <SparseStateTrieErrorKind as FromSpec<alloy_rlp::Error>>::from_spec(r)
            != <SparseStateTrieErrorKind as FromSpec<SparseTrieErrorKind>>::from_spec(k),
        <SparseStateTrieErrorKind as FromSpec<alloy_rlp::Error>>::from_spec(r)
            != <SparseStateTrieErrorKind as FromSpec<SparseTrieError>>::from_spec(e),
        <SparseStateTrieErrorKind as FromSpec<alloy_rlp::Error>>::from_spec(r)
            == <SparseStateTrieErrorKind as FromSpec<alloy_rlp::Error>>::from_spec(r2) ==> r == r2,
        *<SparseStateTrieError as FromSpec<alloy_rlp::Error>>::from_spec(r).0
            == <SparseStateTrieErrorKind as FromSpec<alloy_rlp::Error>>::from_spec(r),
        *<SparseStateTrieError as FromSpec<alloy_rlp::Error>>::from_spec(r).0
            != *<SparseStateTrieError as FromSpec<SparseTrieErrorKind>>::from_spec(
            <SparseTrieErrorKind as FromSpec<alloy_rlp::Error>>::from_spec(r),
        ).0,
{
}

/// Each way of making a sparse state trie error gives the error whose kind
/// is the kind made the same way: from a sparse trie kind, from a sparse
/// trie error, and from an RLP error; and a sparse trie error made from an
/// RLP error has the kind made from it.
pub proof fn lemma_sparse_errors_agree_with_kinds(k: SparseTrieErrorKind, e: SparseTrieError, r: alloy_rlp::Error)
    ensures
        *<SparseStateTrieError as FromSpec<SparseTrieErrorKind>>::from_spec(k).0
            == <SparseStateTrieErrorKind as FromSpec<SparseTrieErrorKind>>::from_spec(k),
        *<SparseStateTrieError as FromSpec<SparseTrieError>>::from_spec(e).0
            == <SparseStateTrieErrorKind as FromSpec<SparseTrieError>>::from_spec(e),
        <SparseStateTrieErrorKind as FromSpec<SparseTrieError>>::from_spec(e)
            == <SparseStateTrieErrorKind as FromSpec<SparseTrieErrorKind>>::from_spec(*e.0),
        *<SparseTrieError as FromSpec<alloy_rlp::Error>>::from_spec(r).0
            == <SparseTrieErrorKind as FromSpec<alloy_rlp::Error>>::from_spec(r),
        *<SparseStateTrieError as FromSpec<SparseStateTrieErrorKind>>::from_spec(
            <SparseStateTrieErrorKind as FromSpec<SparseTrieErrorKind>>::from_spec(k),
        ).0 == *<SparseStateTrieError as FromSpec<SparseTrieErrorKind>>::from_spec(k).0,
{
}

/// A trie witness error keeps apart proof, RLP and sparse state trie
/// failures; and a witness error made from a sparse state trie kind is the
/// one made from the sparse state trie error of that kind.
pub proof fn lemma_trie_witness_error_sources_distinct(
    pe: StateProofError,
    r: alloy_rlp::Error,
    se: SparseStateTrieError,
    sk: SparseStateTrieErrorKind,
)
    ensures
        <TrieWitnessError as FromSpec<StateProofError>>::from_spec(pe)
            != <TrieWitnessError as FromSpec<alloy_rlp::Error>>::from_spec(r),
        <TrieWitnessError as FromSpec<StateProofError>>::from_spec(pe)
            != <TrieWitnessError as FromSpec<SparseStateTrieError>>::from_spec(se),
        <TrieWitnessError as FromSpec<alloy_rlp::Error>>::from_spec(r)
            != <TrieWitnessError as FromSpec<SparseStateTrieError>>::from_spec(se),
        <TrieWitnessError as FromSpec<SparseStateTrieErrorKind>>::from_spec(sk)
            == <TrieWitnessError as FromSpec<SparseStateTrieError>>::from_spec(
            <SparseStateTrieError as FromSpec<SparseStateTrieErrorKind>>::from_spec(sk),
        ),
{
}

/// Converting a database error into a state root error reports it as a
/// database failure of the state root computation itself, carrying that very
/// error, and never as a storage root failure.
pub proof fn lemma_state_root_from_database_error(e: DatabaseError)
    ensures
        <StateRootError as FromSpec<DatabaseError>>::from_spec(e) is Database,
        <StateRootError as FromSpec<DatabaseError>>::from_spec(e)->Database_0 == e,
        !(<StateRootError as FromSpec<DatabaseError>>::from_spec(e) is StorageRootError),
{
}

/// Converting an RLP error into a sparse state trie error kind reports it as
/// an RLP failure of the state trie, carrying that very error, and never as a
/// failure of the sparse account trie; the sparse state trie error made of
/// the RLP error holds the same kind.
pub proof fn lemma_sparse_state_kind_from_rlp_error(r: alloy_rlp::Error)
    ensures
        <SparseStateTrieErrorKind as FromSpec<alloy_rlp::Error>>::from_spec(r) is Rlp,
        <SparseStateTrieErrorKind as FromSpec<alloy_rlp::Error>>::from_spec(r)->Rlp_0 == r,
        !(<SparseStateTrieErrorKind as FromSpec<alloy_rlp::Error>>::from_spec(r) is Sparse),
        *<SparseStateTrieError as FromSpec<alloy_rlp::Error>>::from_spec(r).0 is Rlp,
        (*<SparseStateTrieError as FromSpec<alloy_rlp::Error>>::from_spec(r).0)->Rlp_0 == r,
{
}

} // verus!
