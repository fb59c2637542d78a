//! What can go wrong while a connection is served.

use crate::text::{decimal, decimal_digits, join};
use vstd::prelude::*;

verus! {

/// A failure reported by the rollup store. Failures of the storage engines that
/// can back the store are carried by their description.
#[derive(Debug, Clone, PartialEq, Eq)]
pub enum RollupStoreError {
    DecodeError,
    LibmdbxError(String),
    RedbStorageError(String),
    RedbTableError(String),
    RedbCommitError(String),
    RedbTransactionError(String),
    RedbDatabaseError(String),
    RedbCastError,
    SQLQueryError(String),
    SQLInvalidTypeError,
    Custom(String),
    RLPDecode(String),
    Trie(String),
    MissingStore,
    ReadError,
    CursorError(String),
    MissingLatestBlockNumber,
    MissingEarliestBlockNumber,
    MempoolWriteLock(String),
    MempoolReadLock(String),
    BincodeError(String),
}

impl RollupStoreError {
    /// The text that describes this failure.
    pub open spec fn spec_message(&self) -> Seq<char> {
        match self {
            RollupStoreError::DecodeError => "DecodeError"@,
            RollupStoreError::LibmdbxError(e) => "Libmdbx error: "@ + e@,
            RollupStoreError::RedbStorageError(e) => "Redb Storage error: "@ + e@,
            RollupStoreError::RedbTableError(e) => "Redb Table error: "@ + e@,
            RollupStoreError::RedbCommitError(e) => "Redb Commit error: "@ + e@,
            RollupStoreError::RedbTransactionError(e) => "Redb Transaction error: "@ + e@,
            RollupStoreError::RedbDatabaseError(e) => "Redb Database error: "@ + e@,
            RollupStoreError::RedbCastError => "Redb Cast error"@,
            RollupStoreError::SQLQueryError(e) => "Limbo Query error: "@ + e@,
            RollupStoreError::SQLInvalidTypeError =>
                "SQL Query error: unexpected type found while querying DB"@,
            RollupStoreError::Custom(e) => e@,
            RollupStoreError::RLPDecode(e) => e@,
            RollupStoreError::Trie(e) => e@,
            RollupStoreError::MissingStore =>
                "missing store: is an execution DB being used instead?"@,
            RollupStoreError::ReadError => "Could not open DB for reading"@,
            RollupStoreError::CursorError(table) =>
                "Could not instantiate cursor for table "@ + table@,
            RollupStoreError::MissingLatestBlockNumber => "Missing latest block number"@,
            RollupStoreError::MissingEarliestBlockNumber => "Missing earliest block number"@,
            RollupStoreError::MempoolWriteLock(_) => "Failed to lock mempool for writing"@,
            RollupStoreError::MempoolReadLock(_) => "Failed to lock mempool for reading"@,
            RollupStoreError::BincodeError(e) => "Bincode (de)serialization error: "@ + e@,
        }
    }

    /// Describes this failure in words.
    pub fn message(&self) -> (text: String)
        ensures
            text@ == self.spec_message(),
    {
        match self {
            RollupStoreError::DecodeError => String::from_str("DecodeError"),
            RollupStoreError::LibmdbxError(e) => join("Libmdbx error: ", e.as_str()),
            RollupStoreError::RedbStorageError(e) => join("Redb Storage error: ", e.as_str()),
            RollupStoreError::RedbTableError(e) => join("Redb Table error: ", e.as_str()),
            RollupStoreError::RedbCommitError(e) => join("Redb Commit error: ", e.as_str()),
            RollupStoreError::RedbTransactionError(e) => join(
                "Redb Transaction error: ",
                e.as_str(),
            ),
            RollupStoreError::RedbDatabaseError(e) => join("Redb Database error: ", e.as_str()),
            RollupStoreError::RedbCastError => String::from_str("Redb Cast error"),
            RollupStoreError::SQLQueryError(e) => join("Limbo Query error: ", e.as_str()),
            RollupStoreError::SQLInvalidTypeError => String::from_str(
                "SQL Query error: unexpected type found while querying DB",
            ),
            RollupStoreError::Custom(e) => String::from_str(e.as_str()),
            RollupStoreError::RLPDecode(e) => String::from_str(e.as_str()),
            RollupStoreError::Trie(e) => String::from_str(e.as_str()),
            RollupStoreError::MissingStore => String::from_str(
                "missing store: is an execution DB being used instead?",
            ),
            RollupStoreError::ReadError => String::from_str("Could not open DB for reading"),
            RollupStoreError::CursorError(table) => join(
                "Could not instantiate cursor for table ",
                table.as_str(),
            ),
            RollupStoreError::MissingLatestBlockNumber => String::from_str(
                "Missing latest block number",
            ),
            RollupStoreError::MissingEarliestBlockNumber => String::from_str(
                "Missing earliest block number",
            ),
            RollupStoreError::MempoolWriteLock(_) => String::from_str(
                "Failed to lock mempool for writing",
            ),
            RollupStoreError::MempoolReadLock(_) => String::from_str(
                "Failed to lock mempool for reading",
            ),
            RollupStoreError::BincodeError(e) => join(
                "Bincode (de)serialization error: ",
                e.as_str(),
            ),
        }
    }
}

/// Why the coordinator gave up on a connection.
#[derive(Debug, Clone, PartialEq, Eq)]
pub enum ProofCoordinatorError {
    /// The socket could not be read or written.
    ConnectionError(String),
    /// The L1 client reported a failure.
    EthClientError(String),
    /// The blockchain store reported a failure.
    FailedAccessingStore(String),
    /// The rollup store reported a failure.
    FailedAccessingRollupStore(RollupStoreError),
    /// A block of the batch has no header or no body in the blockchain store.
    StorageDataIsNone,
    /// The execution witness could not be generated.
    FailedToCreateExecutionWitness(String),
    Custom(String),
    /// The rollup store does not know the item that was asked for.
    ItemNotFoundInStore(String),
    InternalError(String),
    /// A reply could not be encoded.
    JsonError(String),
    /// The proof store reported a failure.
    StateError(String),
    /// Commitments and proofs could not be derived from the blobs.
    BlobsBundleError(String),
    /// The batch has no cached blob, or the blob yields no commitment or no proof.
    MissingBlob(u64),
}

/// A `ProofCoordinatorError` whose texts are sequences of characters.
pub enum ProofCoordinatorErrorView {
    ConnectionError(Seq<char>),
    EthClientError(Seq<char>),
    FailedAccessingStore(Seq<char>),
    FailedAccessingRollupStore(RollupStoreError),
    StorageDataIsNone,
    FailedToCreateExecutionWitness(Seq<char>),
    Custom(Seq<char>),
    ItemNotFoundInStore(Seq<char>),
    InternalError(Seq<char>),
    JsonError(Seq<char>),
    StateError(Seq<char>),
    BlobsBundleError(Seq<char>),
    MissingBlob(u64),
}

impl View for ProofCoordinatorError {
    type V = ProofCoordinatorErrorView;

    open spec fn view(&self) -> ProofCoordinatorErrorView {
        match self {
            ProofCoordinatorError::ConnectionError(e) => ProofCoordinatorErrorView::ConnectionError(
                e@,
            ),
            ProofCoordinatorError::EthClientError(e) => ProofCoordinatorErrorView::EthClientError(
                e@,
            ),
            ProofCoordinatorError::FailedAccessingStore(e) =>
                ProofCoordinatorErrorView::FailedAccessingStore(e@),
            ProofCoordinatorError::FailedAccessingRollupStore(e) =>
                ProofCoordinatorErrorView::FailedAccessingRollupStore(*e),
            ProofCoordinatorError::StorageDataIsNone => ProofCoordinatorErrorView::StorageDataIsNone,
            ProofCoordinatorError::FailedToCreateExecutionWitness(e) =>
                ProofCoordinatorErrorView::FailedToCreateExecutionWitness(e@),
            ProofCoordinatorError::Custom(e) => ProofCoordinatorErrorView::Custom(e@),
            ProofCoordinatorError::ItemNotFoundInStore(e) =>
                ProofCoordinatorErrorView::ItemNotFoundInStore(e@),
            ProofCoordinatorError::InternalError(e) => ProofCoordinatorErrorView::InternalError(e@),
            ProofCoordinatorError::JsonError(e) => ProofCoordinatorErrorView::JsonError(e@),
            ProofCoordinatorError::StateError(e) => ProofCoordinatorErrorView::StateError(e@),
            ProofCoordinatorError::BlobsBundleError(e) =>
                ProofCoordinatorErrorView::BlobsBundleError(e@),
            ProofCoordinatorError::MissingBlob(n) => ProofCoordinatorErrorView::MissingBlob(*n),
        }
    }
}

impl ProofCoordinatorErrorView {
    /// The text that describes this failure.
    pub open spec fn message(self) -> Seq<char> {
        match self {
            ProofCoordinatorErrorView::ConnectionError(e) =>
                "ProofCoordinator connection failed: "@ + e,
            ProofCoordinatorErrorView::EthClientError(e) =>
                "ProofCoordinator failed because of an EthClient error: "@ + e,
            ProofCoordinatorErrorView::FailedAccessingStore(e) =>
                "ProofCoordinator failed to access Store: "@ + e,
            ProofCoordinatorErrorView::FailedAccessingRollupStore(e) =>
                "ProofCoordinator failed to access RollupStore: "@ + e.spec_message(),
            ProofCoordinatorErrorView::StorageDataIsNone =>
                "ProofCoordinator failed to retrieve block from storage, data is None."@,
            ProofCoordinatorErrorView::FailedToCreateExecutionWitness(e) =>
                "ProofCoordinator failed to create ExecutionWitness: "@ + e,
            ProofCoordinatorErrorView::Custom(e) => "ProofCoordinator failed: "@ + e,
            ProofCoordinatorErrorView::ItemNotFoundInStore(e) =>
                "ProofCoordinator failed to get data from Store: "@ + e,
            ProofCoordinatorErrorView::InternalError(e) => "Unexpected Error: "@ + e,
            ProofCoordinatorErrorView::JsonError(e) =>
                "ProofCoordinator failed when (de)serializing JSON: "@ + e,
            ProofCoordinatorErrorView::StateError(e) =>
                "ProofCoordinator encountered a StateError: "@ + e,
            ProofCoordinatorErrorView::BlobsBundleError(e) =>
                "ProofCoordinator encountered a BlobsBundleError: "@ + e,
            ProofCoordinatorErrorView::MissingBlob(n) => "Missing blob for batch "@
                + decimal_digits(n as nat),
        }
    }
}

impl ProofCoordinatorError {
    /// Describes this failure in words.
    pub fn message(&self) -> (text: String)
        ensures
            text@ == self@.message(),
    {
        match self {
            ProofCoordinatorError::ConnectionError(e) => join(
                "ProofCoordinator connection failed: ",
                e.as_str(),
            ),
            ProofCoordinatorError::EthClientError(e) => join(
                "ProofCoordinator failed because of an EthClient error: ",
                e.as_str(),
            ),
            ProofCoordinatorError::FailedAccessingStore(e) => join(
                "ProofCoordinator failed to access Store: ",
                e.as_str(),
            ),
            ProofCoordinatorError::FailedAccessingRollupStore(e) => {
                let inner = e.message();
                join("ProofCoordinator failed to access RollupStore: ", inner.as_str())
            },
            ProofCoordinatorError::StorageDataIsNone => String::from_str(
                "ProofCoordinator failed to retrieve block from storage, data is None.",
            ),
            ProofCoordinatorError::FailedToCreateExecutionWitness(e) => join(
                "ProofCoordinator failed to create ExecutionWitness: ",
                e.as_str(),
            ),
            ProofCoordinatorError::Custom(e) => join("ProofCoordinator failed: ", e.as_str()),
            ProofCoordinatorError::ItemNotFoundInStore(e) => join(
                "ProofCoordinator failed to get data from Store: ",
                e.as_str(),
            ),
            ProofCoordinatorError::InternalError(e) => join("Unexpected Error: ", e.as_str()),
            ProofCoordinatorError::JsonError(e) => join(
                "ProofCoordinator failed when (de)serializing JSON: ",
                e.as_str(),
            ),
            ProofCoordinatorError::StateError(e) => join(
                "ProofCoordinator encountered a StateError: ",
                e.as_str(),
            ),
            ProofCoordinatorError::BlobsBundleError(e) => join(
                "ProofCoordinator encountered a BlobsBundleError: ",
                e.as_str(),
            ),
            ProofCoordinatorError::MissingBlob(n) => {
                let number = decimal(*n);
                join("Missing blob for batch ", number.as_str())
            },
        }
    }
}

} // verus!
