//! One exchange with a prover client, as a conversation between the
//! connection handler and the program that runs it.
//!
//! The handler never touches a socket, a store or the chain. It answers each
//! [`Event`] with the [`Action`] to perform next, and the outcome of that
//! action comes back as the next event. Between two events the handler rests
//! in a [`Stage`].

use crate::errors::{ProofCoordinatorError, ProofCoordinatorErrorView, RollupStoreError};
use crate::messages::{
    block_views, BatchProof, BatchProofView, Block, BlockView, ProofData, ProofDataView,
};
use crate::prover_type::ProverType;
use vstd::prelude::*;

verus! {

/// The requests that a client may make.
#[derive(Debug, Clone, Copy, PartialEq, Eq, Structural)]
pub enum RequestKind {
    BatchRequest,
    ProofSubmit,
    ProverSetup,
}

/// The commitments and the proofs that were derived from the blobs of a batch.
#[derive(Debug, Clone, PartialEq, Eq)]
pub struct BlobsBundle {
    pub commitments: Vec<[u8; 48]>,
    pub proofs: Vec<[u8; 48]>,
}

pub struct BlobsBundleView {
    pub commitments: Seq<Seq<u8>>,
    pub proofs: Seq<Seq<u8>>,
}

/// The views of a sequence of blob artifacts.
pub open spec fn artifact_views(artifacts: Seq<[u8; 48]>) -> Seq<Seq<u8>> {
    artifacts.map_values(|a: [u8; 48]| a@)
}

/// The views of a sequence of byte strings.
pub open spec fn bytes_views(items: Seq<Vec<u8>>) -> Seq<Seq<u8>> {
    items.map_values(|b: Vec<u8>| b@)
}

impl View for BlobsBundle {
    type V = BlobsBundleView;

    open spec fn view(&self) -> BlobsBundleView {
        BlobsBundleView {
            commitments: artifact_views(self.commitments@),
            proofs: artifact_views(self.proofs@),
        }
    }
}

/// Why a reply did not reach the client.
#[derive(Debug, Clone, PartialEq, Eq)]
pub enum SendError {
    /// The reply could not be encoded.
    Encoding(String),
    /// The socket could not be written.
    Connection(String),
}

pub enum SendErrorView {
    Encoding(Seq<char>),
    Connection(Seq<char>),
}

impl View for SendError {
    type V = SendErrorView;

    open spec fn view(&self) -> SendErrorView {
        match self {
            SendError::Encoding(e) => SendErrorView::Encoding(e@),
            SendError::Connection(e) => SendErrorView::Connection(e@),
        }
    }
}

/// What happened outside the handler. Each event but the first two is the
/// outcome of the action that the handler asked for last; a failure comes with
/// its description.
#[derive(Debug, PartialEq, Eq)]
pub enum Event {
    /// The client's bytes were read to the end; they decoded to a message, or
    /// did not.
    Received(Result<ProofData, String>),
    /// The client's bytes could not be read.
    ReadFailed(String),
    /// The latest batch that the proposer contract has verified for the
    /// proving system that was asked about.
    LatestVerified(Result<u64, String>),
    /// Whether the rollup store contains the batch.
    BatchChecked(Result<bool, RollupStoreError>),
    /// The numbers of the blocks of the batch, if the rollup store knows it.
    BlockNumbers(Result<Option<Vec<u64>>, RollupStoreError>),
    /// The header of the block, if the blockchain store has it.
    Header(Result<Option<Vec<u8>>, String>),
    /// The body of the block, if the blockchain store has it.
    Body(Result<Option<Vec<u8>>, String>),
    /// The execution witness for the blocks.
    Witness(Result<Vec<u8>, String>),
    /// The blobs that were cached for the batch, if any were.
    Blobs(Result<Option<Vec<Vec<u8>>>, RollupStoreError>),
    /// The commitments and proofs derived from the blobs.
    Bundle(Result<BlobsBundle, String>),
    /// Whether the proof store holds a proof under the key.
    ProofChecked(Result<bool, String>),
    ProofWritten(Result<(), String>),
    QuotePrepared(Result<(), String>),
    KeyRegistered(Result<(), ProofCoordinatorError>),
    Sent(Result<(), SendError>),
}

pub enum EventView {
    Received(Result<ProofDataView, Seq<char>>),
    ReadFailed(Seq<char>),
    LatestVerified(Result<u64, Seq<char>>),
    BatchChecked(Result<bool, RollupStoreError>),
    BlockNumbers(Result<Option<Seq<u64>>, RollupStoreError>),
    Header(Result<Option<Seq<u8>>, Seq<char>>),
    Body(Result<Option<Seq<u8>>, Seq<char>>),
    Witness(Result<Seq<u8>, Seq<char>>),
    Blobs(Result<Option<Seq<Seq<u8>>>, RollupStoreError>),
    Bundle(Result<BlobsBundleView, Seq<char>>),
    ProofChecked(Result<bool, Seq<char>>),
    ProofWritten(Result<(), Seq<char>>),
    QuotePrepared(Result<(), Seq<char>>),
    KeyRegistered(Result<(), ProofCoordinatorErrorView>),
    Sent(Result<(), SendErrorView>),
}

impl View for Event {
    type V = EventView;

    open spec fn view(&self) -> EventView {
        match self {
            Event::Received(Ok(m)) => EventView::Received(Ok(m@)),
            Event::Received(Err(e)) => EventView::Received(Err(e@)),
            Event::ReadFailed(e) => EventView::ReadFailed(e@),
            Event::LatestVerified(Ok(n)) => EventView::LatestVerified(Ok(*n)),
            Event::LatestVerified(Err(e)) => EventView::LatestVerified(Err(e@)),
            Event::BatchChecked(r) => EventView::BatchChecked(*r),
            Event::BlockNumbers(Ok(Some(ns))) => EventView::BlockNumbers(Ok(Some(ns@))),
            Event::BlockNumbers(Ok(None)) => EventView::BlockNumbers(Ok(None)),
            Event::BlockNumbers(Err(e)) => EventView::BlockNumbers(Err(*e)),
            Event::Header(Ok(Some(h))) => EventView::Header(Ok(Some(h@))),
            Event::Header(Ok(None)) => EventView::Header(Ok(None)),
            Event::Header(Err(e)) => EventView::Header(Err(e@)),
            Event::Body(Ok(Some(b))) => EventView::Body(Ok(Some(b@))),
            Event::Body(Ok(None)) => EventView::Body(Ok(None)),
            Event::Body(Err(e)) => EventView::Body(Err(e@)),
            Event::Witness(Ok(w)) => EventView::Witness(Ok(w@)),
            Event::Witness(Err(e)) => EventView::Witness(Err(e@)),
            Event::Blobs(Ok(Some(bs))) => EventView::Blobs(Ok(Some(bytes_views(bs@)))),
            Event::Blobs(Ok(None)) => EventView::Blobs(Ok(None)),
            Event::Blobs(Err(e)) => EventView::Blobs(Err(*e)),
            Event::Bundle(Ok(b)) => EventView::Bundle(Ok(b@)),
            Event::Bundle(Err(e)) => EventView::Bundle(Err(e@)),
            Event::ProofChecked(Ok(known)) => EventView::ProofChecked(Ok(*known)),
            Event::ProofChecked(Err(e)) => EventView::ProofChecked(Err(e@)),
            Event::ProofWritten(Ok(_)) => EventView::ProofWritten(Ok(())),
            Event::ProofWritten(Err(e)) => EventView::ProofWritten(Err(e@)),
            Event::QuotePrepared(Ok(_)) => EventView::QuotePrepared(Ok(())),
            Event::QuotePrepared(Err(e)) => EventView::QuotePrepared(Err(e@)),
            Event::KeyRegistered(Ok(_)) => EventView::KeyRegistered(Ok(())),
            Event::KeyRegistered(Err(e)) => EventView::KeyRegistered(Err(e@)),
            Event::Sent(Ok(_)) => EventView::Sent(Ok(())),
            Event::Sent(Err(e)) => EventView::Sent(Err(e@)),
        }
    }
}

/// How an exchange ended.
#[derive(Debug, Clone, PartialEq, Eq)]
pub enum Conclusion {
    /// The request was handled and the reply was written.
    Served { request: RequestKind },
    /// Handling the request failed. The client got no reply.
    HandlerFailed { request: RequestKind, error: ProofCoordinatorError },
    /// The client's bytes are no message. The client got no reply.
    ParseFailure { reason: String },
    /// The message is none that a client may send. The client got no reply.
    InvalidRequest,
    /// The connection failed before there was a request.
    ConnectionFailed { error: ProofCoordinatorError },
    /// The event is none that the handler was waiting for.
    OutOfTurn,
}

pub enum ConclusionView {
    Served { request: RequestKind },
    HandlerFailed { request: RequestKind, error: ProofCoordinatorErrorView },
    ParseFailure { reason: Seq<char> },
    InvalidRequest,
    ConnectionFailed { error: ProofCoordinatorErrorView },
    OutOfTurn,
}

impl View for Conclusion {
    type V = ConclusionView;

    open spec fn view(&self) -> ConclusionView {
        match self {
            Conclusion::Served { request } => ConclusionView::Served { request: *request },
            Conclusion::HandlerFailed { request, error } => ConclusionView::HandlerFailed {
                request: *request,
                error: error@,
            },
            Conclusion::ParseFailure { reason } => ConclusionView::ParseFailure { reason: reason@ },
            Conclusion::InvalidRequest => ConclusionView::InvalidRequest,
            Conclusion::ConnectionFailed { error } => ConclusionView::ConnectionFailed {
                error: error@,
            },
            Conclusion::OutOfTurn => ConclusionView::OutOfTurn,
        }
    }
}

/// What the handler asks for next.
#[derive(Debug, Clone, PartialEq, Eq)]
pub enum Action {
    /// Ask the proposer contract for the latest batch that it has verified for
    /// this proving system.
    QueryLatestVerified { prover_type: ProverType },
    /// Ask the rollup store whether it contains the batch.
    CheckBatch { batch_number: u64 },
    /// Ask the rollup store for the numbers of the blocks of the batch.
    FetchBlockNumbers { batch_number: u64 },
    /// Ask the blockchain store for the header of the block.
    FetchHeader { block_number: u64 },
    /// Ask the blockchain store for the body of the block.
    FetchBody { block_number: u64 },
    /// Generate the execution witness for these blocks.
    GenerateWitness { blocks: Vec<Block> },
    /// Ask the rollup store for the blobs that were cached for the batch.
    FetchBlobs { batch_number: u64 },
    /// Derive commitments and proofs from the blobs.
    CreateBundle { blobs: Vec<Vec<u8>> },
    /// Ask the proof store whether it holds a proof under this key.
    CheckProof { prover_type: ProverType, batch_number: u64 },
    /// Write the proof to the proof store.
    WriteProof { batch_number: u64, batch_proof: BatchProof },
    /// Run the transactions that have to precede the registration of an
    /// attestation key. The key and the payload are hexadecimal dumps.
    PrepareQuote { rpc_url: String, private_key: String, payload: String },
    /// Register the attestation key with the proposer contract.
    RegisterKey { private_key: [u8; 32], on_chain_proposer_address: [u8; 20], payload: Vec<u8> },
    /// Encode the message, write it to the client, and close the write side.
    Send { message: ProofData },
    /// Drop the connection: the exchange is over.
    Close { conclusion: Conclusion },
}

pub enum ActionView {
    QueryLatestVerified { prover_type: ProverType },
    CheckBatch { batch_number: u64 },
    FetchBlockNumbers { batch_number: u64 },
    FetchHeader { block_number: u64 },
    FetchBody { block_number: u64 },
    GenerateWitness { blocks: Seq<BlockView> },
    FetchBlobs { batch_number: u64 },
    CreateBundle { blobs: Seq<Seq<u8>> },
    CheckProof { prover_type: ProverType, batch_number: u64 },
    WriteProof { batch_number: u64, batch_proof: BatchProofView },
    PrepareQuote { rpc_url: Seq<char>, private_key: Seq<char>, payload: Seq<char> },
    RegisterKey { private_key: Seq<u8>, on_chain_proposer_address: Seq<u8>, payload: Seq<u8> },
    Send { message: ProofDataView },
    Close { conclusion: ConclusionView },
}

impl View for Action {
    type V = ActionView;

    open spec fn view(&self) -> ActionView {
        match self {
            Action::QueryLatestVerified { prover_type } => ActionView::QueryLatestVerified {
                prover_type: *prover_type,
            },
            Action::CheckBatch { batch_number } => ActionView::CheckBatch {
                batch_number: *batch_number,
            },
            Action::FetchBlockNumbers { batch_number } => ActionView::FetchBlockNumbers {
                batch_number: *batch_number,
            },
            Action::FetchHeader { block_number } => ActionView::FetchHeader {
                block_number: *block_number,
            },
            Action::FetchBody { block_number } => ActionView::FetchBody {
                block_number: *block_number,
            },
            Action::GenerateWitness { blocks } => ActionView::GenerateWitness {
                blocks: block_views(blocks@),
            },
            Action::FetchBlobs { batch_number } => ActionView::FetchBlobs {
                batch_number: *batch_number,
            },
            Action::CreateBundle { blobs } => ActionView::CreateBundle {
                blobs: bytes_views(blobs@),
            },
            Action::CheckProof { prover_type, batch_number } => ActionView::CheckProof {
                prover_type: *prover_type,
                batch_number: *batch_number,
            },
            Action::WriteProof { batch_number, batch_proof } => ActionView::WriteProof {
                batch_number: *batch_number,
                batch_proof: batch_proof@,
            },
            Action::PrepareQuote { rpc_url, private_key, payload } => ActionView::PrepareQuote {
                rpc_url: rpc_url@,
                private_key: private_key@,
                payload: payload@,
            },
            Action::RegisterKey { private_key, on_chain_proposer_address, payload } =>
                ActionView::RegisterKey {
                    private_key: private_key@,
                    on_chain_proposer_address: on_chain_proposer_address@,
                    payload: payload@,
                },
            Action::Send { message } => ActionView::Send { message: message@ },
            Action::Close { conclusion } => ActionView::Close { conclusion: conclusion@ },
        }
    }
}

/// The blocks of a batch, as far as they have been fetched.
#[derive(Debug, Clone, PartialEq, Eq)]
pub struct Assembly {
    pub batch_number: u64,
    /// The numbers of the blocks of the batch, as the rollup store lists them.
    pub block_numbers: Vec<u64>,
    /// The blocks fetched so far: one for each of the first numbers.
    pub blocks: Vec<Block>,
}

pub struct AssemblyView {
    pub batch_number: u64,
    pub block_numbers: Seq<u64>,
    pub blocks: Seq<BlockView>,
}

impl View for Assembly {
    type V = AssemblyView;

    open spec fn view(&self) -> AssemblyView {
        AssemblyView {
            batch_number: self.batch_number,
            block_numbers: self.block_numbers@,
            blocks: block_views(self.blocks@),
        }
    }
}

/// Where an exchange stands: what the handler is waiting for.
#[derive(Debug, Clone, PartialEq, Eq)]
pub enum Stage {
    /// Waiting for the client's request.
    AwaitingRequest,
    /// Waiting for the latest verified batch of the needed proving system that
    /// follows those that have answered.
    QueryingVerified { latest: Vec<u64> },
    /// Waiting to learn whether the rollup store contains the batch.
    CheckingBatch { batch_number: u64 },
    /// Waiting for the numbers of the blocks of the batch.
    FetchingBlockNumbers { batch_number: u64 },
    /// Waiting for the header of the next block.
    FetchingHeader { assembly: Assembly },
    /// Waiting for the body of the block whose header has come.
    FetchingBody { assembly: Assembly, header: Vec<u8> },
    /// Waiting for the execution witness.
    GeneratingWitness { assembly: Assembly },
    /// Waiting for the blobs of the batch.
    FetchingBlobs { assembly: Assembly, witness: Vec<u8> },
    /// Waiting for the commitments and proofs of the blobs.
    CreatingBundle { assembly: Assembly, witness: Vec<u8> },
    /// Waiting to learn whether the proof is known.
    CheckingProof { batch_number: u64, batch_proof: BatchProof },
    /// Waiting for the proof to be written.
    WritingProof { batch_number: u64 },
    /// Waiting for the transactions that precede the registration.
    PreparingQuote { payload: Vec<u8> },
    /// Waiting for the registration of the attestation key.
    RegisteringKey,
    /// Waiting for the reply to be written.
    Replying { request: RequestKind },
    /// The exchange is over.
    Closed,
}

pub enum StageView {
    AwaitingRequest,
    QueryingVerified { latest: Seq<u64> },
    CheckingBatch { batch_number: u64 },
    FetchingBlockNumbers { batch_number: u64 },
    FetchingHeader { assembly: AssemblyView },
    FetchingBody { assembly: AssemblyView, header: Seq<u8> },
    GeneratingWitness { assembly: AssemblyView },
    FetchingBlobs { assembly: AssemblyView, witness: Seq<u8> },
    CreatingBundle { assembly: AssemblyView, witness: Seq<u8> },
    CheckingProof { batch_number: u64, batch_proof: BatchProofView },
    WritingProof { batch_number: u64 },
    PreparingQuote { payload: Seq<u8> },
    RegisteringKey,
    Replying { request: RequestKind },
    Closed,
}

impl View for Stage {
    type V = StageView;

    open spec fn view(&self) -> StageView {
        match self {
            Stage::AwaitingRequest => StageView::AwaitingRequest,
            Stage::QueryingVerified { latest } => StageView::QueryingVerified { latest: latest@ },
            Stage::CheckingBatch { batch_number } => StageView::CheckingBatch {
                batch_number: *batch_number,
            },
            Stage::FetchingBlockNumbers { batch_number } => StageView::FetchingBlockNumbers {
                batch_number: *batch_number,
            },
            Stage::FetchingHeader { assembly } => StageView::FetchingHeader {
                assembly: assembly@,
            },
            Stage::FetchingBody { assembly, header } => StageView::FetchingBody {
                assembly: assembly@,
                header: header@,
            },
            Stage::GeneratingWitness { assembly } => StageView::GeneratingWitness {
                assembly: assembly@,
            },
            Stage::FetchingBlobs { assembly, witness } => StageView::FetchingBlobs {
                assembly: assembly@,
                witness: witness@,
            },
            Stage::CreatingBundle { assembly, witness } => StageView::CreatingBundle {
                assembly: assembly@,
                witness: witness@,
            },
            Stage::CheckingProof { batch_number, batch_proof } => StageView::CheckingProof {
                batch_number: *batch_number,
                batch_proof: batch_proof@,
            },
            Stage::WritingProof { batch_number } => StageView::WritingProof {
                batch_number: *batch_number,
            },
            Stage::PreparingQuote { payload } => StageView::PreparingQuote { payload: payload@ },
            Stage::RegisteringKey => StageView::RegisteringKey,
            Stage::Replying { request } => StageView::Replying { request: *request },
            Stage::Closed => StageView::Closed,
        }
    }
}

} // verus!
