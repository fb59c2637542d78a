//! The connection handler: serves one exchange with a prover client, one
//! event at a time.

use crate::config::ProofCoordinatorState;
use crate::errors::ProofCoordinatorError;
use crate::exchange::{Action, Assembly, Conclusion, Event, RequestKind, SendError, Stage};
use crate::messages::{block_views, zero_artifact, Block, ProofData, ProverInputData};
use crate::model::{
    batch_not_found, batch_without_blocks, closing as spec_closing, failing as spec_failing,
    replying as spec_replying, spec_begin_request, spec_begin_setup, spec_conclude,
    spec_create_prover_input, spec_dispatch, spec_fetch_blocks, spec_handle_connection,
    spec_handle_request, spec_handle_setup, spec_handle_submit,
};
use crate::prover_type::ProverType;
use crate::settlement::next_batch_to_verify;
use crate::text::{decimal, hex_encode, join};
use vstd::prelude::*;

verus! {

/// The reply of a connection handler that is called rather than cast to.
#[derive(Debug, Clone, Copy, PartialEq, Eq, Structural)]
pub enum ConnOutMessage {
    Done,
}

fn closing(conclusion: Conclusion) -> (next: (Stage, Action))
    ensures
        (next.0@, next.1@) == spec_closing(conclusion@),
{
    (Stage::Closed, Action::Close { conclusion })
}

fn failing(request: RequestKind, error: ProofCoordinatorError) -> (next: (Stage, Action))
    ensures
        (next.0@, next.1@) == spec_failing(request, error@),
{
    closing(Conclusion::HandlerFailed { request, error })
}

fn replying(request: RequestKind, message: ProofData) -> (next: (Stage, Action))
    ensures
        (next.0@, next.1@) == spec_replying(request, message@),
{
    (Stage::Replying { request }, Action::Send { message })
}

fn clone_blocks(blocks: &Vec<Block>) -> (copies: Vec<Block>)
    ensures
        block_views(copies@) == block_views(blocks@),
{
    let mut copies: Vec<Block> = Vec::new();
    let mut i: usize = 0;
    while i < blocks.len()
        invariant
            i <= blocks.len(),
            copies@.len() == i,
            forall|j: int| 0 <= j < i ==> copies@[j]@ == blocks@[j]@,
        decreases blocks.len() - i,
    {
        copies.push(blocks[i].clone());
        i = i + 1;
    }
    copies
}

fn text_batch_not_found(batch_number: u64) -> (text: String)
    ensures
        text@ == batch_not_found(batch_number),
{
    let number = decimal(batch_number);
    let mut text = join("Batch number ", number.as_str());
    text.append(" not found in store");
    text
}

fn text_batch_without_blocks(batch_number: u64) -> (text: String)
    ensures
        text@ == batch_without_blocks(batch_number),
{
    let number = decimal(batch_number);
    let mut text = join("Batch number ", number.as_str());
    text.append(" has no blocks in store");
    text
}

fn begin_request(state: &ProofCoordinatorState) -> (next: (Stage, Action))
    ensures
        (next.0@, next.1@) == spec_begin_request(state@),
{
    if state.needed_proof_types.len() == 0 {
        failing(
            RequestKind::BatchRequest,
            ProofCoordinatorError::InternalError(String::from_str("no proof type is needed")),
        )
    } else {
        (
            Stage::QueryingVerified { latest: Vec::new() },
            Action::QueryLatestVerified { prover_type: state.needed_proof_types[0] },
        )
    }
}

fn begin_setup(state: &ProofCoordinatorState, prover_type: ProverType, payload: Vec<u8>) -> (next:
    (Stage, Action))
    ensures
        (next.0@, next.1@) == spec_begin_setup(state@, prover_type, payload@),
{
    match prover_type {
        ProverType::TDX => {
            let action = Action::PrepareQuote {
                rpc_url: state.rpc_url.clone(),
                private_key: hex_encode(state.l1_private_key.as_slice()),
                payload: hex_encode(payload.as_slice()),
            };
            (Stage::PreparingQuote { payload }, action)
        },
        // The other proving systems need no setup: the request is
        // acknowledged as it stands.
        _ => replying(RequestKind::ProverSetup, ProofData::prover_setup_ack()),
    }
}

fn dispatch(state: &ProofCoordinatorState, received: Result<ProofData, String>) -> (next: (
    Stage,
    Action,
))
    ensures
        (next.0@, next.1@) == spec_dispatch(
            state@,
            match received {
                Ok(message) => Ok(message@),
                Err(reason) => Err(reason@),
            },
        ),
{
    match received {
        Ok(ProofData::BatchRequest) => begin_request(state),
        Ok(ProofData::ProofSubmit { batch_number, batch_proof }) => {
            let action = Action::CheckProof {
                prover_type: batch_proof.prover_type(),
                batch_number,
            };
            (Stage::CheckingProof { batch_number, batch_proof }, action)
        },
        Ok(ProofData::ProverSetup { prover_type, payload }) => begin_setup(
            state,
            prover_type,
            payload,
        ),
        Err(reason) => closing(Conclusion::ParseFailure { reason }),
        Ok(_) => closing(Conclusion::InvalidRequest),
    }
}

/// Serves a batch request up to the point where the batch to prove is known
/// to be in the rollup store, or known not to be.
pub fn handle_request(state: &ProofCoordinatorState, stage: Stage, event: Event) -> (next: (
    Stage,
    Action,
))
    ensures
        (next.0@, next.1@) == spec_handle_request(state@, stage@, event@),
{
    match (stage, event) {
        (Stage::QueryingVerified { latest }, Event::LatestVerified(Err(e))) => failing(
            RequestKind::BatchRequest,
            ProofCoordinatorError::InternalError(e),
        ),
        (Stage::QueryingVerified { latest }, Event::LatestVerified(Ok(n))) => {
            let mut latest = latest;
            latest.push(n);
            if latest.len() < state.needed_proof_types.len() {
                let prover_type = state.needed_proof_types[latest.len()];
                (Stage::QueryingVerified { latest }, Action::QueryLatestVerified { prover_type })
            } else {
                match next_batch_to_verify(&latest) {
                    Some(batch_number) => (
                        Stage::CheckingBatch { batch_number },
                        Action::CheckBatch { batch_number },
                    ),
                    None => failing(
                        RequestKind::BatchRequest,
                        ProofCoordinatorError::InternalError(
                            String::from_str("the next batch number is out of range"),
                        ),
                    ),
                }
            }
        },
        (Stage::CheckingBatch { batch_number }, Event::BatchChecked(Err(e))) => failing(
            RequestKind::BatchRequest,
            ProofCoordinatorError::FailedAccessingRollupStore(e),
        ),
        (Stage::CheckingBatch { batch_number }, Event::BatchChecked(Ok(contained))) => {
            if contained {
                (
                    Stage::FetchingBlockNumbers { batch_number },
                    Action::FetchBlockNumbers { batch_number },
                )
            } else {
                replying(RequestKind::BatchRequest, ProofData::empty_batch_response())
            }
        },
        _ => closing(Conclusion::OutOfTurn),
    }
}

/// Fetches the blocks of a batch, header and body in turn, in the order of
/// the batch.
pub fn fetch_blocks(stage: Stage, event: Event) -> (next: (Stage, Action))
    ensures
        (next.0@, next.1@) == spec_fetch_blocks(stage@, event@),
{
    match (stage, event) {
        (Stage::FetchingHeader { assembly }, Event::Header(Err(e))) => failing(
            RequestKind::BatchRequest,
            ProofCoordinatorError::FailedAccessingStore(e),
        ),
        (Stage::FetchingHeader { assembly }, Event::Header(Ok(None))) => failing(
            RequestKind::BatchRequest,
            ProofCoordinatorError::StorageDataIsNone,
        ),
        (Stage::FetchingHeader { assembly }, Event::Header(Ok(Some(header)))) => {
            if assembly.blocks.len() < assembly.block_numbers.len() {
                let block_number = assembly.block_numbers[assembly.blocks.len()];
                (Stage::FetchingBody { assembly, header }, Action::FetchBody { block_number })
            } else {
                closing(Conclusion::OutOfTurn)
            }
        },
        (Stage::FetchingBody { assembly, header }, Event::Body(Err(e))) => failing(
            RequestKind::BatchRequest,
            ProofCoordinatorError::FailedAccessingStore(e),
        ),
        (Stage::FetchingBody { assembly, header }, Event::Body(Ok(None))) => failing(
            RequestKind::BatchRequest,
            ProofCoordinatorError::StorageDataIsNone,
        ),
        (Stage::FetchingBody { assembly, header }, Event::Body(Ok(Some(body)))) => {
            if assembly.blocks.len() < assembly.block_numbers.len() {
                let mut assembly = assembly;
                let ghost fetched = assembly.blocks@;
                let block = Block {
                    number: assembly.block_numbers[assembly.blocks.len()],
                    header,
                    body,
                };
                assembly.blocks.push(block);
                assert(block_views(assembly.blocks@) =~= block_views(fetched).push(block@));
                if assembly.blocks.len() < assembly.block_numbers.len() {
                    let block_number = assembly.block_numbers[assembly.blocks.len()];
                    (Stage::FetchingHeader { assembly }, Action::FetchHeader { block_number })
                } else {
                    let blocks = clone_blocks(&assembly.blocks);
                    (Stage::GeneratingWitness { assembly }, Action::GenerateWitness { blocks })
                }
            } else {
                closing(Conclusion::OutOfTurn)
            }
        },
        _ => closing(Conclusion::OutOfTurn),
    }
}

/// Assembles the input for a batch: resolves the batch to its blocks, fetches
/// them, has the witness generated, and takes the last commitment and the
/// last proof of the batch's blob, or zeros in validium mode.
pub fn create_prover_input(state: &ProofCoordinatorState, stage: Stage, event: Event) -> (next: (
    Stage,
    Action,
))
    ensures
        (next.0@, next.1@) == spec_create_prover_input(state@, stage@, event@),
{
    match (stage, event) {
        (Stage::FetchingBlockNumbers { batch_number }, Event::BlockNumbers(Err(e))) => failing(
            RequestKind::BatchRequest,
            ProofCoordinatorError::FailedAccessingRollupStore(e),
        ),
        (Stage::FetchingBlockNumbers { batch_number }, Event::BlockNumbers(Ok(None))) => failing(
            RequestKind::BatchRequest,
            ProofCoordinatorError::ItemNotFoundInStore(text_batch_not_found(batch_number)),
        ),
        (
            Stage::FetchingBlockNumbers { batch_number },
            Event::BlockNumbers(Ok(Some(block_numbers))),
        ) => {
            if block_numbers.len() == 0 {
                failing(
                    RequestKind::BatchRequest,
                    ProofCoordinatorError::ItemNotFoundInStore(
                        text_batch_without_blocks(batch_number),
                    ),
                )
            } else {
                let block_number = block_numbers[0];
                let assembly = Assembly { batch_number, block_numbers, blocks: Vec::new() };
                assert(block_views(assembly.blocks@) =~= Seq::empty());
                (Stage::FetchingHeader { assembly }, Action::FetchHeader { block_number })
            }
        },
        (Stage::FetchingHeader { assembly }, event) => fetch_blocks(
            Stage::FetchingHeader { assembly },
            event,
        ),
        (Stage::FetchingBody { assembly, header }, event) => fetch_blocks(
            Stage::FetchingBody { assembly, header },
            event,
        ),
        (Stage::GeneratingWitness { assembly }, Event::Witness(Err(e))) => failing(
            RequestKind::BatchRequest,
            ProofCoordinatorError::FailedToCreateExecutionWitness(e),
        ),
        (Stage::GeneratingWitness { assembly }, Event::Witness(Ok(witness))) => {
            if state.validium {
                let zero: [u8; 48] = [0u8;48];
                assert(zero@ =~= zero_artifact());
                let input = ProverInputData {
                    blocks: assembly.blocks,
                    db: witness,
                    elasticity_multiplier: state.elasticity_multiplier,
                    blob_commitment: zero,
                    blob_proof: zero,
                };
                replying(
                    RequestKind::BatchRequest,
                    ProofData::batch_response(assembly.batch_number, input),
                )
            } else {
                let batch_number = assembly.batch_number;
                (Stage::FetchingBlobs { assembly, witness }, Action::FetchBlobs { batch_number })
            }
        },
        (Stage::FetchingBlobs { assembly, witness }, Event::Blobs(Err(e))) => failing(
            RequestKind::BatchRequest,
            ProofCoordinatorError::FailedAccessingRollupStore(e),
        ),
        (Stage::FetchingBlobs { assembly, witness }, Event::Blobs(Ok(None))) => failing(
            RequestKind::BatchRequest,
            ProofCoordinatorError::MissingBlob(assembly.batch_number),
        ),
        (Stage::FetchingBlobs { assembly, witness }, Event::Blobs(Ok(Some(blobs)))) => (
            Stage::CreatingBundle { assembly, witness },
            Action::CreateBundle { blobs },
        ),
        (Stage::CreatingBundle { assembly, witness }, Event::Bundle(Err(e))) => failing(
            RequestKind::BatchRequest,
            ProofCoordinatorError::BlobsBundleError(e),
        ),
        (Stage::CreatingBundle { assembly, witness }, Event::Bundle(Ok(bundle))) => {
            if bundle.commitments.len() > 0 && bundle.proofs.len() > 0 {
                let blob_commitment = bundle.commitments[bundle.commitments.len() - 1];
                let blob_proof = bundle.proofs[bundle.proofs.len() - 1];
                let input = ProverInputData {
                    blocks: assembly.blocks,
                    db: witness,
                    elasticity_multiplier: state.elasticity_multiplier,
                    blob_commitment,
                    blob_proof,
                };
                replying(
                    RequestKind::BatchRequest,
                    ProofData::batch_response(assembly.batch_number, input),
                )
            } else {
                failing(
                    RequestKind::BatchRequest,
                    ProofCoordinatorError::MissingBlob(assembly.batch_number),
                )
            }
        },
        _ => closing(Conclusion::OutOfTurn),
    }
}

/// Takes a proof in: has it written unless it is known already, and
/// acknowledges it.
pub fn handle_submit(stage: Stage, event: Event) -> (next: (Stage, Action))
    ensures
        (next.0@, next.1@) == spec_handle_submit(stage@, event@),
{
    match (stage, event) {
        (Stage::CheckingProof { batch_number, batch_proof }, Event::ProofChecked(Err(e))) =>
            failing(RequestKind::ProofSubmit, ProofCoordinatorError::StateError(e)),
        (Stage::CheckingProof { batch_number, batch_proof }, Event::ProofChecked(Ok(known))) => {
            if known {
                // Already known proof: nothing is written.
                replying(RequestKind::ProofSubmit, ProofData::proof_submit_ack(batch_number))
            } else {
                (
                    Stage::WritingProof { batch_number },
                    Action::WriteProof { batch_number, batch_proof },
                )
            }
        },
        (Stage::WritingProof { batch_number }, Event::ProofWritten(Err(e))) => failing(
            RequestKind::ProofSubmit,
            ProofCoordinatorError::StateError(e),
        ),
        (Stage::WritingProof { batch_number }, Event::ProofWritten(Ok(_))) => replying(
            RequestKind::ProofSubmit,
            ProofData::proof_submit_ack(batch_number),
        ),
        _ => closing(Conclusion::OutOfTurn),
    }
}

/// Sets a TDX client up: has the prerequisites of its quote prepared and its
/// key registered, and acknowledges the setup.
pub fn handle_setup(state: &ProofCoordinatorState, stage: Stage, event: Event) -> (next: (
    Stage,
    Action,
))
    ensures
        (next.0@, next.1@) == spec_handle_setup(state@, stage@, event@),
{
    match (stage, event) {
        (Stage::PreparingQuote { payload }, Event::QuotePrepared(Err(e))) => failing(
            RequestKind::ProverSetup,
            ProofCoordinatorError::Custom(join("Could not setup TDX key ", e.as_str())),
        ),
        (Stage::PreparingQuote { payload }, Event::QuotePrepared(Ok(_))) => (
            Stage::RegisteringKey,
            Action::RegisterKey {
                private_key: state.l1_private_key,
                on_chain_proposer_address: state.on_chain_proposer_address,
                payload,
            },
        ),
        (Stage::RegisteringKey, Event::KeyRegistered(Err(error))) => failing(
            RequestKind::ProverSetup,
            error,
        ),
        (Stage::RegisteringKey, Event::KeyRegistered(Ok(_))) => replying(
            RequestKind::ProverSetup,
            ProofData::prover_setup_ack(),
        ),
        _ => closing(Conclusion::OutOfTurn),
    }
}

fn conclude(request: RequestKind, event: Event) -> (next: (Stage, Action))
    ensures
        (next.0@, next.1@) == spec_conclude(request, event@),
{
    match event {
        Event::Sent(Ok(_)) => closing(Conclusion::Served { request }),
        Event::Sent(Err(SendError::Encoding(e))) => failing(
            request,
            ProofCoordinatorError::JsonError(e),
        ),
        Event::Sent(Err(SendError::Connection(e))) => failing(
            request,
            ProofCoordinatorError::ConnectionError(e),
        ),
        _ => closing(Conclusion::OutOfTurn),
    }
}

/// Serves a connection, one step at a time: takes the stage at which the
/// exchange stands and the event that has come, and gives the stage that
/// follows and the action to perform.
///
/// An exchange starts at `Stage::AwaitingRequest` with the event that tells
/// what was read from the client, and is over with `Action::Close`.
pub fn handle_connection(state: &ProofCoordinatorState, stage: Stage, event: Event) -> (next: (
    Stage,
    Action,
))
    ensures
        (next.0@, next.1@) == spec_handle_connection(state@, stage@, event@),
{
    match stage {
        Stage::AwaitingRequest => match event {
            Event::Received(received) => dispatch(state, received),
            Event::ReadFailed(e) => closing(
                Conclusion::ConnectionFailed { error: ProofCoordinatorError::ConnectionError(e) },
            ),
            _ => closing(Conclusion::OutOfTurn),
        },
        Stage::QueryingVerified { .. } | Stage::CheckingBatch { .. } => handle_request(
            state,
            stage,
            event,
        ),
        Stage::FetchingBlockNumbers { .. }
        | Stage::FetchingHeader { .. }
        | Stage::FetchingBody { .. }
        | Stage::GeneratingWitness { .. }
        | Stage::FetchingBlobs { .. }
        | Stage::CreatingBundle { .. } => create_prover_input(state, stage, event),
        Stage::CheckingProof { .. } | Stage::WritingProof { .. } => handle_submit(stage, event),
        Stage::PreparingQuote { .. } | Stage::RegisteringKey => handle_setup(state, stage, event),
        Stage::Replying { request } => conclude(request, event),
        Stage::Closed => closing(Conclusion::OutOfTurn),
    }
}

} // verus!
