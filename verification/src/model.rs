//! What a connection handler does, stated over the views of its data: for each
//! stage and each event, the stage that follows and the action to perform.

use crate::config::ProofCoordinatorStateView;
use crate::errors::ProofCoordinatorErrorView;
use crate::exchange::{
    ActionView, AssemblyView, ConclusionView, EventView, RequestKind, SendErrorView, StageView,
};
use crate::messages::{zero_artifact, BlockView, ProofDataView, ProverInputDataView};
use crate::prover_type::ProverType;
use crate::settlement::spec_next_batch_to_verify;
use crate::text::{decimal_digits, hex_digits};
use vstd::prelude::*;

verus! {

/// The exchange ends.
pub open spec fn closing(conclusion: ConclusionView) -> (StageView, ActionView) {
    (StageView::Closed, ActionView::Close { conclusion })
}

/// The exchange ends because the request could not be handled.
pub open spec fn failing(request: RequestKind, error: ProofCoordinatorErrorView) -> (
    StageView,
    ActionView,
) {
    closing(ConclusionView::HandlerFailed { request, error })
}

/// The request has been handled: its reply is to be sent.
pub open spec fn replying(request: RequestKind, message: ProofDataView) -> (StageView, ActionView) {
    (StageView::Replying { request }, ActionView::Send { message })
}

/// The text that says that the rollup store does not know a batch.
pub open spec fn batch_not_found(batch_number: u64) -> Seq<char> {
    "Batch number "@ + decimal_digits(batch_number as nat) + " not found in store"@
}

/// The text that says that the rollup store lists no block for a batch.
pub open spec fn batch_without_blocks(batch_number: u64) -> Seq<char> {
    "Batch number "@ + decimal_digits(batch_number as nat) + " has no blocks in store"@
}

/// The response that carries the input for a batch.
pub open spec fn batch_response(
    state: ProofCoordinatorStateView,
    assembly: AssemblyView,
    witness: Seq<u8>,
    blob_commitment: Seq<u8>,
    blob_proof: Seq<u8>,
) -> ProofDataView {
    ProofDataView::BatchResponse {
        batch_number: Some(assembly.batch_number),
        input: Some(
            ProverInputDataView {
                blocks: assembly.blocks,
                db: witness,
                elasticity_multiplier: state.elasticity_multiplier,
                blob_commitment,
                blob_proof,
            },
        ),
    }
}

/// The first step of a batch request: the settlement tracker asks about the
/// first needed proving system.
pub open spec fn spec_begin_request(state: ProofCoordinatorStateView) -> (StageView, ActionView) {
    if state.needed_proof_types.len() == 0 {
        failing(
            RequestKind::BatchRequest,
            ProofCoordinatorErrorView::InternalError("no proof type is needed"@),
        )
    } else {
        (
            StageView::QueryingVerified { latest: Seq::empty() },
            ActionView::QueryLatestVerified { prover_type: state.needed_proof_types[0] },
        )
    }
}

/// The first step of a setup: only a TDX client has anything to set up.
pub open spec fn spec_begin_setup(
    state: ProofCoordinatorStateView,
    prover_type: ProverType,
    payload: Seq<u8>,
) -> (StageView, ActionView) {
    if prover_type == ProverType::TDX {
        (
            StageView::PreparingQuote { payload },
            ActionView::PrepareQuote {
                rpc_url: state.rpc_url,
                private_key: hex_digits(state.l1_private_key),
                payload: hex_digits(payload),
            },
        )
    } else {
        replying(RequestKind::ProverSetup, ProofDataView::ProverSetupACK)
    }
}

/// What the handler does with what it received: it dispatches on the message.
pub open spec fn spec_dispatch(
    state: ProofCoordinatorStateView,
    received: Result<ProofDataView, Seq<char>>,
) -> (StageView, ActionView) {
    match received {
        Err(reason) => closing(ConclusionView::ParseFailure { reason }),
        Ok(ProofDataView::BatchRequest) => spec_begin_request(state),
        Ok(ProofDataView::ProofSubmit { batch_number, batch_proof }) => (
            StageView::CheckingProof { batch_number, batch_proof },
            ActionView::CheckProof { prover_type: batch_proof.prover_type, batch_number },
        ),
        Ok(ProofDataView::ProverSetup { prover_type, payload }) => spec_begin_setup(
            state,
            prover_type,
            payload,
        ),
        Ok(_) => closing(ConclusionView::InvalidRequest),
    }
}

/// The settlement tracker and the check that follows it: the latest verified
/// batch is asked of every needed proving system in turn; the batch after the
/// smallest answer is served if the rollup store contains it.
pub open spec fn spec_handle_request(
    state: ProofCoordinatorStateView,
    stage: StageView,
    event: EventView,
) -> (StageView, ActionView) {
    match (stage, event) {
        (StageView::QueryingVerified { latest }, EventView::LatestVerified(Err(e))) => failing(
            RequestKind::BatchRequest,
            ProofCoordinatorErrorView::InternalError(e),
        ),
        (StageView::QueryingVerified { latest }, EventView::LatestVerified(Ok(n))) => {
            let latest = latest.push(n);
            if latest.len() < state.needed_proof_types.len() {
                (
                    StageView::QueryingVerified { latest },
                    ActionView::QueryLatestVerified {
                        prover_type: state.needed_proof_types[latest.len() as int],
                    },
                )
            } else {
                match spec_next_batch_to_verify(latest) {
                    Some(batch_number) => (
                        StageView::CheckingBatch { batch_number },
                        ActionView::CheckBatch { batch_number },
                    ),
                    None => failing(
                        RequestKind::BatchRequest,
                        ProofCoordinatorErrorView::InternalError(
                            "the next batch number is out of range"@,
                        ),
                    ),
                }
            }
        },
        (StageView::CheckingBatch { batch_number }, EventView::BatchChecked(Err(e))) => failing(
            RequestKind::BatchRequest,
            ProofCoordinatorErrorView::FailedAccessingRollupStore(e),
        ),
        (StageView::CheckingBatch { batch_number }, EventView::BatchChecked(Ok(contained))) => {
            if contained {
                (
                    StageView::FetchingBlockNumbers { batch_number },
                    ActionView::FetchBlockNumbers { batch_number },
                )
            } else {
                replying(
                    RequestKind::BatchRequest,
                    ProofDataView::BatchResponse { batch_number: None, input: None },
                )
            }
        },
        _ => closing(ConclusionView::OutOfTurn),
    }
}

/// Fetching the blocks of a batch: for each number of the batch, in order, the
/// header and then the body. A missing piece ends the exchange.
pub open spec fn spec_fetch_blocks(stage: StageView, event: EventView) -> (StageView, ActionView) {
    match (stage, event) {
        (StageView::FetchingHeader { assembly }, EventView::Header(Err(e))) => failing(
            RequestKind::BatchRequest,
            ProofCoordinatorErrorView::FailedAccessingStore(e),
        ),
        (StageView::FetchingHeader { assembly }, EventView::Header(Ok(None))) => failing(
            RequestKind::BatchRequest,
            ProofCoordinatorErrorView::StorageDataIsNone,
        ),
        (StageView::FetchingHeader { assembly }, EventView::Header(Ok(Some(header)))) => {
            if assembly.blocks.len() < assembly.block_numbers.len() {
                (
                    StageView::FetchingBody { assembly, header },
                    ActionView::FetchBody {
                        block_number: assembly.block_numbers[assembly.blocks.len() as int],
                    },
                )
            } else {
                closing(ConclusionView::OutOfTurn)
            }
        },
        (StageView::FetchingBody { assembly, header }, EventView::Body(Err(e))) => failing(
            RequestKind::BatchRequest,
            ProofCoordinatorErrorView::FailedAccessingStore(e),
        ),
        (StageView::FetchingBody { assembly, header }, EventView::Body(Ok(None))) => failing(
            RequestKind::BatchRequest,
            ProofCoordinatorErrorView::StorageDataIsNone,
        ),
        (StageView::FetchingBody { assembly, header }, EventView::Body(Ok(Some(body)))) => {
            if assembly.blocks.len() < assembly.block_numbers.len() {
                let block = BlockView {
                    number: assembly.block_numbers[assembly.blocks.len() as int],
                    header,
                    body,
                };
                let assembly = AssemblyView { blocks: assembly.blocks.push(block), ..assembly };
                if assembly.blocks.len() < assembly.block_numbers.len() {
                    (
                        StageView::FetchingHeader { assembly },
                        ActionView::FetchHeader {
                            block_number: assembly.block_numbers[assembly.blocks.len() as int],
                        },
                    )
                } else {
                    (
                        StageView::GeneratingWitness { assembly },
                        ActionView::GenerateWitness { blocks: assembly.blocks },
                    )
                }
            } else {
                closing(ConclusionView::OutOfTurn)
            }
        },
        _ => closing(ConclusionView::OutOfTurn),
    }
}

/// Assembling the input for a batch: its blocks, the execution witness for
/// them, and the commitment and the proof of its blob, which in validium mode
/// are zero.
pub open spec fn spec_create_prover_input(
    state: ProofCoordinatorStateView,
    stage: StageView,
    event: EventView,
) -> (StageView, ActionView) {
    match (stage, event) {
        (StageView::FetchingBlockNumbers { batch_number }, EventView::BlockNumbers(Err(e))) =>
            failing(
                RequestKind::BatchRequest,
                ProofCoordinatorErrorView::FailedAccessingRollupStore(e),
            ),
        (StageView::FetchingBlockNumbers { batch_number }, EventView::BlockNumbers(Ok(None))) =>
            failing(
                RequestKind::BatchRequest,
                ProofCoordinatorErrorView::ItemNotFoundInStore(batch_not_found(batch_number)),
            ),
        (
            StageView::FetchingBlockNumbers { batch_number },
            EventView::BlockNumbers(Ok(Some(block_numbers))),
        ) => {
            if block_numbers.len() == 0 {
                failing(
                    RequestKind::BatchRequest,
                    ProofCoordinatorErrorView::ItemNotFoundInStore(
                        batch_without_blocks(batch_number),
                    ),
                )
            } else {
                (
                    StageView::FetchingHeader {
                        assembly: AssemblyView { batch_number, block_numbers, blocks: Seq::empty() },
                    },
                    ActionView::FetchHeader { block_number: block_numbers[0] },
                )
            }
        },
        (StageView::FetchingHeader { .. }, _) => spec_fetch_blocks(stage, event),
        (StageView::FetchingBody { .. }, _) => spec_fetch_blocks(stage, event),
        (StageView::GeneratingWitness { assembly }, EventView::Witness(Err(e))) => failing(
            RequestKind::BatchRequest,
            ProofCoordinatorErrorView::FailedToCreateExecutionWitness(e),
        ),
        (StageView::GeneratingWitness { assembly }, EventView::Witness(Ok(witness))) => {
            if state.validium {
                replying(
                    RequestKind::BatchRequest,
                    batch_response(state, assembly, witness, zero_artifact(), zero_artifact()),
                )
            } else {
                (
                    StageView::FetchingBlobs { assembly, witness },
                    ActionView::FetchBlobs { batch_number: assembly.batch_number },
                )
            }
        },
        (StageView::FetchingBlobs { assembly, witness }, EventView::Blobs(Err(e))) => failing(
            RequestKind::BatchRequest,
            ProofCoordinatorErrorView::FailedAccessingRollupStore(e),
        ),
        (StageView::FetchingBlobs { assembly, witness }, EventView::Blobs(Ok(None))) => failing(
            RequestKind::BatchRequest,
            ProofCoordinatorErrorView::MissingBlob(assembly.batch_number),
        ),
        (StageView::FetchingBlobs { assembly, witness }, EventView::Blobs(Ok(Some(blobs)))) => (
            StageView::CreatingBundle { assembly, witness },
            ActionView::CreateBundle { blobs },
        ),
        (StageView::CreatingBundle { assembly, witness }, EventView::Bundle(Err(e))) => failing(
            RequestKind::BatchRequest,
            ProofCoordinatorErrorView::BlobsBundleError(e),
        ),
        (StageView::CreatingBundle { assembly, witness }, EventView::Bundle(Ok(bundle))) => {
            if bundle.commitments.len() > 0 && bundle.proofs.len() > 0 {
                replying(
                    RequestKind::BatchRequest,
                    batch_response(
                        state,
                        assembly,
                        witness,
                        bundle.commitments.last(),
                        bundle.proofs.last(),
                    ),
                )
            } else {
                failing(
                    RequestKind::BatchRequest,
                    ProofCoordinatorErrorView::MissingBlob(assembly.batch_number),
                )
            }
        },
        _ => closing(ConclusionView::OutOfTurn),
    }
}

/// Taking a proof in: it is written unless the proof store already holds one
/// under its key, and acknowledged either way.
pub open spec fn spec_handle_submit(stage: StageView, event: EventView) -> (StageView, ActionView) {
    match (stage, event) {
        (
            StageView::CheckingProof { batch_number, batch_proof },
            EventView::ProofChecked(Err(e)),
        ) => failing(RequestKind::ProofSubmit, ProofCoordinatorErrorView::StateError(e)),
        (
            StageView::CheckingProof { batch_number, batch_proof },
            EventView::ProofChecked(Ok(known)),
        ) => {
            if known {
                replying(RequestKind::ProofSubmit, ProofDataView::ProofSubmitACK { batch_number })
            } else {
                (
                    StageView::WritingProof { batch_number },
                    ActionView::WriteProof { batch_number, batch_proof },
                )
            }
        },
        (StageView::WritingProof { batch_number }, EventView::ProofWritten(Err(e))) => failing(
            RequestKind::ProofSubmit,
            ProofCoordinatorErrorView::StateError(e),
        ),
        (StageView::WritingProof { batch_number }, EventView::ProofWritten(Ok(_))) => replying(
            RequestKind::ProofSubmit,
            ProofDataView::ProofSubmitACK { batch_number },
        ),
        _ => closing(ConclusionView::OutOfTurn),
    }
}

/// Registering the attestation key of a TDX client: first the transactions
/// that have to precede it, then the registration, then the acknowledgement.
pub open spec fn spec_handle_setup(
    state: ProofCoordinatorStateView,
    stage: StageView,
    event: EventView,
) -> (StageView, ActionView) {
    match (stage, event) {
        (StageView::PreparingQuote { payload }, EventView::QuotePrepared(Err(e))) => failing(
            RequestKind::ProverSetup,
            ProofCoordinatorErrorView::Custom("Could not setup TDX key "@ + e),
        ),
        (StageView::PreparingQuote { payload }, EventView::QuotePrepared(Ok(_))) => (
            StageView::RegisteringKey,
            ActionView::RegisterKey {
                private_key: state.l1_private_key,
                on_chain_proposer_address: state.on_chain_proposer_address,
                payload,
            },
        ),
        (StageView::RegisteringKey, EventView::KeyRegistered(Err(error))) => failing(
            RequestKind::ProverSetup,
            error,
        ),
        (StageView::RegisteringKey, EventView::KeyRegistered(Ok(_))) => replying(
            RequestKind::ProverSetup,
            ProofDataView::ProverSetupACK,
        ),
        _ => closing(ConclusionView::OutOfTurn),
    }
}

/// The end of an exchange: the reply went out, or it did not.
pub open spec fn spec_conclude(request: RequestKind, event: EventView) -> (StageView, ActionView) {
    match event {
        EventView::Sent(Ok(_)) => closing(ConclusionView::Served { request }),
        EventView::Sent(Err(SendErrorView::Encoding(e))) => failing(
            request,
            ProofCoordinatorErrorView::JsonError(e),
        ),
        EventView::Sent(Err(SendErrorView::Connection(e))) => failing(
            request,
            ProofCoordinatorErrorView::ConnectionError(e),
        ),
        _ => closing(ConclusionView::OutOfTurn),
    }
}

/// One step of a connection handler.
pub open spec fn spec_handle_connection(
    state: ProofCoordinatorStateView,
    stage: StageView,
    event: EventView,
) -> (StageView, ActionView) {
    match stage {
        StageView::AwaitingRequest => match event {
            EventView::Received(received) => spec_dispatch(state, received),
            EventView::ReadFailed(e) => closing(
                ConclusionView::ConnectionFailed {
                    error: ProofCoordinatorErrorView::ConnectionError(e),
                },
            ),
            _ => closing(ConclusionView::OutOfTurn),
        },
        StageView::QueryingVerified { .. } | StageView::CheckingBatch { .. } =>
            spec_handle_request(state, stage, event),
        StageView::FetchingBlockNumbers { .. }
        | StageView::FetchingHeader { .. }
        | StageView::FetchingBody { .. }
        | StageView::GeneratingWitness { .. }
        | StageView::FetchingBlobs { .. }
        | StageView::CreatingBundle { .. } => spec_create_prover_input(state, stage, event),
        StageView::CheckingProof { .. } | StageView::WritingProof { .. } => spec_handle_submit(
            stage,
            event,
        ),
        StageView::PreparingQuote { .. } | StageView::RegisteringKey => spec_handle_setup(
            state,
            stage,
            event,
        ),
        StageView::Replying { request } => spec_conclude(request, event),
        StageView::Closed => closing(ConclusionView::OutOfTurn),
    }
}

} // verus!
