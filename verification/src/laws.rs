//! What holds of every exchange, whatever the stores, the chain and the
//! client do: the handler replies only after the events that warrant the
//! reply, and makes the reply of what those events brought.

use crate::config::ProofCoordinatorStateView;
use crate::exchange::{ActionView, AssemblyView, ConclusionView, EventView, StageView};
use crate::messages::{block_numbers, zero_artifact, ProofDataView, ProverInputDataView};
use crate::model::spec_handle_connection;
use crate::prover_type::ProverType;
use crate::settlement::spec_next_batch_to_verify;
use vstd::prelude::*;

verus! {

/// The stage that an exchange has reached after these events.
pub open spec fn stage_after(state: ProofCoordinatorStateView, events: Seq<EventView>) -> StageView
    decreases events.len(),
{
    if events.len() == 0 {
        StageView::AwaitingRequest
    } else {
        spec_handle_connection(state, stage_after(state, events.drop_last()), events.last()).0
    }
}

/// The action that answers the last of these events.
pub open spec fn action_after(state: ProofCoordinatorStateView, events: Seq<EventView>) -> ActionView
    recommends
        events.len() > 0,
{
    spec_handle_connection(state, stage_after(state, events.drop_last()), events.last()).1
}

/// The answer of the proposer contract about the `i`-th needed proving
/// system, where the exchange began with a request and that answer followed.
pub open spec fn answer_at(events: Seq<EventView>, i: int) -> Option<u64> {
    if 0 <= i && 1 + i < events.len() {
        match events[1 + i] {
            EventView::LatestVerified(Ok(n)) => Some(n),
            _ => None,
        }
    } else {
        None
    }
}

/// The answers of the proposer contract about the needed proving systems, in
/// their order.
pub open spec fn answers(state: ProofCoordinatorStateView, events: Seq<EventView>) -> Seq<u64> {
    Seq::new(state.needed_proof_types.len(), |i: int| answer_at(events, i).unwrap())
}

/// The exchange began with a batch request, the proposer contract answered
/// about every needed proving system, and `batch_number` follows the smallest
/// of the answers.
pub open spec fn settled(
    state: ProofCoordinatorStateView,
    events: Seq<EventView>,
    batch_number: u64,
) -> bool {
    &&& state.needed_proof_types.len() > 0
    &&& events.len() >= 1 + state.needed_proof_types.len()
    &&& events[0] == EventView::Received(Ok(ProofDataView::BatchRequest))
    &&& forall|i: int|
        0 <= i < state.needed_proof_types.len() ==> (#[trigger] answer_at(events, i)) is Some
    &&& spec_next_batch_to_verify(answers(state, events)) == Some(batch_number)
}

/// The header and the body that came for the `j`-th block of the batch.
pub open spec fn pieces_at(state: ProofCoordinatorStateView, events: Seq<EventView>, j: int) -> Option<
    (Seq<u8>, Seq<u8>),
> {
    let at = 3 + state.needed_proof_types.len() + 2 * j;
    if 0 <= j && at + 1 < events.len() {
        match (events[at], events[at + 1]) {
            (EventView::Header(Ok(Some(header))), EventView::Body(Ok(Some(body)))) => Some(
                (header, body),
            ),
            _ => None,
        }
    } else {
        None
    }
}

/// The batch was settled on and found in the rollup store, the rollup store
/// listed the numbers of its blocks, and each block so far is made of the
/// header and the body that came for its number.
pub open spec fn assembled(
    state: ProofCoordinatorStateView,
    events: Seq<EventView>,
    assembly: AssemblyView,
) -> bool {
    let m = state.needed_proof_types.len() as int;
    &&& settled(state, events, assembly.batch_number)
    &&& events.len() >= 3 + m + 2 * assembly.blocks.len()
    &&& events[1 + m] == EventView::BatchChecked(Ok(true))
    &&& events[2 + m] == EventView::BlockNumbers(Ok(Some(assembly.block_numbers)))
    &&& assembly.block_numbers.len() > 0
    &&& assembly.blocks.len() <= assembly.block_numbers.len()
    &&& forall|j: int|
        0 <= j < assembly.blocks.len() ==> {
            &&& (#[trigger] pieces_at(state, events, j)) == Some(
                (assembly.blocks[j].header, assembly.blocks[j].body),
            )
            &&& assembly.blocks[j].number == assembly.block_numbers[j]
        }
}

/// How the events of an exchange and the stage that it has reached belong
/// together.
pub open spec fn recorded(
    state: ProofCoordinatorStateView,
    events: Seq<EventView>,
    stage: StageView,
) -> bool {
    let m = state.needed_proof_types.len() as int;
    match stage {
        StageView::AwaitingRequest => events.len() == 0,
        StageView::QueryingVerified { latest } => {
            &&& events.len() == 1 + latest.len()
            &&& latest.len() < m
            &&& events[0] == EventView::Received(Ok(ProofDataView::BatchRequest))
            &&& forall|i: int|
                0 <= i < latest.len() ==> (#[trigger] answer_at(events, i)) == Some(latest[i])
        },
        StageView::CheckingBatch { batch_number } => {
            &&& events.len() == 1 + m
            &&& settled(state, events, batch_number)
        },
        StageView::FetchingBlockNumbers { batch_number } => {
            &&& events.len() == 2 + m
            &&& settled(state, events, batch_number)
            &&& events[1 + m] == EventView::BatchChecked(Ok(true))
        },
        StageView::FetchingHeader { assembly } => {
            &&& events.len() == 3 + m + 2 * assembly.blocks.len()
            &&& assembled(state, events, assembly)
            &&& assembly.blocks.len() < assembly.block_numbers.len()
        },
        StageView::FetchingBody { assembly, header } => {
            &&& events.len() == 4 + m + 2 * assembly.blocks.len()
            &&& assembled(state, events, assembly)
            &&& assembly.blocks.len() < assembly.block_numbers.len()
            &&& events[3 + m + 2 * assembly.blocks.len()] == EventView::Header(Ok(Some(header)))
        },
        StageView::GeneratingWitness { assembly } => {
            &&& events.len() == 3 + m + 2 * assembly.blocks.len()
            &&& assembled(state, events, assembly)
            &&& assembly.blocks.len() == assembly.block_numbers.len()
        },
        StageView::FetchingBlobs { assembly, witness } => {
            &&& events.len() == 4 + m + 2 * assembly.blocks.len()
            &&& assembled(state, events, assembly)
            &&& assembly.blocks.len() == assembly.block_numbers.len()
            &&& events[3 + m + 2 * assembly.blocks.len()] == EventView::Witness(Ok(witness))
            &&& !state.validium
        },
        StageView::CreatingBundle { assembly, witness } => {
            &&& events.len() == 5 + m + 2 * assembly.blocks.len()
            &&& assembled(state, events, assembly)
            &&& assembly.blocks.len() == assembly.block_numbers.len()
            &&& events[3 + m + 2 * assembly.blocks.len()] == EventView::Witness(Ok(witness))
            &&& events[4 + m + 2 * assembly.blocks.len()] matches EventView::Blobs(Ok(Some(_)))
            &&& !state.validium
        },
        StageView::CheckingProof { batch_number, batch_proof } => {
            &&& events.len() == 1
            &&& events[0] == EventView::Received(
                Ok(ProofDataView::ProofSubmit { batch_number, batch_proof }),
            )
        },
        StageView::WritingProof { batch_number } => {
            &&& events.len() == 2
            &&& events[0] matches EventView::Received(
                Ok(ProofDataView::ProofSubmit { batch_number: submitted, .. }),
            )
            &&& submitted == batch_number
            &&& events[1] == EventView::ProofChecked(Ok(false))
        },
        StageView::PreparingQuote { payload } => {
            &&& events.len() == 1
            &&& events[0] == EventView::Received(
                Ok(ProofDataView::ProverSetup { prover_type: ProverType::TDX, payload }),
            )
        },
        StageView::RegisteringKey => {
            &&& events.len() == 2
            &&& events[0] matches EventView::Received(
                Ok(ProofDataView::ProverSetup { prover_type: ProverType::TDX, .. }),
            )
            &&& events[1] matches EventView::QuotePrepared(Ok(_))
        },
        StageView::Replying { .. } => events.len() > 0,
        StageView::Closed => events.len() > 0,
    }
}

proof fn lemma_answers_stay(
    state: ProofCoordinatorStateView,
    events: Seq<EventView>,
    event: EventView,
    batch_number: u64,
)
    requires
        settled(state, events, batch_number),
    ensures
        settled(state, events.push(event), batch_number),
{
    let longer = events.push(event);
    assert forall|i: int| 0 <= i < state.needed_proof_types.len() implies answer_at(longer, i)
        == answer_at(events, i) by {}
    assert(answers(state, longer) =~= answers(state, events));
}

proof fn lemma_assembly_stays(
    state: ProofCoordinatorStateView,
    events: Seq<EventView>,
    event: EventView,
    assembly: AssemblyView,
)
    requires
        assembled(state, events, assembly),
    ensures
        assembled(state, events.push(event), assembly),
{
    let longer = events.push(event);
    let m = state.needed_proof_types.len() as int;
    lemma_answers_stay(state, events, event, assembly.batch_number);
    assert forall|j: int| 0 <= j < assembly.blocks.len() implies {
        &&& (#[trigger] pieces_at(state, longer, j)) == Some(
            (assembly.blocks[j].header, assembly.blocks[j].body),
        )
        &&& assembly.blocks[j].number == assembly.block_numbers[j]
    } by {
        assert(pieces_at(state, events, j) == Some(
            (assembly.blocks[j].header, assembly.blocks[j].body),
        ));
    }
}

/// The blocks that the stage after a body holds.
spec fn assembly_of_next(stage: StageView) -> AssemblyView {
    match stage {
        StageView::FetchingHeader { assembly } => assembly,
        StageView::GeneratingWitness { assembly } => assembly,
        _ => AssemblyView { batch_number: 0, block_numbers: Seq::empty(), blocks: Seq::empty() },
    }
}

/// A step keeps the events and the stage together.
pub proof fn lemma_step_is_recorded(
    state: ProofCoordinatorStateView,
    events: Seq<EventView>,
    stage: StageView,
    event: EventView,
)
    requires
        recorded(state, events, stage),
    ensures
        recorded(state, events.push(event), spec_handle_connection(state, stage, event).0),
{
    let longer = events.push(event);
    let next = spec_handle_connection(state, stage, event).0;
    match stage {
        StageView::QueryingVerified { latest } => {
            if let EventView::LatestVerified(Ok(n)) = event {
                let more = latest.push(n);
                assert forall|i: int| 0 <= i < more.len() implies (#[trigger] answer_at(
                    longer,
                    i,
                )) == Some(more[i]) by {
                    if i < latest.len() {
                        assert(answer_at(events, i) == Some(latest[i]));
                    }
                }
                if let StageView::CheckingBatch { batch_number } = next {
                    assert(answers(state, longer) =~= more);
                }
            }
        },
        StageView::CheckingBatch { batch_number } => {
            lemma_answers_stay(state, events, event, batch_number);
        },
        StageView::FetchingBlockNumbers { batch_number } => {
            lemma_answers_stay(state, events, event, batch_number);
        },
        StageView::FetchingHeader { assembly } => {
            lemma_assembly_stays(state, events, event, assembly);
        },
        StageView::FetchingBody { assembly, header } => {
            lemma_assembly_stays(state, events, event, assembly);
            if let EventView::Body(Ok(Some(body))) = event {
                let grown = assembly_of_next(next);
                assert forall|j: int| 0 <= j < grown.blocks.len() implies {
                    &&& (#[trigger] pieces_at(state, longer, j)) == Some(
                        (grown.blocks[j].header, grown.blocks[j].body),
                    )
                    &&& grown.blocks[j].number == grown.block_numbers[j]
                } by {
                    if j < assembly.blocks.len() {
                        assert(pieces_at(state, longer, j) == Some(
                            (assembly.blocks[j].header, assembly.blocks[j].body),
                        ));
                    }
                }
            }
        },
        StageView::GeneratingWitness { assembly } => {
            lemma_assembly_stays(state, events, event, assembly);
        },
        StageView::FetchingBlobs { assembly, witness } => {
            lemma_assembly_stays(state, events, event, assembly);
        },
        _ => {},
    }
}

/// The events of an exchange and the stage that it has reached belong
/// together.
pub proof fn lemma_exchange_is_recorded(state: ProofCoordinatorStateView, events: Seq<EventView>)
    ensures
        recorded(state, events, stage_after(state, events)),
    decreases events.len(),
{
    if events.len() > 0 {
        lemma_exchange_is_recorded(state, events.drop_last());
        lemma_step_is_recorded(
            state,
            events.drop_last(),
            stage_after(state, events.drop_last()),
            events.last(),
        );
        assert(events.drop_last().push(events.last()) =~= events);
    }
}

/// What warrants an input for a batch: the batch follows the smallest answer
/// of the proposer contract, the rollup store contains it and lists its
/// blocks, each block of the input is made of the header and the body that
/// came for its number, the witness is the one that was generated, and the
/// blob artifacts are zero in validium mode and else the last commitment and
/// the last proof that were derived.
pub open spec fn warrants_input(
    state: ProofCoordinatorStateView,
    events: Seq<EventView>,
    batch_number: u64,
    input: ProverInputDataView,
) -> bool {
    let m = state.needed_proof_types.len() as int;
    let before = events.drop_last();
    &&& settled(state, before, batch_number)
    &&& before[1 + m] == EventView::BatchChecked(Ok(true))
    &&& before[2 + m] == EventView::BlockNumbers(Ok(Some(block_numbers(input.blocks))))
    &&& input.blocks.len() > 0
    &&& forall|j: int|
        0 <= j < input.blocks.len() ==> (#[trigger] pieces_at(state, before, j)) == Some(
            (input.blocks[j].header, input.blocks[j].body),
        )
    &&& events[3 + m + 2 * input.blocks.len()] == EventView::Witness(Ok(input.db))
    &&& input.elasticity_multiplier == state.elasticity_multiplier
    &&& if state.validium {
        &&& events.len() == 4 + m + 2 * input.blocks.len()
        &&& input.blob_commitment == zero_artifact()
        &&& input.blob_proof == zero_artifact()
    } else {
        &&& events.len() == 6 + m + 2 * input.blocks.len()
        &&& events.last() matches EventView::Bundle(Ok(bundle))
        &&& bundle.commitments.len() > 0
        &&& bundle.proofs.len() > 0
        &&& input.blob_commitment == bundle.commitments.last()
        &&& input.blob_proof == bundle.proofs.last()
    }
}

/// Every batch response that the handler sends is warranted: one with an
/// input by the events that `warrants_input` names, an empty one by a batch
/// that was settled and is not in the rollup store.
pub proof fn lemma_batch_response_is_warranted(
    state: ProofCoordinatorStateView,
    events: Seq<EventView>,
)
    requires
        events.len() > 0,
    ensures
        action_after(state, events) matches ActionView::Send {
            message: ProofDataView::BatchResponse { batch_number: Some(n), input: Some(input) },
        } ==> warrants_input(state, events, n, input),
        action_after(state, events) matches ActionView::Send {
            message: ProofDataView::BatchResponse { batch_number: None, .. },
        } ==> {
            &&& exists|n: u64| settled(state, events.drop_last(), n)
            &&& events.last() == EventView::BatchChecked(Ok(false))
        },
{
    let before = events.drop_last();
    let stage = stage_after(state, before);
    let m = state.needed_proof_types.len() as int;
    lemma_exchange_is_recorded(state, before);
    match action_after(state, events) {
        ActionView::Send {
            message: ProofDataView::BatchResponse { batch_number: Some(n), input: Some(input) },
        } => {
            match stage {
                StageView::GeneratingWitness { assembly } => {
                    assert forall|j: int|
                        0 <= j < assembly.blocks.len() implies (#[trigger] assembly.blocks[j]).number
                        == assembly.block_numbers[j] by {
                        assert(pieces_at(state, before, j) is Some);
                    }
                    assert(block_numbers(input.blocks) =~= assembly.block_numbers);
                },
                StageView::CreatingBundle { assembly, witness } => {
                    assert forall|j: int|
                        0 <= j < assembly.blocks.len() implies (#[trigger] assembly.blocks[j]).number
                        == assembly.block_numbers[j] by {
                        assert(pieces_at(state, before, j) is Some);
                    }
                    assert(block_numbers(input.blocks) =~= assembly.block_numbers);
                    assert(events[3 + m + 2 * input.blocks.len()] == before[3 + m + 2
                        * input.blocks.len()]);
                },
                _ => {},
            }
        },
        _ => {},
    }
}

/// A proof is acknowledged only when the proof store holds one under its key:
/// the store said so, or the proof was written.
pub proof fn lemma_acknowledged_proof_is_stored(
    state: ProofCoordinatorStateView,
    events: Seq<EventView>,
)
    requires
        events.len() > 0,
    ensures
        action_after(state, events) matches ActionView::Send {
            message: ProofDataView::ProofSubmitACK { batch_number },
        } ==> {
            &&& events[0] matches EventView::Received(
                Ok(ProofDataView::ProofSubmit { batch_number: submitted, .. }),
            )
            &&& submitted == batch_number
            &&& (events.len() == 2 && events[1] == EventView::ProofChecked(Ok(true)))
                || (events.len() == 3 && events[1] == EventView::ProofChecked(Ok(false))
                && events[2] matches EventView::ProofWritten(Ok(_)))
        },
{
    lemma_exchange_is_recorded(state, events.drop_last());
}

/// A setup is acknowledged at once for a client that has nothing to set up,
/// and for a TDX client only after the prerequisites of its quote were
/// prepared and its key was registered.
pub proof fn lemma_acknowledged_setup_is_done(
    state: ProofCoordinatorStateView,
    events: Seq<EventView>,
)
    requires
        events.len() > 0,
    ensures
        action_after(state, events) matches ActionView::Send {
            message: ProofDataView::ProverSetupACK,
        } ==> {
            &&& events[0] matches EventView::Received(
                Ok(ProofDataView::ProverSetup { prover_type, .. }),
            )
            &&& if prover_type == ProverType::TDX {
                &&& events.len() == 3
                &&& events[1] matches EventView::QuotePrepared(Ok(_))
                &&& events[2] matches EventView::KeyRegistered(Ok(_))
            } else {
                events.len() == 1
            }
        },
{
    lemma_exchange_is_recorded(state, events.drop_last());
}


/// The handler sends nothing but replies, and in every batch response the
/// batch number is there exactly when the input is.
pub proof fn lemma_replies_are_well_formed(
    state: ProofCoordinatorStateView,
    stage: StageView,
    event: EventView,
)
    ensures
        spec_handle_connection(state, stage, event).1 matches ActionView::Send { message } ==> {
            &&& message.well_formed()
            &&& !message.is_request()
        },
{
}

/// The event tells how the action went.
pub open spec fn answers_to(action: ActionView, event: EventView) -> bool {
    match action {
        ActionView::QueryLatestVerified { .. } => event is LatestVerified,
        ActionView::CheckBatch { .. } => event is BatchChecked,
        ActionView::FetchBlockNumbers { .. } => event is BlockNumbers,
        ActionView::FetchHeader { .. } => event is Header,
        ActionView::FetchBody { .. } => event is Body,
        ActionView::GenerateWitness { .. } => event is Witness,
        ActionView::FetchBlobs { .. } => event is Blobs,
        ActionView::CreateBundle { .. } => event is Bundle,
        ActionView::CheckProof { .. } => event is ProofChecked,
        ActionView::WriteProof { .. } => event is ProofWritten,
        ActionView::PrepareQuote { .. } => event is QuotePrepared,
        ActionView::RegisterKey { .. } => event is KeyRegistered,
        ActionView::Send { .. } => event is Sent,
        ActionView::Close { .. } => false,
    }
}

/// The stage waits for an event of this kind.
pub open spec fn awaited(stage: StageView, event: EventView) -> bool {
    match stage {
        StageView::AwaitingRequest => event is Received || event is ReadFailed,
        StageView::QueryingVerified { .. } => event is LatestVerified,
        StageView::CheckingBatch { .. } => event is BatchChecked,
        StageView::FetchingBlockNumbers { .. } => event is BlockNumbers,
        StageView::FetchingHeader { .. } => event is Header,
        StageView::FetchingBody { .. } => event is Body,
        StageView::GeneratingWitness { .. } => event is Witness,
        StageView::FetchingBlobs { .. } => event is Blobs,
        StageView::CreatingBundle { .. } => event is Bundle,
        StageView::CheckingProof { .. } => event is ProofChecked,
        StageView::WritingProof { .. } => event is ProofWritten,
        StageView::PreparingQuote { .. } => event is QuotePrepared,
        StageView::RegisteringKey => event is KeyRegistered,
        StageView::Replying { .. } => event is Sent,
        StageView::Closed => false,
    }
}

/// The exchange is driven as it is meant to be: it begins with what was read
/// from the client, and every later event tells how the action went that the
/// handler asked for just before.
pub open spec fn well_driven(state: ProofCoordinatorStateView, events: Seq<EventView>) -> bool {
    &&& events.len() > 0
    &&& events[0] is Received || events[0] is ReadFailed
    &&& forall|k: int|
        1 <= k < events.len() ==> answers_to(
            #[trigger] action_after(state, events.take(k)),
            events[k],
        )
}

/// The handler waits for the answer to what it asked: after every step, the
/// events that answer the action are those that the stage waits for.
pub proof fn lemma_stage_awaits_answer(
    state: ProofCoordinatorStateView,
    stage: StageView,
    event: EventView,
    answer: EventView,
)
    ensures
        ({
            let next = spec_handle_connection(state, stage, event);
            answers_to(next.1, answer) == awaited(next.0, answer)
        }),
{
}

/// An exchange that is driven as it is meant to be is never found out of
/// turn: the handler has an answer to every event that answers its action.
pub proof fn lemma_well_driven_is_in_turn(state: ProofCoordinatorStateView, events: Seq<EventView>)
    requires
        well_driven(state, events),
    ensures
        action_after(state, events) != (ActionView::Close { conclusion: ConclusionView::OutOfTurn }),
{
    let before = events.drop_last();
    let stage = stage_after(state, before);
    lemma_exchange_is_recorded(state, before);
    if events.len() > 1 {
        let k = events.len() - 1;
        assert(answers_to(action_after(state, events.take(k)), events[k]));
        lemma_stage_awaits_answer(
            state,
            stage_after(state, before.drop_last()),
            before.last(),
            events.last(),
        );
    }
}

/// The handler asks in order: about each needed proving system in turn,
/// then for the batch that follows the smallest answer, then for the header
/// and the body of each block that the rollup store listed, by its number.
pub proof fn lemma_questions_are_in_order(state: ProofCoordinatorStateView, events: Seq<EventView>)
    requires
        events.len() > 0,
    ensures
        action_after(state, events) matches ActionView::QueryLatestVerified { prover_type } ==> {
            &&& events.len() <= state.needed_proof_types.len()
            &&& prover_type == state.needed_proof_types[events.len() - 1]
        },
        action_after(state, events) matches ActionView::CheckBatch { batch_number } ==> {
            &&& events.len() == 1 + state.needed_proof_types.len()
            &&& settled(state, events, batch_number)
        },
        action_after(state, events) matches ActionView::FetchBlockNumbers { batch_number } ==> {
            &&& events.len() == 2 + state.needed_proof_types.len()
            &&& settled(state, events, batch_number)
            &&& events.last() == EventView::BatchChecked(Ok(true))
        },
        action_after(state, events) matches ActionView::FetchHeader { block_number } ==> {
            let j = (events.len() - 3 - state.needed_proof_types.len()) / 2;
            &&& events.len() == 3 + state.needed_proof_types.len() + 2 * j
            &&& listed_numbers(state, events) matches Some(listed)
            &&& 0 <= j < listed.len()
            &&& block_number == listed[j]
        },
        action_after(state, events) matches ActionView::FetchBody { block_number } ==> {
            let j = (events.len() - 4 - state.needed_proof_types.len()) / 2;
            &&& events.len() == 4 + state.needed_proof_types.len() + 2 * j
            &&& listed_numbers(state, events) matches Some(listed)
            &&& 0 <= j < listed.len()
            &&& block_number == listed[j]
        },
{
    lemma_exchange_is_recorded(state, events.drop_last());
    lemma_exchange_is_recorded(state, events);
}

/// In validium mode every input that the handler sends has a zero blob
/// commitment and a zero blob proof.
pub proof fn lemma_validium_zeroes_blob(state: ProofCoordinatorStateView, events: Seq<EventView>)
    requires
        state.validium,
        events.len() > 0,
    ensures
        action_after(state, events) matches ActionView::Send {
            message: ProofDataView::BatchResponse { input: Some(input), .. },
        } ==> input.blob_commitment == zero_artifact() && input.blob_proof == zero_artifact(),
{
    lemma_batch_response_is_warranted(state, events);
    lemma_replies_are_well_formed(
        state,
        stage_after(state, events.drop_last()),
        events.last(),
    );
}

/// The numbers that the rollup store listed for the batch, if the exchange
/// came that far.
pub open spec fn listed_numbers(state: ProofCoordinatorStateView, events: Seq<EventView>) -> Option<
    Seq<u64>,
> {
    let at = 2 + state.needed_proof_types.len() as int;
    if at < events.len() {
        match events[at] {
            EventView::BlockNumbers(Ok(Some(listed))) => Some(listed),
            _ => None,
        }
    } else {
        None
    }
}

/// Each number is smaller than those that follow it.
pub open spec fn ascending(numbers: Seq<u64>) -> bool {
    forall|i: int, j: int| 0 <= i < j < numbers.len() ==> numbers[i] < numbers[j]
}

/// Every input that the handler sends holds one block for each number that
/// the rollup store listed for the batch, in the order of the list, and there
/// is at least one. So where the list ascends, the blocks do.
pub proof fn lemma_blocks_follow_batch_index(
    state: ProofCoordinatorStateView,
    events: Seq<EventView>,
)
    requires
        events.len() > 0,
    ensures
        action_after(state, events) matches ActionView::Send {
            message: ProofDataView::BatchResponse { input: Some(input), .. },
        } ==> {
            &&& listed_numbers(state, events) == Some(block_numbers(input.blocks))
            &&& input.blocks.len() > 0
            &&& ascending(listed_numbers(state, events).unwrap()) ==> ascending(
                block_numbers(input.blocks),
            )
        },
{
    lemma_batch_response_is_warranted(state, events);
    lemma_replies_are_well_formed(
        state,
        stage_after(state, events.drop_last()),
        events.last(),
    );
}

} // verus!
