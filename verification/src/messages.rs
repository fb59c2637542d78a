//! The messages that a prover client and the coordinator exchange, and the
//! data that they carry.

use crate::prover_type::ProverType;
use crate::text::clone_bytes;
use vstd::prelude::*;

verus! {

/// A block of a batch: the number under which the rollup store lists it, and
/// the header and the body that the blockchain store holds under that number.
#[derive(Debug, PartialEq, Eq)]
pub struct Block {
    pub number: u64,
    pub header: Vec<u8>,
    pub body: Vec<u8>,
}

pub struct BlockView {
    pub number: u64,
    pub header: Seq<u8>,
    pub body: Seq<u8>,
}

impl View for Block {
    type V = BlockView;

    open spec fn view(&self) -> BlockView {
        BlockView { number: self.number, header: self.header@, body: self.body@ }
    }
}

impl Clone for Block {
    fn clone(&self) -> (copy: Block)
        ensures
            copy@ == self@,
    {
        Block {
            number: self.number,
            header: clone_bytes(&self.header),
            body: clone_bytes(&self.body),
        }
    }
}

/// The views of a sequence of blocks.
pub open spec fn block_views(blocks: Seq<Block>) -> Seq<BlockView> {
    blocks.map_values(|b: Block| b@)
}

/// The numbers of a sequence of blocks, in order.
pub open spec fn block_numbers(blocks: Seq<BlockView>) -> Seq<u64> {
    blocks.map_values(|b: BlockView| b.number)
}

/// What a prover needs to prove a batch.
#[derive(Debug, Clone, PartialEq, Eq)]
pub struct ProverInputData {
    /// The blocks of the batch, in the order of the batch.
    pub blocks: Vec<Block>,
    /// The execution witness: all that is needed to execute the blocks again
    /// without a state database.
    pub db: Vec<u8>,
    pub elasticity_multiplier: u64,
    pub blob_commitment: [u8; 48],
    pub blob_proof: [u8; 48],
}

pub struct ProverInputDataView {
    pub blocks: Seq<BlockView>,
    pub db: Seq<u8>,
    pub elasticity_multiplier: u64,
    pub blob_commitment: Seq<u8>,
    pub blob_proof: Seq<u8>,
}

impl View for ProverInputData {
    type V = ProverInputDataView;

    open spec fn view(&self) -> ProverInputDataView {
        ProverInputDataView {
            blocks: block_views(self.blocks@),
            db: self.db@,
            elasticity_multiplier: self.elasticity_multiplier,
            blob_commitment: self.blob_commitment@,
            blob_proof: self.blob_proof@,
        }
    }
}

/// The blob artifact of a batch that has no blob: forty-eight zero bytes.
pub open spec fn zero_artifact() -> Seq<u8> {
    Seq::new(48, |i: int| 0u8)
}

/// A proof of a batch, as one proving system made it.
#[derive(Debug, Clone, PartialEq, Eq)]
pub struct BatchProof {
    pub prover_type: ProverType,
    pub bytes: Vec<u8>,
}

pub struct BatchProofView {
    pub prover_type: ProverType,
    pub bytes: Seq<u8>,
}

impl View for BatchProof {
    type V = BatchProofView;

    open spec fn view(&self) -> BatchProofView {
        BatchProofView { prover_type: self.prover_type, bytes: self.bytes@ }
    }
}

impl BatchProof {
    /// The proving system that made this proof.
    pub fn prover_type(&self) -> (kind: ProverType)
        ensures
            kind == self@.prover_type,
    {
        self.prover_type
    }
}

/// Enum for the ProverServer <--> ProverClient Communication Protocol.
#[derive(Debug, Clone, PartialEq, Eq)]
pub enum ProofData {
    /// 1.
    /// The client performs any needed setup steps.
    /// This includes things such as key registration.
    ProverSetup { prover_type: ProverType, payload: Vec<u8> },
    /// 2.
    /// The server acknowledges the receipt of the setup and its completion.
    ProverSetupACK,
    /// 3.
    /// The client initiates the connection with a BatchRequest,
    /// asking for the ProverInputData the server considers needed.
    BatchRequest,
    /// 4.
    /// The server responds with a BatchResponse containing the ProverInputData.
    /// If both fields are `None`, the client knows that the BatchRequest
    /// couldn't be performed.
    BatchResponse { batch_number: Option<u64>, input: Option<ProverInputData> },
    /// 5.
    /// The client submits the proof generated by the prover for the specified batch.
    ProofSubmit { batch_number: u64, batch_proof: BatchProof },
    /// 6.
    /// The server acknowledges the receipt of the proof and updates its state.
    ProofSubmitACK { batch_number: u64 },
}

pub enum ProofDataView {
    ProverSetup { prover_type: ProverType, payload: Seq<u8> },
    ProverSetupACK,
    BatchRequest,
    BatchResponse { batch_number: Option<u64>, input: Option<ProverInputDataView> },
    ProofSubmit { batch_number: u64, batch_proof: BatchProofView },
    ProofSubmitACK { batch_number: u64 },
}

impl View for ProofData {
    type V = ProofDataView;

    open spec fn view(&self) -> ProofDataView {
        match self {
            ProofData::ProverSetup { prover_type, payload } => ProofDataView::ProverSetup {
                prover_type: *prover_type,
                payload: payload@,
            },
            ProofData::ProverSetupACK => ProofDataView::ProverSetupACK,
            ProofData::BatchRequest => ProofDataView::BatchRequest,
            ProofData::BatchResponse { batch_number, input } => ProofDataView::BatchResponse {
                batch_number: *batch_number,
                input: match input {
                    Some(i) => Some(i@),
                    None => None,
                },
            },
            ProofData::ProofSubmit { batch_number, batch_proof } => ProofDataView::ProofSubmit {
                batch_number: *batch_number,
                batch_proof: batch_proof@,
            },
            ProofData::ProofSubmitACK { batch_number } => ProofDataView::ProofSubmitACK {
                batch_number: *batch_number,
            },
        }
    }
}

impl ProofDataView {
    /// A batch response names a batch exactly when it carries the input for
    /// one. Every other message is well formed as it stands.
    pub open spec fn well_formed(self) -> bool {
        match self {
            ProofDataView::BatchResponse { batch_number, input } => batch_number is Some
                == input is Some,
            _ => true,
        }
    }

    /// Whether a client may open an exchange with this message.
    pub open spec fn is_request(self) -> bool {
        self is BatchRequest || self is ProofSubmit || self is ProverSetup
    }
}

impl ProofData {
    /// Builder function for creating a ProverSetup
    pub fn prover_setup(prover_type: ProverType, payload: Vec<u8>) -> (message: Self)
        ensures
            message@ == (ProofDataView::ProverSetup { prover_type, payload: payload@ }),
    {
        ProofData::ProverSetup { prover_type, payload }
    }

    /// Builder function for creating a ProverSetupACK
    pub fn prover_setup_ack() -> (message: Self)
        ensures
            message@ == ProofDataView::ProverSetupACK,
    {
        ProofData::ProverSetupACK
    }

    /// Builder function for creating a BatchRequest
    pub fn batch_request() -> (message: Self)
        ensures
            message@ == ProofDataView::BatchRequest,
    {
        ProofData::BatchRequest
    }

    /// Builder function for creating a BatchResponse
    pub fn batch_response(batch_number: u64, input: ProverInputData) -> (message: Self)
        ensures
            message@ == (ProofDataView::BatchResponse {
                batch_number: Some(batch_number),
                input: Some(input@),
            }),
            message@.well_formed(),
    {
        ProofData::BatchResponse { batch_number: Some(batch_number), input: Some(input) }
    }

    /// Builder function for the BatchResponse that tells the client that no
    /// batch waits for a proof.
    pub fn empty_batch_response() -> (message: Self)
        ensures
            message@ == (ProofDataView::BatchResponse { batch_number: None, input: None }),
            message@.well_formed(),
    {
        ProofData::BatchResponse { batch_number: None, input: None }
    }

    /// Builder function for creating a ProofSubmit
    pub fn proof_submit(batch_number: u64, batch_proof: BatchProof) -> (message: Self)
        ensures
            message@ == (ProofDataView::ProofSubmit { batch_number, batch_proof: batch_proof@ }),
    {
        ProofData::ProofSubmit { batch_number, batch_proof }
    }

    /// Builder function for creating a ProofSubmitACK
    pub fn proof_submit_ack(batch_number: u64) -> (message: Self)
        ensures
            message@ == (ProofDataView::ProofSubmitACK { batch_number }),
    {
        ProofData::ProofSubmitACK { batch_number }
    }

    /// Whether this message is well formed: see `ProofDataView::well_formed`.
    pub fn is_well_formed(&self) -> (ok: bool)
        ensures
            ok == self@.well_formed(),
    {
        match self {
            ProofData::BatchResponse { batch_number, input } => batch_number.is_some()
                == input.is_some(),
            _ => true,
        }
    }
}

} // verus!
