//! The settings of the coordinator.

use crate::errors::{ProofCoordinatorError, ProofCoordinatorErrorView};
use crate::prover_type::ProverType;
use crate::text::{decimal, decimal_digits, join};
use vstd::prelude::*;

verus! {

/// The settings of the proof coordinator itself.
#[derive(Debug, Clone, PartialEq, Eq)]
pub struct ProofCoordinatorConfig {
    /// The address on which the coordinator listens, as text.
    pub listen_ip: String,
    pub listen_port: u16,
    /// The key that signs the transactions that register an attestation key.
    pub l1_private_key: [u8; 32],
    /// In validium mode the data of a batch stays off chain, and a batch has no blob.
    pub validium: bool,
}

/// The settings of the committer that the coordinator shares.
#[derive(Debug, Clone, PartialEq, Eq)]
pub struct CommitterConfig {
    pub on_chain_proposer_address: [u8; 20],
}

/// The settings of the L1 client.
#[derive(Debug, Clone, PartialEq, Eq)]
pub struct EthConfig {
    pub rpc_url: Vec<String>,
    pub max_number_of_retries: u64,
    pub backoff_factor: u64,
    pub min_retry_delay: u64,
    pub max_retry_delay: u64,
    pub maximum_allowed_max_fee_per_gas: u64,
    pub maximum_allowed_max_fee_per_blob_gas: u64,
}

/// The settings of the block producer that the coordinator shares.
#[derive(Debug, Clone, PartialEq, Eq)]
pub struct BlockProducerConfig {
    pub elasticity_multiplier: u64,
}

/// The settings of the sequencer, of which the coordinator is a part.
#[derive(Debug, Clone, PartialEq, Eq)]
pub struct SequencerConfig {
    pub proof_coordinator: ProofCoordinatorConfig,
    pub l1_committer: CommitterConfig,
    pub eth: EthConfig,
    pub block_producer: BlockProducerConfig,
}

/// What every connection handler knows: the settings that decide how a
/// request is served. The handles to the stores and to the L1 client stay
/// with the program that performs the handlers' actions.
#[derive(Debug, Clone, PartialEq, Eq)]
pub struct ProofCoordinatorState {
    pub listen_ip: String,
    pub port: u16,
    pub on_chain_proposer_address: [u8; 20],
    pub elasticity_multiplier: u64,
    pub rpc_url: String,
    pub l1_private_key: [u8; 32],
    pub validium: bool,
    pub needed_proof_types: Vec<ProverType>,
}

pub struct ProofCoordinatorStateView {
    pub listen_ip: Seq<char>,
    pub port: u16,
    pub on_chain_proposer_address: Seq<u8>,
    pub elasticity_multiplier: u64,
    pub rpc_url: Seq<char>,
    pub l1_private_key: Seq<u8>,
    pub validium: bool,
    pub needed_proof_types: Seq<ProverType>,
}

impl View for ProofCoordinatorState {
    type V = ProofCoordinatorStateView;

    open spec fn view(&self) -> ProofCoordinatorStateView {
        ProofCoordinatorStateView {
            listen_ip: self.listen_ip@,
            port: self.port,
            on_chain_proposer_address: self.on_chain_proposer_address@,
            elasticity_multiplier: self.elasticity_multiplier,
            rpc_url: self.rpc_url@,
            l1_private_key: self.l1_private_key@,
            validium: self.validium,
            needed_proof_types: self.needed_proof_types@,
        }
    }
}

impl ProofCoordinatorStateView {
    /// The address to bind: the listen address, a colon, and the port.
    pub open spec fn listen_address(self) -> Seq<char> {
        self.listen_ip + ":"@ + decimal_digits(self.port as nat)
    }
}

impl ProofCoordinatorState {
    /// Gathers the coordinator's settings. The first RPC URL is the one that
    /// the attestation setup uses, so there has to be one.
    pub fn new(
        config: &ProofCoordinatorConfig,
        committer_config: &CommitterConfig,
        eth_config: &EthConfig,
        proposer_config: &BlockProducerConfig,
        needed_proof_types: Vec<ProverType>,
    ) -> (state: Result<Self, ProofCoordinatorError>)
        ensures
            eth_config.rpc_url@.len() == 0 ==> (state matches Err(e) && e@
                == ProofCoordinatorErrorView::Custom("no rpc urls present!"@)),
            eth_config.rpc_url@.len() > 0 ==> (state matches Ok(s) && s@
                == ProofCoordinatorStateView {
                listen_ip: config.listen_ip@,
                port: config.listen_port,
                on_chain_proposer_address: committer_config.on_chain_proposer_address@,
                elasticity_multiplier: proposer_config.elasticity_multiplier,
                rpc_url: eth_config.rpc_url@[0]@,
                l1_private_key: config.l1_private_key@,
                validium: config.validium,
                needed_proof_types: needed_proof_types@,
            }),
    {
        if eth_config.rpc_url.len() == 0 {
            return Err(ProofCoordinatorError::Custom(String::from_str("no rpc urls present!")));
        }
        let rpc_url = String::from_str(eth_config.rpc_url[0].as_str());
        Ok(
            ProofCoordinatorState {
                listen_ip: String::from_str(config.listen_ip.as_str()),
                port: config.listen_port,
                on_chain_proposer_address: committer_config.on_chain_proposer_address,
                elasticity_multiplier: proposer_config.elasticity_multiplier,
                rpc_url,
                l1_private_key: config.l1_private_key,
                validium: config.validium,
                needed_proof_types,
            },
        )
    }

    /// The address on which the coordinator listens, as the listener takes it.
    pub fn listen_address(&self) -> (address: String)
        ensures
            address@ == self@.listen_address(),
    {
        let port = decimal(self.port as u64);
        let mut address = join(self.listen_ip.as_str(), ":");
        address.append(port.as_str());
        address
    }
}

} // verus!
