//! The listener: binds the coordinator's address and hands every connection
//! that it accepts to a handler of its own.

use crate::config::{ProofCoordinatorState, ProofCoordinatorStateView, SequencerConfig};
use crate::errors::{ProofCoordinatorError, ProofCoordinatorErrorView};
use crate::prover_type::ProverType;
use vstd::prelude::*;

verus! {

/// What the listener is told to do.
#[derive(Debug, Clone, Copy, PartialEq, Eq, Structural)]
pub enum ProofCordInMessage {
    /// Accept connections on the listening socket, for good.
    Listen,
}

/// The reply of the listener when it is called rather than cast to.
#[derive(Debug, Clone, Copy, PartialEq, Eq, Structural)]
pub enum ProofCordOutMessage {
    Done,
}

/// What it takes to start the coordinator.
#[derive(Debug, Clone, PartialEq, Eq)]
pub struct Spawned {
    /// What every connection handler will know.
    pub state: ProofCoordinatorState,
    /// The address to bind.
    pub listen_address: String,
}

/// What the listener does after an attempt to accept a connection. Either
/// way it goes on accepting.
#[derive(Debug, Clone, PartialEq, Eq)]
pub enum Accepted {
    /// Start a handler for the connection.
    Serve,
    /// There is no connection to serve: report why.
    Report { reason: String },
}

pub struct ProofCoordinator;

impl ProofCoordinator {
    /// Prepares the coordinator: gathers what its handlers need to know from
    /// the sequencer's settings, and names the address to listen on.
    pub fn spawn(cfg: &SequencerConfig, needed_proof_types: Vec<ProverType>) -> (spawned: Result<
        Spawned,
        ProofCoordinatorError,
    >)
        ensures
            cfg.eth.rpc_url@.len() == 0 ==> (spawned matches Err(e) && e@
                == ProofCoordinatorErrorView::Custom("no rpc urls present!"@)),
            cfg.eth.rpc_url@.len() > 0 ==> (spawned matches Ok(s) && s.state@
                == ProofCoordinatorStateView {
                listen_ip: cfg.proof_coordinator.listen_ip@,
                port: cfg.proof_coordinator.listen_port,
                on_chain_proposer_address: cfg.l1_committer.on_chain_proposer_address@,
                elasticity_multiplier: cfg.block_producer.elasticity_multiplier,
                rpc_url: cfg.eth.rpc_url@[0]@,
                l1_private_key: cfg.proof_coordinator.l1_private_key@,
                validium: cfg.proof_coordinator.validium,
                needed_proof_types: needed_proof_types@,
            } && s.listen_address@ == s.state@.listen_address()),
    {
        match ProofCoordinatorState::new(
            &cfg.proof_coordinator,
            &cfg.l1_committer,
            &cfg.eth,
            &cfg.block_producer,
            needed_proof_types,
        ) {
            Ok(state) => {
                let listen_address = state.listen_address();
                Ok(Spawned { state, listen_address })
            },
            Err(error) => Err(error),
        }
    }

    /// Answers a call: the listener has nothing to say.
    pub fn handle_call(_message: ProofCordInMessage) -> (reply: ProofCordOutMessage)
        ensures
            reply == ProofCordOutMessage::Done,
    {
        ProofCordOutMessage::Done
    }

    /// One turn of the accept loop. A connection is served by a handler of
    /// its own; a failure to accept is reported. Neither ends the loop.
    pub fn handle_listens(accepted: Result<(), String>) -> (turn: Accepted)
        ensures
            match accepted {
                Ok(_) => turn == Accepted::Serve,
                Err(e) => turn matches Accepted::Report { reason } && reason@ == e@,
            },
    {
        match accepted {
            Ok(_) => Accepted::Serve,
            Err(reason) => Accepted::Report { reason },
        }
    }
}

} // verus!
