use proof_coordinator::config::{
    BlockProducerConfig, CommitterConfig, EthConfig, ProofCoordinatorConfig,
    ProofCoordinatorState, SequencerConfig,
};
use proof_coordinator::errors::ProofCoordinatorError;
use proof_coordinator::listener::{
    Accepted, ProofCoordinator, ProofCordInMessage, ProofCordOutMessage,
};
use proof_coordinator::prover_type::ProverType;
use proof_coordinator::text::{join, decimal, decimal_u128};

fn settings(rpc_url: Vec<String>) -> SequencerConfig {
    SequencerConfig {
        proof_coordinator: ProofCoordinatorConfig {
            listen_ip: "0.0.0.0".to_string(),
            listen_port: 3900,
            l1_private_key: [7; 32],
            validium: true,
        },
        l1_committer: CommitterConfig { on_chain_proposer_address: [9; 20] },
        eth: EthConfig {
            rpc_url,
            max_number_of_retries: 10,
            backoff_factor: 2,
            min_retry_delay: 96,
            max_retry_delay: 1800,
            maximum_allowed_max_fee_per_gas: 10_000_000_000,
            maximum_allowed_max_fee_per_blob_gas: 10_000_000_000,
        },
        block_producer: BlockProducerConfig { elasticity_multiplier: 2 },
    }
}

#[test]
fn state_takes_the_first_rpc_url_and_the_settings() {
    let cfg = settings(vec!["http://a:8545".to_string(), "http://b:8545".to_string()]);
    let state = ProofCoordinatorState::new(
        &cfg.proof_coordinator,
        &cfg.l1_committer,
        &cfg.eth,
        &cfg.block_producer,
        vec![ProverType::SP1, ProverType::TDX],
    );
    assert_eq!(
        state,
        Ok(ProofCoordinatorState {
            listen_ip: "0.0.0.0".to_string(),
            port: 3900,
            on_chain_proposer_address: [9; 20],
            elasticity_multiplier: 2,
            rpc_url: "http://a:8545".to_string(),
            l1_private_key: [7; 32],
            validium: true,
            needed_proof_types: vec![ProverType::SP1, ProverType::TDX],
        })
    );
}

#[test]
fn state_without_rpc_urls_is_refused() {
    let cfg = settings(vec![]);
    let state = ProofCoordinatorState::new(
        &cfg.proof_coordinator,
        &cfg.l1_committer,
        &cfg.eth,
        &cfg.block_producer,
        vec![ProverType::SP1],
    );
    assert_eq!(state, Err(ProofCoordinatorError::Custom("no rpc urls present!".to_string())));
}

#[test]
fn spawn_names_the_address_to_bind() {
    let cfg = settings(vec!["http://a:8545".to_string()]);
    let spawned = ProofCoordinator::spawn(&cfg, vec![ProverType::Exec]).unwrap();
    assert_eq!(spawned.listen_address, "0.0.0.0:3900");
    assert_eq!(spawned.state.needed_proof_types, vec![ProverType::Exec]);
    assert_eq!(spawned.state.rpc_url, "http://a:8545");
    assert!(spawned.state.validium);
    assert_eq!(spawned.state.listen_address(), "0.0.0.0:3900");
}

#[test]
fn spawn_without_rpc_urls_is_refused() {
    let cfg = settings(vec![]);
    assert_eq!(
        ProofCoordinator::spawn(&cfg, vec![ProverType::Exec]),
        Err(ProofCoordinatorError::Custom("no rpc urls present!".to_string()))
    );
}

#[test]
fn listener_goes_on_after_every_accept() {
    assert_eq!(ProofCoordinator::handle_listens(Ok(())), Accepted::Serve);
    assert_eq!(
        ProofCoordinator::handle_listens(Err("too many open files".to_string())),
        Accepted::Report { reason: "too many open files".to_string() }
    );
}

#[test]
fn calls_are_answered_with_done() {
    assert_eq!(ProofCoordinator::handle_call(ProofCordInMessage::Listen), ProofCordOutMessage::Done);
}

#[test]
fn decimal_numerals() {
    assert_eq!(decimal(0), "0");
    assert_eq!(decimal(9), "9");
    assert_eq!(decimal(10), "10");
    assert_eq!(decimal(1042), "1042");
    assert_eq!(decimal(u64::MAX), "18446744073709551615");
    assert_eq!(decimal_u128(u128::MAX), "340282366920938463463374607431768211455");
    assert_eq!(join("ab", "cd"), "abcd");
    assert_eq!(join("", ""), "");
}
