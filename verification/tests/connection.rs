use proof_coordinator::config::ProofCoordinatorState;
use proof_coordinator::connection::handle_connection;
use proof_coordinator::errors::{ProofCoordinatorError, RollupStoreError};
use proof_coordinator::exchange::{
    Action, Assembly, BlobsBundle, Conclusion, Event, RequestKind, SendError, Stage,
};
use proof_coordinator::messages::{BatchProof, Block, ProofData, ProverInputData};
use proof_coordinator::proof_store::ProofStore;
use proof_coordinator::prover_type::ProverType;

fn coordinator(needed: Vec<ProverType>, validium: bool) -> ProofCoordinatorState {
    ProofCoordinatorState {
        listen_ip: "127.0.0.1".to_string(),
        port: 3900,
        on_chain_proposer_address: [0x11; 20],
        elasticity_multiplier: 2,
        rpc_url: "http://localhost:8545".to_string(),
        l1_private_key: [0xAB; 32],
        validium,
        needed_proof_types: needed,
    }
}

/// Feeds the events to a fresh handler, one after the other, and returns the
/// stage that it ends in and every action that it asked for.
fn run(state: &ProofCoordinatorState, events: Vec<Event>) -> (Stage, Vec<Action>) {
    let mut stage = Stage::AwaitingRequest;
    let mut actions = Vec::new();
    for event in events {
        let (next, action) = handle_connection(state, stage, event);
        stage = next;
        actions.push(action);
    }
    (stage, actions)
}

fn failed(request: RequestKind, error: ProofCoordinatorError) -> Action {
    Action::Close { conclusion: Conclusion::HandlerFailed { request, error } }
}

fn block(number: u64) -> Block {
    Block { number, header: vec![0xA0, number as u8], body: vec![0xB0, number as u8] }
}

fn header_of(number: u64) -> Event {
    Event::Header(Ok(Some(vec![0xA0, number as u8])))
}

fn body_of(number: u64) -> Event {
    Event::Body(Ok(Some(vec![0xB0, number as u8])))
}

/// The events of a batch request up to the point where both blocks of batch 42
/// have been fetched.
fn request_with_two_blocks() -> Vec<Event> {
    vec![
        Event::Received(Ok(ProofData::batch_request())),
        Event::LatestVerified(Ok(41)),
        Event::LatestVerified(Ok(41)),
        Event::BatchChecked(Ok(true)),
        Event::BlockNumbers(Ok(Some(vec![100, 101]))),
        header_of(100),
        body_of(100),
        header_of(101),
        body_of(101),
    ]
}

#[test]
fn happy_path_batch_request() {
    let state = coordinator(vec![ProverType::RISC0, ProverType::SP1], false);
    let mut events = request_with_two_blocks();
    events.push(Event::Witness(Ok(vec![0x77, 0x78])));
    events.push(Event::Blobs(Ok(Some(vec![vec![1, 2, 3]]))));
    events.push(Event::Bundle(Ok(BlobsBundle {
        commitments: vec![[0xC1; 48], [0xC2; 48]],
        proofs: vec![[0xD1; 48], [0xD2; 48]],
    })));
    events.push(Event::Sent(Ok(())));
    let (stage, actions) = run(&state, events);

    let expected_input = ProverInputData {
        blocks: vec![block(100), block(101)],
        db: vec![0x77, 0x78],
        elasticity_multiplier: 2,
        blob_commitment: [0xC2; 48],
        blob_proof: [0xD2; 48],
    };
    assert_eq!(
        actions,
        vec![
            Action::QueryLatestVerified { prover_type: ProverType::RISC0 },
            Action::QueryLatestVerified { prover_type: ProverType::SP1 },
            Action::CheckBatch { batch_number: 42 },
            Action::FetchBlockNumbers { batch_number: 42 },
            Action::FetchHeader { block_number: 100 },
            Action::FetchBody { block_number: 100 },
            Action::FetchHeader { block_number: 101 },
            Action::FetchBody { block_number: 101 },
            Action::GenerateWitness { blocks: vec![block(100), block(101)] },
            Action::FetchBlobs { batch_number: 42 },
            Action::CreateBundle { blobs: vec![vec![1, 2, 3]] },
            Action::Send {
                message: ProofData::BatchResponse {
                    batch_number: Some(42),
                    input: Some(expected_input)
                }
            },
            Action::Close { conclusion: Conclusion::Served { request: RequestKind::BatchRequest } },
        ]
    );
    assert_eq!(stage, Stage::Closed);
}

#[test]
fn no_work_available() {
    let state = coordinator(vec![ProverType::RISC0, ProverType::SP1], false);
    let (stage, actions) = run(
        &state,
        vec![
            Event::Received(Ok(ProofData::BatchRequest)),
            Event::LatestVerified(Ok(99)),
            Event::LatestVerified(Ok(99)),
            Event::BatchChecked(Ok(false)),
        ],
    );
    assert_eq!(actions[2], Action::CheckBatch { batch_number: 100 });
    assert_eq!(
        actions[3],
        Action::Send { message: ProofData::BatchResponse { batch_number: None, input: None } }
    );
    assert_eq!(stage, Stage::Replying { request: RequestKind::BatchRequest });
}

#[test]
fn mixed_kind_min_rule() {
    let state = coordinator(vec![ProverType::RISC0, ProverType::SP1], false);
    let (_, actions) = run(
        &state,
        vec![
            Event::Received(Ok(ProofData::BatchRequest)),
            Event::LatestVerified(Ok(50)),
            Event::LatestVerified(Ok(48)),
        ],
    );
    assert_eq!(actions[2], Action::CheckBatch { batch_number: 49 });
}

#[test]
fn validium_input_has_zero_blob_artifacts() {
    let state = coordinator(vec![ProverType::RISC0, ProverType::SP1], true);
    let mut events = request_with_two_blocks();
    events.push(Event::Witness(Ok(vec![0x77])));
    let (stage, actions) = run(&state, events);
    match actions.last().unwrap() {
        Action::Send { message: ProofData::BatchResponse { batch_number, input: Some(input) } } => {
            assert_eq!(*batch_number, Some(42));
            assert_eq!(input.blob_commitment, [0u8; 48]);
            assert_eq!(input.blob_proof, [0u8; 48]);
            assert_eq!(input.blocks, vec![block(100), block(101)]);
            assert_eq!(input.db, vec![0x77]);
            assert_eq!(input.elasticity_multiplier, 2);
        }
        other => panic!("expected a batch response, got {:?}", other),
    }
    assert_eq!(stage, Stage::Replying { request: RequestKind::BatchRequest });
}

#[test]
fn every_reply_is_well_formed() {
    let state = coordinator(vec![ProverType::Exec], true);
    let runs = vec![
        vec![
            Event::Received(Ok(ProofData::BatchRequest)),
            Event::LatestVerified(Ok(0)),
            Event::BatchChecked(Ok(false)),
        ],
        vec![
            Event::Received(Ok(ProofData::BatchRequest)),
            Event::LatestVerified(Ok(0)),
            Event::BatchChecked(Ok(true)),
            Event::BlockNumbers(Ok(Some(vec![5]))),
            header_of(5),
            body_of(5),
            Event::Witness(Ok(vec![])),
        ],
    ];
    for events in runs {
        let (_, actions) = run(&state, events);
        match actions.last().unwrap() {
            Action::Send { message } => {
                assert!(message.is_well_formed());
                match message {
                    ProofData::BatchResponse { batch_number, input } => {
                        assert_eq!(batch_number.is_some(), input.is_some())
                    }
                    other => panic!("expected a batch response, got {:?}", other),
                }
            }
            other => panic!("expected a reply, got {:?}", other),
        }
    }
}

#[test]
fn mixed_batch_response_is_malformed() {
    let mixed = ProofData::BatchResponse { batch_number: Some(1), input: None };
    assert!(!mixed.is_well_formed());
    assert!(ProofData::empty_batch_response().is_well_formed());
    assert!(ProofData::proof_submit_ack(3).is_well_formed());
}

#[test]
fn blocks_follow_the_batch_index_even_when_it_does_not_ascend() {
    let state = coordinator(vec![ProverType::Exec], true);
    let (_, actions) = run(
        &state,
        vec![
            Event::Received(Ok(ProofData::BatchRequest)),
            Event::LatestVerified(Ok(2)),
            Event::BatchChecked(Ok(true)),
            Event::BlockNumbers(Ok(Some(vec![9, 7, 8]))),
            header_of(9),
            body_of(9),
            header_of(7),
            body_of(7),
            header_of(8),
            body_of(8),
            Event::Witness(Ok(vec![1])),
        ],
    );
    assert_eq!(actions[3], Action::FetchHeader { block_number: 9 });
    assert_eq!(actions[5], Action::FetchHeader { block_number: 7 });
    assert_eq!(actions[7], Action::FetchHeader { block_number: 8 });
    match actions.last().unwrap() {
        Action::Send { message: ProofData::BatchResponse { input: Some(input), .. } } => {
            let numbers: Vec<u64> = input.blocks.iter().map(|b| b.number).collect();
            assert_eq!(numbers, vec![9, 7, 8]);
        }
        other => panic!("expected a batch response, got {:?}", other),
    }
}

#[test]
fn proof_submit_is_written_once_and_acknowledged_twice() {
    let state = coordinator(vec![ProverType::SP1], false);
    let mut store = ProofStore::new();
    let mut replies = Vec::new();
    let mut snapshots = Vec::new();
    for _client in 0..2 {
        let submitted = BatchProof { prover_type: ProverType::SP1, bytes: vec![0xAA] };
        let mut stage = Stage::AwaitingRequest;
        let mut event = Event::Received(Ok(ProofData::proof_submit(7, submitted)));
        loop {
            let (next, action) = handle_connection(&state, stage, event);
            stage = next;
            event = match action {
                Action::CheckProof { prover_type, batch_number } => {
                    Event::ProofChecked(Ok(store.has(prover_type, batch_number)))
                }
                Action::WriteProof { batch_number, batch_proof } => {
                    store.put(batch_number, batch_proof);
                    Event::ProofWritten(Ok(()))
                }
                Action::Send { message } => {
                    replies.push(message);
                    Event::Sent(Ok(()))
                }
                Action::Close { conclusion } => {
                    assert_eq!(conclusion, Conclusion::Served { request: RequestKind::ProofSubmit });
                    break;
                }
                other => panic!("unexpected action {:?}", other),
            };
        }
        snapshots.push(store.clone());
    }
    assert_eq!(
        replies,
        vec![
            ProofData::ProofSubmitACK { batch_number: 7 },
            ProofData::ProofSubmitACK { batch_number: 7 }
        ]
    );
    assert_eq!(snapshots[0], snapshots[1]);
    assert_eq!(store.entries.len(), 1);
    assert_eq!(store.get(ProverType::SP1, 7).unwrap().bytes, vec![0xAA]);
}

#[test]
fn known_proof_is_not_written_again() {
    let state = coordinator(vec![ProverType::SP1], false);
    let submitted = BatchProof { prover_type: ProverType::SP1, bytes: vec![0xAA] };
    let (_, actions) = run(
        &state,
        vec![
            Event::Received(Ok(ProofData::proof_submit(7, submitted))),
            Event::ProofChecked(Ok(true)),
        ],
    );
    assert_eq!(
        actions,
        vec![
            Action::CheckProof { prover_type: ProverType::SP1, batch_number: 7 },
            Action::Send { message: ProofData::ProofSubmitACK { batch_number: 7 } },
        ]
    );
}

#[test]
fn tdx_setup_success() {
    let state = coordinator(vec![ProverType::TDX], false);
    let payload = vec![0xBE, 0xEF, 0x00, 0x0F];
    let (stage, actions) = run(
        &state,
        vec![
            Event::Received(Ok(ProofData::prover_setup(ProverType::TDX, payload.clone()))),
            Event::QuotePrepared(Ok(())),
            Event::KeyRegistered(Ok(())),
            Event::Sent(Ok(())),
        ],
    );
    assert_eq!(
        actions,
        vec![
            Action::PrepareQuote {
                rpc_url: "http://localhost:8545".to_string(),
                private_key: "ab".repeat(32),
                payload: "beef000f".to_string(),
            },
            Action::RegisterKey {
                private_key: [0xAB; 32],
                on_chain_proposer_address: [0x11; 20],
                payload,
            },
            Action::Send { message: ProofData::ProverSetupACK },
            Action::Close { conclusion: Conclusion::Served { request: RequestKind::ProverSetup } },
        ]
    );
    assert_eq!(stage, Stage::Closed);
}

#[test]
fn setup_of_other_kinds_is_acknowledged_at_once() {
    let state = coordinator(vec![ProverType::SP1], false);
    for kind in ProverType::all() {
        let (stage, actions) =
            run(&state, vec![Event::Received(Ok(ProofData::prover_setup(kind, vec![1, 2])))]);
        assert_eq!(actions, vec![Action::Send { message: ProofData::ProverSetupACK }]);
        assert_eq!(stage, Stage::Replying { request: RequestKind::ProverSetup });
    }
}

#[test]
fn failed_quote_preparation_gives_custom_error_and_no_ack() {
    let state = coordinator(vec![ProverType::TDX], false);
    let (stage, actions) = run(
        &state,
        vec![
            Event::Received(Ok(ProofData::prover_setup(ProverType::TDX, vec![1]))),
            Event::QuotePrepared(Err("boom".to_string())),
        ],
    );
    assert_eq!(
        actions[1],
        failed(
            RequestKind::ProverSetup,
            ProofCoordinatorError::Custom("Could not setup TDX key boom".to_string())
        )
    );
    assert_eq!(stage, Stage::Closed);
}

#[test]
fn failed_key_registration_is_passed_on() {
    let state = coordinator(vec![ProverType::TDX], false);
    let (_, actions) = run(
        &state,
        vec![
            Event::Received(Ok(ProofData::prover_setup(ProverType::TDX, vec![1]))),
            Event::QuotePrepared(Ok(())),
            Event::KeyRegistered(Err(ProofCoordinatorError::EthClientError("nonce".to_string()))),
        ],
    );
    assert_eq!(
        actions[2],
        failed(
            RequestKind::ProverSetup,
            ProofCoordinatorError::EthClientError("nonce".to_string())
        )
    );
}

#[test]
fn malformed_request_gets_no_reply() {
    let state = coordinator(vec![ProverType::SP1], false);
    let (stage, actions) =
        run(&state, vec![Event::Received(Err("expected value at line 1".to_string()))]);
    assert_eq!(
        actions,
        vec![Action::Close {
            conclusion: Conclusion::ParseFailure { reason: "expected value at line 1".to_string() }
        }]
    );
    assert_eq!(stage, Stage::Closed);
}

#[test]
fn messages_of_the_server_are_invalid_requests() {
    let state = coordinator(vec![ProverType::SP1], false);
    let not_requests = vec![
        ProofData::prover_setup_ack(),
        ProofData::empty_batch_response(),
        ProofData::proof_submit_ack(3),
    ];
    for message in not_requests {
        let (stage, actions) = run(&state, vec![Event::Received(Ok(message))]);
        assert_eq!(actions, vec![Action::Close { conclusion: Conclusion::InvalidRequest }]);
        assert_eq!(stage, Stage::Closed);
    }
}

#[test]
fn read_failure_is_a_connection_error() {
    let state = coordinator(vec![ProverType::SP1], false);
    let (_, actions) = run(&state, vec![Event::ReadFailed("reset by peer".to_string())]);
    assert_eq!(
        actions,
        vec![Action::Close {
            conclusion: Conclusion::ConnectionFailed {
                error: ProofCoordinatorError::ConnectionError("reset by peer".to_string())
            }
        }]
    );
}

#[test]
fn failed_chain_query_is_an_internal_error() {
    let state = coordinator(vec![ProverType::RISC0, ProverType::SP1], false);
    let (_, actions) = run(
        &state,
        vec![
            Event::Received(Ok(ProofData::BatchRequest)),
            Event::LatestVerified(Ok(3)),
            Event::LatestVerified(Err("rpc timeout".to_string())),
        ],
    );
    assert_eq!(
        actions[2],
        failed(
            RequestKind::BatchRequest,
            ProofCoordinatorError::InternalError("rpc timeout".to_string())
        )
    );
}

#[test]
fn request_without_needed_kinds_is_an_internal_error() {
    let state = coordinator(vec![], false);
    let (_, actions) = run(&state, vec![Event::Received(Ok(ProofData::BatchRequest))]);
    assert_eq!(
        actions[0],
        failed(
            RequestKind::BatchRequest,
            ProofCoordinatorError::InternalError("no proof type is needed".to_string())
        )
    );
}

#[test]
fn batch_number_out_of_range_is_an_internal_error() {
    let state = coordinator(vec![ProverType::SP1], false);
    let (_, actions) = run(
        &state,
        vec![Event::Received(Ok(ProofData::BatchRequest)), Event::LatestVerified(Ok(u64::MAX))],
    );
    assert_eq!(
        actions[1],
        failed(
            RequestKind::BatchRequest,
            ProofCoordinatorError::InternalError(
                "the next batch number is out of range".to_string()
            )
        )
    );
}

#[test]
fn rollup_store_failures_are_passed_on() {
    let state = coordinator(vec![ProverType::SP1], false);
    let (_, actions) = run(
        &state,
        vec![
            Event::Received(Ok(ProofData::BatchRequest)),
            Event::LatestVerified(Ok(3)),
            Event::BatchChecked(Err(RollupStoreError::ReadError)),
        ],
    );
    assert_eq!(
        actions[2],
        failed(
            RequestKind::BatchRequest,
            ProofCoordinatorError::FailedAccessingRollupStore(RollupStoreError::ReadError)
        )
    );
    let (_, actions) = run(
        &state,
        vec![
            Event::Received(Ok(ProofData::BatchRequest)),
            Event::LatestVerified(Ok(3)),
            Event::BatchChecked(Ok(true)),
            Event::BlockNumbers(Err(RollupStoreError::DecodeError)),
        ],
    );
    assert_eq!(
        actions[3],
        failed(
            RequestKind::BatchRequest,
            ProofCoordinatorError::FailedAccessingRollupStore(RollupStoreError::DecodeError)
        )
    );
}

#[test]
fn unknown_batch_is_not_found() {
    let state = coordinator(vec![ProverType::SP1], false);
    let (_, actions) = run(
        &state,
        vec![
            Event::Received(Ok(ProofData::BatchRequest)),
            Event::LatestVerified(Ok(41)),
            Event::BatchChecked(Ok(true)),
            Event::BlockNumbers(Ok(None)),
        ],
    );
    assert_eq!(
        actions[3],
        failed(
            RequestKind::BatchRequest,
            ProofCoordinatorError::ItemNotFoundInStore(
                "Batch number 42 not found in store".to_string()
            )
        )
    );
}

#[test]
fn batch_without_blocks_is_not_served() {
    let state = coordinator(vec![ProverType::SP1], false);
    let (_, actions) = run(
        &state,
        vec![
            Event::Received(Ok(ProofData::BatchRequest)),
            Event::LatestVerified(Ok(1041)),
            Event::BatchChecked(Ok(true)),
            Event::BlockNumbers(Ok(Some(vec![]))),
        ],
    );
    assert_eq!(
        actions[3],
        failed(
            RequestKind::BatchRequest,
            ProofCoordinatorError::ItemNotFoundInStore(
                "Batch number 1042 has no blocks in store".to_string()
            )
        )
    );
}

#[test]
fn missing_header_or_body_is_storage_data_is_none() {
    let state = coordinator(vec![ProverType::SP1], false);
    let mut events = vec![
        Event::Received(Ok(ProofData::BatchRequest)),
        Event::LatestVerified(Ok(41)),
        Event::BatchChecked(Ok(true)),
        Event::BlockNumbers(Ok(Some(vec![100, 101]))),
        Event::Header(Ok(None)),
    ];
    let (stage, actions) = run(&state, events);
    assert_eq!(
        actions[4],
        failed(RequestKind::BatchRequest, ProofCoordinatorError::StorageDataIsNone)
    );
    assert_eq!(stage, Stage::Closed);

    events = vec![
        Event::Received(Ok(ProofData::BatchRequest)),
        Event::LatestVerified(Ok(41)),
        Event::BatchChecked(Ok(true)),
        Event::BlockNumbers(Ok(Some(vec![100, 101]))),
        header_of(100),
        body_of(100),
        header_of(101),
        Event::Body(Ok(None)),
    ];
    let (_, actions) = run(&state, events);
    assert_eq!(
        actions[7],
        failed(RequestKind::BatchRequest, ProofCoordinatorError::StorageDataIsNone)
    );
}

#[test]
fn blockchain_store_failures_are_passed_on() {
    let state = coordinator(vec![ProverType::SP1], false);
    let (_, actions) = run(
        &state,
        vec![
            Event::Received(Ok(ProofData::BatchRequest)),
            Event::LatestVerified(Ok(41)),
            Event::BatchChecked(Ok(true)),
            Event::BlockNumbers(Ok(Some(vec![100]))),
            Event::Header(Err("disk".to_string())),
        ],
    );
    assert_eq!(
        actions[4],
        failed(
            RequestKind::BatchRequest,
            ProofCoordinatorError::FailedAccessingStore("disk".to_string())
        )
    );
    let (_, actions) = run(
        &state,
        vec![
            Event::Received(Ok(ProofData::BatchRequest)),
            Event::LatestVerified(Ok(41)),
            Event::BatchChecked(Ok(true)),
            Event::BlockNumbers(Ok(Some(vec![100]))),
            header_of(100),
            Event::Body(Err("disk".to_string())),
        ],
    );
    assert_eq!(
        actions[5],
        failed(
            RequestKind::BatchRequest,
            ProofCoordinatorError::FailedAccessingStore("disk".to_string())
        )
    );
}

#[test]
fn failed_witness_generation_is_passed_on() {
    let state = coordinator(vec![ProverType::RISC0, ProverType::SP1], false);
    let mut events = request_with_two_blocks();
    events.push(Event::Witness(Err("state root mismatch".to_string())));
    let (_, actions) = run(&state, events);
    assert_eq!(
        *actions.last().unwrap(),
        failed(
            RequestKind::BatchRequest,
            ProofCoordinatorError::FailedToCreateExecutionWitness(
                "state root mismatch".to_string()
            )
        )
    );
}

#[test]
fn missing_blob_is_reported_with_the_batch_number() {
    let state = coordinator(vec![ProverType::RISC0, ProverType::SP1], false);
    let mut events = request_with_two_blocks();
    events.push(Event::Witness(Ok(vec![1])));
    events.push(Event::Blobs(Ok(None)));
    let (_, actions) = run(&state, events);
    assert_eq!(
        *actions.last().unwrap(),
        failed(RequestKind::BatchRequest, ProofCoordinatorError::MissingBlob(42))
    );
}

#[test]
fn bundle_without_commitment_or_proof_is_a_missing_blob() {
    let state = coordinator(vec![ProverType::RISC0, ProverType::SP1], false);
    let bundles = vec![
        BlobsBundle { commitments: vec![], proofs: vec![] },
        BlobsBundle { commitments: vec![[1; 48]], proofs: vec![] },
        BlobsBundle { commitments: vec![], proofs: vec![[1; 48]] },
    ];
    for bundle in bundles {
        let mut events = request_with_two_blocks();
        events.push(Event::Witness(Ok(vec![1])));
        events.push(Event::Blobs(Ok(Some(vec![]))));
        events.push(Event::Bundle(Ok(bundle)));
        let (_, actions) = run(&state, events);
        assert_eq!(
            *actions.last().unwrap(),
            failed(RequestKind::BatchRequest, ProofCoordinatorError::MissingBlob(42))
        );
    }
}

#[test]
fn failed_bundle_and_blob_fetch_are_passed_on() {
    let state = coordinator(vec![ProverType::RISC0, ProverType::SP1], false);
    let mut events = request_with_two_blocks();
    events.push(Event::Witness(Ok(vec![1])));
    events.push(Event::Blobs(Err(RollupStoreError::Custom("gone".to_string()))));
    let (_, actions) = run(&state, events);
    assert_eq!(
        *actions.last().unwrap(),
        failed(
            RequestKind::BatchRequest,
            ProofCoordinatorError::FailedAccessingRollupStore(RollupStoreError::Custom(
                "gone".to_string()
            ))
        )
    );
    let mut events = request_with_two_blocks();
    events.push(Event::Witness(Ok(vec![1])));
    events.push(Event::Blobs(Ok(Some(vec![vec![9]]))));
    events.push(Event::Bundle(Err("kzg".to_string())));
    let (_, actions) = run(&state, events);
    assert_eq!(
        *actions.last().unwrap(),
        failed(RequestKind::BatchRequest, ProofCoordinatorError::BlobsBundleError("kzg".to_string()))
    );
}

#[test]
fn proof_store_failures_are_state_errors() {
    let state = coordinator(vec![ProverType::SP1], false);
    let submitted = BatchProof { prover_type: ProverType::SP1, bytes: vec![0xAA] };
    let (_, actions) = run(
        &state,
        vec![
            Event::Received(Ok(ProofData::proof_submit(7, submitted.clone()))),
            Event::ProofChecked(Err("no dir".to_string())),
        ],
    );
    assert_eq!(
        actions[1],
        failed(RequestKind::ProofSubmit, ProofCoordinatorError::StateError("no dir".to_string()))
    );
    let (_, actions) = run(
        &state,
        vec![
            Event::Received(Ok(ProofData::proof_submit(7, submitted.clone()))),
            Event::ProofChecked(Ok(false)),
            Event::ProofWritten(Err("full".to_string())),
        ],
    );
    assert_eq!(actions[1], Action::WriteProof { batch_number: 7, batch_proof: submitted });
    assert_eq!(
        actions[2],
        failed(RequestKind::ProofSubmit, ProofCoordinatorError::StateError("full".to_string()))
    );
}

#[test]
fn reply_that_cannot_be_sent_fails_the_handler() {
    let state = coordinator(vec![ProverType::SP1], false);
    let (_, actions) = run(
        &state,
        vec![
            Event::Received(Ok(ProofData::prover_setup(ProverType::SP1, vec![]))),
            Event::Sent(Err(SendError::Connection("broken pipe".to_string()))),
        ],
    );
    assert_eq!(
        actions[1],
        failed(
            RequestKind::ProverSetup,
            ProofCoordinatorError::ConnectionError("broken pipe".to_string())
        )
    );
    let (_, actions) = run(
        &state,
        vec![
            Event::Received(Ok(ProofData::prover_setup(ProverType::SP1, vec![]))),
            Event::Sent(Err(SendError::Encoding("recursion limit".to_string()))),
        ],
    );
    assert_eq!(
        actions[1],
        failed(
            RequestKind::ProverSetup,
            ProofCoordinatorError::JsonError("recursion limit".to_string())
        )
    );
}

#[test]
fn events_out_of_turn_close_the_exchange() {
    let state = coordinator(vec![ProverType::SP1], false);
    let out_of_turn = vec![Action::Close { conclusion: Conclusion::OutOfTurn }];
    let (stage, actions) = run(&state, vec![Event::Sent(Ok(()))]);
    assert_eq!(actions, out_of_turn);
    assert_eq!(stage, Stage::Closed);
    let (_, actions) = run(
        &state,
        vec![Event::Received(Ok(ProofData::BatchRequest)), Event::BatchChecked(Ok(true))],
    );
    assert_eq!(actions[1], Action::Close { conclusion: Conclusion::OutOfTurn });
    let (_, action) = handle_connection(&state, Stage::Closed, Event::Sent(Ok(())));
    assert_eq!(action, Action::Close { conclusion: Conclusion::OutOfTurn });
    // A stage that no exchange reaches: more blocks than the batch lists.
    let overfull = Stage::FetchingHeader {
        assembly: Assembly { batch_number: 1, block_numbers: vec![5], blocks: vec![block(5)] },
    };
    let (_, action) = handle_connection(&state, overfull, header_of(6));
    assert_eq!(action, Action::Close { conclusion: Conclusion::OutOfTurn });
}

#[test]
fn blocks_are_cloned_with_their_bytes() {
    let original = block(100);
    let copy = original.clone();
    assert_eq!(copy, original);
    assert_eq!(copy, Block { number: 100, header: vec![0xA0, 100], body: vec![0xB0, 100] });
}
