use proof_coordinator::calldata::Value;
use proof_coordinator::prover_type::{ProofCalldata, ProverType};
use proof_coordinator::u256::U256;

#[test]
fn all_lists_the_four_proving_systems_in_order() {
    assert_eq!(
        ProverType::all(),
        vec![ProverType::Exec, ProverType::RISC0, ProverType::SP1, ProverType::Pico]
    );
}

#[test]
fn all_can_be_iterated() {
    let names: Vec<String> = ProverType::all().into_iter().map(|kind| kind.name()).collect();
    assert_eq!(names, vec!["Exec", "RISC0", "SP1", "Pico"]);
}

#[test]
fn verifier_getters_match_the_contract() {
    assert_eq!(ProverType::RISC0.verifier_getter(), Some("R0VERIFIER()".to_string()));
    assert_eq!(ProverType::SP1.verifier_getter(), Some("SP1VERIFIER()".to_string()));
    assert_eq!(ProverType::Pico.verifier_getter(), Some("PICOVERIFIER()".to_string()));
}

#[test]
fn exec_and_tdx_have_no_verifier_getter() {
    assert_eq!(ProverType::Exec.verifier_getter(), None);
    assert_eq!(ProverType::TDX.verifier_getter(), None);
}

#[test]
fn risc0_empty_calldata_is_seal_then_image_id() {
    assert_eq!(
        ProverType::RISC0.empty_calldata(),
        vec![Value::Bytes(vec![]), Value::FixedBytes(vec![0u8; 32])]
    );
}

#[test]
fn sp1_empty_calldata_is_vkey_then_proof_bytes() {
    assert_eq!(
        ProverType::SP1.empty_calldata(),
        vec![Value::FixedBytes(vec![0u8; 32]), Value::Bytes(vec![])]
    );
}

#[test]
fn pico_empty_calldata_is_vkey_then_eight_zero_words() {
    let calldata = ProverType::Pico.empty_calldata();
    assert_eq!(calldata.len(), 2);
    assert_eq!(calldata[0], Value::FixedBytes(vec![0u8; 32]));
    match &calldata[1] {
        Value::FixedArray(words) => {
            assert_eq!(words.len(), 8);
            for word in words {
                assert_eq!(*word, Value::Uint(U256 { hi: 0, lo: 0 }));
            }
        }
        other => panic!("expected a fixed array, got {:?}", other),
    }
}

#[test]
fn names_are_those_of_the_proving_systems() {
    assert_eq!(ProverType::Exec.name(), "Exec");
    assert_eq!(ProverType::RISC0.name(), "RISC0");
    assert_eq!(ProverType::SP1.name(), "SP1");
    assert_eq!(ProverType::Pico.name(), "Pico");
    assert_eq!(ProverType::TDX.name(), "TDX");
}

#[test]
fn only_tdx_needs_setup() {
    assert!(ProverType::TDX.needs_setup());
    for kind in ProverType::all() {
        assert!(!kind.needs_setup());
    }
}

#[test]
fn proof_calldata_compares_by_system_and_values() {
    let a = ProofCalldata {
        prover_type: ProverType::SP1,
        calldata: ProverType::SP1.empty_calldata(),
    };
    let b = ProofCalldata {
        prover_type: ProverType::SP1,
        calldata: vec![Value::FixedBytes(vec![0u8; 32]), Value::Bytes(vec![])],
    };
    let c = ProofCalldata {
        prover_type: ProverType::RISC0,
        calldata: ProverType::RISC0.empty_calldata(),
    };
    assert_eq!(a, b);
    assert_ne!(a, c);
}

#[test]
fn values_are_cloned_in_depth() {
    let nested = Value::Tuple(vec![
        Value::Address([7; 20]),
        Value::Array(vec![Value::Uint(U256 { hi: 1, lo: 2 }), Value::Bool(true)]),
        Value::FixedArray(vec![Value::Bytes(vec![1, 2, 3]), Value::FixedBytes(vec![4])]),
        Value::String("seal".to_string()),
        Value::Int(U256 { hi: 0, lo: 5 }),
    ]);
    assert_eq!(nested.clone(), nested);
    let calldata = ProofCalldata { prover_type: ProverType::Pico, calldata: vec![nested] };
    assert_eq!(calldata.clone(), calldata);
}
