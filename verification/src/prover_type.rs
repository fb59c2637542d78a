//! The proving systems that the coordinator knows, and what binds each of them
//! to the on-chain proposer contract.

use crate::calldata::{value_views, Value, ValueView};
use crate::u256::U256;
use vstd::prelude::*;

verus! {

/// Identifies a proving system.
///
/// `TDX` is an attestation scheme rather than a zero-knowledge prover: it is the
/// one kind whose clients register a key with the contract before they work.
#[derive(Debug, Clone, Copy, Hash, PartialEq, Eq, Structural)]
pub enum ProverType {
    Exec,
    RISC0,
    SP1,
    Pico,
    TDX,
}

impl ProverType {
    /// The proving systems in their canonical order.
    pub open spec fn spec_all() -> Seq<ProverType> {
        seq![ProverType::Exec, ProverType::RISC0, ProverType::SP1, ProverType::Pico]
    }

    /// The name of the getter that yields the address of this system's
    /// verifier contract, if the proposer contract has one.
    pub open spec fn spec_verifier_getter(self) -> Option<Seq<char>> {
        match self {
            ProverType::RISC0 => Some("R0VERIFIER()"@),
            ProverType::SP1 => Some("SP1VERIFIER()"@),
            ProverType::Pico => Some("PICOVERIFIER()"@),
            ProverType::Exec | ProverType::TDX => None,
        }
    }

    /// Whether the proposer contract verifies batches of this system with a
    /// function of its own, and so expects arguments of a shape of its own.
    pub open spec fn spec_has_calldata(&self) -> bool {
        *self == ProverType::RISC0 || *self == ProverType::SP1 || *self == ProverType::Pico
    }

    /// The arguments that the proposer contract expects for this system where
    /// there is no proof to pass: position by position, the empty value of
    /// the type that the contract's function declares.
    pub open spec fn spec_empty_calldata(self) -> Seq<ValueView>
        recommends
            self.spec_has_calldata(),
    {
        match self {
            // seal, image id
            ProverType::RISC0 => seq![
                ValueView::Bytes(Seq::empty()),
                ValueView::FixedBytes(Seq::new(32, |i: int| 0u8)),
            ],
            // verification key, proof bytes
            ProverType::SP1 => seq![
                ValueView::FixedBytes(Seq::new(32, |i: int| 0u8)),
                ValueView::Bytes(Seq::empty()),
            ],
            // verification key, proof
            ProverType::Pico => seq![
                ValueView::FixedBytes(Seq::new(32, |i: int| 0u8)),
                ValueView::FixedArray(Seq::new(8, |i: int| ValueView::Uint(0))),
            ],
            ProverType::Exec | ProverType::TDX => Seq::empty(),
        }
    }

    /// The name of this system.
    pub open spec fn spec_name(self) -> Seq<char> {
        match self {
            ProverType::Exec => "Exec"@,
            ProverType::RISC0 => "RISC0"@,
            ProverType::SP1 => "SP1"@,
            ProverType::Pico => "Pico"@,
            ProverType::TDX => "TDX"@,
        }
    }

    /// Whether a client of this kind has to run a setup exchange before it
    /// can serve.
    pub open spec fn spec_needs_setup(&self) -> bool {
        *self == ProverType::TDX
    }

    /// Used to iterate through all the possible proving systems.
    pub fn all() -> (kinds: Vec<ProverType>)
        ensures
            kinds@ == Self::spec_all(),
    {
        let mut kinds: Vec<ProverType> = Vec::new();
        kinds.push(ProverType::Exec);
        kinds.push(ProverType::RISC0);
        kinds.push(ProverType::SP1);
        kinds.push(ProverType::Pico);
        kinds
    }

    #[verifier::when_used_as_spec(spec_has_calldata)]
    pub fn has_calldata(&self) -> (has: bool)
        ensures
            has == self.spec_has_calldata(),
    {
        match self {
            ProverType::RISC0 | ProverType::SP1 | ProverType::Pico => true,
            ProverType::Exec | ProverType::TDX => false,
        }
    }

    /// Used to get the empty calldata structure for that specific prover.
    /// It has to match the function of the proposer contract that verifies a
    /// batch.
    pub fn empty_calldata(&self) -> (calldata: Vec<Value>)
        requires
            self.has_calldata(),
        ensures
            value_views(calldata@) == self.spec_empty_calldata(),
    {
        let mut calldata: Vec<Value> = Vec::new();
        match self {
            ProverType::RISC0 => {
                calldata.push(Value::Bytes(Vec::new()));
                calldata.push(Value::FixedBytes(zero_bytes(32)));
            },
            ProverType::SP1 => {
                calldata.push(Value::FixedBytes(zero_bytes(32)));
                calldata.push(Value::Bytes(Vec::new()));
            },
            ProverType::Pico => {
                let mut words: Vec<Value> = Vec::new();
                let mut i: usize = 0;
                while i < 8
                    invariant
                        i <= 8,
                        words@.len() == i,
                        forall|j: int| 0 <= j < i ==> words@[j]@ == ValueView::Uint(0),
                    decreases 8 - i,
                {
                    words.push(Value::Uint(U256::zero()));
                    i = i + 1;
                }
                let array = Value::FixedArray(words);
                assert(array@ == ValueView::FixedArray(Seq::new(8, |i: int| ValueView::Uint(0))))
                    by {
                    assert(array@->FixedArray_0 =~= Seq::new(8, |i: int| ValueView::Uint(0)));
                }
                calldata.push(Value::FixedBytes(zero_bytes(32)));
                calldata.push(array);
            },
            // Left out by the precondition: these are not verified on chain.
            ProverType::Exec | ProverType::TDX => {},
        }
        calldata
    }

    pub fn verifier_getter(&self) -> (getter: Option<String>)
        ensures
            getter is Some == self.spec_verifier_getter() is Some,
            getter matches Some(name) ==> Some(name@) == self.spec_verifier_getter(),
    {
        // These values have to match the proposer contract.
        match self {
            ProverType::RISC0 => Some("R0VERIFIER()".to_string()),
            ProverType::SP1 => Some("SP1VERIFIER()".to_string()),
            ProverType::Pico => Some("PICOVERIFIER()".to_string()),
            ProverType::Exec | ProverType::TDX => None,
        }
    }

    /// The name of this system, as it is shown.
    pub fn name(&self) -> (name: String)
        ensures
            name@ == self.spec_name(),
    {
        match self {
            ProverType::Exec => "Exec".to_string(),
            ProverType::RISC0 => "RISC0".to_string(),
            ProverType::SP1 => "SP1".to_string(),
            ProverType::Pico => "Pico".to_string(),
            ProverType::TDX => "TDX".to_string(),
        }
    }

    #[verifier::when_used_as_spec(spec_needs_setup)]
    pub fn needs_setup(&self) -> (needed: bool)
        ensures
            needed == self.spec_needs_setup(),
    {
        match self {
            ProverType::TDX => true,
            _ => false,
        }
    }
}

fn zero_bytes(len: usize) -> (bytes: Vec<u8>)
    ensures
        bytes@ == Seq::new(len as nat, |i: int| 0u8),
{
    let mut bytes: Vec<u8> = Vec::new();
    let mut i: usize = 0;
    while i < len
        invariant
            i <= len,
            bytes@.len() == i,
            forall|j: int| 0 <= j < i ==> bytes@[j] == 0,
        decreases len - i,
    {
        bytes.push(0u8);
        i = i + 1;
    }
    bytes
}

/// Contains the data ready to be sent to the on-chain verifiers.
#[derive(Debug, Clone, PartialEq, Eq)]
pub struct ProofCalldata {
    pub prover_type: ProverType,
    pub calldata: Vec<Value>,
}

pub struct ProofCalldataView {
    pub prover_type: ProverType,
    pub calldata: Seq<ValueView>,
}

impl View for ProofCalldata {
    type V = ProofCalldataView;

    open spec fn view(&self) -> ProofCalldataView {
        ProofCalldataView {
            prover_type: self.prover_type,
            calldata: value_views(self.calldata@),
        }
    }
}

} // verus!
