//! The proof store: the proofs that were submitted, each under the number of
//! its batch and the proving system that made it.
//!
//! The store keeps the first proof that comes under a key. A later one under
//! the same key changes nothing.

use crate::config::ProofCoordinatorStateView;
use crate::exchange::{ActionView, EventView, StageView};
use crate::messages::{BatchProof, BatchProofView, ProofDataView};
use crate::model::spec_handle_connection;
use crate::prover_type::ProverType;
use vstd::prelude::*;

verus! {

/// A proof in the store.
#[derive(Debug, Clone, PartialEq, Eq)]
pub struct StoredProof {
    pub batch_number: u64,
    pub batch_proof: BatchProof,
}

impl StoredProof {
    /// The key under which the proof is stored.
    pub open spec fn key(self) -> (u64, ProverType) {
        (self.batch_number, self.batch_proof.prover_type)
    }
}

/// What a store holds after these proofs have come in, in this order.
pub open spec fn contents(entries: Seq<StoredProof>) -> Map<(u64, ProverType), Seq<u8>>
    decreases entries.len(),
{
    if entries.len() == 0 {
        Map::empty()
    } else {
        spec_put(
            contents(entries.drop_last()),
            entries.last().batch_number,
            entries.last().batch_proof@,
        )
    }
}

/// The store after a proof has come in.
pub open spec fn spec_put(
    store: Map<(u64, ProverType), Seq<u8>>,
    batch_number: u64,
    batch_proof: BatchProofView,
) -> Map<(u64, ProverType), Seq<u8>> {
    if store.dom().contains((batch_number, batch_proof.prover_type)) {
        store
    } else {
        store.insert((batch_number, batch_proof.prover_type), batch_proof.bytes)
    }
}

/// The proofs that were stored, in the order in which they came.
#[derive(Debug, Clone, PartialEq, Eq)]
pub struct ProofStore {
    pub entries: Vec<StoredProof>,
}

impl View for ProofStore {
    type V = Map<(u64, ProverType), Seq<u8>>;

    open spec fn view(&self) -> Map<(u64, ProverType), Seq<u8>> {
        contents(self.entries@)
    }
}

/// A store holds the key of every proof that has come in.
pub proof fn lemma_contents_hold(entries: Seq<StoredProof>, i: int)
    requires
        0 <= i < entries.len(),
    ensures
        contents(entries).dom().contains(entries[i].key()),
    decreases entries.len(),
{
    if i < entries.len() - 1 {
        lemma_contents_hold(entries.drop_last(), i);
    }
}

/// A store holds no key under which no proof has come in.
pub proof fn lemma_contents_lack(entries: Seq<StoredProof>, key: (u64, ProverType))
    requires
        forall|j: int| 0 <= j < entries.len() ==> (#[trigger] entries[j]).key() != key,
    ensures
        !contents(entries).dom().contains(key),
    decreases entries.len(),
{
    if entries.len() > 0 {
        let front = entries.drop_last();
        assert forall|j: int| 0 <= j < front.len() implies (#[trigger] front[j]).key() != key by {}
        lemma_contents_lack(front, key);
    }
}

/// Under a key a store holds the bytes of the first proof that came in under
/// it.
pub proof fn lemma_contents_keep_first(entries: Seq<StoredProof>, i: int)
    requires
        0 <= i < entries.len(),
        forall|j: int| 0 <= j < i ==> (#[trigger] entries[j]).key() != entries[i].key(),
    ensures
        contents(entries).dom().contains(entries[i].key()),
        contents(entries)[entries[i].key()] == entries[i].batch_proof.bytes@,
    decreases entries.len(),
{
    let front = entries.drop_last();
    if i < entries.len() - 1 {
        assert forall|j: int| 0 <= j < i implies (#[trigger] front[j]).key() != front[i].key() by {}
        lemma_contents_keep_first(front, i);
    } else {
        assert forall|j: int| 0 <= j < front.len() implies (#[trigger] front[j]).key()
            != entries[i].key() by {}
        lemma_contents_lack(front, entries[i].key());
    }
}

impl ProofStore {
    /// A store that holds nothing.
    pub fn new() -> (store: ProofStore)
        ensures
            store@ == Map::<(u64, ProverType), Seq<u8>>::empty(),
    {
        ProofStore { entries: Vec::new() }
    }

    fn position(&self, prover_type: ProverType, batch_number: u64) -> (place: Option<usize>)
        ensures
            match place {
                Some(i) => {
                    &&& i < self.entries@.len()
                    &&& self.entries@[i as int].key() == (batch_number, prover_type)
                    &&& forall|j: int|
                        0 <= j < i ==> (#[trigger] self.entries@[j]).key() != (
                            batch_number,
                            prover_type,
                        )
                },
                None => forall|j: int|
                    0 <= j < self.entries@.len() ==> (#[trigger] self.entries@[j]).key() != (
                        batch_number,
                        prover_type,
                    ),
            },
    {
        let mut i: usize = 0;
        while i < self.entries.len()
            invariant
                i <= self.entries.len(),
                forall|j: int|
                    0 <= j < i ==> (#[trigger] self.entries@[j]).key() != (
                        batch_number,
                        prover_type,
                    ),
            decreases self.entries.len() - i,
        {
            let entry = &self.entries[i];
            if entry.batch_number == batch_number && entry.batch_proof.prover_type == prover_type {
                return Some(i);
            }
            i = i + 1;
        }
        None
    }

    /// Whether the store holds a proof of this batch by this proving system.
    pub fn has(&self, prover_type: ProverType, batch_number: u64) -> (known: bool)
        ensures
            known == self@.dom().contains((batch_number, prover_type)),
    {
        let place = self.position(prover_type, batch_number);
        proof {
            match place {
                Some(i) => lemma_contents_hold(self.entries@, i as int),
                None => lemma_contents_lack(self.entries@, (batch_number, prover_type)),
            }
        }
        place.is_some()
    }

    /// The stored proof of this batch by this proving system, if there is one.
    pub fn get(&self, prover_type: ProverType, batch_number: u64) -> (found: Option<&BatchProof>)
        ensures
            found is Some == self@.dom().contains((batch_number, prover_type)),
            found matches Some(batch_proof) ==> batch_proof@ == (BatchProofView {
                prover_type,
                bytes: self@[(batch_number, prover_type)],
            }),
    {
        match self.position(prover_type, batch_number) {
            Some(i) => {
                proof {
                    lemma_contents_keep_first(self.entries@, i as int);
                }
                Some(&self.entries[i].batch_proof)
            },
            None => {
                proof {
                    lemma_contents_lack(self.entries@, (batch_number, prover_type));
                }
                None
            },
        }
    }

    /// Stores a proof, unless the store holds one under the same key. Tells
    /// whether the proof was stored.
    pub fn put(&mut self, batch_number: u64, batch_proof: BatchProof) -> (stored: bool)
        ensures
            final(self)@ == spec_put(old(self)@, batch_number, batch_proof@),
            stored == !old(self)@.dom().contains((batch_number, batch_proof@.prover_type)),
    {
        if self.has(batch_proof.prover_type, batch_number) {
            false
        } else {
            let ghost before = self.entries@;
            self.entries.push(StoredProof { batch_number, batch_proof });
            assert(self.entries@.drop_last() =~= before);
            true
        }
    }
}

/// A second proof under the same key changes nothing: the store holds what it
/// held after the first.
pub proof fn lemma_put_is_idempotent(
    store: Map<(u64, ProverType), Seq<u8>>,
    batch_number: u64,
    first: BatchProofView,
    second: BatchProofView,
)
    requires
        first.prover_type == second.prover_type,
    ensures
        spec_put(spec_put(store, batch_number, first), batch_number, second) == spec_put(
            store,
            batch_number,
            first,
        ),
        spec_put(store, batch_number, first).dom().contains((batch_number, first.prover_type)),
{
}

/// What a proof store answers to an action of a connection handler.
pub open spec fn store_answer(store: Map<(u64, ProverType), Seq<u8>>, action: ActionView) -> (
    Map<(u64, ProverType), Seq<u8>>,
    EventView,
) {
    match action {
        ActionView::WriteProof { batch_number, batch_proof } => (
            spec_put(store, batch_number, batch_proof),
            EventView::ProofWritten(Ok(())),
        ),
        ActionView::CheckProof { prover_type, batch_number } => (
            store,
            EventView::ProofChecked(Ok(store.dom().contains((batch_number, prover_type)))),
        ),
        _ => (store, EventView::ProofChecked(Ok(false))),
    }
}

/// A submission served against a proof store: the store afterwards, and the
/// action with which the handler turns to the client.
pub open spec fn submitted(
    state: ProofCoordinatorStateView,
    store: Map<(u64, ProverType), Seq<u8>>,
    batch_number: u64,
    batch_proof: BatchProofView,
) -> (Map<(u64, ProverType), Seq<u8>>, ActionView) {
    let received = spec_handle_connection(
        state,
        StageView::AwaitingRequest,
        EventView::Received(Ok(ProofDataView::ProofSubmit { batch_number, batch_proof })),
    );
    let checked = store_answer(store, received.1);
    let decided = spec_handle_connection(state, received.0, checked.1);
    if decided.1 is WriteProof {
        let written = store_answer(checked.0, decided.1);
        (written.0, spec_handle_connection(state, decided.0, written.1).1)
    } else {
        (checked.0, decided.1)
    }
}

/// Submitting a proof of the same batch by the same proving system twice
/// leaves the store as the first submission left it, with the bytes that came
/// first, and both submissions are acknowledged.
pub proof fn lemma_submission_is_idempotent(
    state: ProofCoordinatorStateView,
    store: Map<(u64, ProverType), Seq<u8>>,
    batch_number: u64,
    first: BatchProofView,
    second: BatchProofView,
)
    requires
        first.prover_type == second.prover_type,
    ensures
        ({
            let once = submitted(state, store, batch_number, first);
            let twice = submitted(state, once.0, batch_number, second);
            let acknowledgement = ActionView::Send {
                message: ProofDataView::ProofSubmitACK { batch_number },
            };
            &&& once.0 == spec_put(store, batch_number, first)
            &&& once.1 == acknowledgement
            &&& twice.0 == once.0
            &&& twice.1 == acknowledgement
        }),
{
}

} // verus!
