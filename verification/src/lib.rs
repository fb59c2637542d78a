//! The proof coordinator of a layer-2 rollup: the broker between the on-chain
//! proposer contract and a fleet of remote prover clients.
//!
//! A prover client opens a connection, sends one request, reads one reply and
//! closes. The coordinator hands out the batch that has to be proved next,
//! with all that a prover needs to prove it; takes proofs in; and registers
//! the attestation key of a TDX client.
//!
//! The crate decides; it does not act. [`connection::handle_connection`]
//! answers every event of an exchange with the action to perform next, and
//! the program that embeds the crate performs it: reads and writes the
//! socket, asks the stores and the chain. What the handler does is stated in
//! [`model`], and what holds of every exchange is proved in [`laws`].
//!
//! Beside the coordinator stand the proving systems and what binds them to
//! the contract ([`prover_type`]), the proof store ([`proof_store`]), the
//! block-information instructions of the virtual machine ([`block_info`]),
//! and one call of the engine interface ([`engine`]).

pub mod block_info;
pub mod calldata;
pub mod config;
pub mod connection;
pub mod engine;
pub mod errors;
pub mod exchange;
pub mod gas_cost;
pub mod hexadecimal;
pub mod laws;
pub mod listener;
pub mod messages;
pub mod model;
pub mod proof_store;
pub mod prover_type;
pub mod settlement;
pub mod text;
pub mod u256;
pub mod vm;
