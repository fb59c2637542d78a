//! The engine call by which the consensus client and the execution client
//! compare what they know of the transition to proof of stake.

use crate::text::{decimal, decimal_digits, decimal_u128, hex_digits, hex_encode};
use vstd::prelude::*;

verus! {

/// Why a call failed.
#[derive(Debug, Clone, PartialEq, Eq)]
pub enum RpcErr {
    BadParams(String),
    Internal(String),
}

pub enum RpcErrView {
    BadParams(Seq<char>),
    Internal(Seq<char>),
}

impl View for RpcErr {
    type V = RpcErrView;

    open spec fn view(&self) -> RpcErrView {
        match self {
            RpcErr::BadParams(e) => RpcErrView::BadParams(e@),
            RpcErr::Internal(e) => RpcErrView::Internal(e@),
        }
    }
}

/// What one side knows of the transition.
#[derive(Debug, Clone, Copy, PartialEq, Eq)]
pub struct ExchangeTransitionConfigPayload {
    pub terminal_total_difficulty: u128,
    pub terminal_block_hash: [u8; 32],
    pub terminal_block_number: u64,
}

#[derive(Debug, Clone, Copy, PartialEq, Eq)]
pub struct ExchangeTransitionConfigV1Req {
    pub payload: ExchangeTransitionConfigPayload,
}

/// The answer to the call, and whether the two sides disagree on the terminal
/// total difficulty, which is worth a warning.
#[derive(Debug, Clone, Copy, PartialEq, Eq)]
pub struct Handled {
    pub response: ExchangeTransitionConfigPayload,
    pub difficulty_mismatch: bool,
}

impl ExchangeTransitionConfigV1Req {
    /// The request in words.
    pub open spec fn spec_describe(self) -> Seq<char> {
        "ExchangeTransitionConfigV1Req { terminal_total_difficulty: "@ + decimal_digits(
            self.payload.terminal_total_difficulty as nat,
        ) + ", terminal_block_hash: 0x"@ + hex_digits(self.payload.terminal_block_hash@)
            + ", terminal_block_number: "@ + decimal_digits(
            self.payload.terminal_block_number as nat,
        ) + " }"@
    }

    /// Describes the request in words.
    pub fn describe(&self) -> (text: String)
        ensures
            text@ == self.spec_describe(),
    {
        let difficulty = decimal_u128(self.payload.terminal_total_difficulty);
        let hash = hex_encode(self.payload.terminal_block_hash.as_slice());
        let number = decimal(self.payload.terminal_block_number);
        let mut text = String::from_str(
            "ExchangeTransitionConfigV1Req { terminal_total_difficulty: ",
        );
        text.append(difficulty.as_str());
        text.append(", terminal_block_hash: 0x");
        text.append(hash.as_str());
        text.append(", terminal_block_number: ");
        text.append(number.as_str());
        text.append(" }");
        text
    }

    /// Takes the request from the parameters of the call, each of which has
    /// been decoded as a payload, or could not be. There has to be exactly
    /// one parameter, and it has to be a payload.
    pub fn parse(params: &Option<Vec<Result<ExchangeTransitionConfigPayload, String>>>) -> (request:
        Result<ExchangeTransitionConfigV1Req, RpcErr>)
        ensures
            match params {
                None => request matches Err(e) && e@ == RpcErrView::BadParams(
                    "No params provided"@,
                ),
                Some(params) => if params@.len() != 1 {
                    request matches Err(e) && e@ == RpcErrView::BadParams("Expected 1 param"@)
                } else {
                    match params@[0] {
                        Ok(payload) => request == Ok::<ExchangeTransitionConfigV1Req, RpcErr>(
                            ExchangeTransitionConfigV1Req { payload },
                        ),
                        Err(reason) => request matches Err(e) && e@ == RpcErrView::BadParams(
                            reason@,
                        ),
                    }
                },
            },
    {
        match params {
            None => Err(RpcErr::BadParams(String::from_str("No params provided"))),
            Some(params) => {
                if params.len() != 1 {
                    return Err(RpcErr::BadParams(String::from_str("Expected 1 param")));
                }
                match &params[0] {
                    Ok(payload) => Ok(ExchangeTransitionConfigV1Req { payload: *payload }),
                    Err(reason) => Err(RpcErr::BadParams(reason.clone())),
                }
            },
        }
    }

    /// Answers the request with what this side knows: the terminal total
    /// difficulty that it is configured with, or zero, and the hash of the
    /// block that it holds under the terminal block number of the request, or
    /// zero.
    pub fn handle(
        &self,
        terminal_total_difficulty: Option<u128>,
        terminal_block_hash: Option<[u8; 32]>,
    ) -> (handled: Handled)
        ensures
            handled.response.terminal_total_difficulty == match terminal_total_difficulty {
                Some(difficulty) => difficulty,
                None => 0,
            },
            handled.response.terminal_block_hash@ == match terminal_block_hash {
                Some(hash) => hash@,
                None => Seq::new(32, |i: int| 0u8),
            },
            handled.response.terminal_block_number == self.payload.terminal_block_number,
            handled.difficulty_mismatch == (handled.response.terminal_total_difficulty
                != self.payload.terminal_total_difficulty),
    {
        let configured = match terminal_total_difficulty {
            Some(difficulty) => difficulty,
            None => 0,
        };
        let block_hash = match terminal_block_hash {
            Some(hash) => hash,
            None => {
                let zero: [u8; 32] = [0u8;32];
                zero
            },
        };
        Handled {
            response: ExchangeTransitionConfigPayload {
                terminal_block_hash: block_hash,
                terminal_block_number: self.payload.terminal_block_number,
                terminal_total_difficulty: configured,
            },
            difficulty_mismatch: configured != self.payload.terminal_total_difficulty,
        }
    }
}

} // verus!
