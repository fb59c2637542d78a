//! Block Information (11)
//! Opcodes: BLOCKHASH, COINBASE, TIMESTAMP, NUMBER, PREVRANDAO, GASLIMIT,
//! CHAINID, SELFBALANCE, BASEFEE, BLOBHASH, BLOBBASEFEE
//!
//! Each of them charges the current call frame and pushes one word; two of
//! them pop a word first. An instruction that fails leaves the frame as it was
//! at the step that failed: gas that was charged stays charged.

use crate::gas_cost;
use crate::u256::U256;
use crate::vm::{
    balance_in, block_hash_in, ExceptionalHalt, Fork, InternalError, OpcodeResult,
    VMError, LAST_AVAILABLE_BLOCK_LIMIT, STACK_LIMIT, VM,
};
use vstd::prelude::*;

verus! {

/// The machine is as before, but for the gas that the current frame has used
/// and for the words on its stack.
pub open spec fn top_is(before: VM, after: VM, gas_used: int, stack: Seq<U256>) -> bool {
    &&& before.call_frames@.len() > 0
    &&& after.env == before.env
    &&& after.db == before.db
    &&& after.call_frames@.len() == before.call_frames@.len()
    &&& after.call_frames@.drop_last() == before.call_frames@.drop_last()
    &&& after.call_frames@.last().gas_limit == before.call_frames@.last().gas_limit
    &&& after.call_frames@.last().to == before.call_frames@.last().to
    &&& after.call_frames@.last().gas_used == gas_used
    &&& after.call_frames@.last().stack.values@ == stack
}

/// The instruction goes on to the next one.
pub open spec fn proceeds() -> Result<OpcodeResult, VMError> {
    Ok(OpcodeResult::Continue { pc_increment: 1 })
}

/// The instruction halts the execution.
pub open spec fn halts(halt: ExceptionalHalt) -> Result<OpcodeResult, VMError> {
    Err(VMError::ExceptionalHalt(halt))
}

/// The machine has no call frame.
pub open spec fn lacks_frame(before: VM, after: VM, result: Result<OpcodeResult, VMError>) -> bool {
    &&& before.call_frames@.len() == 0
    &&& result == Err::<OpcodeResult, VMError>(
        VMError::Internal(InternalError::CouldNotAccessLastCallframe),
    )
    &&& after == before
}

/// A word is pushed on a stack that holds `stack`, in a frame that has used
/// `gas_used`.
pub open spec fn pushes_onto(
    before: VM,
    after: VM,
    result: Result<OpcodeResult, VMError>,
    gas_used: int,
    stack: Seq<U256>,
    word: U256,
) -> bool {
    if stack.len() < STACK_LIMIT {
        result == proceeds() && top_is(before, after, gas_used, stack.push(word))
    } else {
        result == halts(ExceptionalHalt::StackOverflow) && top_is(before, after, gas_used, stack)
    }
}

/// What an instruction does that charges `cost` and pushes `word`.
pub open spec fn charges_and_pushes(
    before: VM,
    after: VM,
    result: Result<OpcodeResult, VMError>,
    cost: u64,
    word: U256,
) -> bool {
    if before.call_frames@.len() == 0 {
        lacks_frame(before, after, result)
    } else {
        let frame = before.call_frames@.last();
        if !frame.can_pay(cost) {
            result == halts(ExceptionalHalt::OutOfGas) && top_is(
                before,
                after,
                frame.gas_used as int,
                frame.stack.values@,
            )
        } else {
            pushes_onto(before, after, result, frame.gas_used + cost, frame.stack.values@, word)
        }
    }
}

/// The word that BLOCKHASH answers to `number`, or why it fails: zero for a
/// block that is not among the last 256 before the current one, else the hash
/// of the block.
pub open spec fn block_hash_word(vm: VM, number: U256) -> Result<U256, VMError> {
    let current = vm.env.block_number@;
    let oldest = if current >= LAST_AVAILABLE_BLOCK_LIMIT {
        current - LAST_AVAILABLE_BLOCK_LIMIT
    } else {
        0
    };
    if number@ < oldest || number@ >= current {
        Ok(U256 { hi: 0, lo: 0 })
    } else if number@ > u64::MAX {
        Err(VMError::ExceptionalHalt(ExceptionalHalt::VeryLargeNumber))
    } else {
        match block_hash_in(vm.db.block_hashes@, number@ as u64) {
            Some(hash) => Ok(U256::spec_from_big_endian(hash)),
            None => Err(VMError::Internal(InternalError::BlockHashNotFound(number@ as u64))),
        }
    }
}

/// The word that BLOBHASH answers to `index`: the versioned hash of the
/// transaction's blob at that index, or zero where there is none.
pub open spec fn blob_hash_word(vm: VM, index: U256) -> U256 {
    if index@ >= vm.env.tx_blob_hashes@.len() {
        U256 { hi: 0, lo: 0 }
    } else {
        U256::spec_from_big_endian(vm.env.tx_blob_hashes@[index@ as int]@)
    }
}

/// What an instruction does that charges `cost`, pops a word, and pushes the
/// word that `answer` makes of it.
pub open spec fn charges_pops_and_pushes(
    before: VM,
    after: VM,
    result: Result<OpcodeResult, VMError>,
    cost: u64,
    answer: spec_fn(U256) -> Result<U256, VMError>,
) -> bool {
    if before.call_frames@.len() == 0 {
        lacks_frame(before, after, result)
    } else {
        let frame = before.call_frames@.last();
        let stack = frame.stack.values@;
        if !frame.can_pay(cost) {
            result == halts(ExceptionalHalt::OutOfGas) && top_is(
                before,
                after,
                frame.gas_used as int,
                stack,
            )
        } else if stack.len() == 0 {
            result == halts(ExceptionalHalt::StackUnderflow) && top_is(
                before,
                after,
                frame.gas_used + cost,
                stack,
            )
        } else {
            match answer(stack.last()) {
                Ok(word) => pushes_onto(
                    before,
                    after,
                    result,
                    frame.gas_used + cost,
                    stack.drop_last(),
                    word,
                ),
                Err(error) => result == Err::<OpcodeResult, VMError>(error) && top_is(
                    before,
                    after,
                    frame.gas_used + cost,
                    stack.drop_last(),
                ),
            }
        }
    }
}

/// What an instruction does that charges `cost` and then pushes the word that
/// was computed for it, unless computing it failed.
pub open spec fn charges_and_pushes_if(
    before: VM,
    after: VM,
    result: Result<OpcodeResult, VMError>,
    cost: u64,
    word: Result<U256, VMError>,
) -> bool {
    match word {
        Ok(word) => charges_and_pushes(before, after, result, cost, word),
        Err(error) => if before.call_frames@.len() == 0 {
            lacks_frame(before, after, result)
        } else {
            let frame = before.call_frames@.last();
            if !frame.can_pay(cost) {
                result == halts(ExceptionalHalt::OutOfGas) && top_is(
                    before,
                    after,
                    frame.gas_used as int,
                    frame.stack.values@,
                )
            } else {
                result == Err::<OpcodeResult, VMError>(error) && top_is(
                    before,
                    after,
                    frame.gas_used + cost,
                    frame.stack.values@,
                )
            }
        },
    }
}

/// The word that PREVRANDAO pushes: the randomness of the previous block, or
/// zero where the block has none.
pub open spec fn prev_randao_word(vm: VM) -> U256 {
    match vm.env.prev_randao {
        Some(randao) => U256::spec_from_big_endian(randao@),
        None => U256 { hi: 0, lo: 0 },
    }
}

impl VM {
    /// Charges the current call frame `cost` and pushes `word` on its stack.
    fn charge_and_push(&mut self, cost: u64, word: U256) -> (result: Result<OpcodeResult, VMError>)
        ensures
            charges_and_pushes(*old(self), *final(self), result, cost, word),
    {
        let depth = self.call_frames.len();
        if depth == 0 {
            return Err(VMError::Internal(InternalError::CouldNotAccessLastCallframe));
        }
        let current_call_frame = &mut self.call_frames[depth - 1];
        let result = match current_call_frame.increase_consumed_gas(cost) {
            Err(halt) => Err(VMError::ExceptionalHalt(halt)),
            Ok(_) => match current_call_frame.stack.push(word) {
                Err(halt) => Err(VMError::ExceptionalHalt(halt)),
                Ok(_) => Ok(OpcodeResult::Continue { pc_increment: 1 }),
            },
        };
        assert(self.call_frames@.drop_last() =~= old(self).call_frames@.drop_last());
        result
    }

    // BLOCKHASH operation
    pub fn op_blockhash(&mut self) -> (result: Result<OpcodeResult, VMError>)
        ensures
            charges_pops_and_pushes(
                *old(self),
                *final(self),
                result,
                gas_cost::BLOCKHASH,
                |number: U256| block_hash_word(*old(self), number),
            ),
    {
        let current_block = self.env.block_number;
        let depth = self.call_frames.len();
        if depth == 0 {
            return Err(VMError::Internal(InternalError::CouldNotAccessLastCallframe));
        }
        let current_call_frame = &mut self.call_frames[depth - 1];
        let result = match current_call_frame.increase_consumed_gas(gas_cost::BLOCKHASH) {
            Err(halt) => Err(VMError::ExceptionalHalt(halt)),
            Ok(_) => match current_call_frame.stack.pop() {
                Err(halt) => Err(VMError::ExceptionalHalt(halt)),
                Ok(block_number) => {
                    let oldest = current_block.saturating_sub(
                        &U256::from_u64(LAST_AVAILABLE_BLOCK_LIMIT),
                    );
                    // If the block number is not valid, the answer is zero.
                    let word = if block_number.lt(&oldest) || !block_number.lt(&current_block) {
                        Ok(U256::zero())
                    } else {
                        match block_number.to_u64() {
                            None => Err(VMError::ExceptionalHalt(ExceptionalHalt::VeryLargeNumber)),
                            Some(number) => match self.db.get_block_hash(number) {
                                Some(block_hash) => Ok(U256::from_big_endian(&block_hash)),
                                None => Err(
                                    VMError::Internal(InternalError::BlockHashNotFound(number)),
                                ),
                            },
                        }
                    };
                    match word {
                        Err(error) => Err(error),
                        Ok(word) => match current_call_frame.stack.push(word) {
                            Err(halt) => Err(VMError::ExceptionalHalt(halt)),
                            Ok(_) => Ok(OpcodeResult::Continue { pc_increment: 1 }),
                        },
                    }
                },
            },
        };
        assert(self.call_frames@.drop_last() =~= old(self).call_frames@.drop_last());
        result
    }

    // COINBASE operation
    pub fn op_coinbase(&mut self) -> (result: Result<OpcodeResult, VMError>)
        ensures
            charges_and_pushes(
                *old(self),
                *final(self),
                result,
                gas_cost::COINBASE,
                U256::spec_from_big_endian(old(self).env.coinbase@),
            ),
    {
        let coinbase = U256::from_address(&self.env.coinbase);
        self.charge_and_push(gas_cost::COINBASE, coinbase)
    }

    // TIMESTAMP operation
    pub fn op_timestamp(&mut self) -> (result: Result<OpcodeResult, VMError>)
        ensures
            charges_and_pushes(
                *old(self),
                *final(self),
                result,
                gas_cost::TIMESTAMP,
                old(self).env.timestamp,
            ),
    {
        let timestamp = self.env.timestamp;
        self.charge_and_push(gas_cost::TIMESTAMP, timestamp)
    }

    // NUMBER operation
    pub fn op_number(&mut self) -> (result: Result<OpcodeResult, VMError>)
        ensures
            charges_and_pushes(
                *old(self),
                *final(self),
                result,
                gas_cost::NUMBER,
                old(self).env.block_number,
            ),
    {
        let block_number = self.env.block_number;
        self.charge_and_push(gas_cost::NUMBER, block_number)
    }

    // PREVRANDAO operation
    pub fn op_prevrandao(&mut self) -> (result: Result<OpcodeResult, VMError>)
        ensures
            charges_and_pushes(
                *old(self),
                *final(self),
                result,
                gas_cost::PREVRANDAO,
                prev_randao_word(*old(self)),
            ),
    {
        // After Paris the prev randao is the randomness of the previous block.
        let randao = match &self.env.prev_randao {
            Some(randao) => U256::from_big_endian(randao),
            None => U256::zero(),
        };
        self.charge_and_push(gas_cost::PREVRANDAO, randao)
    }

    // GASLIMIT operation
    pub fn op_gaslimit(&mut self) -> (result: Result<OpcodeResult, VMError>)
        ensures
            charges_and_pushes(
                *old(self),
                *final(self),
                result,
                gas_cost::GASLIMIT,
                U256 { hi: 0, lo: old(self).env.block_gas_limit as u128 },
            ),
    {
        let block_gas_limit = U256::from_u64(self.env.block_gas_limit);
        self.charge_and_push(gas_cost::GASLIMIT, block_gas_limit)
    }

    // CHAINID operation
    pub fn op_chainid(&mut self) -> (result: Result<OpcodeResult, VMError>)
        ensures
            charges_and_pushes(
                *old(self),
                *final(self),
                result,
                gas_cost::CHAINID,
                old(self).env.chain_id,
            ),
    {
        let chain_id = self.env.chain_id;
        self.charge_and_push(gas_cost::CHAINID, chain_id)
    }

    // SELFBALANCE operation
    pub fn op_selfbalance(&mut self) -> (result: Result<OpcodeResult, VMError>)
        ensures
            charges_and_pushes(
                *old(self),
                *final(self),
                result,
                gas_cost::SELFBALANCE,
                balance_in(old(self).db.accounts@, old(self).call_frames@.last().to@),
            ),
    {
        let depth = self.call_frames.len();
        if depth == 0 {
            return Err(VMError::Internal(InternalError::CouldNotAccessLastCallframe));
        }
        let balance = self.db.balance(&self.call_frames[depth - 1].to);
        self.charge_and_push(gas_cost::SELFBALANCE, balance)
    }

    // BASEFEE operation
    pub fn op_basefee(&mut self) -> (result: Result<OpcodeResult, VMError>)
        ensures
            charges_and_pushes(
                *old(self),
                *final(self),
                result,
                gas_cost::BASEFEE,
                old(self).env.base_fee_per_gas,
            ),
    {
        let base_fee_per_gas = self.env.base_fee_per_gas;
        self.charge_and_push(gas_cost::BASEFEE, base_fee_per_gas)
    }

    // BLOBHASH operation
    pub fn op_blobhash(&mut self) -> (result: Result<OpcodeResult, VMError>)
        ensures
            old(self).env.config.fork.spec_is_before(Fork::Cancun) ==> result == halts(
                ExceptionalHalt::InvalidOpcode,
            ) && *final(self) == *old(self),
            !old(self).env.config.fork.spec_is_before(Fork::Cancun) ==> charges_pops_and_pushes(
                *old(self),
                *final(self),
                result,
                gas_cost::BLOBHASH,
                |index: U256| Ok::<U256, VMError>(blob_hash_word(*old(self), index)),
            ),
    {
        // BLOBHASH is only available from Cancun.
        if self.env.config.fork.is_before(Fork::Cancun) {
            return Err(VMError::ExceptionalHalt(ExceptionalHalt::InvalidOpcode));
        }
        let depth = self.call_frames.len();
        if depth == 0 {
            return Err(VMError::Internal(InternalError::CouldNotAccessLastCallframe));
        }
        let current_call_frame = &mut self.call_frames[depth - 1];
        let result = match current_call_frame.increase_consumed_gas(gas_cost::BLOBHASH) {
            Err(halt) => Err(VMError::ExceptionalHalt(halt)),
            Ok(_) => match current_call_frame.stack.pop() {
                Err(halt) => Err(VMError::ExceptionalHalt(halt)),
                Ok(index) => {
                    let blob_hashes = &self.env.tx_blob_hashes;
                    let word = if !index.lt(&U256::from_usize(blob_hashes.len())) {
                        Ok(U256::zero())
                    } else {
                        // The index fits: it is below a length.
                        match index.to_usize() {
                            None => Err(VMError::Internal(InternalError::TypeConversion)),
                            Some(index) => Ok(U256::from_big_endian(&blob_hashes[index])),
                        }
                    };
                    match word {
                        Err(error) => Err(error),
                        Ok(word) => match current_call_frame.stack.push(word) {
                            Err(halt) => Err(VMError::ExceptionalHalt(halt)),
                            Ok(_) => Ok(OpcodeResult::Continue { pc_increment: 1 }),
                        },
                    }
                },
            },
        };
        assert(self.call_frames@.drop_last() =~= old(self).call_frames@.drop_last());
        result
    }

    // BLOBBASEFEE operation
    /// The base fee itself follows from the excess blob gas of the block: it
    /// is computed by the caller and handed in, with the failure of that
    /// computation if it failed.
    pub fn op_blobbasefee(&mut self, base_fee_per_blob_gas: Result<U256, VMError>) -> (result:
        Result<OpcodeResult, VMError>)
        ensures
            old(self).env.config.fork.spec_is_before(Fork::Cancun) ==> result == halts(
                ExceptionalHalt::InvalidOpcode,
            ) && *final(self) == *old(self),
            !old(self).env.config.fork.spec_is_before(Fork::Cancun) ==> charges_and_pushes_if(
                *old(self),
                *final(self),
                result,
                gas_cost::BLOBBASEFEE,
                base_fee_per_blob_gas,
            ),
    {
        // BLOBBASEFEE is only available from Cancun.
        if self.env.config.fork.is_before(Fork::Cancun) {
            return Err(VMError::ExceptionalHalt(ExceptionalHalt::InvalidOpcode));
        }
        match base_fee_per_blob_gas {
            Ok(blob_base_fee) => self.charge_and_push(gas_cost::BLOBBASEFEE, blob_base_fee),
            Err(error) => {
                let depth = self.call_frames.len();
                if depth == 0 {
                    return Err(VMError::Internal(InternalError::CouldNotAccessLastCallframe));
                }
                let current_call_frame = &mut self.call_frames[depth - 1];
                let result = match current_call_frame.increase_consumed_gas(gas_cost::BLOBBASEFEE) {
                    Err(halt) => Err(VMError::ExceptionalHalt(halt)),
                    Ok(_) => Err(error),
                };
                assert(self.call_frames@.drop_last() =~= old(self).call_frames@.drop_last());
                result
            },
        }
    }
}

} // verus!
