//! The state of the virtual machine, as far as the block-information
//! instructions read and change it.

use crate::u256::U256;
use vstd::prelude::*;

verus! {

/// The most words that a stack holds.
pub const STACK_LIMIT: usize = 1024;

/// How far back the hashes of blocks can be read.
pub const LAST_AVAILABLE_BLOCK_LIMIT: u64 = 256;

/// The revisions of the protocol, oldest first.
#[derive(Debug, Clone, Copy, PartialEq, Eq, Hash, Structural)]
pub enum Fork {
    Frontier,
    FrontierThawing,
    Homestead,
    DaoFork,
    Tangerine,
    SpuriousDragon,
    Byzantium,
    Constantinople,
    Petersburg,
    Istanbul,
    MuirGlacier,
    Berlin,
    London,
    ArrowGlacier,
    GrayGlacier,
    Paris,
    Shanghai,
    Cancun,
    Prague,
    Osaka,
}

impl Fork {
    /// The place of a revision in the order of revisions.
    pub open spec fn spec_ordinal(self) -> u8 {
        match self {
            Fork::Frontier => 0,
            Fork::FrontierThawing => 1,
            Fork::Homestead => 2,
            Fork::DaoFork => 3,
            Fork::Tangerine => 4,
            Fork::SpuriousDragon => 5,
            Fork::Byzantium => 6,
            Fork::Constantinople => 7,
            Fork::Petersburg => 8,
            Fork::Istanbul => 9,
            Fork::MuirGlacier => 10,
            Fork::Berlin => 11,
            Fork::London => 12,
            Fork::ArrowGlacier => 13,
            Fork::GrayGlacier => 14,
            Fork::Paris => 15,
            Fork::Shanghai => 16,
            Fork::Cancun => 17,
            Fork::Prague => 18,
            Fork::Osaka => 19,
        }
    }

    pub fn ordinal(&self) -> (place: u8)
        ensures
            place == self.spec_ordinal(),
    {
        match self {
            Fork::Frontier => 0,
            Fork::FrontierThawing => 1,
            Fork::Homestead => 2,
            Fork::DaoFork => 3,
            Fork::Tangerine => 4,
            Fork::SpuriousDragon => 5,
            Fork::Byzantium => 6,
            Fork::Constantinople => 7,
            Fork::Petersburg => 8,
            Fork::Istanbul => 9,
            Fork::MuirGlacier => 10,
            Fork::Berlin => 11,
            Fork::London => 12,
            Fork::ArrowGlacier => 13,
            Fork::GrayGlacier => 14,
            Fork::Paris => 15,
            Fork::Shanghai => 16,
            Fork::Cancun => 17,
            Fork::Prague => 18,
            Fork::Osaka => 19,
        }
    }

    /// Whether this revision came before `other`.
    pub open spec fn spec_is_before(self, other: Fork) -> bool {
        self.spec_ordinal() < other.spec_ordinal()
    }

    pub fn is_before(&self, other: Fork) -> (before: bool)
        ensures
            before == self.spec_is_before(other),
    {
        self.ordinal() < other.ordinal()
    }
}

/// Why an instruction halted the execution.
#[derive(Debug, Clone, Copy, PartialEq, Eq, Structural)]
pub enum ExceptionalHalt {
    StackUnderflow,
    StackOverflow,
    OutOfGas,
    InvalidOpcode,
    VeryLargeNumber,
}

/// A failure of the machine itself, not of the program that it runs.
#[derive(Debug, Clone, Copy, PartialEq, Eq, Structural)]
pub enum InternalError {
    /// There is no call frame to execute in.
    CouldNotAccessLastCallframe,
    /// A word did not fit the type that it was needed in.
    TypeConversion,
    /// The database does not hold the hash of the block with this number.
    BlockHashNotFound(u64),
}

#[derive(Debug, Clone, Copy, PartialEq, Eq, Structural)]
pub enum VMError {
    ExceptionalHalt(ExceptionalHalt),
    Internal(InternalError),
}

/// How the execution goes on after an instruction.
#[derive(Debug, Clone, Copy, PartialEq, Eq, Structural)]
pub enum OpcodeResult {
    Continue { pc_increment: usize },
    Halt,
}

/// The settings of the machine.
#[derive(Debug, Clone, Copy, PartialEq, Eq, Structural)]
pub struct EVMConfig {
    pub fork: Fork,
}

/// What an execution knows of its block and its transaction.
#[derive(Debug, Clone, PartialEq, Eq)]
pub struct Environment {
    pub coinbase: [u8; 20],
    pub timestamp: U256,
    pub block_number: U256,
    pub prev_randao: Option<[u8; 32]>,
    pub block_gas_limit: u64,
    pub chain_id: U256,
    pub base_fee_per_gas: U256,
    pub tx_blob_hashes: Vec<[u8; 32]>,
    pub config: EVMConfig,
}

/// The operand stack of a call frame. The top is the last word.
#[derive(Debug, Clone, PartialEq, Eq)]
pub struct Stack {
    pub values: Vec<U256>,
}

impl Stack {
    pub fn push(&mut self, word: U256) -> (pushed: Result<(), ExceptionalHalt>)
        ensures
            old(self).values@.len() < STACK_LIMIT ==> pushed is Ok && final(self).values@ == old(
                self,
            ).values@.push(word),
            old(self).values@.len() >= STACK_LIMIT ==> pushed == Err::<(), ExceptionalHalt>(
                ExceptionalHalt::StackOverflow,
            ) && *final(self) == *old(self),
    {
        if self.values.len() >= STACK_LIMIT {
            return Err(ExceptionalHalt::StackOverflow);
        }
        self.values.push(word);
        Ok(())
    }

    pub fn pop(&mut self) -> (popped: Result<U256, ExceptionalHalt>)
        ensures
            old(self).values@.len() > 0 ==> popped == Ok::<U256, ExceptionalHalt>(
                old(self).values@.last(),
            ) && final(self).values@ == old(self).values@.drop_last(),
            old(self).values@.len() == 0 ==> popped == Err::<U256, ExceptionalHalt>(
                ExceptionalHalt::StackUnderflow,
            ) && *final(self) == *old(self),
    {
        if self.values.len() == 0 {
            return Err(ExceptionalHalt::StackUnderflow);
        }
        match self.values.pop() {
            Some(word) => Ok(word),
            None => Err(ExceptionalHalt::StackUnderflow),
        }
    }
}

/// One call in execution.
#[derive(Debug, Clone, PartialEq, Eq)]
pub struct CallFrame {
    pub gas_limit: u64,
    pub gas_used: u64,
    pub stack: Stack,
    /// The account in whose name the code runs.
    pub to: [u8; 20],
}

impl CallFrame {
    /// Whether the frame has the gas left for this cost.
    pub open spec fn can_pay(self, gas: u64) -> bool {
        self.gas_used + gas <= self.gas_limit
    }

    /// Whether the stack has room for one more word.
    pub open spec fn can_push(self) -> bool {
        self.stack.values@.len() < STACK_LIMIT
    }

    /// Charges the frame for an instruction.
    pub fn increase_consumed_gas(&mut self, gas: u64) -> (charged: Result<(), ExceptionalHalt>)
        ensures
            old(self).can_pay(gas) ==> charged is Ok && *final(self) == (CallFrame {
                gas_used: (old(self).gas_used + gas) as u64,
                ..*old(self)
            }),
            !old(self).can_pay(gas) ==> charged == Err::<(), ExceptionalHalt>(
                ExceptionalHalt::OutOfGas,
            ) && *final(self) == *old(self),
    {
        match self.gas_used.checked_add(gas) {
            Some(potential_consumed_gas) => {
                if potential_consumed_gas > self.gas_limit {
                    return Err(ExceptionalHalt::OutOfGas);
                }
                self.gas_used = potential_consumed_gas;
                Ok(())
            },
            None => Err(ExceptionalHalt::OutOfGas),
        }
    }
}

/// An account, as far as the instructions here read it.
#[derive(Debug, Clone, PartialEq, Eq)]
pub struct Account {
    pub address: [u8; 20],
    pub balance: U256,
}

/// The hash of a block.
#[derive(Debug, Clone, PartialEq, Eq)]
pub struct BlockHash {
    pub number: u64,
    pub hash: [u8; 32],
}

/// The accounts and the block hashes that an execution can read. For an
/// account or a block that is listed twice, the first entry counts.
#[derive(Debug, Clone, PartialEq, Eq)]
pub struct Database {
    pub accounts: Vec<Account>,
    pub block_hashes: Vec<BlockHash>,
}

/// The balance of the first account with this address, or zero.
pub open spec fn balance_in(accounts: Seq<Account>, address: Seq<u8>) -> U256
    decreases accounts.len(),
{
    if accounts.len() == 0 {
        U256 { hi: 0, lo: 0 }
    } else if accounts[0].address@ == address {
        accounts[0].balance
    } else {
        balance_in(accounts.drop_first(), address)
    }
}

/// The hash of the first block with this number, if there is one.
pub open spec fn block_hash_in(hashes: Seq<BlockHash>, number: u64) -> Option<Seq<u8>>
    decreases hashes.len(),
{
    if hashes.len() == 0 {
        None
    } else if hashes[0].number == number {
        Some(hashes[0].hash@)
    } else {
        block_hash_in(hashes.drop_first(), number)
    }
}

fn same_address(a: &[u8; 20], b: &[u8; 20]) -> (same: bool)
    ensures
        same == (a@ == b@),
{
    let mut i: usize = 0;
    while i < 20
        invariant
            i <= 20,
            forall|j: int| 0 <= j < i ==> a@[j] == b@[j],
        decreases 20 - i,
    {
        if a[i] != b[i] {
            return false;
        }
        i = i + 1;
    }
    assert(a@ =~= b@);
    true
}

impl Database {
    /// The balance of an account. An account that the database does not hold
    /// is empty.
    pub fn balance(&self, address: &[u8; 20]) -> (balance: U256)
        ensures
            balance == balance_in(self.accounts@, address@),
    {
        let mut i: usize = 0;
        assert(self.accounts@.skip(0) =~= self.accounts@);
        while i < self.accounts.len()
            invariant
                i <= self.accounts.len(),
                balance_in(self.accounts@, address@) == balance_in(
                    self.accounts@.skip(i as int),
                    address@,
                ),
            decreases self.accounts.len() - i,
        {
            let ghost rest = self.accounts@.skip(i as int);
            assert(rest.drop_first() =~= self.accounts@.skip(i as int + 1));
            if same_address(&self.accounts[i].address, address) {
                return self.accounts[i].balance;
            }
            i = i + 1;
        }
        U256::zero()
    }

    /// The hash of a block, if the database holds it.
    pub fn get_block_hash(&self, number: u64) -> (hash: Option<[u8; 32]>)
        ensures
            match hash {
                Some(h) => block_hash_in(self.block_hashes@, number) == Some(h@),
                None => block_hash_in(self.block_hashes@, number) is None,
            },
    {
        let mut i: usize = 0;
        assert(self.block_hashes@.skip(0) =~= self.block_hashes@);
        while i < self.block_hashes.len()
            invariant
                i <= self.block_hashes.len(),
                block_hash_in(self.block_hashes@, number) == block_hash_in(
                    self.block_hashes@.skip(i as int),
                    number,
                ),
            decreases self.block_hashes.len() - i,
        {
            let ghost rest = self.block_hashes@.skip(i as int);
            assert(rest.drop_first() =~= self.block_hashes@.skip(i as int + 1));
            if self.block_hashes[i].number == number {
                return Some(self.block_hashes[i].hash);
            }
            i = i + 1;
        }
        None
    }
}

/// The virtual machine.
#[derive(Debug, Clone, PartialEq, Eq)]
pub struct VM {
    pub env: Environment,
    /// The calls in execution; the current one is the last.
    pub call_frames: Vec<CallFrame>,
    pub db: Database,
}

} // verus!
