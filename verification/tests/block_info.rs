use proof_coordinator::u256::U256;
use proof_coordinator::vm::{
    Account, BlockHash, CallFrame, Database, EVMConfig, Environment, ExceptionalHalt, Fork,
    InternalError, OpcodeResult, Stack, VMError, VM,
};

fn word(n: u64) -> U256 {
    U256::from_u64(n)
}

fn frame(gas_limit: u64, stack: Vec<U256>) -> CallFrame {
    CallFrame { gas_limit, gas_used: 0, stack: Stack { values: stack }, to: [0x22; 20] }
}

fn machine(fork: Fork, frames: Vec<CallFrame>) -> VM {
    let mut coinbase = [0u8; 20];
    coinbase[19] = 0x05;
    coinbase[0] = 0x01;
    let mut hash_299 = [0u8; 32];
    hash_299[31] = 0x99;
    hash_299[15] = 0x01;
    let mut blob_hash = [0u8; 32];
    blob_hash[0] = 0x01;
    blob_hash[31] = 0x02;
    VM {
        env: Environment {
            coinbase,
            timestamp: word(1_700_000_000),
            block_number: word(300),
            prev_randao: None,
            block_gas_limit: 30_000_000,
            chain_id: word(65536999),
            base_fee_per_gas: word(7),
            tx_blob_hashes: vec![blob_hash],
            config: EVMConfig { fork },
        },
        call_frames: frames,
        db: Database {
            accounts: vec![
                Account { address: [0x21; 20], balance: word(1) },
                Account { address: [0x22; 20], balance: U256 { hi: 3, lo: 4 } },
                Account { address: [0x22; 20], balance: word(9) },
            ],
            block_hashes: vec![BlockHash { number: 299, hash: hash_299 }],
        },
    }
}

const GO_ON: Result<OpcodeResult, VMError> = Ok(OpcodeResult::Continue { pc_increment: 1 });

fn halt(halt: ExceptionalHalt) -> Result<OpcodeResult, VMError> {
    Err(VMError::ExceptionalHalt(halt))
}

fn top(vm: &VM) -> &CallFrame {
    vm.call_frames.last().unwrap()
}

#[test]
fn timestamp_costs_two_and_pushes_the_timestamp() {
    let mut vm = machine(Fork::Cancun, vec![frame(100, vec![word(1)])]);
    assert_eq!(vm.op_timestamp(), GO_ON);
    assert_eq!(top(&vm).gas_used, 2);
    assert_eq!(top(&vm).stack.values, vec![word(1), word(1_700_000_000)]);
}

#[test]
fn number_chainid_basefee_gaslimit_push_their_values() {
    let mut vm = machine(Fork::Cancun, vec![frame(100, vec![])]);
    assert_eq!(vm.op_number(), GO_ON);
    assert_eq!(vm.op_chainid(), GO_ON);
    assert_eq!(vm.op_basefee(), GO_ON);
    assert_eq!(vm.op_gaslimit(), GO_ON);
    assert_eq!(top(&vm).gas_used, 8);
    assert_eq!(
        top(&vm).stack.values,
        vec![word(300), word(65536999), word(7), word(30_000_000)]
    );
}

#[test]
fn coinbase_pushes_the_address_as_a_word() {
    let mut vm = machine(Fork::Cancun, vec![frame(100, vec![])]);
    assert_eq!(vm.op_coinbase(), GO_ON);
    assert_eq!(top(&vm).gas_used, 2);
    // 0x01 in the first of twenty bytes is bit 152 of the word.
    assert_eq!(top(&vm).stack.values, vec![U256 { hi: 1 << 24, lo: 5 }]);
}

#[test]
fn selfbalance_costs_five_and_pushes_the_balance_of_the_first_entry() {
    let mut vm = machine(Fork::Cancun, vec![frame(100, vec![])]);
    assert_eq!(vm.op_selfbalance(), GO_ON);
    assert_eq!(top(&vm).gas_used, 5);
    assert_eq!(top(&vm).stack.values, vec![U256 { hi: 3, lo: 4 }]);
}

#[test]
fn selfbalance_of_an_unknown_account_is_zero() {
    let mut vm = machine(Fork::Cancun, vec![frame(100, vec![])]);
    vm.call_frames[0].to = [0x33; 20];
    assert_eq!(vm.op_selfbalance(), GO_ON);
    assert_eq!(top(&vm).stack.values, vec![U256::zero()]);
}

#[test]
fn prevrandao_pushes_zero_without_randomness() {
    let mut vm = machine(Fork::Cancun, vec![frame(100, vec![])]);
    assert_eq!(vm.op_prevrandao(), GO_ON);
    assert_eq!(top(&vm).stack.values, vec![U256::zero()]);
}

#[test]
fn prevrandao_pushes_the_randomness() {
    let mut vm = machine(Fork::Cancun, vec![frame(100, vec![])]);
    let mut randao = [0u8; 32];
    randao[0] = 0x80;
    randao[16] = 0x01;
    randao[31] = 0xFF;
    vm.env.prev_randao = Some(randao);
    assert_eq!(vm.op_prevrandao(), GO_ON);
    assert_eq!(top(&vm).gas_used, 2);
    assert_eq!(top(&vm).stack.values, vec![U256 { hi: 1 << 127, lo: (1 << 120) + 0xFF }]);
}

#[test]
fn out_of_gas_leaves_the_frame_as_it_was() {
    let mut vm = machine(Fork::Cancun, vec![frame(1, vec![word(4)])]);
    let before = vm.clone();
    assert_eq!(vm.op_timestamp(), halt(ExceptionalHalt::OutOfGas));
    assert_eq!(vm, before);
    // Exactly enough gas is enough.
    let mut vm = machine(Fork::Cancun, vec![frame(2, vec![])]);
    assert_eq!(vm.op_timestamp(), GO_ON);
    assert_eq!(top(&vm).gas_used, 2);
}

#[test]
fn gas_counter_that_would_wrap_is_out_of_gas() {
    let mut vm = machine(Fork::Cancun, vec![frame(u64::MAX, vec![])]);
    vm.call_frames[0].gas_used = u64::MAX - 1;
    assert_eq!(vm.op_number(), halt(ExceptionalHalt::OutOfGas));
    assert_eq!(top(&vm).gas_used, u64::MAX - 1);
}

#[test]
fn full_stack_overflows_after_the_gas_is_charged() {
    let mut vm = machine(Fork::Cancun, vec![frame(100, vec![word(0); 1024])]);
    assert_eq!(vm.op_chainid(), halt(ExceptionalHalt::StackOverflow));
    assert_eq!(top(&vm).gas_used, 2);
    assert_eq!(top(&vm).stack.values.len(), 1024);
    let mut vm = machine(Fork::Cancun, vec![frame(100, vec![word(0); 1023])]);
    assert_eq!(vm.op_chainid(), GO_ON);
    assert_eq!(top(&vm).stack.values.len(), 1024);
}

#[test]
fn without_a_call_frame_nothing_runs() {
    let no_frame: Result<OpcodeResult, VMError> =
        Err(VMError::Internal(InternalError::CouldNotAccessLastCallframe));
    let mut vm = machine(Fork::Cancun, vec![]);
    let before = vm.clone();
    assert_eq!(vm.op_coinbase(), no_frame);
    assert_eq!(vm.op_timestamp(), no_frame);
    assert_eq!(vm.op_number(), no_frame);
    assert_eq!(vm.op_prevrandao(), no_frame);
    assert_eq!(vm.op_gaslimit(), no_frame);
    assert_eq!(vm.op_chainid(), no_frame);
    assert_eq!(vm.op_selfbalance(), no_frame);
    assert_eq!(vm.op_basefee(), no_frame);
    assert_eq!(vm.op_blockhash(), no_frame);
    assert_eq!(vm.op_blobhash(), no_frame);
    assert_eq!(vm.op_blobbasefee(Ok(word(1))), no_frame);
    assert_eq!(vm, before);
}

#[test]
fn only_the_current_frame_changes() {
    let mut vm = machine(Fork::Cancun, vec![frame(50, vec![word(8)]), frame(100, vec![])]);
    assert_eq!(vm.op_basefee(), GO_ON);
    assert_eq!(vm.call_frames[0], frame(50, vec![word(8)]));
    assert_eq!(vm.call_frames[1].gas_used, 2);
    assert_eq!(vm.call_frames[1].stack.values, vec![word(7)]);
}

#[test]
fn blockhash_of_a_recent_block_is_its_hash() {
    let mut vm = machine(Fork::Cancun, vec![frame(100, vec![word(1), word(299)])]);
    assert_eq!(vm.op_blockhash(), GO_ON);
    assert_eq!(top(&vm).gas_used, 20);
    assert_eq!(top(&vm).stack.values, vec![word(1), U256 { hi: 1, lo: 0x99 }]);
}

#[test]
fn blockhash_outside_the_window_is_zero() {
    // The current block is 300: blocks 44 to 299 can be read.
    for number in [300u64, 301, 43, 0] {
        let mut vm = machine(Fork::Cancun, vec![frame(100, vec![word(number)])]);
        assert_eq!(vm.op_blockhash(), GO_ON);
        assert_eq!(top(&vm).stack.values, vec![U256::zero()]);
    }
    let mut vm = machine(Fork::Cancun, vec![frame(100, vec![U256 { hi: 1, lo: 0 }])]);
    assert_eq!(vm.op_blockhash(), GO_ON);
    assert_eq!(top(&vm).stack.values, vec![U256::zero()]);
}

#[test]
fn blockhash_that_the_database_lacks_is_an_internal_error() {
    let mut vm = machine(Fork::Cancun, vec![frame(100, vec![word(44)])]);
    assert_eq!(
        vm.op_blockhash(),
        Err(VMError::Internal(InternalError::BlockHashNotFound(44)))
    );
    assert_eq!(top(&vm).gas_used, 20);
    assert!(top(&vm).stack.values.is_empty());
}

#[test]
fn blockhash_of_a_very_large_number_halts() {
    let mut vm = machine(Fork::Cancun, vec![frame(100, vec![U256 { hi: 0, lo: 1 << 64 }])]);
    vm.env.block_number = U256 { hi: 0, lo: (1 << 64) + 1 };
    assert_eq!(vm.op_blockhash(), halt(ExceptionalHalt::VeryLargeNumber));
}

#[test]
fn blockhash_on_an_empty_stack_underflows() {
    let mut vm = machine(Fork::Cancun, vec![frame(100, vec![])]);
    assert_eq!(vm.op_blockhash(), halt(ExceptionalHalt::StackUnderflow));
    assert_eq!(top(&vm).gas_used, 20);
    let mut vm = machine(Fork::Cancun, vec![frame(19, vec![word(299)])]);
    assert_eq!(vm.op_blockhash(), halt(ExceptionalHalt::OutOfGas));
    assert_eq!(top(&vm).stack.values, vec![word(299)]);
}

#[test]
fn blobhash_pushes_the_hash_at_the_index_or_zero() {
    let mut vm = machine(Fork::Cancun, vec![frame(100, vec![word(0)])]);
    assert_eq!(vm.op_blobhash(), GO_ON);
    assert_eq!(top(&vm).gas_used, 3);
    assert_eq!(top(&vm).stack.values, vec![U256 { hi: 1 << 120, lo: 2 }]);
    let mut vm = machine(Fork::Cancun, vec![frame(100, vec![word(1)])]);
    assert_eq!(vm.op_blobhash(), GO_ON);
    assert_eq!(top(&vm).stack.values, vec![U256::zero()]);
    let mut vm = machine(Fork::Prague, vec![frame(100, vec![U256 { hi: 7, lo: 0 }])]);
    assert_eq!(vm.op_blobhash(), GO_ON);
    assert_eq!(top(&vm).stack.values, vec![U256::zero()]);
}

#[test]
fn blob_instructions_are_invalid_before_cancun() {
    let mut vm = machine(Fork::Shanghai, vec![frame(100, vec![word(0)])]);
    let before = vm.clone();
    assert_eq!(vm.op_blobhash(), halt(ExceptionalHalt::InvalidOpcode));
    assert_eq!(vm.op_blobbasefee(Ok(word(1))), halt(ExceptionalHalt::InvalidOpcode));
    assert_eq!(vm, before);
    // Before Cancun the instruction is invalid even where there is no frame.
    let mut vm = machine(Fork::Paris, vec![]);
    assert_eq!(vm.op_blobhash(), halt(ExceptionalHalt::InvalidOpcode));
}

#[test]
fn blobbasefee_pushes_the_fee_or_passes_the_failure_on() {
    let mut vm = machine(Fork::Cancun, vec![frame(100, vec![])]);
    assert_eq!(vm.op_blobbasefee(Ok(word(11))), GO_ON);
    assert_eq!(top(&vm).gas_used, 2);
    assert_eq!(top(&vm).stack.values, vec![word(11)]);
    let failure = VMError::Internal(InternalError::TypeConversion);
    assert_eq!(vm.op_blobbasefee(Err(failure)), Err(failure));
    assert_eq!(top(&vm).gas_used, 4);
    assert_eq!(top(&vm).stack.values, vec![word(11)]);
    let mut vm = machine(Fork::Cancun, vec![frame(1, vec![])]);
    assert_eq!(vm.op_blobbasefee(Err(failure)), halt(ExceptionalHalt::OutOfGas));
}

#[test]
fn forks_are_ordered_oldest_first() {
    assert!(Fork::Shanghai.is_before(Fork::Cancun));
    assert!(!Fork::Cancun.is_before(Fork::Cancun));
    assert!(!Fork::Prague.is_before(Fork::Cancun));
    assert_eq!(Fork::Frontier.ordinal(), 0);
    assert_eq!(Fork::Osaka.ordinal(), 19);
}

#[test]
fn stack_pops_what_was_pushed_last() {
    let mut stack = Stack { values: vec![] };
    assert_eq!(stack.pop(), Err(ExceptionalHalt::StackUnderflow));
    assert_eq!(stack.push(word(1)), Ok(()));
    assert_eq!(stack.push(word(2)), Ok(()));
    assert_eq!(stack.pop(), Ok(word(2)));
    assert_eq!(stack.values, vec![word(1)]);
}

#[test]
fn database_lookups_take_the_first_entry() {
    let vm = machine(Fork::Cancun, vec![]);
    assert_eq!(vm.db.balance(&[0x21; 20]), word(1));
    assert_eq!(vm.db.balance(&[0x22; 20]), U256 { hi: 3, lo: 4 });
    assert_eq!(vm.db.balance(&[0x23; 20]), U256::zero());
    assert!(vm.db.get_block_hash(299).is_some());
    assert_eq!(vm.db.get_block_hash(298), None);
}
