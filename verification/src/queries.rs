//! The records that the witness oracle holds and the records that the
//! circuit hands it, each as the plain values that the oracle reads.

use vstd::prelude::*;
use crate::words::{Address, U256, address_is_kernel};

verus! {

/// A memory access recorded by the VM: when, where, and which word.
#[derive(PartialEq, Eq, Structural, Clone, Copy, Debug)]
pub struct MemoryQuery {
    pub timestamp: u32,
    pub page: u32,
    pub index: u32,
    pub value: U256,
    pub rw_flag: bool,
    pub value_is_pointer: bool,
}

/// A storage access recorded by the VM.
#[derive(PartialEq, Eq, Structural, Clone, Copy, Debug)]
pub struct LogQuery {
    pub timestamp: u32,
    pub tx_number_in_block: u16,
    pub aux_byte: u8,
    pub shard_id: u8,
    pub address: Address,
    pub key: U256,
    pub read_value: U256,
    pub written_value: U256,
    pub rw_flag: bool,
    pub rollback: bool,
    pub is_service: bool,
}

/// A code decommitment recorded by the VM: the 28 bytes of the normalized
/// preimage of the versioned code hash, and the page the code went to.
#[derive(Clone, Copy, Debug)]
pub struct DecommittmentQuery {
    pub normalized_preimage: [u8; 28],
    pub timestamp: u32,
    pub memory_page: u32,
}

/// A frame of the VM call stack.
#[derive(PartialEq, Eq, Structural, Clone, Copy, Debug)]
pub struct CallStackEntry {
    pub this_address: Address,
    pub msg_sender: Address,
    pub code_address: Address,
    pub base_memory_page: u32,
    pub code_page: u32,
    pub sp: u16,
    pub pc: u16,
    pub exception_handler_location: u16,
    pub ergs_remaining: u32,
    pub this_shard_id: u8,
    pub caller_shard_id: u8,
    pub code_shard_id: u8,
    pub is_static: bool,
    pub is_local_frame: bool,
    pub context_u128_value: u128,
    pub heap_bound: u32,
    pub aux_heap_bound: u32,
    /// Pubdata spent so far, a signed amount.
    pub total_pubdata_spent: i32,
    pub stipend: u32,
}

impl CallStackEntry {
    /// A frame runs in kernel mode when its own address is below `2^16`.
    pub open spec fn spec_is_kernel_mode(self) -> bool {
        self.this_address.high == 0 && self.this_address.low < 0x1_0000
    }

    pub fn is_kernel_mode(&self) -> (r: bool)
        ensures
            r == self.spec_is_kernel_mode(),
    {
        address_is_kernel(&self.this_address)
    }
}

/// A call stack frame together with the rollback queue segment it owns.
#[derive(Clone, Copy, Debug)]
pub struct ExtendedCallstackEntry {
    pub callstack_entry: CallStackEntry,
    pub rollback_queue_head: [u64; 4],
    pub rollback_queue_tail: [u64; 4],
    pub rollback_queue_segment_length: u32,
}

/// The state of the call stack sponge around one push or pop.
#[derive(Clone, Copy, Debug)]
pub struct CallstackSimulatorState {
    pub is_push: bool,
    pub new_state: [u64; 12],
    pub depth: u32,
}

/// What the circuit reads from memory: a word and whether it is a pointer.
#[derive(PartialEq, Eq, Structural, Clone, Copy, Debug)]
pub struct MemoryWitness {
    pub value: U256,
    pub is_ptr: bool,
}

/// A memory write as the circuit sees it.
#[derive(PartialEq, Eq, Structural, Clone, Copy, Debug)]
pub struct MemoryQueryWitness {
    pub timestamp: u32,
    pub memory_page: u32,
    pub index: u32,
    pub rw_flag: bool,
    pub is_ptr: bool,
    pub value: U256,
}

/// A storage access as the circuit sees it.
#[derive(PartialEq, Eq, Structural, Clone, Copy, Debug)]
pub struct LogQueryWitness {
    pub address: Address,
    pub key: U256,
    pub read_value: U256,
    pub written_value: U256,
    pub aux_byte: u8,
    pub rw_flag: bool,
    pub rollback: bool,
    pub is_service: bool,
    pub shard_id: u8,
    pub tx_number_in_block: u32,
    pub timestamp: u32,
}

/// A decommitment request as the circuit sees it.
#[derive(PartialEq, Eq, Structural, Clone, Copy, Debug)]
pub struct DecommitQueryWitness {
    pub code_hash: U256,
    pub page: u32,
    pub is_first: bool,
    pub timestamp: u32,
}

/// A saved execution context as the circuit sees it.
#[derive(Clone, Copy, Debug)]
pub struct ExecutionContextRecordWitness {
    pub this: Address,
    pub caller: Address,
    pub code_address: Address,
    pub code_page: u32,
    pub base_page: u32,
    pub heap_upper_bound: u32,
    pub aux_heap_upper_bound: u32,
    pub reverted_queue_head: [u64; 4],
    pub reverted_queue_tail: [u64; 4],
    pub reverted_queue_segment_len: u32,
    pub pc: u16,
    pub sp: u16,
    pub exception_handler_loc: u16,
    pub ergs_remaining: u32,
    pub is_static_execution: bool,
    pub is_kernel_mode: bool,
    pub this_shard_id: u8,
    pub caller_shard_id: u8,
    pub code_shard_id: u8,
    pub context_u128_value_composite: [u32; 4],
    pub is_local_call: bool,
    /// Pubdata spent so far, as the two's complement bits of a signed amount.
    pub total_pubdata_spent: u32,
    pub stipend: u32,
}

impl ExecutionContextRecordWitness {
    /// Every field of the record is zero or false.
    pub open spec fn is_placeholder(self) -> bool {
        &&& self.this == Address::spec_zero()
        &&& self.caller == Address::spec_zero()
        &&& self.code_address == Address::spec_zero()
        &&& self.code_page == 0
        &&& self.base_page == 0
        &&& self.heap_upper_bound == 0
        &&& self.aux_heap_upper_bound == 0
        &&& self.reverted_queue_head@ == seq![0u64, 0u64, 0u64, 0u64]
        &&& self.reverted_queue_tail@ == seq![0u64, 0u64, 0u64, 0u64]
        &&& self.reverted_queue_segment_len == 0
        &&& self.pc == 0
        &&& self.sp == 0
        &&& self.exception_handler_loc == 0
        &&& self.ergs_remaining == 0
        &&& !self.is_static_execution
        &&& !self.is_kernel_mode
        &&& self.this_shard_id == 0
        &&& self.caller_shard_id == 0
        &&& self.code_shard_id == 0
        &&& self.context_u128_value_composite@ == seq![0u32, 0u32, 0u32, 0u32]
        &&& !self.is_local_call
        &&& self.total_pubdata_spent == 0
        &&& self.stipend == 0
    }

    /// The record handed out when nothing is executed.
    pub fn placeholder() -> (r: ExecutionContextRecordWitness)
        ensures
            r.is_placeholder(),
    {
        ExecutionContextRecordWitness {
            this: Address::zero(),
            caller: Address::zero(),
            code_address: Address::zero(),
            code_page: 0,
            base_page: 0,
            heap_upper_bound: 0,
            aux_heap_upper_bound: 0,
            reverted_queue_head: [0u64, 0u64, 0u64, 0u64],
            reverted_queue_tail: [0u64, 0u64, 0u64, 0u64],
            reverted_queue_segment_len: 0,
            pc: 0,
            sp: 0,
            exception_handler_loc: 0,
            ergs_remaining: 0,
            is_static_execution: false,
            is_kernel_mode: false,
            this_shard_id: 0,
            caller_shard_id: 0,
            code_shard_id: 0,
            context_u128_value_composite: [0u32, 0u32, 0u32, 0u32],
            is_local_call: false,
            total_pubdata_spent: 0,
            stipend: 0,
        }
    }
}

} // verus!
