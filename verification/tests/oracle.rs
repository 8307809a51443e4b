use std::collections::VecDeque;
use witness_oracle::oracle::{VmWitnessOracle, WitnessError, WitnessField, WitnessQueue};
use witness_oracle::queries::{
    CallStackEntry, CallstackSimulatorState, DecommitQueryWitness, DecommittmentQuery,
    ExecutionContextRecordWitness, ExtendedCallstackEntry, LogQuery, LogQueryWitness, MemoryQuery,
    MemoryQueryWitness,
};
use witness_oracle::words::{u128_as_u32_le, Address, U256};

fn word(x: u64) -> U256 {
    U256 { w0: x, w1: 0, w2: 0, w3: 0 }
}

fn mem(ts: u32, page: u32, index: u32, value: u64, ptr: bool) -> MemoryQuery {
    MemoryQuery { timestamp: ts, page, index, value: word(value), rw_flag: false, value_is_pointer: ptr }
}

fn log(ts: u32, key: u64, write: bool) -> LogQuery {
    LogQuery {
        timestamp: ts,
        tx_number_in_block: 3,
        aux_byte: 1,
        shard_id: 0,
        address: Address { high: 0, low: 0x8002 },
        key: word(key),
        read_value: word(key * 10),
        written_value: word(if write { 77 } else { 0 }),
        rw_flag: write,
        rollback: false,
        is_service: false,
    }
}

fn log_witness(q: &LogQuery) -> LogQueryWitness {
    LogQueryWitness {
        address: q.address,
        key: q.key,
        read_value: q.read_value,
        written_value: q.written_value,
        aux_byte: q.aux_byte,
        rw_flag: q.rw_flag,
        rollback: q.rollback,
        is_service: q.is_service,
        shard_id: q.shard_id,
        tx_number_in_block: q.tx_number_in_block as u32,
        timestamp: q.timestamp,
    }
}

fn frame(pc: u16) -> CallStackEntry {
    CallStackEntry {
        this_address: Address { high: 0, low: 0x8003 },
        msg_sender: Address { high: 0, low: 0x1234_5678 },
        code_address: Address { high: 7, low: 9 },
        base_memory_page: 40,
        code_page: 41,
        sp: 1024,
        pc,
        exception_handler_location: 500,
        ergs_remaining: 1_000_000,
        this_shard_id: 0,
        caller_shard_id: 0,
        code_shard_id: 0,
        is_static: false,
        is_local_frame: false,
        context_u128_value: 0x0123_4567_89ab_cdef_0011_2233_4455_6677,
        heap_bound: 4096,
        aux_heap_bound: 8192,
        total_pubdata_spent: -3,
        stipend: 11,
    }
}

fn extended(pc: u16) -> ExtendedCallstackEntry {
    ExtendedCallstackEntry {
        callstack_entry: frame(pc),
        rollback_queue_head: [1, 2, 3, 4],
        rollback_queue_tail: [5, 6, 7, 8],
        rollback_queue_segment_length: 2,
    }
}

fn sponge(is_push: bool, depth: u32) -> CallstackSimulatorState {
    CallstackSimulatorState { is_push, new_state: [depth as u64; 12], depth }
}

fn record_of(x: &ExtendedCallstackEntry) -> ExecutionContextRecordWitness {
    let e = &x.callstack_entry;
    ExecutionContextRecordWitness {
        this: e.this_address,
        caller: e.msg_sender,
        code_address: e.code_address,
        code_page: e.code_page,
        base_page: e.base_memory_page,
        heap_upper_bound: e.heap_bound,
        aux_heap_upper_bound: e.aux_heap_bound,
        reverted_queue_head: x.rollback_queue_head,
        reverted_queue_tail: x.rollback_queue_tail,
        reverted_queue_segment_len: x.rollback_queue_segment_length,
        pc: e.pc,
        sp: e.sp,
        exception_handler_loc: e.exception_handler_location,
        ergs_remaining: e.ergs_remaining,
        is_static_execution: e.is_static,
        is_kernel_mode: e.is_kernel_mode(),
        this_shard_id: e.this_shard_id,
        caller_shard_id: e.caller_shard_id,
        code_shard_id: e.code_shard_id,
        context_u128_value_composite: u128_as_u32_le(e.context_u128_value),
        is_local_call: e.is_local_frame,
        total_pubdata_spent: e.total_pubdata_spent as u32,
        stipend: e.stipend,
    }
}

fn mismatch(q: WitnessQueue, f: WitnessField) -> Result<(), WitnessError> {
    Err(WitnessError::Mismatch(q, f))
}

#[test]
fn memory_read_hands_out_front_witness() {
    let mut o = VmWitnessOracle::default();
    o.memory_read_witness.push_back((7, mem(10, 2, 3, 99, true)));
    o.memory_read_witness.push_back((8, mem(11, 2, 4, 5, false)));
    assert_eq!(o.check_memory_read(10, 2, 3, true), Ok(()));
    let w = o.get_memory_witness_for_read(10, 2, 3, true);
    assert_eq!(w.value, word(99));
    assert!(w.is_ptr);
    assert_eq!(o.memory_read_witness.len(), 1);
    assert_eq!(o.memory_read_witness[0].0, 8);
}

#[test]
fn memory_read_mismatches_and_missing() {
    let mut o = VmWitnessOracle::default();
    assert_eq!(o.check_memory_read(1, 1, 1, true), Err(WitnessError::Missing(WitnessQueue::MemoryRead)));
    o.memory_read_witness.push_back((0, mem(10, 2, 3, 99, false)));
    assert_eq!(o.check_memory_read(11, 2, 3, true), mismatch(WitnessQueue::MemoryRead, WitnessField::Timestamp));
    assert_eq!(o.check_memory_read(10, 9, 3, true), mismatch(WitnessQueue::MemoryRead, WitnessField::Page));
    assert_eq!(o.check_memory_read(10, 2, 9, true), mismatch(WitnessQueue::MemoryRead, WitnessField::Index));
}

#[test]
fn memory_read_not_executed_is_zero_and_keeps_queue() {
    let mut o = VmWitnessOracle::default();
    o.memory_read_witness.push_back((0, mem(10, 2, 3, 99, true)));
    assert_eq!(o.check_memory_read(0, 0, 0, false), Ok(()));
    let w = o.get_memory_witness_for_read(0, 0, 0, false);
    assert_eq!(w.value, U256::zero());
    assert!(!w.is_ptr);
    assert_eq!(o.memory_read_witness.len(), 1);
}

fn write_witness(q: &MemoryQuery) -> MemoryQueryWitness {
    MemoryQueryWitness {
        timestamp: q.timestamp,
        memory_page: q.page,
        index: q.index,
        rw_flag: true,
        is_ptr: q.value_is_pointer,
        value: q.value,
    }
}

#[test]
fn memory_write_self_check() {
    let q = mem(20, 5, 6, 123, false);
    let mut o = VmWitnessOracle::default();
    // no self-check queue: anything is accepted, nothing changes
    let mut w = write_witness(&q);
    w.value = word(1);
    assert_eq!(o.check_memory_write(&w, true), Ok(()));
    o.push_memory_witness(&w, true);
    assert!(o.memory_write_witness.is_none());

    o.memory_write_witness = Some(VecDeque::new());
    assert_eq!(o.check_memory_write(&w, true), Err(WitnessError::Missing(WitnessQueue::MemoryWrite)));
    o.memory_write_witness.as_mut().unwrap().push_back((1, q));
    assert_eq!(o.check_memory_write(&w, true), mismatch(WitnessQueue::MemoryWrite, WitnessField::Value));
    let mut p = write_witness(&q);
    p.is_ptr = true;
    assert_eq!(o.check_memory_write(&p, true), mismatch(WitnessQueue::MemoryWrite, WitnessField::IsPointer));
    p = write_witness(&q);
    p.index = 7;
    assert_eq!(o.check_memory_write(&p, true), mismatch(WitnessQueue::MemoryWrite, WitnessField::Index));
    assert_eq!(o.check_memory_write(&w, false), Ok(()));
    let good = write_witness(&q);
    assert_eq!(o.check_memory_write(&good, true), Ok(()));
    o.push_memory_witness(&good, true);
    assert_eq!(o.memory_write_witness.as_ref().unwrap().len(), 0);
}

#[test]
fn storage_read_returns_read_value() {
    let q = log(30, 4, false);
    let mut o = VmWitnessOracle::default();
    o.storage_queries.push_back((3, q));
    let k = log_witness(&q);
    assert_eq!(o.check_storage_read(&k, true, true), Ok(()));
    assert_eq!(o.get_storage_read_witness(&k, true, true), word(40));
    assert!(o.storage_queries.is_empty());
}

#[test]
fn storage_read_without_need_is_zero() {
    let q = log(30, 4, false);
    let mut o = VmWitnessOracle::default();
    o.storage_queries.push_back((3, q));
    let k = log_witness(&q);
    assert_eq!(o.get_storage_read_witness(&k, false, true), U256::zero());
    assert_eq!(o.get_storage_read_witness(&k, true, false), U256::zero());
    assert_eq!(o.storage_queries.len(), 1);
}

#[test]
fn storage_read_mismatches() {
    let q = log(30, 4, true);
    let mut o = VmWitnessOracle::default();
    let k = log_witness(&q);
    assert_eq!(o.check_storage_read(&k, true, true), Err(WitnessError::Missing(WitnessQueue::StorageRead)));
    o.storage_queries.push_back((3, q));
    let mut bad = k;
    bad.aux_byte = 9;
    assert_eq!(o.check_storage_read(&bad, true, true), mismatch(WitnessQueue::StorageRead, WitnessField::AuxByte));
    bad = k;
    bad.written_value = word(1);
    assert_eq!(
        o.check_storage_read(&bad, true, true),
        mismatch(WitnessQueue::StorageRead, WitnessField::WrittenValue)
    );
    bad = k;
    bad.rollback = true;
    assert_eq!(o.check_storage_read(&bad, true, true), mismatch(WitnessQueue::StorageRead, WitnessField::Rollback));
    bad = k;
    bad.tx_number_in_block = 4;
    assert_eq!(o.check_storage_read(&bad, true, true), mismatch(WitnessQueue::StorageRead, WitnessField::TxNumber));
    bad = k;
    bad.timestamp = 31;
    assert_eq!(o.check_storage_read(&bad, true, true), mismatch(WitnessQueue::StorageRead, WitnessField::Timestamp));
    // the read value of the circuit's record is not compared
    bad = k;
    bad.read_value = word(1);
    assert_eq!(o.check_storage_read(&bad, true, true), Ok(()));
}

#[test]
fn written_value_ignored_for_reads() {
    let q = log(30, 4, false);
    let mut o = VmWitnessOracle::default();
    o.storage_queries.push_back((3, q));
    let mut k = log_witness(&q);
    k.written_value = word(5);
    assert_eq!(o.check_storage_read(&k, true, true), Ok(()));
}

#[test]
fn cold_warm_refund() {
    let q = log(40, 1, true);
    let mut o = VmWitnessOracle::default();
    let other = log_witness(&log(1, 99, false));
    assert_eq!(o.check_cold_warm_refund(true, true), Err(WitnessError::Missing(WitnessQueue::ColdWarmRefund)));
    o.storage_access_cold_warm_refunds.push_back((4, q, 2400));
    assert_eq!(o.check_cold_warm_refund(false, true), mismatch(WitnessQueue::ColdWarmRefund, WitnessField::RwFlag));
    // the circuit's query itself is not compared with the witness
    assert_eq!(o.check_cold_warm_refund(true, true), Ok(()));
    assert_eq!(o.get_cold_warm_refund(&other, true, true), 2400);
    assert!(o.storage_access_cold_warm_refunds.is_empty());
    assert_eq!(o.get_cold_warm_refund(&other, true, false), 0);

    let mut r = log(41, 1, true);
    r.rollback = true;
    o.storage_access_cold_warm_refunds.push_back((4, r, 1));
    assert_eq!(o.check_cold_warm_refund(true, true), mismatch(WitnessQueue::ColdWarmRefund, WitnessField::Rollback));
}

#[test]
fn pubdata_cost_is_twos_complement() {
    let mut o = VmWitnessOracle::default();
    let k = log_witness(&log(50, 1, true));
    o.storage_pubdata_queries.push_back((5, log(50, 1, true), -1));
    assert_eq!(o.check_pubdata_cost(true, true), Ok(()));
    assert_eq!(o.get_pubdata_cost_for_query(&k, true, true), u32::MAX);
    o.storage_pubdata_queries.push_back((5, log(51, 1, true), 64));
    assert_eq!(o.get_pubdata_cost_for_query(&k, true, true), 64);
    assert_eq!(o.get_pubdata_cost_for_query(&k, true, false), 0);
}

#[test]
fn pubdata_cost_of_read_must_be_zero() {
    let mut o = VmWitnessOracle::default();
    assert_eq!(o.check_pubdata_cost(false, true), Err(WitnessError::Missing(WitnessQueue::PubdataCost)));
    o.storage_pubdata_queries.push_back((5, log(50, 1, false), 3));
    assert_eq!(o.check_pubdata_cost(false, true), mismatch(WitnessQueue::PubdataCost, WitnessField::PubdataCost));
    assert_eq!(o.check_pubdata_cost(true, true), mismatch(WitnessQueue::PubdataCost, WitnessField::RwFlag));
    o.storage_pubdata_queries[0].2 = 0;
    assert_eq!(o.check_pubdata_cost(false, true), Ok(()));
}

#[test]
fn rollback_queue_witnesses() {
    let mut o = VmWitnessOracle::default();
    let k = log_witness(&log(1, 1, true));
    assert_eq!(o.check_rollback_queue_head(true), Err(WitnessError::Missing(WitnessQueue::RollbackQueueHead)));
    assert_eq!(o.check_rollback_queue_tail(true), Err(WitnessError::Missing(WitnessQueue::RollbackQueueTail)));
    assert_eq!(o.check_rollback_queue_head(false), Ok(()));
    o.rollback_queue_head_segments.push_back((1, [9, 8, 7, 6]));
    o.rollback_queue_initial_tails_for_new_frames.push_back((2, [1, 1, 2, 3]));
    assert_eq!(o.get_rollback_queue_witness(&k, false), [0; 4]);
    assert_eq!(o.get_rollback_queue_witness(&k, true), [9, 8, 7, 6]);
    assert_eq!(o.get_rollback_queue_tail_witness_for_call(0, false), [0; 4]);
    assert_eq!(o.get_rollback_queue_tail_witness_for_call(0, true), [1, 1, 2, 3]);
    assert!(o.rollback_queue_head_segments.is_empty());
    assert!(o.rollback_queue_initial_tails_for_new_frames.is_empty());
}

#[test]
fn callstack_push_checks_frame() {
    let x = extended(100);
    let mut o = VmWitnessOracle::default();
    let rec = record_of(&x);
    assert_eq!(o.check_push_callstack(&rec, 2, true), Err(WitnessError::Missing(WitnessQueue::CallstackValues)));
    o.callstack_values_witnesses.push_back((9, (x, sponge(true, 3))));
    assert_eq!(o.check_push_callstack(&rec, 2, true), Ok(()));
    assert_eq!(o.check_push_callstack(&rec, 3, true), mismatch(WitnessQueue::CallstackValues, WitnessField::Depth));
    let mut bad = rec;
    bad.pc = 101;
    assert_eq!(o.check_push_callstack(&bad, 2, true), mismatch(WitnessQueue::CallstackValues, WitnessField::Pc));
    bad = rec;
    bad.reverted_queue_tail[3] = 0;
    assert_eq!(
        o.check_push_callstack(&bad, 2, true),
        mismatch(WitnessQueue::CallstackValues, WitnessField::RevertedQueueTail)
    );
    bad = rec;
    bad.context_u128_value_composite[1] ^= 1;
    assert_eq!(
        o.check_push_callstack(&bad, 2, true),
        mismatch(WitnessQueue::CallstackValues, WitnessField::ContextValue)
    );
    bad = rec;
    bad.total_pubdata_spent = 3;
    assert_eq!(
        o.check_push_callstack(&bad, 2, true),
        mismatch(WitnessQueue::CallstackValues, WitnessField::TotalPubdataSpent)
    );
    bad = rec;
    bad.is_kernel_mode = false;
    assert_eq!(o.check_push_callstack(&bad, 2, true), mismatch(WitnessQueue::CallstackValues, WitnessField::IsKernelMode));
    o.push_callstack_witness(&rec, 2, true);
    assert!(o.callstack_values_witnesses.is_empty());
}

#[test]
fn callstack_push_rejects_pop_witness() {
    let x = extended(100);
    let mut o = VmWitnessOracle::default();
    o.callstack_values_witnesses.push_back((9, (x, sponge(false, 3))));
    assert_eq!(
        o.check_push_callstack(&record_of(&x), 2, true),
        mismatch(WitnessQueue::CallstackValues, WitnessField::Direction)
    );
    assert_eq!(o.check_push_callstack(&record_of(&x), 2, false), Ok(()));
}

#[test]
fn callstack_pop_returns_saved_frame() {
    let x = extended(200);
    let mut o = VmWitnessOracle::default();
    o.callstack_values_witnesses.push_back((9, (x, sponge(false, 1))));
    assert_eq!(o.check_pop_callstack(true, 3), mismatch(WitnessQueue::CallstackValues, WitnessField::Depth));
    assert_eq!(o.check_pop_callstack(true, 0), mismatch(WitnessQueue::CallstackValues, WitnessField::Depth));
    assert_eq!(o.check_pop_callstack(true, 2), Ok(()));
    let (rec, state) = o.get_callstack_witness(true, 2);
    assert_eq!(state, [1u64; 12]);
    assert_eq!(rec.pc, 200);
    assert_eq!(rec.total_pubdata_spent, u32::MAX - 2);
    assert_eq!(rec.context_u128_value_composite, [0x4455_6677, 0x0011_2233, 0x89ab_cdef, 0x0123_4567]);
    assert!(rec.is_kernel_mode);
    assert_eq!(rec.reverted_queue_head, [1, 2, 3, 4]);
    // the handed-out record passes the checks of a push of the same frame
    o.callstack_values_witnesses.push_back((10, (x, sponge(true, 5))));
    assert_eq!(o.check_push_callstack(&rec, 4, true), Ok(()));
}

#[test]
fn callstack_pop_rejects_push_witness() {
    let mut o = VmWitnessOracle::default();
    assert_eq!(o.check_pop_callstack(true, 2), Err(WitnessError::Missing(WitnessQueue::CallstackValues)));
    o.callstack_values_witnesses.push_back((9, (extended(1), sponge(true, 1))));
    assert_eq!(o.check_pop_callstack(true, 2), mismatch(WitnessQueue::CallstackValues, WitnessField::Direction));
}

#[test]
fn callstack_not_executed_gives_placeholder() {
    let mut o = VmWitnessOracle::default();
    let (rec, state) = o.get_callstack_witness(false, 0);
    assert_eq!(state, [0u64; 12]);
    assert_eq!(rec.this, Address::zero());
    assert_eq!(rec.context_u128_value_composite, [0; 4]);
    assert_eq!(rec.ergs_remaining, 0);
    assert!(!rec.is_kernel_mode && !rec.is_local_call);
}

#[test]
fn new_frame_report() {
    let x = extended(300);
    let mut rec = record_of(&x);
    // the rollback segment, stipend and pubdata are not compared for a new frame
    rec.reverted_queue_head = [0; 4];
    rec.stipend = 0;
    rec.total_pubdata_spent = 0;
    let mut o = VmWitnessOracle::default();
    assert_eq!(o.check_new_callstack_frame(&rec, true, true), Err(WitnessError::Missing(WitnessQueue::CallstackNewFrames)));
    assert_eq!(o.check_new_callstack_frame(&rec, false, true), Ok(()));
    o.callstack_new_frames_witnesses.push_back((3, x.callstack_entry));
    assert_eq!(o.check_new_callstack_frame(&rec, true, true), Ok(()));
    let mut bad = rec;
    bad.code_page = 0;
    assert_eq!(
        o.check_new_callstack_frame(&bad, true, true),
        mismatch(WitnessQueue::CallstackNewFrames, WitnessField::CodePage)
    );
    o.report_new_callstack_frame(&rec, 1, false, true);
    assert_eq!(o.callstack_new_frames_witnesses.len(), 1);
    o.report_new_callstack_frame(&rec, 1, true, true);
    assert!(o.callstack_new_frames_witnesses.is_empty());
}

#[test]
fn decommittment_page() {
    let mut pre = [0u8; 28];
    pre[27] = 0xab;
    pre[0] = 0x01;
    let mut o = VmWitnessOracle::default();
    let good = DecommitQueryWitness {
        code_hash: U256 { w0: 0xab, w1: 0, w2: 0, w3: 0x0100_0000 },
        page: 0,
        is_first: true,
        timestamp: 77,
    };
    assert_eq!(o.check_decommittment_request(&good, true), Err(WitnessError::Missing(WitnessQueue::Decommittment)));
    o.decommittment_requests_witness.push_back((1, DecommittmentQuery { normalized_preimage: pre, timestamp: 77, memory_page: 2048 }));
    assert_eq!(o.check_decommittment_request(&good, true), Ok(()));
    let mut bad = good;
    bad.timestamp = 78;
    assert_eq!(o.check_decommittment_request(&bad, true), mismatch(WitnessQueue::Decommittment, WitnessField::Timestamp));
    bad = good;
    bad.code_hash.w3 = 0x1_0100_0000;
    assert_eq!(o.check_decommittment_request(&bad, true), mismatch(WitnessQueue::Decommittment, WitnessField::CodeHash));
    assert_eq!(o.get_decommittment_request_suggested_page(&bad, false), 0);
    assert_eq!(o.get_decommittment_request_suggested_page(&good, true), 2048);
    assert!(o.decommittment_requests_witness.is_empty());
}

#[test]
fn completion_reports_leftovers_in_order() {
    let mut o = VmWitnessOracle::default();
    assert_eq!(o.check_completion(), Ok(()));
    o.callstack_new_frames_witnesses.push_back((1, frame(1)));
    assert_eq!(o.check_completion(), Ok(()));
    o.memory_write_witness = Some(VecDeque::new());
    assert_eq!(o.check_completion(), Ok(()));
    o.rollback_queue_initial_tails_for_new_frames.push_back((1, [0; 4]));
    assert_eq!(o.check_completion(), Err(WitnessError::Leftover(WitnessQueue::RollbackQueueTail)));
    o.decommittment_requests_witness.push_back((1, DecommittmentQuery { normalized_preimage: [0; 28], timestamp: 1, memory_page: 1 }));
    assert_eq!(o.check_completion(), Err(WitnessError::Leftover(WitnessQueue::Decommittment)));
    o.storage_queries.push_back((1, log(1, 1, false)));
    assert_eq!(o.check_completion(), Err(WitnessError::Leftover(WitnessQueue::StorageRead)));
    o.memory_write_witness.as_mut().unwrap().push_back((1, mem(1, 1, 1, 1, false)));
    assert_eq!(o.check_completion(), Err(WitnessError::Leftover(WitnessQueue::MemoryWrite)));
    o.memory_read_witness.push_back((1, mem(1, 1, 1, 1, false)));
    assert_eq!(o.check_completion(), Err(WitnessError::Leftover(WitnessQueue::MemoryRead)));
}

#[test]
fn used_up_oracle_completes() {
    let mut o = VmWitnessOracle::default();
    o.initial_cycle = 10;
    o.final_cycle_inclusive = 20;
    o.memory_read_witness.push_back((10, mem(1, 1, 1, 5, false)));
    let _ = o.get_memory_witness_for_read(1, 1, 1, true);
    assert_eq!(o.check_completion(), Ok(()));
    o.at_completion();
}
