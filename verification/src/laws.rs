//! What each request of the oracle accepts and what each refusal names,
//! stated over the fields of the circuit's record and the oracle's witness.

use vstd::prelude::*;
use crate::oracle::{OracleView, WitnessError, WitnessField, WitnessQueue};
use crate::callstack::{is_record_of, record_divergence};
use crate::decommit::spec_normalized_code_hash;
use crate::queries::{
    CallStackEntry, DecommitQueryWitness, ExecutionContextRecordWitness, ExtendedCallstackEntry,
    LogQueryWitness, MemoryQueryWitness,
};
use crate::words::{U256, spec_u128_as_u32_le};
use crate::wrapper::{
    WrapperArtifacts, WrapperInputError, WrapperStep, spec_after_step, spec_next_wrapper_step,
    spec_wrapper_input_error,
};

verus! {

/// A memory read is answered exactly when it is not executed, or when the
/// oracle's next read witness is for the same timestamp, page and index; it
/// is refused as missing exactly when the queue is empty, and a refused
/// mismatch names a location field that really differs.
pub proof fn law_memory_read_accepts_exactly_the_recorded_location(
    v: OracleView,
    timestamp: u32,
    memory_page: u32,
    index: u32,
    execute: bool,
)
    ensures
        v.memory_read_divergence(timestamp, memory_page, index, execute) is None <==> (!execute || (
        v.memory_reads.len() > 0 && timestamp == v.memory_reads[0].1.timestamp && memory_page
            == v.memory_reads[0].1.page && index == v.memory_reads[0].1.index)),
        v.memory_read_divergence(timestamp, memory_page, index, execute) == Some(
            WitnessError::Missing(WitnessQueue::MemoryRead),
        ) <==> (execute && v.memory_reads.len() == 0),
        v.memory_read_divergence(timestamp, memory_page, index, execute) matches Some(e) ==> (
        e matches WitnessError::Missing(WitnessQueue::MemoryRead) || e matches WitnessError::Mismatch(
            WitnessQueue::MemoryRead,
            _,
        )),
        v.memory_read_divergence(timestamp, memory_page, index, execute) matches Some(
            WitnessError::Mismatch(_, f),
        ) ==> v.memory_reads.len() > 0 && {
            let q = v.memory_reads[0].1;
            &&& f == WitnessField::Timestamp || f == WitnessField::Page || f == WitnessField::Index
            &&& f == WitnessField::Timestamp ==> timestamp != q.timestamp
            &&& f == WitnessField::Page ==> memory_page != q.page
            &&& f == WitnessField::Index ==> index != q.index
        },
{
}

/// A memory write passes the self-check exactly when there is no self-check
/// queue, or it is not executed, or the next self-check witness has the same
/// timestamp, page, index, value and pointer flag; a refused mismatch names a
/// field that really differs.
pub proof fn law_memory_write_accepts_exactly_the_recorded_write(
    v: OracleView,
    w: MemoryQueryWitness,
    execute: bool,
)
    ensures
        v.memory_write_divergence(w, execute) is None <==> (!execute || v.memory_writes is None || {
            let writes = v.memory_writes->0;
            &&& writes.len() > 0
            &&& w.timestamp == writes[0].1.timestamp
            &&& w.memory_page == writes[0].1.page
            &&& w.index == writes[0].1.index
            &&& w.value == writes[0].1.value
            &&& w.is_ptr == writes[0].1.value_is_pointer
        }),
        v.memory_write_divergence(w, execute) == Some(WitnessError::Missing(WitnessQueue::MemoryWrite))
            <==> (execute && v.memory_writes is Some && v.memory_writes->0.len() == 0),
        v.memory_write_divergence(w, execute) matches Some(e) ==> (e matches WitnessError::Missing(
            WitnessQueue::MemoryWrite,
        ) || e matches WitnessError::Mismatch(WitnessQueue::MemoryWrite, _)),
        v.memory_write_divergence(w, execute) matches Some(WitnessError::Mismatch(_, f)) ==> (
        v.memory_writes is Some && v.memory_writes->0.len() > 0 && {
            let q = v.memory_writes->0[0].1;
            &&& f == WitnessField::Timestamp || f == WitnessField::Page || f == WitnessField::Index
                || f == WitnessField::Value || f == WitnessField::IsPointer
            &&& f == WitnessField::Timestamp ==> w.timestamp != q.timestamp
            &&& f == WitnessField::Page ==> w.memory_page != q.page
            &&& f == WitnessField::Index ==> w.index != q.index
            &&& f == WitnessField::Value ==> w.value != q.value
            &&& f == WitnessField::IsPointer ==> w.is_ptr != q.value_is_pointer
        }),
{
}

/// A storage read is answered exactly when no witness is needed, or when the
/// oracle's next storage witness is the same access: same aux byte, address,
/// slot key, kind, written value for a write, transaction, shard, service
/// flag and timestamp, with neither side a rollback. A refused mismatch names
/// a field that really differs.
pub proof fn law_storage_read_accepts_exactly_the_recorded_access(
    v: OracleView,
    key: LogQueryWitness,
    needs_witness: bool,
    execute: bool,
)
    ensures
        v.storage_read_divergence(key, needs_witness, execute) is None <==> (!(execute
            && needs_witness) || (v.storage_reads.len() > 0 && {
            let q = v.storage_reads[0].1;
            &&& key.aux_byte == q.aux_byte
            &&& key.address == q.address
            &&& key.key == q.key
            &&& key.rw_flag == q.rw_flag
            &&& key.rw_flag ==> key.written_value == q.written_value
            &&& !key.rollback && !q.rollback
            &&& key.is_service == q.is_service
            &&& key.shard_id == q.shard_id
            &&& key.tx_number_in_block == q.tx_number_in_block
            &&& key.timestamp == q.timestamp
        })),
        v.storage_read_divergence(key, needs_witness, execute) == Some(
            WitnessError::Missing(WitnessQueue::StorageRead),
        ) <==> (execute && needs_witness && v.storage_reads.len() == 0),
        v.storage_read_divergence(key, needs_witness, execute) matches Some(e) ==> (
        e matches WitnessError::Missing(WitnessQueue::StorageRead) || e matches WitnessError::Mismatch(
            WitnessQueue::StorageRead,
            _,
        )),
        v.storage_read_divergence(key, needs_witness, execute) matches Some(
            WitnessError::Mismatch(_, f),
        ) ==> v.storage_reads.len() > 0 && {
            let q = v.storage_reads[0].1;
            &&& f == WitnessField::AuxByte || f == WitnessField::Address || f == WitnessField::Key
                || f == WitnessField::RwFlag || f == WitnessField::WrittenValue || f
                == WitnessField::Rollback || f == WitnessField::IsService || f == WitnessField::ShardId
                || f == WitnessField::TxNumber || f == WitnessField::Timestamp
            &&& f == WitnessField::AuxByte ==> key.aux_byte != q.aux_byte
            &&& f == WitnessField::Address ==> key.address != q.address
            &&& f == WitnessField::Key ==> key.key != q.key
            &&& f == WitnessField::RwFlag ==> key.rw_flag != q.rw_flag
            &&& f == WitnessField::WrittenValue ==> key.rw_flag && key.written_value
                != q.written_value
            &&& f == WitnessField::Rollback ==> key.rollback || q.rollback
            &&& f == WitnessField::IsService ==> key.is_service != q.is_service
            &&& f == WitnessField::ShardId ==> key.shard_id != q.shard_id
            &&& f == WitnessField::TxNumber ==> key.tx_number_in_block != q.tx_number_in_block
            &&& f == WitnessField::Timestamp ==> key.timestamp != q.timestamp
        },
{
}

/// A cold/warm refund is handed out exactly when it is not executed, or when
/// the next refund witness is of the asked kind (write or read) and not a
/// rollback; a refused mismatch names the condition that fails.
pub proof fn law_cold_warm_refund_accepts_exactly_the_recorded_kind(
    v: OracleView,
    is_write: bool,
    execute: bool,
)
    ensures
        v.cold_warm_refund_divergence(is_write, execute) is None <==> (!execute || (v.refunds.len()
            > 0 && v.refunds[0].1.rw_flag == is_write && !v.refunds[0].1.rollback)),
        v.cold_warm_refund_divergence(is_write, execute) == Some(
            WitnessError::Missing(WitnessQueue::ColdWarmRefund),
        ) <==> (execute && v.refunds.len() == 0),
        v.cold_warm_refund_divergence(is_write, execute) matches Some(e) ==> (
        e matches WitnessError::Missing(WitnessQueue::ColdWarmRefund) || e matches WitnessError::Mismatch(
            WitnessQueue::ColdWarmRefund,
            _,
        )),
        v.cold_warm_refund_divergence(is_write, execute) matches Some(WitnessError::Mismatch(_, f))
            ==> v.refunds.len() > 0 && (f == WitnessField::RwFlag || f == WitnessField::Rollback) && (f
            == WitnessField::RwFlag ==> v.refunds[0].1.rw_flag != is_write) && (f
            == WitnessField::Rollback ==> v.refunds[0].1.rollback),
{
}

/// A pubdata cost is handed out exactly when it is not executed, or when the
/// next pubdata witness is of the asked kind, not a rollback, and, for a
/// read, of cost zero; a refused mismatch names the condition that fails.
pub proof fn law_pubdata_cost_accepts_exactly_the_recorded_kind(
    v: OracleView,
    is_write: bool,
    execute: bool,
)
    ensures
        v.pubdata_cost_divergence(is_write, execute) is None <==> (!execute || (v.pubdata_costs.len()
            > 0 && v.pubdata_costs[0].1.rw_flag == is_write && !v.pubdata_costs[0].1.rollback && (
        !is_write ==> v.pubdata_costs[0].2 == 0))),
        v.pubdata_cost_divergence(is_write, execute) == Some(
            WitnessError::Missing(WitnessQueue::PubdataCost),
        ) <==> (execute && v.pubdata_costs.len() == 0),
        v.pubdata_cost_divergence(is_write, execute) matches Some(e) ==> (
        e matches WitnessError::Missing(WitnessQueue::PubdataCost) || e matches WitnessError::Mismatch(
            WitnessQueue::PubdataCost,
            _,
        )),
        v.pubdata_cost_divergence(is_write, execute) matches Some(WitnessError::Mismatch(_, f))
            ==> v.pubdata_costs.len() > 0 && (f == WitnessField::RwFlag || f == WitnessField::Rollback
            || f == WitnessField::PubdataCost) && (f == WitnessField::RwFlag
            ==> v.pubdata_costs[0].1.rw_flag != is_write) && (f == WitnessField::Rollback
            ==> v.pubdata_costs[0].1.rollback) && (f == WitnessField::PubdataCost ==> !is_write
            && v.pubdata_costs[0].2 != 0),
{
    if execute && v.pubdata_costs.len() > 0 {
        let c = v.pubdata_costs[0].2;
        assert((c as u32 == 0) <==> (c == 0)) by (bit_vector);
    }
}

/// The value that four 32-bit limbs stand for, least significant first.
pub open spec fn limbs_value(c: Seq<u32>) -> int {
    c[0] as int + c[1] as int * 0x1_0000_0000 + c[2] as int * 0x1_0000_0000_0000_0000 + c[3] as int
        * 0x1_0000_0000_0000_0000_0000_0000
}

/// The unsigned 32-bit number whose bits are the two's complement of `x`.
pub open spec fn twos_complement(x: i32) -> int {
    if x < 0 {
        x + 0x1_0000_0000
    } else {
        x as int
    }
}

/// Every field of the circuit's frame record `w` agrees with the oracle's
/// frame `e`: addresses, pages, bounds, counters, flags, shard ids, kernel
/// mode (an own address below `2^16`), and the context value as the value of
/// its four 32-bit limbs. When `full`, so do the rollback queue segment
/// (`head`, `tail`, `len`), the stipend, and the pubdata spent as the two's
/// complement of the signed amount.
pub open spec fn frame_matches(
    e: CallStackEntry,
    head: Seq<u64>,
    tail: Seq<u64>,
    len: u32,
    w: ExecutionContextRecordWitness,
    full: bool,
) -> bool {
    &&& w.this == e.this_address
    &&& w.caller == e.msg_sender
    &&& w.code_address == e.code_address
    &&& w.code_page == e.code_page
    &&& w.base_page == e.base_memory_page
    &&& full ==> w.reverted_queue_head@ == head
    &&& full ==> w.reverted_queue_tail@ == tail
    &&& full ==> w.reverted_queue_segment_len == len
    &&& w.pc == e.pc
    &&& w.sp == e.sp
    &&& w.heap_upper_bound == e.heap_bound
    &&& w.aux_heap_upper_bound == e.aux_heap_bound
    &&& w.exception_handler_loc == e.exception_handler_location
    &&& w.ergs_remaining == e.ergs_remaining
    &&& w.is_static_execution == e.is_static
    &&& w.is_kernel_mode == (e.this_address.high == 0 && e.this_address.low < 0x1_0000)
    &&& w.this_shard_id == e.this_shard_id
    &&& w.caller_shard_id == e.caller_shard_id
    &&& w.code_shard_id == e.code_shard_id
    &&& full ==> w.stipend == e.stipend
    &&& full ==> w.total_pubdata_spent == twos_complement(e.total_pubdata_spent)
    &&& limbs_value(w.context_u128_value_composite@) == e.context_u128_value
    &&& w.is_local_call == e.is_local_frame
}

/// The field `f` of the circuit's frame record `w` really disagrees with the
/// oracle's frame `e` (with rollback segment `head`, `tail`, `len`).
pub open spec fn frame_field_differs(
    f: WitnessField,
    e: CallStackEntry,
    head: Seq<u64>,
    tail: Seq<u64>,
    len: u32,
    w: ExecutionContextRecordWitness,
) -> bool {
    match f {
        WitnessField::ThisAddress => w.this != e.this_address,
        WitnessField::Caller => w.caller != e.msg_sender,
        WitnessField::CodeAddress => w.code_address != e.code_address,
        WitnessField::CodePage => w.code_page != e.code_page,
        WitnessField::BasePage => w.base_page != e.base_memory_page,
        WitnessField::RevertedQueueHead => w.reverted_queue_head@ != head,
        WitnessField::RevertedQueueTail => w.reverted_queue_tail@ != tail,
        WitnessField::RevertedQueueSegmentLen => w.reverted_queue_segment_len != len,
        WitnessField::Pc => w.pc != e.pc,
        WitnessField::Sp => w.sp != e.sp,
        WitnessField::HeapBound => w.heap_upper_bound != e.heap_bound,
        WitnessField::AuxHeapBound => w.aux_heap_upper_bound != e.aux_heap_bound,
        WitnessField::ExceptionHandler => w.exception_handler_loc != e.exception_handler_location,
        WitnessField::ErgsRemaining => w.ergs_remaining != e.ergs_remaining,
        WitnessField::IsStatic => w.is_static_execution != e.is_static,
        WitnessField::IsKernelMode => w.is_kernel_mode != (e.this_address.high == 0
            && e.this_address.low < 0x1_0000),
        WitnessField::ThisShardId => w.this_shard_id != e.this_shard_id,
        WitnessField::CallerShardId => w.caller_shard_id != e.caller_shard_id,
        WitnessField::CodeShardId => w.code_shard_id != e.code_shard_id,
        WitnessField::Stipend => w.stipend != e.stipend,
        WitnessField::TotalPubdataSpent => w.total_pubdata_spent != twos_complement(
            e.total_pubdata_spent,
        ),
        WitnessField::ContextValue => limbs_value(w.context_u128_value_composite@)
            != e.context_u128_value,
        WitnessField::IsLocalCall => w.is_local_call != e.is_local_frame,
        _ => false,
    }
}

proof fn lemma_limbs_value(value: u128, c: [u32; 4])
    ensures
        (c@ == spec_u128_as_u32_le(value)) <==> limbs_value(c@) == value,
{
    let (c0, c1, c2, c3) = (c[0], c[1], c[2], c[3]);
    assert((c0 as int + c1 as int * 0x1_0000_0000 + c2 as int * 0x1_0000_0000_0000_0000 + c3 as int
        * 0x1_0000_0000_0000_0000_0000_0000 == value) <==> (c0 == value as u32 && c1 == (value
        >> 32u128) as u32 && c2 == (value >> 64u128) as u32 && c3 == (value >> 96u128) as u32))
        by (bit_vector);
    if c0 == value as u32 && c1 == (value >> 32u128) as u32 && c2 == (value >> 64u128) as u32 && c3
        == (value >> 96u128) as u32 {
        assert(c@ =~= spec_u128_as_u32_le(value));
    }
    if c@ == spec_u128_as_u32_le(value) {
        assert(c@[0] == spec_u128_as_u32_le(value)[0]);
        assert(c@[1] == spec_u128_as_u32_le(value)[1]);
        assert(c@[2] == spec_u128_as_u32_le(value)[2]);
        assert(c@[3] == spec_u128_as_u32_le(value)[3]);
    }
}

proof fn lemma_twos_complement(x: i32, t: u32)
    ensures
        (x as u32 == t) <==> (t == twos_complement(x)),
{
    assert((x as u32 == t) <==> (t as int == if x < 0 { x + 0x1_0000_0000 } else { x as int }))
        by (bit_vector);
}

/// The frame checks of a push (`full`) or of a new-frame report pass exactly
/// when every compared field agrees, and a failing check names a compared
/// field that really disagrees.
pub proof fn law_frame_check_accepts_exactly_matching_frames(
    e: CallStackEntry,
    head: [u64; 4],
    tail: [u64; 4],
    len: u32,
    w: ExecutionContextRecordWitness,
    full: bool,
)
    ensures
        record_divergence(e, head, tail, len, w, full) is None <==> frame_matches(
            e,
            head@,
            tail@,
            len,
            w,
            full,
        ),
        record_divergence(e, head, tail, len, w, full) matches Some(f) ==> frame_field_differs(
            f,
            e,
            head@,
            tail@,
            len,
            w,
        ) && (full || (f != WitnessField::RevertedQueueHead && f != WitnessField::RevertedQueueTail
            && f != WitnessField::RevertedQueueSegmentLen && f != WitnessField::Stipend && f
            != WitnessField::TotalPubdataSpent)),
{
    lemma_limbs_value(e.context_u128_value, w.context_u128_value_composite);
    lemma_twos_complement(e.total_pubdata_spent, w.total_pubdata_spent);
}

/// A push of the current frame is accepted exactly when it is not executed,
/// or when the next call stack witness is a push, to one level deeper than
/// the current depth, of a frame and rollback segment that agree with the
/// circuit's record in every field; a refusal names a real disagreement.
pub proof fn law_push_callstack_accepts_exactly_the_recorded_push(
    v: OracleView,
    w: ExecutionContextRecordWitness,
    current_depth: u32,
    execute: bool,
)
    ensures
        v.push_callstack_divergence(w, current_depth, execute) is None <==> (!execute || (
        v.callstack_values.len() > 0 && {
            let x = v.callstack_values[0].1.0;
            let st = v.callstack_values[0].1.1;
            &&& st.is_push
            &&& current_depth + 1 == st.depth
            &&& frame_matches(
                x.callstack_entry,
                x.rollback_queue_head@,
                x.rollback_queue_tail@,
                x.rollback_queue_segment_length,
                w,
                true,
            )
        })),
        v.push_callstack_divergence(w, current_depth, execute) == Some(
            WitnessError::Missing(WitnessQueue::CallstackValues),
        ) <==> (execute && v.callstack_values.len() == 0),
        v.push_callstack_divergence(w, current_depth, execute) matches Some(e) ==> (
        e matches WitnessError::Missing(WitnessQueue::CallstackValues) || e matches WitnessError::Mismatch(
            WitnessQueue::CallstackValues,
            _,
        )),
        v.push_callstack_divergence(w, current_depth, execute) matches Some(
            WitnessError::Mismatch(_, f),
        ) ==> v.callstack_values.len() > 0 && {
            let x = v.callstack_values[0].1.0;
            let st = v.callstack_values[0].1.1;
            ||| f == WitnessField::Direction && !st.is_push
            ||| f == WitnessField::Depth && current_depth + 1 != st.depth
            ||| frame_field_differs(
                f,
                x.callstack_entry,
                x.rollback_queue_head@,
                x.rollback_queue_tail@,
                x.rollback_queue_segment_length,
                w,
            )
        },
{
    if execute && v.callstack_values.len() > 0 {
        let x = v.callstack_values[0].1.0;
        law_frame_check_accepts_exactly_matching_frames(
            x.callstack_entry,
            x.rollback_queue_head,
            x.rollback_queue_tail,
            x.rollback_queue_segment_length,
            w,
            true,
        );
    }
}

/// A pop is answered exactly when it is not executed, or when the next call
/// stack witness is a pop to one level below `depth`; a refusal names the
/// condition that fails.
pub proof fn law_pop_callstack_accepts_exactly_the_recorded_pop(
    v: OracleView,
    execute: bool,
    depth: u32,
)
    ensures
        v.pop_callstack_divergence(execute, depth) is None <==> (!execute || (
        v.callstack_values.len() > 0 && !v.callstack_values[0].1.1.is_push && depth
            == v.callstack_values[0].1.1.depth + 1)),
        v.pop_callstack_divergence(execute, depth) == Some(
            WitnessError::Missing(WitnessQueue::CallstackValues),
        ) <==> (execute && v.callstack_values.len() == 0),
        v.pop_callstack_divergence(execute, depth) matches Some(e) ==> (e matches WitnessError::Missing(
            WitnessQueue::CallstackValues,
        ) || e matches WitnessError::Mismatch(WitnessQueue::CallstackValues, _)),
        v.pop_callstack_divergence(execute, depth) matches Some(WitnessError::Mismatch(_, f)) ==> (
        v.callstack_values.len() > 0 && (f == WitnessField::Direction
            && v.callstack_values[0].1.1.is_push || f == WitnessField::Depth && depth
            != v.callstack_values[0].1.1.depth + 1)),
{
}

/// The saved context handed out by a pop agrees in every field with the
/// frame and rollback segment of the witness it came from.
pub proof fn law_popped_record_matches_its_frame(w: ExecutionContextRecordWitness, x: ExtendedCallstackEntry)
    requires
        is_record_of(w, x),
    ensures
        frame_matches(
            x.callstack_entry,
            x.rollback_queue_head@,
            x.rollback_queue_tail@,
            x.rollback_queue_segment_length,
            w,
            true,
        ),
{
    lemma_limbs_value(x.callstack_entry.context_u128_value, w.context_u128_value_composite);
    lemma_twos_complement(x.callstack_entry.total_pubdata_spent, w.total_pubdata_spent);
}

/// A new frame of a call is accepted exactly when no call is executed, or
/// when the next new-frame witness agrees with the circuit's record in every
/// field compared for a new frame; a refusal names a real disagreement.
pub proof fn law_new_frame_accepts_exactly_the_recorded_frame(
    v: OracleView,
    w: ExecutionContextRecordWitness,
    is_call: bool,
    execute: bool,
)
    ensures
        v.new_frame_divergence(w, is_call, execute) is None <==> (!(execute && is_call) || (
        v.new_frames.len() > 0 && frame_matches(
            v.new_frames[0].1,
            w.reverted_queue_head@,
            w.reverted_queue_tail@,
            w.reverted_queue_segment_len,
            w,
            false,
        ))),
        v.new_frame_divergence(w, is_call, execute) == Some(
            WitnessError::Missing(WitnessQueue::CallstackNewFrames),
        ) <==> (execute && is_call && v.new_frames.len() == 0),
        v.new_frame_divergence(w, is_call, execute) matches Some(e) ==> (e matches WitnessError::Missing(
            WitnessQueue::CallstackNewFrames,
        ) || e matches WitnessError::Mismatch(WitnessQueue::CallstackNewFrames, _)),
        v.new_frame_divergence(w, is_call, execute) matches Some(WitnessError::Mismatch(_, f)) ==> (
        v.new_frames.len() > 0 && frame_field_differs(
            f,
            v.new_frames[0].1,
            w.reverted_queue_head@,
            w.reverted_queue_tail@,
            w.reverted_queue_segment_len,
            w,
        )),
{
    if execute && is_call && v.new_frames.len() > 0 {
        law_frame_check_accepts_exactly_matching_frames(
            v.new_frames[0].1,
            w.reverted_queue_head,
            w.reverted_queue_tail,
            w.reverted_queue_segment_len,
            w,
            false,
        );
    }
}

/// A rollback queue head or tail is handed out exactly when it is not
/// executed or its queue is not empty; otherwise it is missing.
pub proof fn law_rollback_witnesses_need_only_a_witness(v: OracleView, execute: bool)
    ensures
        v.rollback_head_divergence(execute) is None <==> (!execute || v.rollback_heads.len() > 0),
        v.rollback_head_divergence(execute) matches Some(e) ==> e == WitnessError::Missing(
            WitnessQueue::RollbackQueueHead,
        ),
        v.rollback_tail_divergence(execute) is None <==> (!execute || v.rollback_tails.len() > 0),
        v.rollback_tail_divergence(execute) matches Some(e) ==> e == WitnessError::Missing(
            WitnessQueue::RollbackQueueTail,
        ),
{
}

/// `h` is the code hash that the 28 preimage bytes `p` stand for when read
/// big-endian behind four zero bytes: the top limb is `p[0..4]`, and the
/// other limbs are `p[4..12]`, `p[12..20]` and `p[20..28]`.
pub open spec fn is_hash_of_preimage(h: U256, p: Seq<u8>) -> bool {
    &&& h.w3 == p[0] as int * 0x100_0000 + p[1] as int * 0x1_0000 + p[2] as int * 0x100 + p[3] as int
    &&& h.w2 == p[4] as int * 0x100_0000_0000_0000 + p[5] as int * 0x1_0000_0000_0000 + p[6] as int
        * 0x100_0000_0000 + p[7] as int * 0x1_0000_0000 + p[8] as int * 0x100_0000 + p[9] as int
        * 0x1_0000 + p[10] as int * 0x100 + p[11] as int
    &&& h.w1 == p[12] as int * 0x100_0000_0000_0000 + p[13] as int * 0x1_0000_0000_0000 + p[14] as int
        * 0x100_0000_0000 + p[15] as int * 0x1_0000_0000 + p[16] as int * 0x100_0000 + p[17] as int
        * 0x1_0000 + p[18] as int * 0x100 + p[19] as int
    &&& h.w0 == p[20] as int * 0x100_0000_0000_0000 + p[21] as int * 0x1_0000_0000_0000 + p[22] as int
        * 0x100_0000_0000 + p[23] as int * 0x1_0000_0000 + p[24] as int * 0x100_0000 + p[25] as int
        * 0x1_0000 + p[26] as int * 0x100 + p[27] as int
}

/// The normalized code hash of a preimage is its big-endian reading behind
/// four zero bytes.
pub proof fn law_normalized_code_hash_reads_preimage_big_endian(p: [u8; 28])
    ensures
        is_hash_of_preimage(spec_normalized_code_hash(p), p@),
{
    let s = seq![0u8, 0u8, 0u8, 0u8] + p@;
    assert forall|i: int| 0 <= i < 28 implies s[i + 4] == p@[i] by {}
    assert(s[0] == 0 && s[1] == 0 && s[2] == 0 && s[3] == 0);
}

/// A decommitment request is answered exactly when it is not executed, or
/// when the next decommitment witness has the request's timestamp and its
/// preimage stands for the requested code hash; a refusal names the field
/// that really disagrees.
pub proof fn law_decommittment_accepts_exactly_the_recorded_code(
    v: OracleView,
    request: DecommitQueryWitness,
    execute: bool,
)
    ensures
        v.decommittment_divergence(request, execute) is None <==> (!execute || (
        v.decommittments.len() > 0 && request.timestamp == v.decommittments[0].1.timestamp
            && is_hash_of_preimage(request.code_hash, v.decommittments[0].1.normalized_preimage@))),
        v.decommittment_divergence(request, execute) == Some(
            WitnessError::Missing(WitnessQueue::Decommittment),
        ) <==> (execute && v.decommittments.len() == 0),
        v.decommittment_divergence(request, execute) matches Some(e) ==> (
        e matches WitnessError::Missing(WitnessQueue::Decommittment) || e matches WitnessError::Mismatch(
            WitnessQueue::Decommittment,
            _,
        )),
        v.decommittment_divergence(request, execute) matches Some(WitnessError::Mismatch(_, f)) ==> (
        v.decommittments.len() > 0 && (f == WitnessField::Timestamp && request.timestamp
            != v.decommittments[0].1.timestamp || f == WitnessField::CodeHash && !is_hash_of_preimage(
            request.code_hash,
            v.decommittments[0].1.normalized_preimage@,
        ))),
{
    if execute && v.decommittments.len() > 0 {
        let p = v.decommittments[0].1.normalized_preimage;
        law_normalized_code_hash_reads_preimage_big_endian(p);
        let h = spec_normalized_code_hash(p);
        let r = request.code_hash;
        if is_hash_of_preimage(r, p@) {
            assert(r == h);
        }
    }
}

/// A leftover reported at completion names a queue that really holds
/// witnesses, and never the new-frame queue.
pub proof fn law_completion_names_a_nonempty_queue(v: OracleView)
    ensures
        v.completion_divergence() matches Some(e) ==> e matches WitnessError::Leftover(q) && match q {
            WitnessQueue::MemoryRead => v.memory_reads.len() > 0,
            WitnessQueue::MemoryWrite => v.memory_writes is Some && v.memory_writes->0.len() > 0,
            WitnessQueue::StorageRead => v.storage_reads.len() > 0,
            WitnessQueue::ColdWarmRefund => v.refunds.len() > 0,
            WitnessQueue::PubdataCost => v.pubdata_costs.len() > 0,
            WitnessQueue::CallstackValues => v.callstack_values.len() > 0,
            WitnessQueue::Decommittment => v.decommittments.len() > 0,
            WitnessQueue::RollbackQueueHead => v.rollback_heads.len() > 0,
            WitnessQueue::RollbackQueueTail => v.rollback_tails.len() > 0,
            WitnessQueue::CallstackNewFrames => false,
        },
{
}

/// The pipeline's next step is the first artifact missing in the order
/// setup, verification key, proof, and it is done exactly when all three
/// are held.
pub proof fn law_next_wrapper_step_is_first_missing(a: WrapperArtifacts)
    ensures
        spec_next_wrapper_step(a) == WrapperStep::ComputeSetup <==> !a.setup,
        spec_next_wrapper_step(a) == WrapperStep::ComputeVk <==> a.setup && !a.vk,
        spec_next_wrapper_step(a) == WrapperStep::ComputeProof <==> a.setup && a.vk && !a.proof,
        spec_next_wrapper_step(a) == WrapperStep::Done <==> a.setup && a.vk && a.proof,
{
}

/// The inputs of a wrapper step are accepted exactly when the proof (if
/// any) and the key are of the compression type and the setup (if any) of
/// the wrapper type; a refusal names an input that really disagrees.
pub proof fn law_wrapper_inputs_accepted_exactly_when_types_match(
    compression_for_wrapper_type: u8,
    wrapper_type: u8,
    proof_type: Option<u8>,
    vk_type: u8,
    setup_type: Option<u8>,
)
    ensures
        spec_wrapper_input_error(compression_for_wrapper_type, wrapper_type, proof_type, vk_type, setup_type)
            is None <==> ((proof_type is Some ==> proof_type->0 == compression_for_wrapper_type) && vk_type
            == compression_for_wrapper_type && (setup_type is Some ==> setup_type->0 == wrapper_type)),
        spec_wrapper_input_error(compression_for_wrapper_type, wrapper_type, proof_type, vk_type, setup_type)
            == Some(WrapperInputError::ProofCircuitType) ==> proof_type is Some && proof_type->0
            != compression_for_wrapper_type,
        spec_wrapper_input_error(compression_for_wrapper_type, wrapper_type, proof_type, vk_type, setup_type)
            == Some(WrapperInputError::VkCircuitType) ==> vk_type != compression_for_wrapper_type,
        spec_wrapper_input_error(compression_for_wrapper_type, wrapper_type, proof_type, vk_type, setup_type)
            == Some(WrapperInputError::SetupCircuitType) ==> setup_type is Some && setup_type->0
            != wrapper_type,
{
}

/// Recording a step adds exactly the artifact that the step produces and
/// keeps the others as they were.
pub proof fn law_recorded_step_adds_its_artifact(a: WrapperArtifacts, s: WrapperStep)
    ensures
        spec_after_step(a, s).setup == (a.setup || s == WrapperStep::ComputeSetup),
        spec_after_step(a, s).vk == (a.vk || s == WrapperStep::ComputeVk),
        spec_after_step(a, s).proof == (a.proof || s == WrapperStep::ComputeProof),
{
}

/// A frame runs in kernel mode exactly when its own address, as a number,
/// is below `2^16`.
pub proof fn law_kernel_mode_is_low_address(e: CallStackEntry)
    ensures
        e.spec_is_kernel_mode() <==> e.this_address.value() < 0x1_0000,
{
}

} // verus!
