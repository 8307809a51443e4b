//! Call stack witnesses: the saved frames pushed and popped by the circuit,
//! new frames, and the rollback queue segments that go with them.

use vstd::prelude::*;
use crate::oracle::{OracleView, VmWitnessOracle, WitnessError, WitnessField, WitnessQueue, outcome};
use crate::queries::{
    CallStackEntry, ExecutionContextRecordWitness, ExtendedCallstackEntry, LogQueryWitness,
};
use crate::words::{spec_u128_as_u32_le, u128_as_u32_le};

verus! {

/// The context value as the two 64-bit words that the composite's limbs
/// make, low limb first: `c[0] + c[1] * 2^32` and `c[2] + c[3] * 2^32`.
pub open spec fn context_words_match(value: u128, c: Seq<u32>) -> bool {
    &&& value as u64 == c[0] as int + c[1] as int * 0x1_0000_0000
    &&& (value >> 64u128) as u64 == c[2] as int + c[3] as int * 0x1_0000_0000
}

/// The two ways in which a saved context value is compared with its 32-bit
/// composite agree: the composite's limbs build the value's two 64-bit words
/// exactly when the composite is `u128_as_u32_le` of the value.
pub proof fn lemma_context_checks_agree(value: u128, c: [u32; 4])
    ensures
        context_words_match(value, c@) <==> c@ == spec_u128_as_u32_le(value),
{
    let (c0, c1, c2, c3) = (c[0], c[1], c[2], c[3]);
    assert((value as u64 == c0 as int + c1 as int * 0x1_0000_0000 && (value >> 64u128) as u64
        == c2 as int + c3 as int * 0x1_0000_0000) <==> (c0 == value as u32 && c1 == (value
        >> 32u128) as u32 && c2 == (value >> 64u128) as u32 && c3 == (value >> 96u128) as u32))
        by (bit_vector);
    if c0 == value as u32 && c1 == (value >> 32u128) as u32 && c2 == (value >> 64u128) as u32 && c3
        == (value >> 96u128) as u32 {
        assert(c@ =~= spec_u128_as_u32_le(value));
    }
    if c@ == spec_u128_as_u32_le(value) {
        assert(c@[0] == spec_u128_as_u32_le(value)[0]);
        assert(c@[1] == spec_u128_as_u32_le(value)[1]);
        assert(c@[2] == spec_u128_as_u32_le(value)[2]);
        assert(c@[3] == spec_u128_as_u32_le(value)[3]);
    }
}

/// Where a saved or new frame `w` of the circuit disagrees with the frame
/// `e` of the oracle, in the order in which the fields are checked. When
/// `full`, the rollback segment (`head`, `tail`, `len`), the stipend and the
/// pubdata spent are checked too, as for a push of the current frame.
pub open spec fn record_divergence(
    e: CallStackEntry,
    head: [u64; 4],
    tail: [u64; 4],
    len: u32,
    w: ExecutionContextRecordWitness,
    full: bool,
) -> Option<WitnessField> {
    if e.this_address != w.this {
        Some(WitnessField::ThisAddress)
    } else if e.msg_sender != w.caller {
        Some(WitnessField::Caller)
    } else if e.code_address != w.code_address {
        Some(WitnessField::CodeAddress)
    } else if e.code_page != w.code_page {
        Some(WitnessField::CodePage)
    } else if e.base_memory_page != w.base_page {
        Some(WitnessField::BasePage)
    } else if full && head@ != w.reverted_queue_head@ {
        Some(WitnessField::RevertedQueueHead)
    } else if full && tail@ != w.reverted_queue_tail@ {
        Some(WitnessField::RevertedQueueTail)
    } else if full && len != w.reverted_queue_segment_len {
        Some(WitnessField::RevertedQueueSegmentLen)
    } else if e.pc != w.pc {
        Some(WitnessField::Pc)
    } else if e.sp != w.sp {
        Some(WitnessField::Sp)
    } else if e.heap_bound != w.heap_upper_bound {
        Some(WitnessField::HeapBound)
    } else if e.aux_heap_bound != w.aux_heap_upper_bound {
        Some(WitnessField::AuxHeapBound)
    } else if e.exception_handler_location != w.exception_handler_loc {
        Some(WitnessField::ExceptionHandler)
    } else if e.ergs_remaining != w.ergs_remaining {
        Some(WitnessField::ErgsRemaining)
    } else if e.is_static != w.is_static_execution {
        Some(WitnessField::IsStatic)
    } else if e.spec_is_kernel_mode() != w.is_kernel_mode {
        Some(WitnessField::IsKernelMode)
    } else if e.this_shard_id != w.this_shard_id {
        Some(WitnessField::ThisShardId)
    } else if e.caller_shard_id != w.caller_shard_id {
        Some(WitnessField::CallerShardId)
    } else if e.code_shard_id != w.code_shard_id {
        Some(WitnessField::CodeShardId)
    } else if full && e.stipend != w.stipend {
        Some(WitnessField::Stipend)
    } else if full && e.total_pubdata_spent as u32 != w.total_pubdata_spent {
        Some(WitnessField::TotalPubdataSpent)
    } else if w.context_u128_value_composite@ != spec_u128_as_u32_le(e.context_u128_value) {
        Some(WitnessField::ContextValue)
    } else if e.is_local_frame != w.is_local_call {
        Some(WitnessField::IsLocalCall)
    } else {
        None
    }
}

fn words4_eq(a: &[u64; 4], b: &[u64; 4]) -> (r: bool)
    ensures
        r == (a@ == b@),
{
    let r = a[0] == b[0] && a[1] == b[1] && a[2] == b[2] && a[3] == b[3];
    proof {
        if r {
            assert(a@ =~= b@);
        } else if a@ == b@ {
            assert(a@[0] == b@[0] && a@[1] == b@[1] && a@[2] == b@[2] && a@[3] == b@[3]);
        }
    }
    r
}

/// Compares the context value with its composite the way a push of the
/// current frame does: through two 64-bit words.
fn context_words_check(value: u128, c: &[u32; 4]) -> (r: bool)
    ensures
        r == (c@ == spec_u128_as_u32_le(value)),
{
    let (c0, c1, c2, c3) = (c[0], c[1], c[2], c[3]);
    assert((c1 as u64) << 32u64 <= 0xFFFF_FFFF_0000_0000u64) by (bit_vector);
    assert((c3 as u64) << 32u64 <= 0xFFFF_FFFF_0000_0000u64) by (bit_vector);
    let lo = (c0 as u64) + ((c1 as u64) << 32);
    let hi = (c2 as u64) + ((c3 as u64) << 32);
    assert((c1 as u64) << 32u64 == c1 as int * 0x1_0000_0000) by (bit_vector);
    assert((c3 as u64) << 32u64 == c3 as int * 0x1_0000_0000) by (bit_vector);
    proof {
        lemma_context_checks_agree(value, *c);
    }
    value as u64 == lo && (value >> 64) as u64 == hi
}

/// Compares the context value with its composite the way a report of a new
/// frame does: through `u128_as_u32_le`.
fn context_split_check(value: u128, c: &[u32; 4]) -> (r: bool)
    ensures
        r == (c@ == spec_u128_as_u32_le(value)),
{
    let s = u128_as_u32_le(value);
    let r = s[0] == c[0] && s[1] == c[1] && s[2] == c[2] && s[3] == c[3];
    proof {
        if r {
            assert(c@ =~= s@);
        } else if c@ == s@ {
            assert(c@[0] == s@[0] && c@[1] == s@[1] && c@[2] == s@[2] && c@[3] == s@[3]);
        }
    }
    r
}

fn check_record(
    e: &CallStackEntry,
    head: &[u64; 4],
    tail: &[u64; 4],
    len: u32,
    w: &ExecutionContextRecordWitness,
    full: bool,
) -> (r: Option<WitnessField>)
    ensures
        r == record_divergence(*e, *head, *tail, len, *w, full),
{
    if e.this_address != w.this {
        Some(WitnessField::ThisAddress)
    } else if e.msg_sender != w.caller {
        Some(WitnessField::Caller)
    } else if e.code_address != w.code_address {
        Some(WitnessField::CodeAddress)
    } else if e.code_page != w.code_page {
        Some(WitnessField::CodePage)
    } else if e.base_memory_page != w.base_page {
        Some(WitnessField::BasePage)
    } else if full && !words4_eq(head, &w.reverted_queue_head) {
        Some(WitnessField::RevertedQueueHead)
    } else if full && !words4_eq(tail, &w.reverted_queue_tail) {
        Some(WitnessField::RevertedQueueTail)
    } else if full && len != w.reverted_queue_segment_len {
        Some(WitnessField::RevertedQueueSegmentLen)
    } else if e.pc != w.pc {
        Some(WitnessField::Pc)
    } else if e.sp != w.sp {
        Some(WitnessField::Sp)
    } else if e.heap_bound != w.heap_upper_bound {
        Some(WitnessField::HeapBound)
    } else if e.aux_heap_bound != w.aux_heap_upper_bound {
        Some(WitnessField::AuxHeapBound)
    } else if e.exception_handler_location != w.exception_handler_loc {
        Some(WitnessField::ExceptionHandler)
    } else if e.ergs_remaining != w.ergs_remaining {
        Some(WitnessField::ErgsRemaining)
    } else if e.is_static != w.is_static_execution {
        Some(WitnessField::IsStatic)
    } else if e.is_kernel_mode() != w.is_kernel_mode {
        Some(WitnessField::IsKernelMode)
    } else if e.this_shard_id != w.this_shard_id {
        Some(WitnessField::ThisShardId)
    } else if e.caller_shard_id != w.caller_shard_id {
        Some(WitnessField::CallerShardId)
    } else if e.code_shard_id != w.code_shard_id {
        Some(WitnessField::CodeShardId)
    } else if full && e.stipend != w.stipend {
        Some(WitnessField::Stipend)
    } else if full && e.total_pubdata_spent as u32 != w.total_pubdata_spent {
        Some(WitnessField::TotalPubdataSpent)
    } else if !(if full {
        context_words_check(e.context_u128_value, &w.context_u128_value_composite)
    } else {
        context_split_check(e.context_u128_value, &w.context_u128_value_composite)
    }) {
        Some(WitnessField::ContextValue)
    } else if e.is_local_frame != w.is_local_call {
        Some(WitnessField::IsLocalCall)
    } else {
        None
    }
}

/// `w` is the saved-context record of the oracle frame `x`: every field is
/// taken from the frame, the context value split into 32-bit limbs.
pub open spec fn is_record_of(w: ExecutionContextRecordWitness, x: ExtendedCallstackEntry) -> bool {
    let e = x.callstack_entry;
    &&& w.this == e.this_address
    &&& w.caller == e.msg_sender
    &&& w.code_address == e.code_address
    &&& w.code_page == e.code_page
    &&& w.base_page == e.base_memory_page
    &&& w.reverted_queue_head == x.rollback_queue_head
    &&& w.reverted_queue_tail == x.rollback_queue_tail
    &&& w.reverted_queue_segment_len == x.rollback_queue_segment_length
    &&& w.pc == e.pc
    &&& w.sp == e.sp
    &&& w.exception_handler_loc == e.exception_handler_location
    &&& w.ergs_remaining == e.ergs_remaining
    &&& w.is_static_execution == e.is_static
    &&& w.is_kernel_mode == e.spec_is_kernel_mode()
    &&& w.this_shard_id == e.this_shard_id
    &&& w.caller_shard_id == e.caller_shard_id
    &&& w.code_shard_id == e.code_shard_id
    &&& w.context_u128_value_composite@ == spec_u128_as_u32_le(e.context_u128_value)
    &&& w.heap_upper_bound == e.heap_bound
    &&& w.aux_heap_upper_bound == e.aux_heap_bound
    &&& w.is_local_call == e.is_local_frame
    &&& w.stipend == e.stipend
    &&& w.total_pubdata_spent == e.total_pubdata_spent as u32
}

/// A saved context that the oracle hands out for a frame passes the checks
/// that a later push of that frame, or a report of it as a new frame, makes
/// against the same frame.
pub proof fn lemma_saved_record_passes_checks(
    w: ExecutionContextRecordWitness,
    x: ExtendedCallstackEntry,
    full: bool,
)
    requires
        is_record_of(w, x),
    ensures
        record_divergence(
            x.callstack_entry,
            x.rollback_queue_head,
            x.rollback_queue_tail,
            x.rollback_queue_segment_length,
            w,
            full,
        ) is None,
{
}

fn record_of(x: &ExtendedCallstackEntry) -> (w: ExecutionContextRecordWitness)
    ensures
        is_record_of(w, *x),
{
    let e = &x.callstack_entry;
    ExecutionContextRecordWitness {
        this: e.this_address,
        caller: e.msg_sender,
        code_address: e.code_address,
        code_page: e.code_page,
        base_page: e.base_memory_page,
        reverted_queue_head: x.rollback_queue_head,
        reverted_queue_tail: x.rollback_queue_tail,
        reverted_queue_segment_len: x.rollback_queue_segment_length,
        pc: e.pc,
        sp: e.sp,
        exception_handler_loc: e.exception_handler_location,
        ergs_remaining: e.ergs_remaining,
        is_static_execution: e.is_static,
        is_kernel_mode: e.is_kernel_mode(),
        this_shard_id: e.this_shard_id,
        caller_shard_id: e.caller_shard_id,
        code_shard_id: e.code_shard_id,
        context_u128_value_composite: u128_as_u32_le(e.context_u128_value),
        heap_upper_bound: e.heap_bound,
        aux_heap_upper_bound: e.aux_heap_bound,
        is_local_call: e.is_local_frame,
        stipend: e.stipend,
        total_pubdata_spent: e.total_pubdata_spent as u32,
    }
}

/// `n` zero field elements.
pub open spec fn zeros(n: nat) -> Seq<u64> {
    Seq::new(n, |i: int| 0u64)
}

impl OracleView {
    /// A rollback queue head is needed when executing, and must be there.
    pub open spec fn rollback_head_divergence(self, execute: bool) -> Option<WitnessError> {
        if execute && self.rollback_heads.len() == 0 {
            Some(WitnessError::Missing(WitnessQueue::RollbackQueueHead))
        } else {
            None
        }
    }

    /// A rollback queue tail is needed when executing, and must be there.
    pub open spec fn rollback_tail_divergence(self, execute: bool) -> Option<WitnessError> {
        if execute && self.rollback_tails.len() == 0 {
            Some(WitnessError::Missing(WitnessQueue::RollbackQueueTail))
        } else {
            None
        }
    }

    /// Where a push of the current frame `w` at depth `current_depth`
    /// diverges from the oracle, if it does: the next call stack witness must
    /// be a push to the next depth of the same frame.
    pub open spec fn push_callstack_divergence(
        self,
        w: ExecutionContextRecordWitness,
        current_depth: u32,
        execute: bool,
    ) -> Option<WitnessError> {
        if !execute {
            None
        } else if self.callstack_values.len() == 0 {
            Some(WitnessError::Missing(WitnessQueue::CallstackValues))
        } else {
            let x = self.callstack_values[0].1.0;
            let st = self.callstack_values[0].1.1;
            if !st.is_push {
                Some(WitnessError::Mismatch(WitnessQueue::CallstackValues, WitnessField::Direction))
            } else if current_depth + 1 != st.depth {
                Some(WitnessError::Mismatch(WitnessQueue::CallstackValues, WitnessField::Depth))
            } else {
                match record_divergence(
                    x.callstack_entry,
                    x.rollback_queue_head,
                    x.rollback_queue_tail,
                    x.rollback_queue_segment_length,
                    w,
                    true,
                ) {
                    Some(f) => Some(WitnessError::Mismatch(WitnessQueue::CallstackValues, f)),
                    None => None,
                }
            }
        }
    }

    /// Where a pop from depth `depth` diverges from the oracle, if it does:
    /// the next call stack witness must be a pop to the depth below.
    pub open spec fn pop_callstack_divergence(self, execute: bool, depth: u32) -> Option<
        WitnessError,
    > {
        if !execute {
            None
        } else if self.callstack_values.len() == 0 {
            Some(WitnessError::Missing(WitnessQueue::CallstackValues))
        } else if self.callstack_values[0].1.1.is_push {
            Some(WitnessError::Mismatch(WitnessQueue::CallstackValues, WitnessField::Direction))
        } else if depth - 1 != self.callstack_values[0].1.1.depth {
            Some(WitnessError::Mismatch(WitnessQueue::CallstackValues, WitnessField::Depth))
        } else {
            None
        }
    }

    /// Where a report of the new frame `w` of a call diverges from the
    /// oracle, if it does.
    pub open spec fn new_frame_divergence(
        self,
        w: ExecutionContextRecordWitness,
        is_call: bool,
        execute: bool,
    ) -> Option<WitnessError> {
        if !(execute && is_call) {
            None
        } else if self.new_frames.len() == 0 {
            Some(WitnessError::Missing(WitnessQueue::CallstackNewFrames))
        } else {
            match record_divergence(
                self.new_frames[0].1,
                w.reverted_queue_head,
                w.reverted_queue_tail,
                w.reverted_queue_segment_len,
                w,
                false,
            ) {
                Some(f) => Some(WitnessError::Mismatch(WitnessQueue::CallstackNewFrames, f)),
                None => None,
            }
        }
    }
}

impl VmWitnessOracle {
    /// Tells whether `get_rollback_queue_witness` can answer, and if not, why.
    pub fn check_rollback_queue_head(&self, execute: bool) -> (r: Result<(), WitnessError>)
        ensures
            r == outcome(self@.rollback_head_divergence(execute)),
    {
        if execute && self.rollback_queue_head_segments.len() == 0 {
            Err(WitnessError::Missing(WitnessQueue::RollbackQueueHead))
        } else {
            Ok(())
        }
    }

    /// Hands out the next rollback queue head; zeros when nothing is
    /// executed. The storage access `key` is not compared with it.
    #[allow(unused_variables)]
    pub fn get_rollback_queue_witness(&mut self, key: &LogQueryWitness, execute: bool) -> (r: [u64;
        4])
        requires
            old(self)@.rollback_head_divergence(execute) is None,
        ensures
            execute ==> {
                &&& r == old(self)@.rollback_heads[0].1
                &&& final(self)@ == (OracleView {
                    rollback_heads: old(self)@.rollback_heads.drop_first(),
                    ..old(self)@
                })
            },
            !execute ==> r@ == zeros(4) && final(self)@ == old(self)@,
    {
        if execute {
            let (_cycle, head) = self.rollback_queue_head_segments.pop_front().unwrap();
            head
        } else {
            let r = [0u64, 0u64, 0u64, 0u64];
            assert(r@ =~= zeros(4));
            r
        }
    }

    /// Tells whether `get_rollback_queue_tail_witness_for_call` can answer,
    /// and if not, why.
    pub fn check_rollback_queue_tail(&self, execute: bool) -> (r: Result<(), WitnessError>)
        ensures
            r == outcome(self@.rollback_tail_divergence(execute)),
    {
        if execute && self.rollback_queue_initial_tails_for_new_frames.len() == 0 {
            Err(WitnessError::Missing(WitnessQueue::RollbackQueueTail))
        } else {
            Ok(())
        }
    }

    /// Hands out the initial rollback queue tail of the next new frame;
    /// zeros when nothing is executed.
    #[allow(unused_variables)]
    pub fn get_rollback_queue_tail_witness_for_call(&mut self, timestamp: u32, execute: bool) -> (r:
        [u64; 4])
        requires
            old(self)@.rollback_tail_divergence(execute) is None,
        ensures
            execute ==> {
                &&& r == old(self)@.rollback_tails[0].1
                &&& final(self)@ == (OracleView {
                    rollback_tails: old(self)@.rollback_tails.drop_first(),
                    ..old(self)@
                })
            },
            !execute ==> r@ == zeros(4) && final(self)@ == old(self)@,
    {
        if execute {
            let (_cycle_idx, tail) = self.rollback_queue_initial_tails_for_new_frames.pop_front().unwrap();
            tail
        } else {
            let r = [0u64, 0u64, 0u64, 0u64];
            assert(r@ =~= zeros(4));
            r
        }
    }

    /// Tells whether `push_callstack_witness` accepts this push, and if not, why.
    pub fn check_push_callstack(
        &self,
        current_record: &ExecutionContextRecordWitness,
        current_depth: u32,
        execute: bool,
    ) -> (r: Result<(), WitnessError>)
        ensures
            r == outcome(self@.push_callstack_divergence(*current_record, current_depth, execute)),
    {
        if !execute {
            return Ok(());
        }
        if self.callstack_values_witnesses.len() == 0 {
            return Err(WitnessError::Missing(WitnessQueue::CallstackValues));
        }
        let (_cycle_idx, (x, st)) = self.callstack_values_witnesses[0];
        if !st.is_push {
            return Err(WitnessError::Mismatch(WitnessQueue::CallstackValues, WitnessField::Direction));
        }
        if current_depth as u64 + 1 != st.depth as u64 {
            return Err(WitnessError::Mismatch(WitnessQueue::CallstackValues, WitnessField::Depth));
        }
        match check_record(
            &x.callstack_entry,
            &x.rollback_queue_head,
            &x.rollback_queue_tail,
            x.rollback_queue_segment_length,
            current_record,
            true,
        ) {
            Some(f) => Err(WitnessError::Mismatch(WitnessQueue::CallstackValues, f)),
            None => Ok(()),
        }
    }

    /// Checks a push of the current frame against the next call stack
    /// witness and consumes that witness; does nothing when nothing is executed.
    #[allow(unused_variables)]
    pub fn push_callstack_witness(
        &mut self,
        current_record: &ExecutionContextRecordWitness,
        current_depth: u32,
        execute: bool,
    )
        requires
            old(self)@.push_callstack_divergence(*current_record, current_depth, execute) is None,
        ensures
            execute ==> final(self)@ == (OracleView {
                callstack_values: old(self)@.callstack_values.drop_first(),
                ..old(self)@
            }),
            !execute ==> final(self)@ == old(self)@,
    {
        if execute {
            let _ = self.callstack_values_witnesses.pop_front().unwrap();
        }
    }

    /// Tells whether `get_callstack_witness` can answer, and if not, why.
    pub fn check_pop_callstack(&self, execute: bool, depth: u32) -> (r: Result<(), WitnessError>)
        ensures
            r == outcome(self@.pop_callstack_divergence(execute, depth)),
    {
        if !execute {
            return Ok(());
        }
        if self.callstack_values_witnesses.len() == 0 {
            return Err(WitnessError::Missing(WitnessQueue::CallstackValues));
        }
        let (_cycle_idx, (_x, st)) = self.callstack_values_witnesses[0];
        if st.is_push {
            Err(WitnessError::Mismatch(WitnessQueue::CallstackValues, WitnessField::Direction))
        } else if depth as i64 - 1 != st.depth as i64 {
            Err(WitnessError::Mismatch(WitnessQueue::CallstackValues, WitnessField::Depth))
        } else {
            Ok(())
        }
    }

    /// Hands out, for a pop from depth `depth`, the saved context of the
    /// frame returned to and the call stack sponge state after the pop; the
    /// all-zero record and state when nothing is executed.
    pub fn get_callstack_witness(&mut self, execute: bool, depth: u32) -> (r: (
        ExecutionContextRecordWitness,
        [u64; 12],
    ))
        requires
            old(self)@.pop_callstack_divergence(execute, depth) is None,
        ensures
            execute ==> {
                &&& is_record_of(r.0, old(self)@.callstack_values[0].1.0)
                &&& r.1 == old(self)@.callstack_values[0].1.1.new_state
                &&& final(self)@ == (OracleView {
                    callstack_values: old(self)@.callstack_values.drop_first(),
                    ..old(self)@
                })
            },
            !execute ==> r.0.is_placeholder() && r.1@ == zeros(12) && final(self)@ == old(self)@,
    {
        if execute {
            let (_cycle_idx, (x, st)) = self.callstack_values_witnesses.pop_front().unwrap();
            (record_of(&x), st.new_state)
        } else {
            let z = [0u64, 0u64, 0u64, 0u64, 0u64, 0u64, 0u64, 0u64, 0u64, 0u64, 0u64, 0u64];
            assert(z@ =~= zeros(12));
            (ExecutionContextRecordWitness::placeholder(), z)
        }
    }

    /// Tells whether `report_new_callstack_frame` accepts this frame, and if
    /// not, why.
    pub fn check_new_callstack_frame(
        &self,
        new_record: &ExecutionContextRecordWitness,
        is_call: bool,
        execute: bool,
    ) -> (r: Result<(), WitnessError>)
        ensures
            r == outcome(self@.new_frame_divergence(*new_record, is_call, execute)),
    {
        if !(execute && is_call) {
            return Ok(());
        }
        if self.callstack_new_frames_witnesses.len() == 0 {
            return Err(WitnessError::Missing(WitnessQueue::CallstackNewFrames));
        }
        let (_cycle_idx, e) = self.callstack_new_frames_witnesses[0];
        match check_record(
            &e,
            &new_record.reverted_queue_head,
            &new_record.reverted_queue_tail,
            new_record.reverted_queue_segment_len,
            new_record,
            false,
        ) {
            Some(f) => Err(WitnessError::Mismatch(WitnessQueue::CallstackNewFrames, f)),
            None => Ok(()),
        }
    }

    /// Checks the new frame of a call against the next new-frame witness and
    /// consumes that witness; does nothing unless a call is executed.
    #[allow(unused_variables)]
    pub fn report_new_callstack_frame(
        &mut self,
        new_record: &ExecutionContextRecordWitness,
        new_depth: u32,
        is_call: bool,
        execute: bool,
    )
        requires
            old(self)@.new_frame_divergence(*new_record, is_call, execute) is None,
        ensures
            execute && is_call ==> final(self)@ == (OracleView {
                new_frames: old(self)@.new_frames.drop_first(),
                ..old(self)@
            }),
            !(execute && is_call) ==> final(self)@ == old(self)@,
    {
        if execute && is_call {
            let _ = self.callstack_new_frames_witnesses.pop_front().unwrap();
        }
    }
}

} // verus!
