//! The witness oracle: queues of recorded VM events that the main-VM
//! circuit consumes in order, each checked against what the circuit asks.

use vstd::prelude::*;
use std::collections::VecDeque;
use crate::queries::{
    CallStackEntry, CallstackSimulatorState, DecommittmentQuery, ExtendedCallstackEntry, LogQuery,
    MemoryQuery, MemoryQueryWitness, MemoryWitness,
};
use crate::words::U256;

verus! {

/// The queue of the oracle that a witness came from, or should have.
#[derive(PartialEq, Eq, Structural, Clone, Copy, Debug)]
pub enum WitnessQueue {
    MemoryRead,
    MemoryWrite,
    StorageRead,
    ColdWarmRefund,
    PubdataCost,
    RollbackQueueHead,
    RollbackQueueTail,
    CallstackValues,
    CallstackNewFrames,
    Decommittment,
}

/// The part of a witness that disagrees with what the circuit asked.
#[derive(PartialEq, Eq, Structural, Clone, Copy, Debug)]
pub enum WitnessField {
    Timestamp,
    Page,
    Index,
    Value,
    IsPointer,
    AuxByte,
    Address,
    Key,
    RwFlag,
    WrittenValue,
    Rollback,
    IsService,
    ShardId,
    TxNumber,
    Direction,
    Depth,
    ThisAddress,
    Caller,
    CodeAddress,
    CodePage,
    BasePage,
    RevertedQueueHead,
    RevertedQueueTail,
    RevertedQueueSegmentLen,
    Pc,
    Sp,
    HeapBound,
    AuxHeapBound,
    ExceptionHandler,
    ErgsRemaining,
    IsStatic,
    IsKernelMode,
    ThisShardId,
    CallerShardId,
    CodeShardId,
    Stipend,
    TotalPubdataSpent,
    ContextValue,
    IsLocalCall,
    CodeHash,
    PubdataCost,
}

/// Why the oracle and the circuit diverge.
#[derive(PartialEq, Eq, Structural, Clone, Copy, Debug)]
pub enum WitnessError {
    /// The circuit asks for a witness and the queue is empty.
    Missing(WitnessQueue),
    /// The next witness of the queue disagrees with the circuit on a field.
    Mismatch(WitnessQueue, WitnessField),
    /// Witnesses are left over in the queue when the circuit is done.
    Leftover(WitnessQueue),
}

/// The outcome of a check that finds the given divergence, if any.
pub open spec fn outcome(d: Option<WitnessError>) -> Result<(), WitnessError> {
    match d {
        Some(e) => Err(e),
        None => Ok(()),
    }
}

/// Witnesses for the main VM over a range of cycles, each tagged with the
/// cycle that produced it, in the order in which the circuit asks for them.
#[derive(Clone, Debug)]
pub struct VmWitnessOracle {
    pub initial_cycle: u32,
    pub final_cycle_inclusive: u32,
    pub memory_read_witness: VecDeque<(u32, MemoryQuery)>,
    pub memory_write_witness: Option<VecDeque<(u32, MemoryQuery)>>,
    pub rollback_queue_head_segments: VecDeque<(u32, [u64; 4])>,
    pub decommittment_requests_witness: VecDeque<(u32, DecommittmentQuery)>,
    pub rollback_queue_initial_tails_for_new_frames: VecDeque<(u32, [u64; 4])>,
    /// Storage reads: cycle and query.
    pub storage_queries: VecDeque<(u32, LogQuery)>,
    /// Cold/warm refunds: cycle, query and refund.
    pub storage_access_cold_warm_refunds: VecDeque<(u32, LogQuery, u32)>,
    /// Pubdata costs: cycle, query and the signed cost.
    pub storage_pubdata_queries: VecDeque<(u32, LogQuery, i32)>,
    pub callstack_new_frames_witnesses: VecDeque<(u32, CallStackEntry)>,
    pub callstack_values_witnesses: VecDeque<(u32, (ExtendedCallstackEntry, CallstackSimulatorState))>,
}

/// The oracle as its queues' contents.
pub struct OracleView {
    pub initial_cycle: u32,
    pub final_cycle_inclusive: u32,
    pub memory_reads: Seq<(u32, MemoryQuery)>,
    pub memory_writes: Option<Seq<(u32, MemoryQuery)>>,
    pub rollback_heads: Seq<(u32, [u64; 4])>,
    pub decommittments: Seq<(u32, DecommittmentQuery)>,
    pub rollback_tails: Seq<(u32, [u64; 4])>,
    pub storage_reads: Seq<(u32, LogQuery)>,
    pub refunds: Seq<(u32, LogQuery, u32)>,
    pub pubdata_costs: Seq<(u32, LogQuery, i32)>,
    pub new_frames: Seq<(u32, CallStackEntry)>,
    pub callstack_values: Seq<(u32, (ExtendedCallstackEntry, CallstackSimulatorState))>,
}

impl View for VmWitnessOracle {
    type V = OracleView;

    open spec fn view(&self) -> OracleView {
        OracleView {
            initial_cycle: self.initial_cycle,
            final_cycle_inclusive: self.final_cycle_inclusive,
            memory_reads: self.memory_read_witness@,
            memory_writes: match self.memory_write_witness {
                Some(q) => Some(q@),
                None => None,
            },
            rollback_heads: self.rollback_queue_head_segments@,
            decommittments: self.decommittment_requests_witness@,
            rollback_tails: self.rollback_queue_initial_tails_for_new_frames@,
            storage_reads: self.storage_queries@,
            refunds: self.storage_access_cold_warm_refunds@,
            pubdata_costs: self.storage_pubdata_queries@,
            new_frames: self.callstack_new_frames_witnesses@,
            callstack_values: self.callstack_values_witnesses@,
        }
    }
}

impl Default for VmWitnessOracle {
    fn default() -> (r: VmWitnessOracle)
        ensures
            r@.initial_cycle == 0,
            r@.final_cycle_inclusive == 0,
            r@.memory_reads.len() == 0,
            r@.memory_writes is None,
            r@.rollback_heads.len() == 0,
            r@.decommittments.len() == 0,
            r@.rollback_tails.len() == 0,
            r@.storage_reads.len() == 0,
            r@.refunds.len() == 0,
            r@.pubdata_costs.len() == 0,
            r@.new_frames.len() == 0,
            r@.callstack_values.len() == 0,
    {
        VmWitnessOracle {
            initial_cycle: 0,
            final_cycle_inclusive: 0,
            memory_read_witness: VecDeque::new(),
            memory_write_witness: None,
            rollback_queue_head_segments: VecDeque::new(),
            decommittment_requests_witness: VecDeque::new(),
            rollback_queue_initial_tails_for_new_frames: VecDeque::new(),
            storage_queries: VecDeque::new(),
            storage_access_cold_warm_refunds: VecDeque::new(),
            storage_pubdata_queries: VecDeque::new(),
            callstack_new_frames_witnesses: VecDeque::new(),
            callstack_values_witnesses: VecDeque::new(),
        }
    }
}

/// Where a memory witness disagrees with the access the circuit makes.
pub open spec fn memory_location_divergence(
    queue: WitnessQueue,
    q: MemoryQuery,
    timestamp: u32,
    memory_page: u32,
    index: u32,
) -> Option<WitnessError> {
    if timestamp != q.timestamp {
        Some(WitnessError::Mismatch(queue, WitnessField::Timestamp))
    } else if memory_page != q.page {
        Some(WitnessError::Mismatch(queue, WitnessField::Page))
    } else if index != q.index {
        Some(WitnessError::Mismatch(queue, WitnessField::Index))
    } else {
        None
    }
}

fn check_memory_location(
    queue: WitnessQueue,
    q: &MemoryQuery,
    timestamp: u32,
    memory_page: u32,
    index: u32,
) -> (r: Option<WitnessError>)
    ensures
        r == memory_location_divergence(queue, *q, timestamp, memory_page, index),
{
    if timestamp != q.timestamp {
        Some(WitnessError::Mismatch(queue, WitnessField::Timestamp))
    } else if memory_page != q.page {
        Some(WitnessError::Mismatch(queue, WitnessField::Page))
    } else if index != q.index {
        Some(WitnessError::Mismatch(queue, WitnessField::Index))
    } else {
        None
    }
}

impl OracleView {
    /// Where a memory read diverges from the oracle, if it does.
    pub open spec fn memory_read_divergence(
        self,
        timestamp: u32,
        memory_page: u32,
        index: u32,
        execute: bool,
    ) -> Option<WitnessError> {
        if !execute {
            None
        } else if self.memory_reads.len() == 0 {
            Some(WitnessError::Missing(WitnessQueue::MemoryRead))
        } else {
            memory_location_divergence(
                WitnessQueue::MemoryRead,
                self.memory_reads[0].1,
                timestamp,
                memory_page,
                index,
            )
        }
    }

    /// Where a memory write diverges from the self-check queue, if it does.
    pub open spec fn memory_write_divergence(
        self,
        w: MemoryQueryWitness,
        execute: bool,
    ) -> Option<WitnessError> {
        match self.memory_writes {
            Some(writes) if execute => {
                if writes.len() == 0 {
                    Some(WitnessError::Missing(WitnessQueue::MemoryWrite))
                } else {
                    let q = writes[0].1;
                    match memory_location_divergence(
                        WitnessQueue::MemoryWrite,
                        q,
                        w.timestamp,
                        w.memory_page,
                        w.index,
                    ) {
                        Some(e) => Some(e),
                        None => if w.value != q.value {
                            Some(WitnessError::Mismatch(WitnessQueue::MemoryWrite, WitnessField::Value))
                        } else if w.is_ptr != q.value_is_pointer {
                            Some(WitnessError::Mismatch(WitnessQueue::MemoryWrite, WitnessField::IsPointer))
                        } else {
                            None
                        },
                    }
                }
            },
            _ => None,
        }
    }
}

impl VmWitnessOracle {
    /// Tells whether `get_memory_witness_for_read` can answer, and if not, why.
    pub fn check_memory_read(
        &self,
        timestamp: u32,
        memory_page: u32,
        index: u32,
        execute: bool,
    ) -> (r: Result<(), WitnessError>)
        ensures
            r == outcome(self@.memory_read_divergence(timestamp, memory_page, index, execute)),
    {
        if !execute {
            return Ok(());
        }
        if self.memory_read_witness.len() == 0 {
            return Err(WitnessError::Missing(WitnessQueue::MemoryRead));
        }
        let (_cycle, q) = self.memory_read_witness[0];
        match check_memory_location(WitnessQueue::MemoryRead, &q, timestamp, memory_page, index) {
            Some(e) => Err(e),
            None => Ok(()),
        }
    }

    /// Hands out the next memory read witness, which must be for this
    /// timestamp, page and index; a zero word when nothing is executed.
    pub fn get_memory_witness_for_read(
        &mut self,
        timestamp: u32,
        memory_page: u32,
        index: u32,
        execute: bool,
    ) -> (r: MemoryWitness)
        requires
            old(self)@.memory_read_divergence(timestamp, memory_page, index, execute) is None,
        ensures
            execute ==> {
                &&& r.value == old(self)@.memory_reads[0].1.value
                &&& r.is_ptr == old(self)@.memory_reads[0].1.value_is_pointer
                &&& final(self)@ == (OracleView {
                    memory_reads: old(self)@.memory_reads.drop_first(),
                    ..old(self)@
                })
            },
            !execute ==> r.value == U256::spec_zero() && !r.is_ptr && final(self)@ == old(self)@,
    {
        if execute {
            let (_cycle, query) = self.memory_read_witness.pop_front().unwrap();
            MemoryWitness { value: query.value, is_ptr: query.value_is_pointer }
        } else {
            MemoryWitness { value: U256::zero(), is_ptr: false }
        }
    }

    /// Tells whether `push_memory_witness` can accept this write, and if not, why.
    pub fn check_memory_write(&self, memory_query: &MemoryQueryWitness, execute: bool) -> (r: Result<
        (),
        WitnessError,
    >)
        ensures
            r == outcome(self@.memory_write_divergence(*memory_query, execute)),
    {
        if !execute {
            return Ok(());
        }
        match &self.memory_write_witness {
            None => Ok(()),
            Some(writes) => {
                if writes.len() == 0 {
                    return Err(WitnessError::Missing(WitnessQueue::MemoryWrite));
                }
                let (_cycle, q) = writes[0];
                let w = memory_query;
                match check_memory_location(
                    WitnessQueue::MemoryWrite,
                    &q,
                    w.timestamp,
                    w.memory_page,
                    w.index,
                ) {
                    Some(e) => Err(e),
                    None => if w.value != q.value {
                        Err(WitnessError::Mismatch(WitnessQueue::MemoryWrite, WitnessField::Value))
                    } else if w.is_ptr != q.value_is_pointer {
                        Err(WitnessError::Mismatch(WitnessQueue::MemoryWrite, WitnessField::IsPointer))
                    } else {
                        Ok(())
                    },
                }
            },
        }
    }

    /// Checks a memory write of the circuit against the next self-check
    /// witness and consumes that witness; does nothing when there is no
    /// self-check queue or nothing is executed.
    pub fn push_memory_witness(&mut self, memory_query: &MemoryQueryWitness, execute: bool)
        requires
            old(self)@.memory_write_divergence(*memory_query, execute) is None,
        ensures
            final(self)@ == (match old(self)@.memory_writes {
                Some(writes) if execute => OracleView {
                    memory_writes: Some(writes.drop_first()),
                    ..old(self)@
                },
                _ => old(self)@,
            }),
    {
        if execute {
            match &mut self.memory_write_witness {
                Some(writes) => {
                    let _ = writes.pop_front();
                },
                None => {},
            }
        }
    }
}

} // verus!
