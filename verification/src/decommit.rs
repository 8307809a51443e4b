//! Decommitment witnesses and the final check that the oracle is used up.

use vstd::prelude::*;
use crate::oracle::{OracleView, VmWitnessOracle, WitnessError, WitnessField, WitnessQueue, outcome};
use crate::queries::DecommitQueryWitness;
use crate::words::{U256, spec_u256_from_be_bytes, u256_from_big_endian};

verus! {

/// The code hash that a normalized preimage stands for: the 32 big-endian
/// bytes made of four zero bytes followed by the 28 bytes of the preimage.
pub open spec fn spec_normalized_code_hash(preimage: [u8; 28]) -> U256 {
    spec_u256_from_be_bytes(seq![0u8, 0u8, 0u8, 0u8] + preimage@)
}

/// The code hash that a normalized preimage stands for.
pub fn normalized_code_hash(preimage: &[u8; 28]) -> (r: U256)
    ensures
        r == spec_normalized_code_hash(*preimage),
{
    let mut buffer: Vec<u8> = vec![0u8, 0u8, 0u8, 0u8];
    for i in 0..28usize
        invariant
            buffer@ == seq![0u8, 0u8, 0u8, 0u8] + preimage@.subrange(0, i as int),
    {
        buffer.push(preimage[i]);
        assert(preimage@.subrange(0, i + 1) =~= preimage@.subrange(0, i as int).push(preimage@[i as int]));
        assert(buffer@ =~= seq![0u8, 0u8, 0u8, 0u8] + preimage@.subrange(0, i + 1));
    }
    assert(preimage@.subrange(0, 28) =~= preimage@);
    u256_from_big_endian(buffer.as_slice())
}

/// The most significant 32 bits of a normalized code hash are zero, so a
/// requested code hash with any of them set never matches a witness.
pub proof fn lemma_normalized_code_hash_high_bits_clear(preimage: [u8; 28])
    ensures
        spec_normalized_code_hash(preimage).w3 < 0x1_0000_0000,
{
    let s = seq![0u8, 0u8, 0u8, 0u8] + preimage@;
    assert(s[0] == 0 && s[1] == 0 && s[2] == 0 && s[3] == 0);
    assert(s[4] <= 255 && s[5] <= 255 && s[6] <= 255 && s[7] <= 255);
}

impl OracleView {
    /// Where a decommitment request diverges from the oracle, if it does.
    pub open spec fn decommittment_divergence(self, request: DecommitQueryWitness, execute: bool) -> Option<
        WitnessError,
    > {
        if !execute {
            None
        } else if self.decommittments.len() == 0 {
            Some(WitnessError::Missing(WitnessQueue::Decommittment))
        } else if request.timestamp != self.decommittments[0].1.timestamp {
            Some(WitnessError::Mismatch(WitnessQueue::Decommittment, WitnessField::Timestamp))
        } else if request.code_hash != spec_normalized_code_hash(
            self.decommittments[0].1.normalized_preimage,
        ) {
            Some(WitnessError::Mismatch(WitnessQueue::Decommittment, WitnessField::CodeHash))
        } else {
            None
        }
    }

    /// The first queue that still holds witnesses once the circuit is done,
    /// in the order in which they are checked; new frames are not checked.
    pub open spec fn completion_divergence(self) -> Option<WitnessError> {
        if self.memory_reads.len() != 0 {
            Some(WitnessError::Leftover(WitnessQueue::MemoryRead))
        } else if self.memory_writes matches Some(w) && w.len() != 0 {
            Some(WitnessError::Leftover(WitnessQueue::MemoryWrite))
        } else if self.storage_reads.len() != 0 {
            Some(WitnessError::Leftover(WitnessQueue::StorageRead))
        } else if self.refunds.len() != 0 {
            Some(WitnessError::Leftover(WitnessQueue::ColdWarmRefund))
        } else if self.pubdata_costs.len() != 0 {
            Some(WitnessError::Leftover(WitnessQueue::PubdataCost))
        } else if self.callstack_values.len() != 0 {
            Some(WitnessError::Leftover(WitnessQueue::CallstackValues))
        } else if self.decommittments.len() != 0 {
            Some(WitnessError::Leftover(WitnessQueue::Decommittment))
        } else if self.rollback_heads.len() != 0 {
            Some(WitnessError::Leftover(WitnessQueue::RollbackQueueHead))
        } else if self.rollback_tails.len() != 0 {
            Some(WitnessError::Leftover(WitnessQueue::RollbackQueueTail))
        } else {
            None
        }
    }
}

impl VmWitnessOracle {
    /// Tells whether `get_decommittment_request_suggested_page` can answer,
    /// and if not, why.
    pub fn check_decommittment_request(&self, request: &DecommitQueryWitness, execute: bool) -> (r:
        Result<(), WitnessError>)
        ensures
            r == outcome(self@.decommittment_divergence(*request, execute)),
    {
        if !execute {
            return Ok(());
        }
        if self.decommittment_requests_witness.len() == 0 {
            return Err(WitnessError::Missing(WitnessQueue::Decommittment));
        }
        let (_frame_idx, query) = self.decommittment_requests_witness[0];
        if request.timestamp != query.timestamp {
            return Err(WitnessError::Mismatch(WitnessQueue::Decommittment, WitnessField::Timestamp));
        }
        let query_hash = normalized_code_hash(&query.normalized_preimage);
        if request.code_hash != query_hash {
            Err(WitnessError::Mismatch(WitnessQueue::Decommittment, WitnessField::CodeHash))
        } else {
            Ok(())
        }
    }

    /// Hands out the page that the next decommitment, which must be of the
    /// requested code hash at the requested timestamp, went to; zero when
    /// nothing is executed.
    pub fn get_decommittment_request_suggested_page(
        &mut self,
        request: &DecommitQueryWitness,
        execute: bool,
    ) -> (r: u32)
        requires
            old(self)@.decommittment_divergence(*request, execute) is None,
        ensures
            execute ==> {
                &&& r == old(self)@.decommittments[0].1.memory_page
                &&& final(self)@ == (OracleView {
                    decommittments: old(self)@.decommittments.drop_first(),
                    ..old(self)@
                })
            },
            !execute ==> r == 0 && final(self)@ == old(self)@,
    {
        if execute {
            let (_frame_idx, query) = self.decommittment_requests_witness.pop_front().unwrap();
            query.memory_page
        } else {
            0
        }
    }

    /// Tells whether `at_completion` accepts the oracle, and if not, which
    /// queue has witnesses left over.
    pub fn check_completion(&self) -> (r: Result<(), WitnessError>)
        ensures
            r == outcome(self@.completion_divergence()),
    {
        if self.memory_read_witness.len() != 0 {
            return Err(WitnessError::Leftover(WitnessQueue::MemoryRead));
        }
        if let Some(w) = &self.memory_write_witness {
            if w.len() != 0 {
                return Err(WitnessError::Leftover(WitnessQueue::MemoryWrite));
            }
        }
        if self.storage_queries.len() != 0 {
            return Err(WitnessError::Leftover(WitnessQueue::StorageRead));
        }
        if self.storage_access_cold_warm_refunds.len() != 0 {
            return Err(WitnessError::Leftover(WitnessQueue::ColdWarmRefund));
        }
        if self.storage_pubdata_queries.len() != 0 {
            return Err(WitnessError::Leftover(WitnessQueue::PubdataCost));
        }
        if self.callstack_values_witnesses.len() != 0 {
            return Err(WitnessError::Leftover(WitnessQueue::CallstackValues));
        }
        if self.decommittment_requests_witness.len() != 0 {
            return Err(WitnessError::Leftover(WitnessQueue::Decommittment));
        }
        if self.rollback_queue_head_segments.len() != 0 {
            return Err(WitnessError::Leftover(WitnessQueue::RollbackQueueHead));
        }
        if self.rollback_queue_initial_tails_for_new_frames.len() != 0 {
            return Err(WitnessError::Leftover(WitnessQueue::RollbackQueueTail));
        }
        Ok(())
    }

    /// Consumes the oracle once the circuit is done; every checked queue
    /// must have been used up.
    pub fn at_completion(self)
        requires
            self@.completion_divergence() is None,
    {
    }
}

/// The oracle is accepted at completion exactly when every queue but the
/// new-frame queue has been used up; a fresh oracle, with every queue empty,
/// is accepted.
pub proof fn lemma_completion_iff_used_up(v: OracleView)
    ensures
        v.completion_divergence() is None <==> {
            &&& v.memory_reads.len() == 0
            &&& (v.memory_writes matches Some(w) ==> w.len() == 0)
            &&& v.storage_reads.len() == 0
            &&& v.refunds.len() == 0
            &&& v.pubdata_costs.len() == 0
            &&& v.callstack_values.len() == 0
            &&& v.decommittments.len() == 0
            &&& v.rollback_heads.len() == 0
            &&& v.rollback_tails.len() == 0
        },
{
}

} // verus!
