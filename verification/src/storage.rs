//! Storage witnesses: values of reads, cold/warm refunds and pubdata costs.

use vstd::prelude::*;
use crate::oracle::{OracleView, VmWitnessOracle, WitnessError, WitnessField, WitnessQueue, outcome};
use crate::queries::{LogQuery, LogQueryWitness};
use crate::words::U256;

verus! {

/// Where a storage read witness disagrees with the access the circuit
/// makes, in the order in which the fields are checked.
pub open spec fn storage_read_mismatch(key: LogQueryWitness, q: LogQuery) -> Option<WitnessField> {
    if key.aux_byte != q.aux_byte {
        Some(WitnessField::AuxByte)
    } else if key.address != q.address {
        Some(WitnessField::Address)
    } else if key.key != q.key {
        Some(WitnessField::Key)
    } else if key.rw_flag != q.rw_flag {
        Some(WitnessField::RwFlag)
    } else if key.rw_flag && key.written_value != q.written_value {
        Some(WitnessField::WrittenValue)
    } else if key.rollback || key.rollback != q.rollback {
        Some(WitnessField::Rollback)
    } else if key.is_service != q.is_service {
        Some(WitnessField::IsService)
    } else if key.shard_id != q.shard_id {
        Some(WitnessField::ShardId)
    } else if key.tx_number_in_block != q.tx_number_in_block as u32 {
        Some(WitnessField::TxNumber)
    } else if key.timestamp != q.timestamp {
        Some(WitnessField::Timestamp)
    } else {
        None
    }
}

fn check_storage_read(key: &LogQueryWitness, q: &LogQuery) -> (r: Option<WitnessField>)
    ensures
        r == storage_read_mismatch(*key, *q),
{
    if key.aux_byte != q.aux_byte {
        Some(WitnessField::AuxByte)
    } else if key.address != q.address {
        Some(WitnessField::Address)
    } else if key.key != q.key {
        Some(WitnessField::Key)
    } else if key.rw_flag != q.rw_flag {
        Some(WitnessField::RwFlag)
    } else if key.rw_flag && key.written_value != q.written_value {
        Some(WitnessField::WrittenValue)
    } else if key.rollback || key.rollback != q.rollback {
        Some(WitnessField::Rollback)
    } else if key.is_service != q.is_service {
        Some(WitnessField::IsService)
    } else if key.shard_id != q.shard_id {
        Some(WitnessField::ShardId)
    } else if key.tx_number_in_block != q.tx_number_in_block as u32 {
        Some(WitnessField::TxNumber)
    } else if key.timestamp != q.timestamp {
        Some(WitnessField::Timestamp)
    } else {
        None
    }
}

/// Where a refund or pubdata witness `q` disagrees with a write (`is_write`)
/// or read of the circuit: the witness must be of the same kind and must not
/// be a rollback.
pub open spec fn storage_kind_mismatch(q: LogQuery, is_write: bool) -> Option<WitnessField> {
    if q.rw_flag != is_write {
        Some(WitnessField::RwFlag)
    } else if q.rollback {
        Some(WitnessField::Rollback)
    } else {
        None
    }
}

fn check_storage_kind(q: &LogQuery, is_write: bool) -> (r: Option<WitnessField>)
    ensures
        r == storage_kind_mismatch(*q, is_write),
{
    if q.rw_flag != is_write {
        Some(WitnessField::RwFlag)
    } else if q.rollback {
        Some(WitnessField::Rollback)
    } else {
        None
    }
}

impl OracleView {
    /// Where a storage read diverges from the oracle, if it does.
    pub open spec fn storage_read_divergence(
        self,
        key: LogQueryWitness,
        needs_witness: bool,
        execute: bool,
    ) -> Option<WitnessError> {
        if !(execute && needs_witness) {
            None
        } else if self.storage_reads.len() == 0 {
            Some(WitnessError::Missing(WitnessQueue::StorageRead))
        } else {
            match storage_read_mismatch(key, self.storage_reads[0].1) {
                Some(f) => Some(WitnessError::Mismatch(WitnessQueue::StorageRead, f)),
                None => None,
            }
        }
    }

    /// Where a cold/warm refund request diverges from the oracle, if it does.
    pub open spec fn cold_warm_refund_divergence(self, is_write: bool, execute: bool) -> Option<
        WitnessError,
    > {
        if !execute {
            None
        } else if self.refunds.len() == 0 {
            Some(WitnessError::Missing(WitnessQueue::ColdWarmRefund))
        } else {
            match storage_kind_mismatch(self.refunds[0].1, is_write) {
                Some(f) => Some(WitnessError::Mismatch(WitnessQueue::ColdWarmRefund, f)),
                None => None,
            }
        }
    }

    /// Where a pubdata cost request diverges from the oracle, if it does:
    /// besides the kind, a read must cost nothing.
    pub open spec fn pubdata_cost_divergence(self, is_write: bool, execute: bool) -> Option<
        WitnessError,
    > {
        if !execute {
            None
        } else if self.pubdata_costs.len() == 0 {
            Some(WitnessError::Missing(WitnessQueue::PubdataCost))
        } else {
            match storage_kind_mismatch(self.pubdata_costs[0].1, is_write) {
                Some(f) => Some(WitnessError::Mismatch(WitnessQueue::PubdataCost, f)),
                None => if !is_write && self.pubdata_costs[0].2 as u32 != 0 {
                    Some(WitnessError::Mismatch(WitnessQueue::PubdataCost, WitnessField::PubdataCost))
                } else {
                    None
                },
            }
        }
    }
}

impl VmWitnessOracle {
    /// Tells whether `get_storage_read_witness` can answer, and if not, why.
    pub fn check_storage_read(&self, key: &LogQueryWitness, needs_witness: bool, execute: bool) -> (r:
        Result<(), WitnessError>)
        ensures
            r == outcome(self@.storage_read_divergence(*key, needs_witness, execute)),
    {
        if !(execute && needs_witness) {
            return Ok(());
        }
        if self.storage_queries.len() == 0 {
            return Err(WitnessError::Missing(WitnessQueue::StorageRead));
        }
        let (_cycle, q) = self.storage_queries[0];
        match check_storage_read(key, &q) {
            Some(f) => Err(WitnessError::Mismatch(WitnessQueue::StorageRead, f)),
            None => Ok(()),
        }
    }

    /// Hands out the value read by the next storage access, which must be
    /// the access `key`; zero when no witness is needed or nothing is executed.
    pub fn get_storage_read_witness(
        &mut self,
        key: &LogQueryWitness,
        needs_witness: bool,
        execute: bool,
    ) -> (r: U256)
        requires
            old(self)@.storage_read_divergence(*key, needs_witness, execute) is None,
        ensures
            execute && needs_witness ==> {
                &&& r == old(self)@.storage_reads[0].1.read_value
                &&& final(self)@ == (OracleView {
                    storage_reads: old(self)@.storage_reads.drop_first(),
                    ..old(self)@
                })
            },
            !(execute && needs_witness) ==> r == U256::spec_zero() && final(self)@ == old(self)@,
    {
        if execute && needs_witness {
            let (_cycle, query) = self.storage_queries.pop_front().unwrap();
            query.read_value
        } else {
            U256::zero()
        }
    }

    /// Tells whether `get_cold_warm_refund` can answer, and if not, why.
    pub fn check_cold_warm_refund(&self, is_write: bool, execute: bool) -> (r: Result<
        (),
        WitnessError,
    >)
        ensures
            r == outcome(self@.cold_warm_refund_divergence(is_write, execute)),
    {
        if !execute {
            return Ok(());
        }
        if self.storage_access_cold_warm_refunds.len() == 0 {
            return Err(WitnessError::Missing(WitnessQueue::ColdWarmRefund));
        }
        let (_cycle, q, _refund) = self.storage_access_cold_warm_refunds[0];
        match check_storage_kind(&q, is_write) {
            Some(f) => Err(WitnessError::Mismatch(WitnessQueue::ColdWarmRefund, f)),
            None => Ok(()),
        }
    }

    /// Hands out the refund of the next storage access, which must be a
    /// write when `is_write` and a read otherwise; zero when nothing is
    /// executed. The fields of `query` are not compared with the witness.
    #[allow(unused_variables)]
    pub fn get_cold_warm_refund(&mut self, query: &LogQueryWitness, is_write: bool, execute: bool) -> (r:
        u32)
        requires
            old(self)@.cold_warm_refund_divergence(is_write, execute) is None,
        ensures
            execute ==> {
                &&& r == old(self)@.refunds[0].2
                &&& final(self)@ == (OracleView {
                    refunds: old(self)@.refunds.drop_first(),
                    ..old(self)@
                })
            },
            !execute ==> r == 0 && final(self)@ == old(self)@,
    {
        if execute {
            let (_cycle, _query, refund) = self.storage_access_cold_warm_refunds.pop_front().unwrap();
            refund
        } else {
            0u32
        }
    }

    /// Tells whether `get_pubdata_cost_for_query` can answer, and if not, why.
    pub fn check_pubdata_cost(&self, is_write: bool, execute: bool) -> (r: Result<
        (),
        WitnessError,
    >)
        ensures
            r == outcome(self@.pubdata_cost_divergence(is_write, execute)),
    {
        if !execute {
            return Ok(());
        }
        if self.storage_pubdata_queries.len() == 0 {
            return Err(WitnessError::Missing(WitnessQueue::PubdataCost));
        }
        let (_cycle, q, cost) = self.storage_pubdata_queries[0];
        match check_storage_kind(&q, is_write) {
            Some(f) => Err(WitnessError::Mismatch(WitnessQueue::PubdataCost, f)),
            None => if !is_write && cost as u32 != 0 {
                Err(WitnessError::Mismatch(WitnessQueue::PubdataCost, WitnessField::PubdataCost))
            } else {
                Ok(())
            },
        }
    }

    /// Hands out the pubdata cost of the next storage access as the two's
    /// complement bits of the signed cost; zero when nothing is executed.
    /// The fields of `query` are not compared with the witness.
    #[allow(unused_variables)]
    pub fn get_pubdata_cost_for_query(
        &mut self,
        query: &LogQueryWitness,
        is_write: bool,
        execute: bool,
    ) -> (r: u32)
        requires
            old(self)@.pubdata_cost_divergence(is_write, execute) is None,
        ensures
            execute ==> {
                &&& r == old(self)@.pubdata_costs[0].2 as u32
                &&& final(self)@ == (OracleView {
                    pubdata_costs: old(self)@.pubdata_costs.drop_first(),
                    ..old(self)@
                })
            },
            !execute ==> r == 0 && final(self)@ == old(self)@,
    {
        if execute {
            let (_cycle, _query, cost) = self.storage_pubdata_queries.pop_front().unwrap();
            cost as u32
        } else {
            0u32
        }
    }
}

} // verus!
