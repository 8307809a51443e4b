use witness_oracle::decommit::normalized_code_hash;
use witness_oracle::queries::CallStackEntry;
use witness_oracle::words::{u128_as_u32_le, Address, U256};
use witness_oracle::wrapper::{
    check_wrapper_inputs, next_wrapper_step, record_wrapper_step, WrapperArtifacts,
    WrapperInputError, WrapperStep, L1_VERIFIER_DOMAIN_SIZE_LOG,
};

fn entry_at(address: Address) -> CallStackEntry {
    CallStackEntry {
        this_address: address,
        msg_sender: Address::zero(),
        code_address: address,
        base_memory_page: 0,
        code_page: 0,
        sp: 0,
        pc: 0,
        exception_handler_location: 0,
        ergs_remaining: 0,
        this_shard_id: 0,
        caller_shard_id: 0,
        code_shard_id: 0,
        is_static: false,
        is_local_frame: false,
        context_u128_value: 0,
        heap_bound: 0,
        aux_heap_bound: 0,
        total_pubdata_spent: 0,
        stipend: 0,
    }
}

#[test]
fn u128_split_is_little_endian() {
    let v: u128 = 0x0123_4567_89ab_cdef_0011_2233_4455_6677;
    assert_eq!(u128_as_u32_le(v), [0x4455_6677, 0x0011_2233, 0x89ab_cdef, 0x0123_4567]);
}

#[test]
fn u128_split_recombines() {
    for v in [0u128, 1, u128::MAX, 0xdead_beef_0000_0001_ffff_0000_1234_5678] {
        let r = u128_as_u32_le(v);
        let back = r[0] as u128 | (r[1] as u128) << 32 | (r[2] as u128) << 64 | (r[3] as u128) << 96;
        assert_eq!(back, v);
    }
}

#[test]
fn code_hash_reads_zero_padded_preimage_big_endian() {
    let mut pre = [0u8; 28];
    for i in 0..28 {
        pre[i] = (i + 1) as u8;
    }
    let h = normalized_code_hash(&pre);
    assert_eq!(
        h,
        U256 {
            w0: 0x1516_1718_191a_1b1c,
            w1: 0x0d0e_0f10_1112_1314,
            w2: 0x0506_0708_090a_0b0c,
            w3: 0x0102_0304,
        }
    );
}

#[test]
fn code_hash_high_bits_are_clear() {
    let h = normalized_code_hash(&[0xffu8; 28]);
    assert_eq!(h.w3, 0xffff_ffff);
    assert_eq!(h.w0, u64::MAX);
}

#[test]
fn kernel_mode_is_address_below_two_to_sixteen() {
    assert!(entry_at(Address { high: 0, low: 0x8001 }).is_kernel_mode());
    assert!(entry_at(Address { high: 0, low: 0xffff }).is_kernel_mode());
    assert!(!entry_at(Address { high: 0, low: 0x1_0000 }).is_kernel_mode());
    assert!(!entry_at(Address { high: 1, low: 5 }).is_kernel_mode());
}

#[test]
fn zero_words() {
    assert_eq!(U256::zero(), U256 { w0: 0, w1: 0, w2: 0, w3: 0 });
    assert_eq!(Address::zero(), Address { high: 0, low: 0 });
}

#[test]
fn pipeline_runs_missing_steps_in_order() {
    let mut a = WrapperArtifacts { setup: false, vk: false, proof: false };
    let mut steps = Vec::new();
    loop {
        let s = next_wrapper_step(&a);
        steps.push(s);
        if s == WrapperStep::Done {
            break;
        }
        record_wrapper_step(&mut a, s);
    }
    assert_eq!(
        steps,
        vec![WrapperStep::ComputeSetup, WrapperStep::ComputeVk, WrapperStep::ComputeProof, WrapperStep::Done]
    );
    assert_eq!(a, WrapperArtifacts { setup: true, vk: true, proof: true });
}

#[test]
fn pipeline_skips_held_artifacts() {
    let mut a = WrapperArtifacts { setup: true, vk: false, proof: true };
    let s = next_wrapper_step(&a);
    assert_eq!(s, WrapperStep::ComputeVk);
    record_wrapper_step(&mut a, s);
    assert_eq!(next_wrapper_step(&a), WrapperStep::Done);
}

#[test]
fn wrapper_inputs_checked_in_order() {
    assert_eq!(check_wrapper_inputs(5, 5, Some(5), 5, Some(5)), Ok(()));
    assert_eq!(check_wrapper_inputs(5, 5, None, 5, None), Ok(()));
    assert_eq!(
        check_wrapper_inputs(5, 5, Some(4), 4, Some(4)),
        Err(WrapperInputError::ProofCircuitType)
    );
    assert_eq!(check_wrapper_inputs(5, 5, Some(5), 4, Some(4)), Err(WrapperInputError::VkCircuitType));
    assert_eq!(check_wrapper_inputs(5, 5, None, 5, Some(1)), Err(WrapperInputError::SetupCircuitType));
}

#[test]
fn wrapper_domain_size() {
    assert_eq!(L1_VERIFIER_DOMAIN_SIZE_LOG, 24);
}
