//! The decisions of the SNARK wrapper pipeline: which artifact to produce
//! next, and whether the artifacts handed to a step belong together.

use vstd::prelude::*;

verus! {

/// Log2 of the number of rows that the wrapper circuit is padded to.
pub const L1_VERIFIER_DOMAIN_SIZE_LOG: usize = 24;

/// Which wrapper artifacts the data source already holds.
#[derive(PartialEq, Eq, Structural, Clone, Copy, Debug)]
pub struct WrapperArtifacts {
    pub setup: bool,
    pub vk: bool,
    pub proof: bool,
}

/// The next thing the pipeline does.
#[derive(PartialEq, Eq, Structural, Clone, Copy, Debug)]
pub enum WrapperStep {
    /// Compute the wrapper setup from the compression verification key.
    ComputeSetup,
    /// Compute the wrapper verification key from the stored setup.
    ComputeVk,
    /// Prove the compression proof in the wrapper, check the proof against
    /// the stored wrapper verification key, and store it.
    ComputeProof,
    /// Every artifact is there.
    Done,
}

/// The first missing artifact, in the order setup, verification key, proof.
pub open spec fn spec_next_wrapper_step(a: WrapperArtifacts) -> WrapperStep {
    if !a.setup {
        WrapperStep::ComputeSetup
    } else if !a.vk {
        WrapperStep::ComputeVk
    } else if !a.proof {
        WrapperStep::ComputeProof
    } else {
        WrapperStep::Done
    }
}

/// The artifacts held after a step has stored what it produced.
pub open spec fn spec_after_step(a: WrapperArtifacts, s: WrapperStep) -> WrapperArtifacts {
    match s {
        WrapperStep::ComputeSetup => WrapperArtifacts { setup: true, ..a },
        WrapperStep::ComputeVk => WrapperArtifacts { vk: true, ..a },
        WrapperStep::ComputeProof => WrapperArtifacts { proof: true, ..a },
        WrapperStep::Done => a,
    }
}

/// The artifacts that a step reads are held: the verification key is made
/// from the stored setup, and the proof needs the setup and the key.
pub open spec fn step_inputs_held(a: WrapperArtifacts, s: WrapperStep) -> bool {
    match s {
        WrapperStep::ComputeVk => a.setup,
        WrapperStep::ComputeProof => a.setup && a.vk,
        _ => true,
    }
}

/// Chooses the next step of the pipeline: the first missing artifact.
pub fn next_wrapper_step(a: &WrapperArtifacts) -> (s: WrapperStep)
    ensures
        s == spec_next_wrapper_step(*a),
        step_inputs_held(*a, s),
{
    if !a.setup {
        WrapperStep::ComputeSetup
    } else if !a.vk {
        WrapperStep::ComputeVk
    } else if !a.proof {
        WrapperStep::ComputeProof
    } else {
        WrapperStep::Done
    }
}

/// Records that a step has stored what it produced.
pub fn record_wrapper_step(a: &mut WrapperArtifacts, s: WrapperStep)
    ensures
        *final(a) == spec_after_step(*old(a), s),
{
    match s {
        WrapperStep::ComputeSetup => a.setup = true,
        WrapperStep::ComputeVk => a.vk = true,
        WrapperStep::ComputeProof => a.proof = true,
        WrapperStep::Done => {},
    }
}

/// The number of artifacts still missing.
pub open spec fn missing_count(a: WrapperArtifacts) -> nat {
    (if a.setup { 0nat } else { 1nat }) + (if a.vk { 0nat } else { 1nat }) + (if a.proof {
        0nat
    } else {
        1nat
    })
}

/// Running the pipeline from any state never recomputes an artifact that is
/// held, only starts a step once what it reads is held, and each step leaves
/// one artifact fewer missing, so that it is done after at most three steps,
/// with every artifact held.
pub proof fn lemma_wrapper_pipeline_progress(a: WrapperArtifacts)
    ensures
        step_inputs_held(a, spec_next_wrapper_step(a)),
        spec_next_wrapper_step(a) == WrapperStep::ComputeSetup ==> !a.setup,
        spec_next_wrapper_step(a) == WrapperStep::ComputeVk ==> !a.vk,
        spec_next_wrapper_step(a) == WrapperStep::ComputeProof ==> !a.proof,
        spec_next_wrapper_step(a) == WrapperStep::Done <==> (a.setup && a.vk && a.proof),
        spec_next_wrapper_step(a) != WrapperStep::Done ==> missing_count(
            spec_after_step(a, spec_next_wrapper_step(a)),
        ) + 1 == missing_count(a),
        missing_count(a) <= 3,
{
}

/// Why the artifacts handed to a wrapper step do not belong together.
#[derive(PartialEq, Eq, Structural, Clone, Copy, Debug)]
pub enum WrapperInputError {
    /// The compression proof is of another circuit type than the config's.
    ProofCircuitType,
    /// The compression verification key is of another circuit type.
    VkCircuitType,
    /// The wrapper setup is of another wrapper type.
    SetupCircuitType,
}

/// Which input disagrees with the config, in the order in which they are
/// checked: the compression proof (when there is one), the compression
/// verification key, and the wrapper setup (when there is one).
pub open spec fn spec_wrapper_input_error(
    compression_for_wrapper_type: u8,
    wrapper_type: u8,
    proof_type: Option<u8>,
    vk_type: u8,
    setup_type: Option<u8>,
) -> Option<WrapperInputError> {
    if proof_type matches Some(t) && t != compression_for_wrapper_type {
        Some(WrapperInputError::ProofCircuitType)
    } else if vk_type != compression_for_wrapper_type {
        Some(WrapperInputError::VkCircuitType)
    } else if setup_type matches Some(t) && t != wrapper_type {
        Some(WrapperInputError::SetupCircuitType)
    } else {
        None
    }
}

/// Checks that the compression proof and key, and the wrapper setup, are of
/// the circuit types that the wrapper config names.
pub fn check_wrapper_inputs(
    compression_for_wrapper_type: u8,
    wrapper_type: u8,
    proof_type: Option<u8>,
    vk_type: u8,
    setup_type: Option<u8>,
) -> (r: Result<(), WrapperInputError>)
    ensures
        r == (match spec_wrapper_input_error(
            compression_for_wrapper_type,
            wrapper_type,
            proof_type,
            vk_type,
            setup_type,
        ) {
            Some(e) => Err(e),
            None => Ok(()),
        }),
{
    if let Some(t) = proof_type {
        if t != compression_for_wrapper_type {
            return Err(WrapperInputError::ProofCircuitType);
        }
    }
    if vk_type != compression_for_wrapper_type {
        return Err(WrapperInputError::VkCircuitType);
    }
    if let Some(t) = setup_type {
        if t != wrapper_type {
            return Err(WrapperInputError::SetupCircuitType);
        }
    }
    Ok(())
}

} // verus!
