//! Verified out-of-circuit witness oracle for the zkEVM main-VM circuit,
//! together with the decision logic of the SNARK wrapper pipeline.

pub mod words;
pub mod queries;
pub mod oracle;
pub mod storage;
pub mod callstack;
pub mod decommit;
pub mod wrapper;
pub mod laws;

