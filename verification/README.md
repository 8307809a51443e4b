# witness_oracle

The out-of-circuit witness oracle of the zkEVM main-VM circuit, verified with
Verus, and the decision logic of the SNARK wrapper pipeline.

- `src/words.rs`: 256-bit words, addresses, the 32-bit split of a 128-bit value.
- `src/queries.rs`: the records the oracle holds and the circuit hands it.
- `src/oracle.rs`, `storage.rs`, `callstack.rs`, `decommit.rs`: the oracle.
  Each request has a `check_*` method that says exactly when and why the
  oracle and the circuit diverge, and a method that answers the request when
  they do not.
- `src/wrapper.rs`: which wrapper artifact to produce next, and whether the
  inputs of a step belong together.
- `app/`: serialization, conversion of `zk_evm` records, a front end that
  aborts on divergence, and the pipeline driver over a prover interface.
