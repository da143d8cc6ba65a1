# zksync_verify

Verified helpers for linking and verifying contracts compiled with zksolc.

- `src/link.rs`: the `"<path>:<name>"` references that zksolc reports for missing libraries
  (`MissingLibrary::try_from`), the `"<file>:<name>=<address>"` text a library is linked as
  (`String::from(Library)`, with the address in its EIP-55 form), and laws relating the two.
- `src/zk_provider.rs`: the choice of the solc compiler of a zksolc verification context, as a
  state machine (`SolcSetup`) whose requests the caller carries out, and what a compiled target
  yields (`select_target_output`).
- `src/artifact_output.rs`: which compiler output an artifact takes its bytecode from.
- `app/`: compiler and process I/O, serde forms of the types, and foundry trait impls.
