//! zksync artifact output: how a compiled contract becomes an artifact.
use vstd::prelude::*;

verus! {

/// zksync artifact output
#[derive(Debug, Copy, Clone, Eq, PartialEq, Default)]
pub struct ZkArtifactOutput();

impl ZkArtifactOutput {
    /// The bytecode and assembly of an artifact: those of the EraVM output where the compiler
    /// gave one, else those of the EVM output, else neither.
    pub fn bytecode_and_assembly<B, A>(
        eravm: Option<(Option<B>, Option<A>)>,
        evm: Option<(Option<B>, Option<A>)>,
    ) -> (res: (Option<B>, Option<A>))
        ensures
            res == (match (eravm, evm) {
                (Some(out), _) => out,
                (None, Some(out)) => out,
                (None, None) => (None, None),
            }),
    {
        match eravm {
            Some(out) => out,
            None => match evm {
                Some(out) => out,
                None => (None, None),
            },
        }
    }
}

} // verus!
