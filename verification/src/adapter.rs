//! Option bundles for the execution adapter that drives the surrounding
//! service's auxiliary runs. The pipeline itself never reads them; they are
//! plain data handed through to the adapter.

use vstd::prelude::*;

verus! {

/// Options for one adapter-driven execution run.
#[derive(Clone, Copy, Debug, PartialEq, Eq, Structural)]
pub struct AdapterExecuteArgs {
    /// Whether the virtual machine checks types at runtime during the run.
    pub check_runtime_types: bool,
}

impl AdapterExecuteArgs {
    /// An option bundle with the given runtime-type-checking flag.
    pub fn new(check_runtime_types: bool) -> (a: AdapterExecuteArgs)
        ensures
            a.check_runtime_types == check_runtime_types,
    {
        AdapterExecuteArgs { check_runtime_types }
    }
}

} // verus!
