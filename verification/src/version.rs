//! The version under which this runtime identifies itself.
use vstd::prelude::*;

verus! {

/// The runtime's version, as plain values: its names, its version numbers
/// and the version of its state layout. The set of runtime APIs it exposes
/// is kept by the chain's API declarations and is not part of this value.
#[derive(Clone, Copy, Debug, PartialEq, Eq)]
pub struct RuntimeVersion {
    /// Identifies the specification of the runtime.
    pub spec_name: &'static str,
    /// Identifies the implementation of the specification.
    pub impl_name: &'static str,
    /// Version of the authorship interface.
    pub authoring_version: u32,
    /// Version of the runtime specification.
    pub spec_version: u32,
    /// Version of the implementation of the specification.
    pub impl_version: u32,
    /// Version of the format of transactions.
    pub transaction_version: u32,
    /// Version of the trie layout of the state.
    pub state_version: u8,
}

/// The version of the runtime when compiled natively, and the authoring
/// versions that a native build may author blocks with.
#[derive(Clone, Debug)]
pub struct NativeVersion {
    /// The runtime's own version.
    pub runtime_version: RuntimeVersion,
    /// Authoring versions, besides the runtime's own, that the native build
    /// can author with.
    pub can_author_with: Vec<u32>,
}

/// The version of this runtime.
pub fn version() -> (r: RuntimeVersion)
    ensures
        r.spec_name@ == "parachain-template-runtime"@,
        r.impl_name@ == "parachain-template-runtime"@,
        r.authoring_version == 1,
        r.spec_version == 1,
        r.impl_version == 0,
        r.transaction_version == 1,
        r.state_version == 1,
{
    RuntimeVersion {
        spec_name: "parachain-template-runtime",
        impl_name: "parachain-template-runtime",
        authoring_version: 1,
        spec_version: 1,
        impl_version: 0,
        transaction_version: 1,
        state_version: 1,
    }
}

/// The version information used to identify this runtime when compiled
/// natively: the runtime's version, and no further authoring versions.
pub fn native_version() -> (r: NativeVersion)
    ensures
        r.runtime_version.spec_name@ == "parachain-template-runtime"@,
        r.runtime_version.impl_name@ == "parachain-template-runtime"@,
        r.runtime_version.authoring_version == 1,
        r.runtime_version.spec_version == 1,
        r.runtime_version.impl_version == 0,
        r.runtime_version.transaction_version == 1,
        r.runtime_version.state_version == 1,
        r.can_author_with@.len() == 0,
{
    NativeVersion { runtime_version: version(), can_author_with: Vec::new() }
}

} // verus!
