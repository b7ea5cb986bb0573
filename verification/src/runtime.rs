//! The runtime's version, its opaque extrinsic, and what becomes of the
//! pending storage changes after a runtime call.

use vstd::prelude::*;

verus! {

/// An encoded extrinsic whose contents the node does not look into.
#[derive(PartialEq, Eq, Clone, Default, Debug)]
pub struct UncheckedExtrinsic(pub Vec<u8>);

impl UncheckedExtrinsic {
    /// An opaque extrinsic does not tell whether it is signed.
    pub fn is_signed(&self) -> (signed: Option<bool>)
        ensures
            signed is None,
    {
        None
    }
}

/// The version of the runtime: its names and version numbers.
#[derive(Clone, Debug)]
pub struct RuntimeVersion {
    pub spec_name: &'static str,
    pub impl_name: &'static str,
    pub authoring_version: u32,
    pub spec_version: u32,
    pub impl_version: u32,
    /// The runtime APIs it provides: each API's identifier and version.
    pub apis: Vec<([u8; 8], u32)>,
}

/// The runtime version that the native build of the runtime reports, with
/// the other runtime versions it can author blocks for.
#[derive(Clone, Debug)]
pub struct NativeVersion {
    pub runtime_version: RuntimeVersion,
    pub can_author_with: Vec<u32>,
}

/// The identifier of the block builder API, `b"blkbuild"`.
pub open spec fn block_builder_api() -> Seq<u8> {
    seq![98u8, 108u8, 107u8, 98u8, 117u8, 105u8, 108u8, 100u8]
}

/// The identifier of the tagged transaction queue API, `b"validaty"`.
pub open spec fn tagged_transaction_queue_api() -> Seq<u8> {
    seq![118u8, 97u8, 108u8, 105u8, 100u8, 97u8, 116u8, 121u8]
}

/// The identifier of the metadata API, `b"metadata"`.
pub open spec fn metadata_api() -> Seq<u8> {
    seq![109u8, 101u8, 116u8, 97u8, 100u8, 97u8, 116u8, 97u8]
}

/// `v` is this runtime's version: its names, its version numbers, and the
/// block builder, tagged transaction queue and metadata APIs, each at version 1.
pub open spec fn is_runtime_version(v: RuntimeVersion) -> bool {
    &&& v.spec_name@ == "adex-protocol-substrate"@
    &&& v.impl_name@ == "adex-protocol-substrate"@
    &&& v.authoring_version == 1
    &&& v.spec_version == 1
    &&& v.impl_version == 0
    &&& v.apis@.len() == 3
    &&& v.apis@[0].0@ == block_builder_api()
    &&& v.apis@[0].1 == 1
    &&& v.apis@[1].0@ == tagged_transaction_queue_api()
    &&& v.apis@[1].1 == 1
    &&& v.apis@[2].0@ == metadata_api()
    &&& v.apis@[2].1 == 1
}

/// The version of this runtime.
pub fn version() -> (v: RuntimeVersion)
    ensures
        is_runtime_version(v),
{
    let block_builder: [u8; 8] = [98u8, 108u8, 107u8, 98u8, 117u8, 105u8, 108u8, 100u8];
    let tagged_transaction_queue: [u8; 8] = [118u8, 97u8, 108u8, 105u8, 100u8, 97u8, 116u8, 121u8];
    let metadata: [u8; 8] = [109u8, 101u8, 116u8, 97u8, 100u8, 97u8, 116u8, 97u8];
    assert(block_builder@ =~= block_builder_api());
    assert(tagged_transaction_queue@ =~= tagged_transaction_queue_api());
    assert(metadata@ =~= metadata_api());
    let mut apis: Vec<([u8; 8], u32)> = Vec::new();
    apis.push((block_builder, 1));
    apis.push((tagged_transaction_queue, 1));
    apis.push((metadata, 1));
    RuntimeVersion {
        spec_name: "adex-protocol-substrate",
        impl_name: "adex-protocol-substrate",
        authoring_version: 1,
        spec_version: 1,
        impl_version: 0,
        apis,
    }
}

/// The version the native runtime reports: this runtime's version, able to
/// author for no other.
pub fn native_version() -> (v: NativeVersion)
    ensures
        is_runtime_version(v.runtime_version),
        v.can_author_with@.len() == 0,
{
    NativeVersion { runtime_version: version(), can_author_with: Vec::new() }
}

/// What to do with the pending storage changes after a runtime call.
#[derive(PartialEq, Eq, Structural, Clone, Copy, Debug)]
pub enum OverlayAction {
    /// Make the pending changes permanent.
    Commit,
    /// Throw the pending changes away.
    Discard,
    /// Leave the pending changes pending.
    Keep,
}

/// After a runtime call: when changes are committed on success, a call that
/// succeeded commits its pending changes and one that failed discards them;
/// otherwise they are kept pending.
pub fn commit_action(commit_on_success: bool, succeeded: bool) -> (a: OverlayAction)
    ensures
        a == (if !commit_on_success {
            OverlayAction::Keep
        } else if succeeded {
            OverlayAction::Commit
        } else {
            OverlayAction::Discard
        }),
{
    if commit_on_success {
        if succeeded {
            OverlayAction::Commit
        } else {
            OverlayAction::Discard
        }
    } else {
        OverlayAction::Keep
    }
}

} // verus!
