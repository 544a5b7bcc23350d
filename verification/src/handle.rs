//! The platform font context handle.
//!
//! This backend is the stateless placeholder: it holds no native resource,
//! so construction cannot fail, cloning is a plain copy, and the handle
//! exclusively owns no heap or native memory.

use vstd::prelude::*;

verus! {

/// An opaque handle to the platform's font system.
///
/// A handle is always valid for use: construction either fully succeeds or
/// the caller never observes a handle. The handle is immutable after
/// construction; operations that use it take it by reference and return new
/// data.
// Fieldless placeholder until a native font manager is bound in here.
#[derive(Clone, Debug)]
pub struct FontContextHandle {}

impl FontContextHandle {
    /// Bytes of heap or native memory this handle exclusively owns.
    ///
    /// The placeholder backend holds no backing resource, and memory shared
    /// with the platform runtime is never counted, so this is zero.
    pub open spec fn owned_bytes(self) -> nat {
        0
    }

    /// Report the memory this handle exclusively owns, in bytes, for the
    /// engine's global memory-report aggregation.
    ///
    /// The result is pinned to `owned_bytes`, so the report is deterministic
    /// and side-effect-free, and never double-counts memory owned by the
    /// operating system or by another subsystem.
    pub fn size_of(&self) -> (bytes: usize)
        ensures
            bytes == self.owned_bytes(),
    {
        0
    }

    /// A fixed diagnostic label for this handle, for diagnostic dumps.
    ///
    /// Being verified, this cannot panic, and it allocates nothing: the
    /// label is a static string whatever the handle's state.
    pub fn debug_summary(&self) -> (label: &'static str)
        ensures
            label@ == "FontContextHandle(placeholder)"@,
    {
        "FontContextHandle(placeholder)"
    }
}

impl Default for FontContextHandle {
    /// Produce a valid, empty-state handle. No fallible platform call is
    /// made, and the handle owns no native resource.
    fn default() -> (handle: FontContextHandle)
        ensures
            handle.owned_bytes() == 0,
    {
        FontContextHandle {}
    }
}

/// The memory report is deterministic: any two results that meet the
/// contract of [`FontContextHandle::size_of`] on the same unmodified handle
/// are equal.
pub proof fn lemma_size_of_deterministic(
    handle: FontContextHandle,
    first: usize,
    second: usize,
)
    requires
        first == handle.owned_bytes(),
        second == handle.owned_bytes(),
    ensures
        first == second,
{
}

} // verus!
