//! An instrumented stand-in for a native font service.
//!
//! Real backends share ownership of a reference-counted native resource
//! with the platform runtime: every handle construction or clone takes a
//! reference, and dropping a handle releases one. Leaks and double releases
//! are invisible on a stateless placeholder, so this module provides a
//! service that counts the references it has handed out. Tokens can only be
//! obtained from the service, and releasing one consumes it, so no token is
//! released twice.

use vstd::prelude::*;

verus! {

/// A stand-in font service that tracks how many references to its native
/// resource are currently live.
pub struct InstrumentedFontService {
    live: usize,
}

/// One live reference to the instrumented service's resource.
///
/// The field is private, so a token is only obtained through
/// [`InstrumentedFontService::open`] or
/// [`InstrumentedFontService::clone_token`], and only given up through
/// [`InstrumentedFontService::close`], which consumes it.
pub struct ResourceToken {
    _marker: (),
}

impl InstrumentedFontService {
    /// The number of references handed out and not yet released.
    pub closed spec fn live_references(self) -> nat {
        self.live as nat
    }

    /// A fresh service with no live references.
    pub fn new() -> (service: InstrumentedFontService)
        ensures
            service.live_references() == 0,
    {
        InstrumentedFontService { live: 0 }
    }

    /// Open a new reference to the service's resource, as a real backend
    /// does when a handle is constructed.
    pub fn open(&mut self) -> (token: ResourceToken)
        requires
            old(self).live_references() < usize::MAX,
        ensures
            final(self).live_references() == old(self).live_references() + 1,
    {
        self.live = self.live + 1;
        ResourceToken { _marker: () }
    }

    /// Take one more reference to the resource an existing token refers to,
    /// as a real backend does when a handle is cloned.
    pub fn clone_token(&mut self, _token: &ResourceToken) -> (clone: ResourceToken)
        requires
            old(self).live_references() < usize::MAX,
        ensures
            final(self).live_references() == old(self).live_references() + 1,
    {
        self.live = self.live + 1;
        ResourceToken { _marker: () }
    }

    /// Release one reference, consuming its token, as a real backend does
    /// when a handle is dropped.
    pub fn close(&mut self, _token: ResourceToken)
        requires
            old(self).live_references() > 0,
        ensures
            final(self).live_references() == old(self).live_references() - 1,
    {
        self.live = self.live - 1;
    }

    /// Report how many references are currently live.
    pub fn live_count(&self) -> (count: usize)
        ensures
            count == self.live_references(),
    {
        self.live
    }
}

/// The live count after `opens` further references are opened (or cloned),
/// one at a time, starting from `live`.
pub open spec fn after_opens(live: nat, opens: nat) -> nat
    decreases opens,
{
    if opens == 0 {
        live
    } else {
        after_opens(live, (opens - 1) as nat) + 1
    }
}

/// The live count after `closes` references are released, one at a time,
/// starting from `live`. Defined only where enough references are live.
pub open spec fn after_closes(live: nat, closes: nat) -> nat
    recommends
        closes <= live,
    decreases closes,
{
    if closes == 0 {
        live
    } else {
        after_closes((live - 1) as nat, (closes - 1) as nat)
    }
}

proof fn lemma_after_opens_adds(live: nat, opens: nat)
    ensures
        after_opens(live, opens) == live + opens,
    decreases opens,
{
    if opens > 0 {
        lemma_after_opens_adds(live, (opens - 1) as nat);
    }
}

proof fn lemma_after_closes_subtracts(live: nat, closes: nat)
    requires
        closes <= live,
    ensures
        after_closes(live, closes) == live - closes,
    decreases closes,
{
    if closes > 0 {
        lemma_after_closes_subtracts((live - 1) as nat, (closes - 1) as nat);
    }
}

/// Balanced lifecycles leak nothing: however many references are opened or
/// cloned, releasing the same number returns the service's live count to
/// exactly where it began.
pub proof fn lemma_balanced_lifecycle(live: nat, n: nat)
    ensures
        after_closes(after_opens(live, n), n) == live,
{
    lemma_after_opens_adds(live, n);
    lemma_after_closes_subtracts(live + n, n);
}

} // verus!
