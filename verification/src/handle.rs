//! Tagged state of one native handle: either the reserved sentinel ("not yet
//! created / already destroyed") or a live, nonzero raw value.

use vstd::prelude::*;

verus! {

/// The state of one native handle.  Every handle namespace involved here
/// (compositor handles, context-API handles, GPU-context handles) reserves
/// zero as its "no value" constant, so a live handle is always nonzero.
#[derive(Clone, Copy, PartialEq, Eq, Structural, Debug)]
pub enum Handle {
    /// Not yet created, or already destroyed.
    Sentinel,
    /// A valid handle returned by a successful native call.
    Live(u64),
}

impl Handle {
    /// A well-formed handle is never `Live(0)`: zero is the sentinel of
    /// every native handle namespace modelled here.
    pub open spec fn wf(self) -> bool {
        self is Live ==> self->0 != 0
    }

    /// The raw value a live handle carries; the sentinel maps back to the
    /// native "no value" constant, zero.
    pub open spec fn spec_raw(self) -> u64 {
        match self {
            Handle::Sentinel => 0,
            Handle::Live(h) => h,
        }
    }

    /// Tags a raw native result: zero is the sentinel, anything else is
    /// live.
    pub fn from_raw(raw: u64) -> (r: Handle)
        ensures
            r.wf(),
            raw == 0 ==> r is Sentinel,
            raw != 0 ==> r == Handle::Live(raw),
            r.spec_raw() == raw,
    {
        if raw == 0 {
            Handle::Sentinel
        } else {
            Handle::Live(raw)
        }
    }

    /// The raw native value this state stands for.
    pub fn raw(&self) -> (r: u64)
        ensures
            r == self.spec_raw(),
    {
        match *self {
            Handle::Sentinel => 0,
            Handle::Live(h) => h,
        }
    }

    /// Whether the handle is live.
    pub fn is_live(&self) -> (r: bool)
        ensures
            r == (*self is Live),
    {
        match *self {
            Handle::Sentinel => false,
            Handle::Live(_) => true,
        }
    }
}

} // verus!
