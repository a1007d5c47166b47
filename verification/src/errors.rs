use vstd::prelude::*;

verus! {

/// Why a request was rejected. Every rejection is terminal for that single
/// invocation and leaves the registry untouched.
#[derive(Clone, Copy, Debug, PartialEq, Eq, Structural)]
pub enum Error {
    /// The caller was not an authenticated identity. Authentication happens
    /// before the registry is entered, so the registry itself never raises
    /// this; the host reports it on the registry's behalf.
    BadOrigin,
    /// Incrementing the jury-call counter would overflow its integer range.
    JuryCallCntOverflow,
    /// Two of the proposed tribe names are byte-for-byte identical.
    DuplicateTribes,
    /// The number of selections must be greater than zero.
    ZeroSelections,
    /// The start time must lie strictly in the future.
    StartAfterInThePast,
}

} // verus!
