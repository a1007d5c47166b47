use vstd::prelude::*;

verus! {

/// Identifier of a jury call; also the type of the running counter that
/// allocates identifiers.
pub type JuryCallID = u64;

/// Number of members to draw once a jury call activates.
pub type Selections = u64;

/// Number of candidates registered to a tribe.
pub type Candidates = u64;

/// A named pool of candidates eligible for a draw. The name is an arbitrary
/// byte string, compared byte-for-byte; candidates are registered later, by
/// functionality outside the registry, so a freshly created tribe is empty.
/// The identity type `A` of a candidate or caller is chosen by the host.
pub struct Tribe<A> {
    pub name: Vec<u8>,
    pub candidate_count: Candidates,
    pub candidates: Vec<A>,
}

/// A scheduled sortition request, stored by the registry under its
/// identifier.
pub struct JuryCall<A> {
    pub tribes: Vec<Tribe<A>>,
    pub selections: Selections,
    pub start_after: u64,
    pub owner: A,
}

/// The notification emitted to the host's event sink after a successful
/// commit, carrying the new identifier and the caller that owns the record.
pub enum Event<A> {
    JuryCallOpened(JuryCallID, A),
}

/// A freshly created tribe for the given name: the name is kept verbatim,
/// no candidates are registered yet.
pub open spec fn tribe_from_name<A>(t: Tribe<A>, name: Seq<u8>) -> bool {
    &&& t.name@ == name
    &&& t.candidate_count == 0
    &&& t.candidates@ == Seq::<A>::empty()
}

/// The record that a successful request must produce: one fresh tribe per
/// proposed name, in the order supplied, with the selection count, start
/// time and owner copied verbatim.
pub open spec fn record_from_request<A>(
    c: JuryCall<A>,
    names: Seq<Seq<u8>>,
    selections: Selections,
    start_after: u64,
    owner: A,
) -> bool {
    &&& c.tribes@.len() == names.len()
    &&& forall|i: int| 0 <= i < names.len() ==> tribe_from_name(#[trigger] c.tribes@[i], names[i])
    &&& c.selections == selections
    &&& c.start_after == start_after
    &&& c.owner == owner
}

} // verus!
