use vstd::prelude::*;

use crate::errors::Error;
use crate::types::record_from_request;
use crate::types::JuryCall;
use crate::types::JuryCallID;
use crate::types::Selections;
use crate::types::Tribe;
use crate::validate::spec_validate;
use crate::validate::validate;

verus! {

/// The registry's persistent state: the identifier counter and the records
/// keyed by identifier. The host initializes it once, at genesis, and must
/// serialize all commits against it; the records of the first
/// `next_id_counter` successful calls sit in `calls`, the record with
/// identifier `id` at position `id - 1`.
pub struct Registry<A> {
    pub next_id_counter: JuryCallID,
    pub calls: Vec<JuryCall<A>>,
}

impl<A> Registry<A> {
    /// The counter counts exactly the records stored so far.
    pub open spec fn wf(&self) -> bool {
        self.calls@.len() == self.next_id_counter
    }

    /// The stored records as a mapping from identifier to record: the
    /// identifiers handed out so far are exactly `1 ..= next_id_counter`.
    pub open spec fn calls_by_id(&self) -> Map<JuryCallID, JuryCall<A>> {
        Map::new(
            |id: JuryCallID| 1 <= id && id <= self.next_id_counter,
            |id: JuryCallID| self.calls@[id - 1],
        )
    }

    /// The genesis state: no calls yet, counter at zero.
    pub fn new() -> (r: Registry<A>)
        ensures
            r.wf(),
            r.next_id_counter == 0,
            r.calls_by_id() == Map::<JuryCallID, JuryCall<A>>::empty(),
    {
        let r = Registry { next_id_counter: 0, calls: Vec::new() };
        proof {
            assert(r.calls_by_id() =~= Map::<JuryCallID, JuryCall<A>>::empty());
        }
        r
    }

    /// The current counter reading: the identifier of the most recently
    /// opened jury call, or zero if none was opened yet.
    pub fn jury_call_cnt(&self) -> (r: JuryCallID)
        ensures
            r == self.next_id_counter,
    {
        self.next_id_counter
    }

    /// Looks up a jury call by identifier.
    pub fn jury_call(&self, jury_call_id: JuryCallID) -> (r: Option<&JuryCall<A>>)
        requires
            self.wf(),
        ensures
            match r {
                Some(c) => self.calls_by_id().dom().contains(jury_call_id) && *c
                    == self.calls_by_id()[jury_call_id],
                None => !self.calls_by_id().dom().contains(jury_call_id),
            },
    {
        let stored = self.calls.len();
        if 1 <= jury_call_id && jury_call_id - 1 < stored as u64 {
            Some(&self.calls[(jury_call_id - 1) as usize])
        } else {
            None
        }
    }

    /// The single commit operation: validates the proposed request, and on
    /// success allocates the next identifier, builds the record — one fresh
    /// tribe per name, in the order supplied — and writes the counter and
    /// the record together. A rejected request leaves the registry exactly
    /// as it was and reports why.
    pub fn open_jury_call(
        &mut self,
        caller: A,
        tribe_names: Vec<Vec<u8>>,
        selections: Selections,
        start_after: u64,
        current_time: u64,
    ) -> (r: Result<JuryCallID, Error>)
        requires
            old(self).wf(),
        ensures
            final(self).wf(),
            match r {
                Ok(id) => opened_jury_call(
                    *old(self),
                    *final(self),
                    caller,
                    tribe_names.deep_view(),
                    selections,
                    start_after,
                    current_time,
                    id,
                ),
                Err(e) => *final(self) == *old(self) && rejected_with(
                    *old(self),
                    tribe_names.deep_view(),
                    selections,
                    start_after,
                    current_time,
                    e,
                ),
            },
    {
        let ghost names = tribe_names.deep_view();

        if let Err(e) = validate(&tribe_names, selections, start_after, current_time) {
            return Err(e);
        }

        let new_cnt = match next_jury_call_id(self.next_id_counter) {
            Ok(id) => id,
            Err(e) => {
                return Err(e);
            },
        };

        let mut tribes: Vec<Tribe<A>> = Vec::new();
        let mut k: usize = 0;
        while k < tribe_names.len()
            invariant
                k <= tribe_names.len(),
                names == tribe_names.deep_view(),
                tribes@.len() == k,
                forall|p: int|
                    0 <= p < k ==> crate::types::tribe_from_name(#[trigger] tribes@[p], names[p]),
            decreases tribe_names.len() - k,
        {
            let name = tribe_names[k].clone();
            proof {
                let proposed = tribe_names@[k as int];
                assert forall|b: int| 0 <= b < name@.len() implies name@[b] == proposed@[b] by {}
                assert(name@ =~= proposed@);
                assert(names[k as int] =~= proposed@);
            }
            let tribe = Tribe { name, candidate_count: 0, candidates: Vec::new() };
            tribes.push(tribe);
            k += 1;
        }

        let jury_call = JuryCall { tribes, selections, start_after, owner: caller };

        self.next_id_counter = new_cnt;
        self.calls.push(jury_call);

        proof {
            let pre = *old(self);
            assert(self.calls@.drop_last() =~= pre.calls@);
            assert(self.calls_by_id() =~= pre.calls_by_id().insert(new_cnt, self.calls@.last()));
        }
        Ok(new_cnt)
    }
}

/// The registry's state change on a successful commit: the identifier is
/// one past the counter's old reading, the counter moves to it, and exactly
/// one record is appended, stored under the new identifier, with every
/// earlier record untouched.
pub open spec fn committed<A>(pre: Registry<A>, post: Registry<A>, id: JuryCallID) -> bool {
    &&& id == pre.next_id_counter + 1
    &&& post.next_id_counter == id
    &&& post.calls@.len() == pre.calls@.len() + 1
    &&& post.calls@.drop_last() == pre.calls@
    &&& post.calls_by_id() == pre.calls_by_id().insert(id, post.calls@.last())
}

/// Everything a successful `open_jury_call` promises: the request passed
/// validation, the counter had room, the registry committed one new record,
/// and that record is the proposed request, owned by the caller.
pub open spec fn opened_jury_call<A>(
    pre: Registry<A>,
    post: Registry<A>,
    caller: A,
    names: Seq<Seq<u8>>,
    selections: Selections,
    start_after: u64,
    current_time: u64,
    id: JuryCallID,
) -> bool {
    &&& spec_validate(names, selections, start_after, current_time) == Ok::<(), Error>(())
    &&& pre.next_id_counter < JuryCallID::MAX
    &&& committed(pre, post, id)
    &&& record_from_request(post.calls@.last(), names, selections, start_after, caller)
}

/// The error a rejected `open_jury_call` must report: the first failing
/// validation check decides it; a request that validates is rejected only
/// when the identifier counter is exhausted.
pub open spec fn rejected_with<A>(
    pre: Registry<A>,
    names: Seq<Seq<u8>>,
    selections: Selections,
    start_after: u64,
    current_time: u64,
    e: Error,
) -> bool {
    match spec_validate(names, selections, start_after, current_time) {
        Err(ve) => e == ve,
        Ok(()) => pre.next_id_counter == JuryCallID::MAX && e == Error::JuryCallCntOverflow,
    }
}

/// The identifiers `1 ..= cnt` are `cnt` distinct keys.
proof fn lemma_id_range_len(cnt: JuryCallID)
    ensures
        Set::new(|id: JuryCallID| 1 <= id <= cnt).finite(),
        Set::new(|id: JuryCallID| 1 <= id <= cnt).len() == cnt,
    decreases cnt,
{
    if cnt == 0 {
        assert(Set::new(|id: JuryCallID| 1 <= id <= cnt) =~= Set::<JuryCallID>::empty());
    } else {
        let less: JuryCallID = (cnt - 1) as JuryCallID;
        lemma_id_range_len(less);
        assert(Set::new(|id: JuryCallID| 1 <= id <= cnt) =~= Set::new(
            |id: JuryCallID| 1 <= id <= less,
        ).insert(cnt));
    }
}

/// Counter monotonicity: across any chain of successful commits that starts
/// from the genesis state, the identifiers handed out are exactly
/// `1, 2, ..., N` in call order, the counter ends at `N`, and the final
/// registry stores records under exactly those `N` identifiers.
pub proof fn lemma_counter_monotonicity<A>(regs: Seq<Registry<A>>, ids: Seq<JuryCallID>)
    requires
        regs.len() == ids.len() + 1,
        regs[0].next_id_counter == 0,
        forall|k: int| 0 <= k < ids.len() ==> committed(regs[k], regs[k + 1], ids[k]),
    ensures
        forall|k: int| 0 <= k < ids.len() ==> ids[k] == k + 1,
        regs[ids.len() as int].next_id_counter == ids.len(),
        regs[ids.len() as int].calls_by_id().dom() =~= Set::new(
            |id: JuryCallID| 1 <= id <= ids.len(),
        ),
        regs[ids.len() as int].calls_by_id().dom().len() == ids.len(),
    decreases ids.len(),
{
    let n: int = ids.len() as int;
    if n > 0 {
        let front_regs = regs.subrange(0, n);
        let front_ids = ids.subrange(0, n - 1);
        assert forall|k: int| 0 <= k < front_ids.len() implies committed(
            front_regs[k],
            front_regs[k + 1],
            front_ids[k],
        ) by {
            assert(committed(regs[k], regs[k + 1], ids[k]));
        }
        lemma_counter_monotonicity(front_regs, front_ids);
        assert(regs[n - 1].next_id_counter == n - 1);
        assert(committed(regs[n - 1], regs[n], ids[n - 1]));
        assert forall|k: int| 0 <= k < n implies ids[k] == k + 1 by {
            if k < n - 1 {
                assert(front_ids[k] == k + 1);
            }
        }
    }
    assert(regs[n].calls_by_id().dom() =~= Set::new(|id: JuryCallID| 1 <= id <= ids.len()));
    let cnt: JuryCallID = regs[n].next_id_counter;
    lemma_id_range_len(cnt);
    assert(regs[n].calls_by_id().dom() =~= Set::new(|id: JuryCallID| 1 <= id <= cnt));
}

/// Allocates the identifier for the next jury call: one more than the
/// counter, unless the increment would overflow.
pub fn next_jury_call_id(cnt: JuryCallID) -> (r: Result<JuryCallID, Error>)
    ensures
        cnt < JuryCallID::MAX ==> r == Ok::<JuryCallID, Error>((cnt + 1) as JuryCallID),
        cnt == JuryCallID::MAX ==> r == Err::<JuryCallID, Error>(Error::JuryCallCntOverflow),
{
    match cnt.checked_add(1) {
        Some(id) => Ok(id),
        None => Err(Error::JuryCallCntOverflow),
    }
}

} // verus!
