use vstd::prelude::*;

use crate::errors::Error;
use crate::types::Selections;

verus! {

/// Whether two distinct positions of the list hold byte-identical names.
pub open spec fn has_duplicate(names: Seq<Seq<u8>>) -> bool {
    exists|i: int, j: int| 0 <= i < j < names.len() && names[i] == names[j]
}

/// The validation rules, in the order they are checked: duplicate tribe
/// names first, then a zero selection count, then a start time that does not
/// lie strictly in the future. The first failing check decides the error.
pub open spec fn spec_validate(
    names: Seq<Seq<u8>>,
    selections: Selections,
    start_after: u64,
    current_time: u64,
) -> Result<(), Error> {
    if has_duplicate(names) {
        Err(Error::DuplicateTribes)
    } else if selections == 0 {
        Err(Error::ZeroSelections)
    } else if current_time >= start_after {
        Err(Error::StartAfterInThePast)
    } else {
        Ok(())
    }
}

/// A list has a duplicate exactly when it is not duplicate-free.
proof fn lemma_has_duplicate_not_no_duplicates(s: Seq<Seq<u8>>)
    ensures
        has_duplicate(s) <==> !s.no_duplicates(),
{
    if has_duplicate(s) {
        let (i, j) = choose|i: int, j: int| 0 <= i < j < s.len() && s[i] == s[j];
        assert(!s.no_duplicates());
    }
    if !s.no_duplicates() {
        let (i, j) = choose|i: int, j: int|
            0 <= i < s.len() && 0 <= j < s.len() && i != j && s[i] == s[j];
        if i < j {
            assert(has_duplicate(s));
        } else {
            assert(0 <= j < i < s.len() && s[j] == s[i]);
            assert(has_duplicate(s));
        }
    }
}

/// Duplicate detection is order-independent: two name lists that hold the
/// same names, each the same number of times, agree on whether a duplicate
/// exists. In particular, reordering the proposed tribe names cannot turn a
/// rejected request into an accepted one, or the other way round.
pub proof fn lemma_has_duplicate_order_independent(s: Seq<Seq<u8>>, t: Seq<Seq<u8>>)
    requires
        s.to_multiset() == t.to_multiset(),
    ensures
        has_duplicate(s) == has_duplicate(t),
{
    lemma_has_duplicate_not_no_duplicates(s);
    lemma_has_duplicate_not_no_duplicates(t);
    if !has_duplicate(s) {
        s.lemma_multiset_has_no_duplicates();
        t.lemma_multiset_has_no_duplicates_conv();
    }
    if !has_duplicate(t) {
        t.lemma_multiset_has_no_duplicates();
        s.lemma_multiset_has_no_duplicates_conv();
    }
}

/// Selections boundary: a request for zero selections never validates; with
/// duplicate-free names the reported reason is the zero selection count
/// itself (with a duplicate, the duplicate is reported first), and a request
/// for one selection validates whenever the names are duplicate-free and the
/// start time is strictly in the future.
pub proof fn lemma_selections_boundary(names: Seq<Seq<u8>>, start_after: u64, current_time: u64)
    ensures
        spec_validate(names, 0, start_after, current_time) is Err,
        !has_duplicate(names) ==> spec_validate(names, 0, start_after, current_time) == Err::<
            (),
            Error,
        >(Error::ZeroSelections),
        !has_duplicate(names) && current_time < start_after ==> spec_validate(
            names,
            1,
            start_after,
            current_time,
        ) == Ok::<(), Error>(()),
{
}

/// Time boundary: a start time equal to the current reading never validates;
/// when the other checks pass, the reported reason is the start time itself,
/// and moving the start time one second past the current reading makes the
/// request validate, all else equal.
pub proof fn lemma_time_boundary(names: Seq<Seq<u8>>, selections: Selections, now: u64)
    ensures
        spec_validate(names, selections, now, now) is Err,
        !has_duplicate(names) && selections > 0 ==> spec_validate(names, selections, now, now)
            == Err::<(), Error>(Error::StartAfterInThePast),
        !has_duplicate(names) && selections > 0 && now < u64::MAX ==> spec_validate(
            names,
            selections,
            (now + 1) as u64,
            now,
        ) == Ok::<(), Error>(()),
{
}

/// Returns true if the two names are the same byte string.
fn compare_tribes(a: &Vec<u8>, b: &Vec<u8>) -> (r: bool)
    ensures
        r == (a@ == b@),
{
    if a.len() != b.len() {
        return false;
    }
    let mut i: usize = 0;
    while i < a.len()
        invariant
            i <= a.len(),
            a@.len() == b@.len(),
            forall|k: int| 0 <= k < i ==> a@[k] == b@[k],
        decreases a@.len() - i,
    {
        if a[i] != b[i] {
            return false;
        }
        i += 1;
    }
    proof {
        assert(a@ =~= b@);
    }
    true
}

/// The deep view of a list of names indexes to the view of each name.
proof fn lemma_names_index(tribes: &Vec<Vec<u8>>, k: int)
    requires
        0 <= k < tribes@.len(),
    ensures
        tribes.deep_view()[k] == tribes@[k]@,
{
    assert(tribes.deep_view()[k] =~= tribes@[k]@);
}

/// Returns true if the list of tribe names contains a duplicate. Each name
/// is compared against every name before it, byte-for-byte.
pub fn check_duplicate_tribes(tribes: &Vec<Vec<u8>>) -> (r: bool)
    ensures
        r == has_duplicate(tribes.deep_view()),
{
    let ghost names = tribes.deep_view();
    let mut i: usize = 0;
    while i < tribes.len()
        invariant
            i <= tribes.len(),
            names == tribes.deep_view(),
            !(exists|p: int, q: int| 0 <= p < q < i && names[p] == names[q]),
        decreases tribes.len() - i,
    {
        let mut j: usize = 0;
        while j < i
            invariant
                j <= i,
                i < tribes.len(),
                names == tribes.deep_view(),
                forall|q: int| 0 <= q < j ==> names[q] != names[i as int],
            decreases i - j,
        {
            let equal = compare_tribes(&tribes[i], &tribes[j]);
            proof {
                lemma_names_index(tribes, i as int);
                lemma_names_index(tribes, j as int);
            }
            if equal {
                return true;
            }
            j += 1;
        }
        i += 1;
    }
    false
}

/// Decides, without side effects, whether a proposed request may become a
/// jury call, returning the first applicable rejection reason otherwise.
pub fn validate(
    tribe_names: &Vec<Vec<u8>>,
    selections: Selections,
    start_after: u64,
    current_time: u64,
) -> (r: Result<(), Error>)
    ensures
        r == spec_validate(tribe_names.deep_view(), selections, start_after, current_time),
{
    if check_duplicate_tribes(tribe_names) {
        return Err(Error::DuplicateTribes);
    }
    if selections == 0 {
        return Err(Error::ZeroSelections);
    }
    if current_time >= start_after {
        return Err(Error::StartAfterInThePast);
    }
    Ok(())
}

} // verus!
