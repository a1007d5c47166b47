use kleroterion::errors::Error;
use kleroterion::registry::next_jury_call_id;
use kleroterion::registry::Registry;
use kleroterion::validate::validate;

const FUTURE: u64 = 1893452400;
const NOW: u64 = 1632873600;

#[test]
fn selections_boundary() {
    let mut registry: Registry<u64> = Registry::new();

    let rejected = registry.open_jury_call(1, vec![b"Tribe1".to_vec()], 0, FUTURE, NOW);
    assert_eq!(rejected, Err(Error::ZeroSelections));

    let accepted = registry.open_jury_call(1, vec![b"Tribe1".to_vec()], 1, FUTURE, NOW);
    assert_eq!(accepted, Ok(1));
}

#[test]
fn time_boundary() {
    let mut registry: Registry<u64> = Registry::new();

    let rejected = registry.open_jury_call(1, vec![b"Tribe1".to_vec()], 1, NOW, NOW);
    assert_eq!(rejected, Err(Error::StartAfterInThePast));

    let accepted = registry.open_jury_call(1, vec![b"Tribe1".to_vec()], 1, NOW + 1, NOW);
    assert_eq!(accepted, Ok(1));
}

#[test]
fn duplicate_names_rejected_in_any_position() {
    let mut registry: Registry<u64> = Registry::new();

    let adjacent = vec![b"Tribe1".to_vec(), b"Tribe1".to_vec(), b"Tribe2".to_vec()];
    assert_eq!(
        registry.open_jury_call(1, adjacent, 1, FUTURE, NOW),
        Err(Error::DuplicateTribes)
    );

    let separated = vec![b"Tribe1".to_vec(), b"Tribe2".to_vec(), b"Tribe1".to_vec()];
    assert_eq!(
        registry.open_jury_call(1, separated, 1, FUTURE, NOW),
        Err(Error::DuplicateTribes)
    );
}

#[test]
fn validation_checks_duplicates_first() {
    // Every check fails at once; the duplicate check is reported because it
    // is evaluated first.
    let names = vec![b"Tribe1".to_vec(), b"Tribe1".to_vec()];
    assert_eq!(validate(&names, 0, NOW, NOW), Err(Error::DuplicateTribes));

    // With distinct names, the zero-selection check is reported before the
    // time check.
    let names = vec![b"Tribe1".to_vec(), b"Tribe2".to_vec()];
    assert_eq!(validate(&names, 0, NOW, NOW), Err(Error::ZeroSelections));

    let names = vec![b"Tribe1".to_vec()];
    assert_eq!(validate(&names, 1, FUTURE, NOW), Ok(()));
}

#[test]
fn rejection_changes_nothing() {
    let mut registry: Registry<u64> = Registry::new();
    assert_eq!(
        registry.open_jury_call(1, vec![b"Tribe1".to_vec()], 1, FUTURE, NOW),
        Ok(1)
    );

    // One rejection of every validation kind, against a non-empty registry.
    let duplicate = vec![b"Tribe2".to_vec(), b"Tribe2".to_vec()];
    assert!(registry.open_jury_call(2, duplicate, 1, FUTURE, NOW).is_err());
    assert!(registry
        .open_jury_call(2, vec![b"Tribe2".to_vec()], 0, FUTURE, NOW)
        .is_err());
    assert!(registry
        .open_jury_call(2, vec![b"Tribe2".to_vec()], 1, NOW, NOW)
        .is_err());

    // The counter and the stored record read exactly as before.
    assert_eq!(registry.jury_call_cnt(), 1);
    assert!(registry.jury_call(2).is_none());
    let record = registry.jury_call(1).unwrap();
    assert_eq!(record.owner, 1);
    assert_eq!(record.tribes.len(), 1);
    assert_eq!(record.tribes[0].name, b"Tribe1".to_vec());
}

#[test]
fn record_fidelity() {
    let mut registry: Registry<u64> = Registry::new();
    let tribe_names = vec![b"Tribe1".to_vec(), b"Tribe2".to_vec()];

    assert_eq!(registry.open_jury_call(1, tribe_names, 1, FUTURE, NOW), Ok(1));

    let record = registry.jury_call(1).unwrap();
    assert_eq!(record.tribes.len(), 2);
    assert_eq!(record.tribes[0].name, b"Tribe1".to_vec());
    assert_eq!(record.tribes[1].name, b"Tribe2".to_vec());
    assert_eq!(record.tribes[0].candidate_count, 0);
    assert_eq!(record.tribes[1].candidate_count, 0);
    assert!(record.tribes[0].candidates.is_empty());
    assert!(record.tribes[1].candidates.is_empty());
    assert_eq!(record.selections, 1);
    assert_eq!(record.start_after, FUTURE);
    assert_eq!(record.owner, 1);
}

#[test]
fn end_to_end_two_calls() {
    let mut registry: Registry<u64> = Registry::new();
    let caller: u64 = 42;

    let first = registry.open_jury_call(caller, vec![b"Tribe1".to_vec()], 1, FUTURE, NOW);
    let second = registry.open_jury_call(caller, vec![b"Tribe1".to_vec()], 1, FUTURE, NOW);

    assert_eq!(first, Ok(1));
    assert_eq!(second, Ok(2));
    assert_eq!(registry.jury_call_cnt(), 2);
    assert_eq!(registry.jury_call(1).unwrap().owner, caller);
    assert_eq!(registry.jury_call(2).unwrap().owner, caller);
    assert!(registry.jury_call(3).is_none());
}

#[test]
fn identifier_allocation_overflow() {
    assert_eq!(next_jury_call_id(0), Ok(1));
    assert_eq!(next_jury_call_id(41), Ok(42));
    assert_eq!(
        next_jury_call_id(u64::MAX),
        Err(Error::JuryCallCntOverflow)
    );
}

#[test]
fn lookup_misses() {
    let registry: Registry<u64> = Registry::new();
    assert!(registry.jury_call(0).is_none());
    assert!(registry.jury_call(1).is_none());
    assert_eq!(registry.jury_call_cnt(), 0);
}

#[test]
fn empty_tribe_list_is_accepted() {
    // The validator checks for duplicates only; a request with no tribes at
    // all passes validation and is stored with an empty pool list.
    let mut registry: Registry<u64> = Registry::new();
    let no_names: Vec<Vec<u8>> = vec![];
    assert_eq!(registry.open_jury_call(1, no_names, 1, FUTURE, NOW), Ok(1));
    assert!(registry.jury_call(1).unwrap().tribes.is_empty());
}
