use variable_services::{
    GetVariableStatus, ScriptedStore, ScriptedVariable, VariableIdentifier, VariableInfo,
    VariableNameIterator, VariableServices,
};

fn make_id(name: &[u16], namespace: u128) -> VariableIdentifier {
    VariableIdentifier { name: name.to_vec(), namespace }
}

fn make_var(name: &[u16], namespace: u128, data: &[u8], attributes: u32) -> ScriptedVariable {
    ScriptedVariable { id: make_id(name, namespace), data: data.to_vec(), attributes }
}

fn default_info() -> VariableInfo {
    VariableInfo {
        maximum_variable_storage_size: 65536,
        remaining_variable_storage_size: 32768,
        maximum_variable_size: 1024,
    }
}

fn dummy_first_name() -> Vec<u16> {
    // "Boot" in 16-bit code units
    vec![0x0042, 0x006F, 0x006F, 0x0074]
}

fn dummy_first_namespace() -> u128 {
    0x8BE4DF61_93CA_11D2_AA0D_00E098032B8C_u128
}

fn dummy_second_name() -> Vec<u16> {
    // "SetupMode" in 16-bit code units: longer than the first, so the
    // scratch buffer must grow between the two steps
    vec![0x0053, 0x0065, 0x0074, 0x0075, 0x0070, 0x004D, 0x006F, 0x0064, 0x0065]
}

fn dummy_second_namespace() -> u128 {
    0x04C19B9E_55CE_4C17_92E5_A02B6AF11A84_u128
}

fn two_variable_store() -> ScriptedStore {
    ScriptedStore::new(
        vec![
            make_var(&dummy_first_name(), dummy_first_namespace(), &[1, 2, 3, 4], 7),
            make_var(&dummy_second_name(), dummy_second_namespace(), &[5, 6], 3),
        ],
        default_info(),
    )
    .unwrap()
}

#[test]
fn test_variable_name_iterator_from_first() {
    let rs = two_variable_store();

    let mut iter = VariableNameIterator::new_from_first(&rs);

    // Make sure the first result corresponds to the first scripted name
    let mut status = iter.next();
    assert!(status.is_ok());
    assert!(status.unwrap().is_some());
    let mut variable_identifier = status.unwrap().unwrap();
    assert_eq!(variable_identifier.name, dummy_first_name());
    assert_eq!(variable_identifier.namespace, dummy_first_namespace());

    // Make sure the second result corresponds to the second scripted name
    status = iter.next();
    assert!(status.is_ok());
    assert!(status.unwrap().is_some());
    variable_identifier = status.unwrap().unwrap();
    assert_eq!(variable_identifier.name, dummy_second_name());
    assert_eq!(variable_identifier.namespace, dummy_second_namespace());

    // Make sure the third result indicates we've reached the end
    status = iter.next();
    assert!(status.is_ok());
    assert!(status.unwrap().is_none());
}

#[test]
fn test_variable_name_iterator_from_second() {
    let rs = two_variable_store();

    let mut iter =
        VariableNameIterator::new_from_variable(&dummy_first_name(), dummy_first_namespace(), &rs);

    // Make sure the first result corresponds to the second scripted name
    let mut status = iter.next();
    assert!(status.is_ok());
    assert!(status.unwrap().is_some());
    let variable_identifier = status.unwrap().unwrap();
    assert_eq!(variable_identifier.name, dummy_second_name());
    assert_eq!(variable_identifier.namespace, dummy_second_namespace());

    // Make sure the second result indicates we've reached the end
    status = iter.next();
    assert!(status.is_ok());
    assert!(status.unwrap().is_none());
}

#[test]
fn scenario_two_names_then_exhaustion() {
    let name_a: Vec<u16> = vec![0x0041];
    let namespace_a: u128 = 0xA1;
    let name_b: Vec<u16> = vec![0x0042, 0x0042];
    let namespace_b: u128 = 0xB2;
    let rs = ScriptedStore::new(
        vec![make_var(&name_a, namespace_a, &[], 0), make_var(&name_b, namespace_b, &[], 0)],
        default_info(),
    )
    .unwrap();

    // From the start anchor: NameA, then NameB, then end-of-sequence.
    let mut iter = VariableNameIterator::new_from_first(&rs);
    let first = iter.next().unwrap().unwrap();
    assert_eq!(first.name, name_a);
    assert_eq!(first.namespace, namespace_a);
    let second = iter.next().unwrap().unwrap();
    assert_eq!(second.name, name_b);
    assert_eq!(second.namespace, namespace_b);
    assert!(iter.next().unwrap().is_none());

    // Anchored at NameA: only NameB, then end-of-sequence.
    let mut iter = VariableNameIterator::new_from_variable(&name_a, namespace_a, &rs);
    let only = iter.next().unwrap().unwrap();
    assert_eq!(only.name, name_b);
    assert_eq!(only.namespace, namespace_b);
    assert!(iter.next().unwrap().is_none());
}

#[test]
fn advancing_an_exhausted_iterator_is_a_harmless_no_op() {
    let rs = two_variable_store();
    let mut iter = VariableNameIterator::new_from_first(&rs);
    while iter.next().unwrap().is_some() {}

    for _ in 0..5 {
        let status = iter.advance();
        assert!(status.is_ok());
        assert!(iter.get().is_none());
    }
    for _ in 0..5 {
        let status = iter.next();
        assert!(status.is_ok());
        assert!(status.unwrap().is_none());
    }
}

#[test]
fn get_before_any_advance_returns_nothing() {
    let rs = two_variable_store();
    let iter = VariableNameIterator::new_from_first(&rs);
    assert!(iter.get().is_none());
}

#[test]
fn enumeration_of_an_empty_store_ends_immediately() {
    let rs = ScriptedStore::new(vec![], default_info()).unwrap();
    let mut iter = VariableNameIterator::new_from_first(&rs);
    assert!(iter.next().unwrap().is_none());
    assert!(iter.next().unwrap().is_none());
}

#[test]
fn enumeration_anchored_at_the_last_variable_ends_immediately() {
    let rs = two_variable_store();
    let mut iter =
        VariableNameIterator::new_from_variable(&dummy_second_name(), dummy_second_namespace(), &rs);
    assert!(iter.next().unwrap().is_none());
}

#[test]
fn buffer_growth_is_hidden_across_shrinking_and_growing_names() {
    // Name lengths 5, 1, 7: every step either grows the scratch buffer or
    // reuses a larger one, and none of that is visible to the consumer.
    let long_a: Vec<u16> = vec![10, 11, 12, 13, 14];
    let short: Vec<u16> = vec![20];
    let long_b: Vec<u16> = vec![30, 31, 32, 33, 34, 35, 36];
    let rs = ScriptedStore::new(
        vec![
            make_var(&long_a, 1, &[], 0),
            make_var(&short, 2, &[], 0),
            make_var(&long_b, 3, &[], 0),
        ],
        default_info(),
    )
    .unwrap();

    let mut iter = VariableNameIterator::new_from_first(&rs);
    assert_eq!(iter.next().unwrap().unwrap().name, long_a);
    assert_eq!(iter.next().unwrap().unwrap().name, short);
    assert_eq!(iter.next().unwrap().unwrap().name, long_b);
    assert!(iter.next().unwrap().is_none());
}

#[test]
fn undersized_fetch_reports_the_exact_retry_size() {
    let rs = two_variable_store();

    // Probe with an empty buffer: the sizing report carries the exact size
    // and the attributes, without copying.
    let mut probe: Vec<u8> = Vec::new();
    let status = rs.get_variable(&dummy_first_name(), dummy_first_namespace(), &mut probe);
    assert_eq!(status, GetVariableStatus::BufferTooSmall { data_size: 4, attributes: 7 });
    assert!(probe.is_empty());

    // Retry with exactly the reported size: the fetch succeeds and reports
    // the same size, and the data is copied.
    let mut buffer: Vec<u8> = vec![0; 4];
    let status = rs.get_variable(&dummy_first_name(), dummy_first_namespace(), &mut buffer);
    assert_eq!(status, GetVariableStatus::Success { data_size: 4, attributes: 7 });
    assert_eq!(buffer, vec![1, 2, 3, 4]);
}

#[test]
fn fetch_into_a_larger_buffer_touches_only_the_data_prefix() {
    let rs = two_variable_store();
    let mut buffer: Vec<u8> = vec![0xFF; 6];
    let status = rs.get_variable(&dummy_second_name(), dummy_second_namespace(), &mut buffer);
    assert_eq!(status, GetVariableStatus::Success { data_size: 2, attributes: 3 });
    assert_eq!(buffer, vec![5, 6, 0xFF, 0xFF, 0xFF, 0xFF]);
}

#[test]
fn fetching_a_missing_variable_reports_not_found() {
    let rs = two_variable_store();
    let mut buffer: Vec<u8> = vec![0; 16];
    let missing: Vec<u16> = vec![0x004E, 0x006F];
    let status = rs.get_variable(&missing, dummy_first_namespace(), &mut buffer);
    assert_eq!(
        status,
        GetVariableStatus::Error(variable_services::ErrorStatus::NotFound)
    );

    // Same name, different namespace: still missing.
    let status = rs.get_variable(&dummy_first_name(), dummy_second_namespace(), &mut buffer);
    assert_eq!(
        status,
        GetVariableStatus::Error(variable_services::ErrorStatus::NotFound)
    );
}

#[test]
fn storage_info_is_reported_well_formed() {
    let rs = two_variable_store();
    let info = rs.query_variable_info(0x7).unwrap();
    assert_eq!(info, default_info());
    assert!(info.is_well_formed());
    assert!(info.remaining_variable_storage_size <= info.maximum_variable_storage_size);
    assert!(info.maximum_variable_size <= info.maximum_variable_storage_size);
}

#[test]
fn ill_formed_capacity_reports_are_detected() {
    let too_much_remaining = VariableInfo {
        maximum_variable_storage_size: 100,
        remaining_variable_storage_size: 101,
        maximum_variable_size: 10,
    };
    assert!(!too_much_remaining.is_well_formed());
    assert!(ScriptedStore::new(vec![], too_much_remaining).is_none());

    let oversized_single_variable = VariableInfo {
        maximum_variable_storage_size: 100,
        remaining_variable_storage_size: 50,
        maximum_variable_size: 101,
    };
    assert!(!oversized_single_variable.is_well_formed());
    assert!(ScriptedStore::new(vec![], oversized_single_variable).is_none());
}

#[test]
fn scripts_breaching_the_store_contract_are_rejected() {
    // A repeated (name, namespace) key.
    let duplicate = ScriptedStore::new(
        vec![
            make_var(&dummy_first_name(), dummy_first_namespace(), &[1], 0),
            make_var(&dummy_first_name(), dummy_first_namespace(), &[2], 0),
        ],
        default_info(),
    );
    assert!(duplicate.is_none());

    // The same name in two namespaces is two distinct variables.
    let shared_name = ScriptedStore::new(
        vec![
            make_var(&dummy_first_name(), dummy_first_namespace(), &[1], 0),
            make_var(&dummy_first_name(), dummy_second_namespace(), &[2], 0),
        ],
        default_info(),
    );
    assert!(shared_name.is_some());

    // The reserved start-of-enumeration name is never a stored name.
    let sentinel_name = ScriptedStore::new(
        vec![make_var(&[0], dummy_first_namespace(), &[1], 0)],
        default_info(),
    );
    assert!(sentinel_name.is_none());
}

#[test]
fn identifier_equality_is_exact_match_of_both_fields() {
    let a = make_id(&dummy_first_name(), dummy_first_namespace());
    let same = make_id(&dummy_first_name(), dummy_first_namespace());
    let other_namespace = make_id(&dummy_first_name(), dummy_second_namespace());
    let other_name = make_id(&dummy_second_name(), dummy_first_namespace());

    assert!(a.same_key(&same));
    assert!(!a.same_key(&other_namespace));
    assert!(!a.same_key(&other_name));

    assert!(variable_services::names_match(&a.name, &same.name));
    assert!(!variable_services::names_match(&a.name, &other_name.name));

    assert!(variable_services::name_is_sentinel(&vec![0]));
    assert!(!variable_services::name_is_sentinel(&vec![0, 0]));
    assert!(!variable_services::name_is_sentinel(&a.name));
}
