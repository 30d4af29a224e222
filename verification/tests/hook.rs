use vmt_hook::{HookError, HookedObject, VTableHook};

const TABLE_BASE: usize = 0x4000;

fn sample_table() -> Vec<usize> {
    vec![0x1000, 0x2000, 0x3000, 0]
}

#[test]
fn install_copies_table_pointwise() {
    let table: Vec<usize> = vec![0xA, 0xB, 0xC, 0xD];
    let obj = HookedObject::new(TABLE_BASE);
    let hook = VTableHook::with_count(obj, &table, 4).unwrap();
    assert_eq!(hook.method_count(), 4);
    for i in 0..4 {
        assert_eq!(hook.get_original_method(i), table[i]);
        assert_eq!(hook.get_replaced_method(i), hook.get_original_method(i));
    }
}

#[test]
fn replace_changes_one_slot_only() {
    let table = sample_table();
    let obj = HookedObject::new(TABLE_BASE);
    let mut hook = VTableHook::with_count(obj, &table, 3).unwrap();
    assert_eq!(hook.replace_method(1, 0x9999), Ok(()));
    assert_eq!(hook.get_replaced_method(1), 0x9999);
    assert_eq!(hook.get_replaced_method(0), 0x1000);
    assert_eq!(hook.get_replaced_method(2), 0x3000);
    assert_eq!(hook.get_original_method(1), 0x2000);
}

#[test]
fn restore_undoes_replace() {
    let table = sample_table();
    let obj = HookedObject::new(TABLE_BASE);
    let mut hook = VTableHook::with_count(obj, &table, 3).unwrap();
    assert_eq!(hook.replace_method(1, 0x9999), Ok(()));
    assert_eq!(hook.restore_method(1), Ok(()));
    assert_eq!(hook.get_replaced_method(1), hook.get_original_method(1));
}

#[test]
fn restore_all_undoes_arbitrary_mutations() {
    let table = sample_table();
    let obj = HookedObject::new(TABLE_BASE);
    let mut hook = VTableHook::with_count(obj, &table, 3).unwrap();
    assert_eq!(hook.replace_method(0, 0x7777), Ok(()));
    assert_eq!(hook.replace_method(2, 0x8888), Ok(()));
    assert_eq!(hook.replace_method(2, 0x9999), Ok(()));
    hook.restore_all_methods();
    for i in 0..3 {
        assert_eq!(hook.get_replaced_method(i), hook.get_original_method(i));
    }
}

#[test]
fn teardown_restores_leading_pointer() {
    let table = sample_table();
    let obj = HookedObject::new(TABLE_BASE);
    let mut hook = VTableHook::with_count(obj, &table, 3).unwrap();
    assert_eq!(hook.replace_method(0, 0x5555), Ok(()));
    assert_eq!(hook.replace_method(1, 0x6666), Ok(()));
    let released = hook.teardown();
    assert_eq!(released.lead_ptr(), TABLE_BASE);
}

#[test]
fn detect_counts_entries_up_to_sentinel() {
    let table = sample_table();
    assert_eq!(VTableHook::detect_vtable_methods_count(&table), Some(3));
}

#[test]
fn detect_on_leading_sentinel_is_zero() {
    let table: Vec<usize> = vec![0, 0x1000];
    assert_eq!(VTableHook::detect_vtable_methods_count(&table), Some(0));
}

#[test]
fn detect_without_sentinel_is_refused() {
    let table: Vec<usize> = vec![0x1000, 0x2000];
    assert_eq!(VTableHook::detect_vtable_methods_count(&table), None);
    assert_eq!(VTableHook::detect_vtable_methods_count(&[]), None);
    let obj = HookedObject::new(TABLE_BASE);
    match VTableHook::new(obj, &table) {
        Ok(_) => panic!("a table without a sentinel must be refused"),
        Err(err) => assert_eq!(err, HookError::SentinelNotFound),
    }
}

#[test]
fn count_past_region_is_refused() {
    let table = sample_table();
    let obj = HookedObject::new(TABLE_BASE);
    match VTableHook::with_count(obj, &table, 5) {
        Ok(_) => panic!("a count past the supplied region must be refused"),
        Err(err) => assert_eq!(err, HookError::CountExceedsRegion),
    }
}

#[test]
fn mutators_refuse_index_at_count_boundary() {
    let table = sample_table();
    let obj = HookedObject::new(TABLE_BASE);
    let mut hook = VTableHook::with_count(obj, &table, 3).unwrap();
    assert_eq!(hook.replace_method(3, 0x9999), Err(HookError::IndexOutOfRange));
    assert_eq!(hook.restore_method(3), Err(HookError::IndexOutOfRange));
    assert_eq!(hook.replace_method(2, 0x9999), Ok(()));
    assert_eq!(hook.restore_method(2), Ok(()));
    assert_eq!(hook.get_replaced_method(2), 0x3000);
}

#[test]
fn install_redirects_leading_pointer_to_shadow() {
    let table = sample_table();
    let obj = HookedObject::new(TABLE_BASE);
    let hook = VTableHook::new(obj, &table).unwrap();
    // The shadow table lives in a real heap buffer, so the pointer the object
    // now dispatches through is never null.
    assert_ne!(hook.object().lead_ptr(), 0);
}

#[test]
fn empty_table_round_trip() {
    let table: Vec<usize> = Vec::new();
    let obj = HookedObject::new(TABLE_BASE);
    let mut hook = VTableHook::with_count(obj, &table, 0).unwrap();
    assert_eq!(hook.method_count(), 0);
    hook.restore_all_methods();
    let released = hook.teardown();
    assert_eq!(released.lead_ptr(), TABLE_BASE);
}

#[test]
fn end_to_end_scenario() {
    let table = sample_table();
    let obj = HookedObject::new(TABLE_BASE);
    let hook = VTableHook::new(obj, &table);
    let mut hook = hook.unwrap();
    assert_eq!(hook.method_count(), 3);
    assert_eq!(hook.replace_method(1, 0x9999), Ok(()));
    assert_eq!(hook.get_replaced_method(1), 0x9999);
    assert_eq!(hook.get_original_method(1), 0x2000);
    assert_eq!(hook.restore_method(1), Ok(()));
    assert_eq!(hook.get_replaced_method(1), 0x2000);
    let released = hook.teardown();
    assert_eq!(released.lead_ptr(), TABLE_BASE);
}
