use pgx::trigger_support::{
    trigger_fired_after, trigger_fired_before, trigger_fired_by_delete, trigger_fired_by_insert,
    trigger_fired_by_truncate, trigger_fired_by_update, trigger_fired_for_row,
    trigger_fired_for_statement, trigger_fired_instead,
};

#[test]
fn insert_row_before() {
    let event = 0 | 4 | 8;
    assert!(trigger_fired_by_insert(event));
    assert!(!trigger_fired_by_delete(event));
    assert!(!trigger_fired_by_update(event));
    assert!(!trigger_fired_by_truncate(event));
    assert!(trigger_fired_for_row(event));
    assert!(!trigger_fired_for_statement(event));
    assert!(trigger_fired_before(event));
    assert!(!trigger_fired_after(event));
    assert!(!trigger_fired_instead(event));
}

#[test]
fn delete_statement_after() {
    let event = 1;
    assert!(trigger_fired_by_delete(event));
    assert!(!trigger_fired_by_insert(event));
    assert!(trigger_fired_for_statement(event));
    assert!(trigger_fired_after(event));
    assert!(!trigger_fired_before(event));
}

#[test]
fn update_and_truncate_instead() {
    assert!(trigger_fired_by_update(2 | 16));
    assert!(trigger_fired_instead(2 | 16));
    assert!(trigger_fired_by_truncate(3));
    assert!(!trigger_fired_by_update(3));
}

#[test]
fn high_bits_are_ignored() {
    let event = 0x100 | 2 | 4 | 8;
    assert!(trigger_fired_by_update(event));
    assert!(trigger_fired_for_row(event));
    assert!(trigger_fired_before(event));
}

#[test]
fn undefined_timing_matches_none() {
    let event = 24;
    assert!(!trigger_fired_before(event));
    assert!(!trigger_fired_after(event));
    assert!(!trigger_fired_instead(event));
}
