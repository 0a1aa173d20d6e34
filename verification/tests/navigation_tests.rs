use record_browser::cursor::Cursor;
use record_browser::record::{map_rows, Column, ColumnType, RawValue, RecordStore};

fn two_record_store() -> RecordStore {
    let cols = vec![
        Column { name: "id".to_string(), ctype: ColumnType::Integer },
        Column { name: "name".to_string(), ctype: ColumnType::Text },
    ];
    let rows = vec![
        vec![RawValue::Int(1), RawValue::Str("Ann".to_string())],
        vec![RawValue::Int(2), RawValue::Str("Bo".to_string())],
    ];
    map_rows(&cols, &rows)
}

fn current_name(cursor: &Cursor, store: &RecordStore) -> Option<String> {
    cursor.current(store).map(|rec| rec.fields[1].1.clone())
}

#[test]
fn step_previous_at_position_zero_is_a_no_op() {
    let store = two_record_store();
    let mut cursor = Cursor::new();
    assert_eq!(current_name(&cursor, &store), Some("Ann".to_string()));
    cursor.step_previous();
    assert_eq!(current_name(&cursor, &store), Some("Ann".to_string()));
    cursor.step_previous();
    assert_eq!(current_name(&cursor, &store), Some("Ann".to_string()));
}

#[test]
fn step_next_at_the_last_position_is_a_no_op() {
    let store = two_record_store();
    let mut cursor = Cursor::new();
    cursor.step_next(&store);
    assert_eq!(current_name(&cursor, &store), Some("Bo".to_string()));
    cursor.step_next(&store);
    assert_eq!(current_name(&cursor, &store), Some("Bo".to_string()));
    cursor.step_next(&store);
    assert_eq!(current_name(&cursor, &store), Some("Bo".to_string()));
}

#[test]
fn navigation_walks_forward_and_back() {
    let store = two_record_store();
    let mut cursor = Cursor::new();
    cursor.step_next(&store);
    cursor.step_previous();
    assert_eq!(current_name(&cursor, &store), Some("Ann".to_string()));
}

#[test]
fn empty_store_reports_no_current_record_regardless_of_steps() {
    let store = RecordStore::new();
    let mut cursor = Cursor::new();
    assert!(cursor.current(&store).is_none());
    cursor.step_previous();
    cursor.step_next(&store);
    cursor.step_next(&store);
    cursor.step_previous();
    assert!(cursor.is_valid_for(&store));
    assert!(cursor.current(&store).is_none());
}
