use record_browser::numeral::i64_to_decimal;
use record_browser::record::{
    coerce_value, column_type_of_tag, map_row, map_rows, Column, ColumnType, RawValue,
};

fn col(name: &str, ctype: ColumnType) -> Column {
    Column { name: name.to_string(), ctype }
}

#[test]
fn decimal_rendering_is_exact_base_ten() {
    assert_eq!(i64_to_decimal(0), "0");
    assert_eq!(i64_to_decimal(7), "7");
    assert_eq!(i64_to_decimal(-42), "-42");
    assert_eq!(i64_to_decimal(100), "100");
    assert_eq!(i64_to_decimal(987654321), "987654321");
    assert_eq!(i64_to_decimal(i64::MAX), "9223372036854775807");
    assert_eq!(i64_to_decimal(i64::MIN), "-9223372036854775808");
}

#[test]
fn integer_tag_is_recognized_and_everything_else_falls_back_to_text() {
    assert_eq!(column_type_of_tag("int4"), ColumnType::Integer);
    assert_eq!(column_type_of_tag("text"), ColumnType::Text);
    assert_eq!(column_type_of_tag("varchar"), ColumnType::Text);
    assert_eq!(column_type_of_tag("bool"), ColumnType::Text);
    assert_eq!(column_type_of_tag("jsonb"), ColumnType::Text);
    assert_eq!(column_type_of_tag(""), ColumnType::Text);
}

#[test]
fn coercion_renders_integers_text_and_null() {
    assert_eq!(coerce_value(ColumnType::Integer, &RawValue::Int(-42)), "-42");
    assert_eq!(coerce_value(ColumnType::Text, &RawValue::Int(5)), "5");
    assert_eq!(
        coerce_value(ColumnType::Text, &RawValue::Str("Ann".to_string())),
        "Ann"
    );
    assert_eq!(
        coerce_value(ColumnType::Integer, &RawValue::Str("oops".to_string())),
        "oops"
    );
    assert_eq!(coerce_value(ColumnType::Integer, &RawValue::Null), "");
    assert_eq!(coerce_value(ColumnType::Text, &RawValue::Null), "");
}

#[test]
fn map_row_pairs_names_with_coerced_values_in_column_order() {
    let cols = vec![col("id", ColumnType::Integer), col("name", ColumnType::Text)];
    let cells = vec![RawValue::Int(1), RawValue::Str("Ann".to_string())];
    let rec = map_row(&cols, &cells);
    assert_eq!(rec.fields.len(), 2);
    assert_eq!(rec.fields[0], ("id".to_string(), "1".to_string()));
    assert_eq!(rec.fields[1], ("name".to_string(), "Ann".to_string()));
}

#[test]
fn map_rows_keeps_source_length_and_order() {
    let cols = vec![col("id", ColumnType::Integer), col("name", ColumnType::Text)];
    let rows = vec![
        vec![RawValue::Int(2), RawValue::Str("Bo".to_string())],
        vec![RawValue::Int(1), RawValue::Str("Ann".to_string())],
        vec![RawValue::Null, RawValue::Null],
    ];
    let store = map_rows(&cols, &rows);
    assert_eq!(store.len(), 3);
    assert_eq!(store.get(0).fields[1].1, "Bo");
    assert_eq!(store.get(1).fields[1].1, "Ann");
    assert_eq!(store.get(2).fields[0].1, "");
    assert_eq!(store.get(2).fields[1].1, "");
}
