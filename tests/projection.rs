use msgraph_fdw::{project, Cell, ColumnRequest, ColumnType, FdwError, JsonValue};

fn text(s: &str) -> JsonValue {
    JsonValue::Str(s.to_string())
}

fn object(fields: Vec<(&str, JsonValue)>) -> JsonValue {
    JsonValue::Object(fields.into_iter().map(|(k, v)| (k.to_string(), v)).collect())
}

fn col(name: &str, t: ColumnType) -> ColumnRequest {
    ColumnRequest { name: name.to_string(), declared_type: t }
}

#[test]
fn string_columns_map_in_order() {
    let record = object(vec![("id", text("u1")), ("mail", text("a@b.com"))]);
    let cols = vec![col("id", ColumnType::String), col("mail", ColumnType::String)];
    let row = project(&record, &cols).unwrap();
    assert_eq!(
        row,
        vec![Some(Cell::String("u1".to_string())), Some(Cell::String("a@b.com".to_string()))]
    );
    let cols = vec![col("mail", ColumnType::String), col("id", ColumnType::String)];
    let row = project(&record, &cols).unwrap();
    assert_eq!(
        row,
        vec![Some(Cell::String("a@b.com".to_string())), Some(Cell::String("u1".to_string()))]
    );
}

#[test]
fn absent_column_is_missing_field() {
    let record = object(vec![("id", text("u1")), ("mail", text("a@b.com"))]);
    let cols = vec![col("id", ColumnType::String), col("missing", ColumnType::String)];
    assert_eq!(project(&record, &cols), Err(FdwError::MissingField("missing".to_string())));
}

#[test]
fn non_object_record_has_no_fields() {
    let cols = vec![col("id", ColumnType::String)];
    assert_eq!(project(&text("u1"), &cols), Err(FdwError::MissingField("id".to_string())));
}

#[test]
fn timestamp_from_number_is_null() {
    let record = object(vec![("created", JsonValue::Number("42".to_string()))]);
    let cols = vec![col("created", ColumnType::Timestamp)];
    assert_eq!(project(&record, &cols), Ok(vec![None]));
}

#[test]
fn timestamp_from_text_keeps_text() {
    let record = object(vec![("created", text("2024-01-02T03:04:05Z"))]);
    let cols = vec![col("created", ColumnType::Timestamp)];
    assert_eq!(
        project(&record, &cols),
        Ok(vec![Some(Cell::Timestamp("2024-01-02T03:04:05Z".to_string()))])
    );
}

#[test]
fn unsupported_type_fails() {
    let record = object(vec![("id", text("u1"))]);
    let cols = vec![col("id", ColumnType::Unsupported)];
    assert_eq!(project(&record, &cols), Err(FdwError::UnsupportedType("id".to_string())));
}

#[test]
fn missing_field_reported_before_later_unsupported() {
    let record = object(vec![("id", text("u1"))]);
    let cols = vec![col("nope", ColumnType::String), col("id", ColumnType::Unsupported)];
    assert_eq!(project(&record, &cols), Err(FdwError::MissingField("nope".to_string())));
}

#[test]
fn bool_and_json_columns() {
    let nested = object(vec![("city", text("Oslo")), ("zip", JsonValue::Null)]);
    let record = object(vec![
        ("enabled", JsonValue::Bool(true)),
        ("address", nested),
        ("tags", JsonValue::Array(vec![text("a")])),
        ("name", text("x")),
    ]);
    let cols = vec![
        col("enabled", ColumnType::Bool),
        col("address", ColumnType::Json),
        col("tags", ColumnType::Json),
        col("name", ColumnType::Bool),
    ];
    let expected_nested = object(vec![("city", text("Oslo")), ("zip", JsonValue::Null)]);
    assert_eq!(
        project(&record, &cols),
        Ok(vec![Some(Cell::Bool(true)), Some(Cell::Json(expected_nested)), None, None])
    );
}

#[test]
fn first_member_of_a_name_wins() {
    let record = object(vec![("id", text("first")), ("id", text("second"))]);
    let cols = vec![col("id", ColumnType::String)];
    assert_eq!(project(&record, &cols), Ok(vec![Some(Cell::String("first".to_string()))]));
}

#[test]
fn no_columns_gives_empty_row() {
    let record = object(vec![]);
    assert_eq!(project(&record, &vec![]), Ok(vec![]));
}

#[test]
fn copy_value_is_equal() {
    let v = object(vec![
        ("a", JsonValue::Array(vec![JsonValue::Number("1.5".to_string()), JsonValue::Null])),
        ("b", object(vec![("c", JsonValue::Bool(false))])),
    ]);
    assert_eq!(v.copy_value(), v);
}
