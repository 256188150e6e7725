use influxdb_client::{
    ConfigurationError, Literal, Member, MemberValue, Role, Schema, Timestamp, Value,
};

fn text(s: &str) -> Option<Literal> {
    Some(Literal::Text(s.to_string()))
}

fn member(ident: &str, role: Role, timestamp_typed: bool) -> Member {
    Member { ident: ident.to_string(), role, timestamp_typed }
}

/// The record type of the original derive tests: two renamed tags, a renamed
/// float field, a string field under its own name, a timestamp, and an
/// unmarked member.
fn test_schema(with_unmarked: bool) -> Schema {
    let mut members = vec![
        member("ticker", Role::Tag(text("notTicker")), false),
        member("ticker2", Role::Tag(text("notTicker2")), false),
        member("price", Role::Field(text("notPrice")), false),
        member("price2", Role::Field(None), false),
        member("data", Role::Timestamp, true),
    ];
    if with_unmarked {
        members.push(member("temp", Role::Unmarked, false));
    }
    Schema::register(text("test"), &members).unwrap()
}

fn test_row(price: String, with_unmarked: bool) -> Vec<MemberValue> {
    let mut row = vec![
        MemberValue::Value(Value::Str("GME".to_string())),
        MemberValue::Value(Value::Str("!GME".to_string())),
        MemberValue::Value(Value::Float(price)),
        MemberValue::Value(Value::Str("Hello world".to_string())),
        MemberValue::Time(Timestamp::Str("321321321".to_string())),
    ];
    if with_unmarked {
        row.push(MemberValue::Other);
    }
    row
}

#[test]
fn test_derive_serialize() {
    let schema = test_schema(true);
    let result = schema.serialize(&test_row(0.32_f64.to_string(), true)).unwrap();

    assert_eq!(
        "test,notTicker=GME,notTicker2=!GME notPrice=0.32,price2=\"Hello world\"".to_string(),
        result
    );
}

#[test]
fn test_derive_serialize_with_timestamp() {
    let schema = test_schema(false);
    let data = test_row(0.32_f64.to_string(), false);

    let result = schema.serialize_with_timestamp(&data, None).unwrap();
    assert_eq!(
        "test,notTicker=GME,notTicker2=!GME notPrice=0.32,price2=\"Hello world\" 321321321"
            .to_string(),
        result
    );

    let result_2 = schema.serialize_with_timestamp(&data, Some(Timestamp::from(420))).unwrap();
    assert_eq!(
        "test,notTicker=GME,notTicker2=!GME notPrice=0.32,price2=\"Hello world\" 420".to_string(),
        result_2
    );
}

#[test]
fn test_derive_write() {
    let schema = test_schema(false);
    let result = schema.serialize(&test_row(0.32_f32.to_string(), false)).unwrap();
    assert_eq!(
        "test,notTicker=GME,notTicker2=!GME notPrice=0.32,price2=\"Hello world\"".to_string(),
        result
    );
}

#[test]
fn record_without_tags_has_no_comma_after_measurement() {
    let members = vec![
        member("value", Role::Field(None), false),
        member("at", Role::Timestamp, true),
    ];
    let schema = Schema::register(text("cpu load"), &members).unwrap();
    let row = vec![MemberValue::Value(Value::UInt(7)), MemberValue::Time(Timestamp::Int(5))];
    assert_eq!(schema.serialize(&row).unwrap(), "cpu\\ load value=7u");
    assert_eq!(schema.serialize_with_timestamp(&row, None).unwrap(), "cpu\\ load value=7u 5");
}

#[test]
fn record_tags_are_escaped_and_written_as_plain_text() {
    let members = vec![
        member("host", Role::Tag(None), false),
        member("n", Role::Tag(text("count")), false),
        member("ok", Role::Field(None), false),
        member("at", Role::Timestamp, true),
    ];
    let schema = Schema::register(text("m"), &members).unwrap();
    let row = vec![
        MemberValue::Value(Value::Str("a b".to_string())),
        MemberValue::Value(Value::Int(-3)),
        MemberValue::Value(Value::Bool(false)),
        MemberValue::Time(Timestamp::Int(1)),
    ];
    let point = schema.point_of(&row).unwrap();
    assert_eq!(point.measurement, "m");
    assert_eq!(point.tags, vec![("host".to_string(), "a b".to_string()), ("count".to_string(), "-3".to_string())]);
    assert_eq!(schema.serialize(&row).unwrap(), "m,host=a\\ b,count=-3 ok=false");
}

#[test]
fn row_of_wrong_shape_is_not_a_record() {
    let schema = test_schema(false);
    let short = vec![MemberValue::Value(Value::Str("GME".to_string()))];
    assert!(!schema.accepts(&short));
    assert!(schema.point_of(&short).is_none());
    assert!(schema.serialize(&short).is_none());

    let mut swapped = test_row("1".to_string(), false);
    swapped.swap(0, 4);
    assert!(!schema.accepts(&swapped));
    assert!(schema.serialize_with_timestamp(&swapped, None).is_none());

    assert!(schema.accepts(&test_row("1".to_string(), false)));
}

#[test]
fn registration_without_measurement_fails() {
    let members = vec![member("v", Role::Field(None), false), member("t", Role::Timestamp, true)];
    assert_eq!(
        Schema::register(None, &members).unwrap_err(),
        ConfigurationError::MissingMeasurement
    );
    assert_eq!(
        Schema::register(Some(Literal::Other), &members).unwrap_err(),
        ConfigurationError::MeasurementNotText
    );
}

#[test]
fn registration_without_field_fails() {
    let members = vec![member("h", Role::Tag(None), false), member("t", Role::Timestamp, true)];
    assert_eq!(Schema::register(text("m"), &members).unwrap_err(), ConfigurationError::MissingField);
}

#[test]
fn registration_with_non_text_name_fails() {
    let members = vec![
        member("v", Role::Field(None), false),
        member("h", Role::Tag(Some(Literal::Other)), false),
        member("w", Role::Field(Some(Literal::Other)), false),
        member("t", Role::Timestamp, true),
    ];
    assert_eq!(
        Schema::register(text("m"), &members).unwrap_err(),
        ConfigurationError::NameNotText(1)
    );
}

#[test]
fn registration_without_timestamp_fails() {
    let members = vec![member("v", Role::Field(None), false)];
    assert_eq!(
        Schema::register(text("m"), &members).unwrap_err(),
        ConfigurationError::MissingTimestamp
    );
}

#[test]
fn registration_with_two_timestamps_fails() {
    let members = vec![
        member("v", Role::Field(None), false),
        member("t", Role::Timestamp, true),
        member("u", Role::Timestamp, true),
    ];
    assert_eq!(
        Schema::register(text("m"), &members).unwrap_err(),
        ConfigurationError::MultipleTimestamps
    );
}

#[test]
fn registration_with_mistyped_timestamp_fails() {
    let members = vec![member("v", Role::Field(None), false), member("t", Role::Timestamp, false)];
    assert_eq!(
        Schema::register(text("m"), &members).unwrap_err(),
        ConfigurationError::TimestampType
    );
}
