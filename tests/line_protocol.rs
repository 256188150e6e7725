use influxdb_client::client::serialize_points;
use influxdb_client::{
    ClientOptions, InfluxError, Point, PointSerialize, Precision, Timestamp, TimestampOptions,
    Value,
};

fn float(v: f64) -> Value {
    Value::Float(v.to_string())
}

fn mem_point() -> Point {
    Point::new("mem")
        .tag("host", "host1")
        .field("used_percent", float(23.43234543))
        .timestamp(Timestamp::Int(1556896326))
}

#[test]
fn stored_timestamp_ends_the_line() {
    assert_eq!(
        mem_point().serialize_with_timestamp(None),
        "mem,host=host1 used_percent=23.43234543 1556896326"
    );
}

#[test]
fn given_timestamp_overrides_the_stored_one() {
    assert_eq!(
        mem_point().serialize_with_timestamp(Some(Timestamp::Int(420))),
        "mem,host=host1 used_percent=23.43234543 420"
    );
    assert_eq!(
        mem_point().serialize_with_timestamp(Some(Timestamp::Str("2021-02-21".to_string()))),
        "mem,host=host1 used_percent=23.43234543 2021-02-21"
    );
}

#[test]
fn missing_timestamp_is_written_as_zero() {
    let point = Point::new("mem").field("x", Value::Bool(true));
    assert_eq!(point.serialize_with_timestamp(None), "mem x=true 0");
    assert_eq!(point.serialize_with_timestamp(Some(Timestamp::Int(-5))), "mem x=true -5");
}

#[test]
fn serialize_leaves_out_the_timestamp() {
    assert_eq!(mem_point().serialize(), "mem,host=host1 used_percent=23.43234543");
}

#[test]
fn empty_sections_add_no_separator() {
    assert_eq!(Point::new("mem").serialize(), "mem");
    assert_eq!(Point::new("mem").tag("a", "b").serialize(), "mem,a=b");
    assert_eq!(Point::new("mem").field("f", Value::UInt(1)).serialize(), "mem f=1u");
    assert_eq!(Point::new("").serialize(), "");
}

#[test]
fn serializing_twice_gives_the_same_text() {
    let point = Point::new("m e")
        .tag("k=1", "v,2")
        .field("s", Value::Str("q\"".to_string()))
        .field("n", Value::Int(-1));
    let first = point.serialize();
    let second = point.serialize();
    assert_eq!(first, second);
    assert_eq!(first, "m\\ e,k\\=1=v\\,2 s=\"q\\\"\",n=-1i");
    assert_eq!(point.serialize_with_timestamp(None), point.serialize_with_timestamp(None));
}

#[test]
fn integer_fields_carry_their_suffix() {
    let point = Point::new("mem")
        .field("mem_free", Value::Int(123456))
        .field("count", Value::UInt(5));
    assert_eq!(point.serialize(), "mem mem_free=123456i,count=5u");
}

#[test]
fn string_field_escapes_only_quotes() {
    let point = Point::new("mem")
        .tag("tag_string", "Hello world :D")
        .field("field_string", Value::Str("Hello world :D\"".to_string()));
    assert_eq!(
        point.serialize(),
        "mem,tag_string=Hello\\ world\\ :D field_string=\"Hello world :D\\\"\""
    );
}

#[test]
fn duplicate_keys_are_all_written() {
    let point = Point::new("m")
        .tag("k", "1")
        .tag("k", "2")
        .field("f", Value::Int(1))
        .field("f", Value::Int(2));
    assert_eq!(point.serialize(), "m,k=1,k=2 f=1i,f=2i");
}

#[test]
fn value_encodings() {
    assert_eq!(Value::Int(i64::MIN).encode(), "-9223372036854775808i");
    assert_eq!(Value::Int(0).encode(), "0i");
    assert_eq!(Value::UInt(u64::MAX).encode(), "18446744073709551615u");
    assert_eq!(Value::Bool(false).encode(), "false");
    assert_eq!(float(-0.5).encode(), "-0.5");
    assert_eq!(Value::Str("a\"b".to_string()).encode(), "\"a\\\"b\"");
    assert_eq!(Value::from(7i64).encode(), "7i");
    assert_eq!(Value::from(7u64).encode(), "7u");
    assert_eq!(Value::from(true).encode(), "true");
}

#[test]
fn value_plain_text() {
    assert_eq!(Value::Int(-42).to_string(), "-42");
    assert_eq!(Value::UInt(10).to_string(), "10");
    assert_eq!(Value::Str("a b".to_string()).to_string(), "a b");
    assert_eq!(Value::Bool(true).to_string(), "true");
}

#[test]
fn timestamp_text() {
    assert_eq!(Timestamp::Int(1556813561098000000).to_string(), "1556813561098000000");
    assert_eq!(Timestamp::Int(i64::MIN).to_string(), "-9223372036854775808");
    assert_eq!(Timestamp::from(0).to_string(), "0");
    assert_eq!(Timestamp::Str("now".to_string()).to_string(), "now");
}

#[test]
fn precision_names() {
    assert_eq!(Precision::NS.to_string(), "ns");
    assert_eq!(Precision::US.to_string(), "us");
    assert_eq!(Precision::MS.to_string(), "ms");
    assert_eq!(Precision::S.to_string(), "s");
}

#[test]
fn batch_of_no_points_is_empty() {
    let points: Vec<Point> = Vec::new();
    assert_eq!(serialize_points(&points, &TimestampOptions::FromPoint), "");
}

#[test]
fn batch_lines_follow_point_order() {
    let points = vec![
        Point::new("a").field("x", Value::Int(1)).timestamp(Timestamp::Int(10)),
        Point::new("b").field("y", Value::Int(2)),
    ];
    assert_eq!(serialize_points(&points, &TimestampOptions::Omit), "a x=1i\nb y=2i");
    assert_eq!(
        serialize_points(&points, &TimestampOptions::FromPoint),
        "a x=1i 10\nb y=2i 0"
    );
    assert_eq!(
        serialize_points(&points, &TimestampOptions::Use(Timestamp::Int(1613925577))),
        "a x=1i 1613925577\nb y=2i 1613925577"
    );
}

#[test]
fn write_query_with_bucket_and_org_id() {
    let options = ClientOptions::new("TEST_API_KEY")
        .with_bucket("tradely")
        .with_org_id("168f31904923e853")
        .with_precision(Precision::MS);
    assert_eq!(
        options.write_query(),
        vec![
            ("bucket".to_string(), "tradely".to_string()),
            ("orgID".to_string(), "168f31904923e853".to_string()),
            ("precision".to_string(), "ms".to_string()),
        ]
    );
    assert_eq!(options.authorization(), "Token TEST_API_KEY");
    assert_eq!(options.precision(), "ms");
}

#[test]
fn org_name_takes_precedence_over_org_id() {
    let options = ClientOptions::new("t").with_org_id("id").with_org("ddpanel");
    assert_eq!(
        options.write_query(),
        vec![
            ("org".to_string(), "ddpanel".to_string()),
            ("precision".to_string(), "ns".to_string()),
        ]
    );
    assert!(!options.insert_to_stdout);
    assert!(options.insert_to_stdout().insert_to_stdout);
}

#[test]
fn status_codes_map_to_errors() {
    let m = || "msg".to_string();
    assert!(matches!(InfluxError::from_status(400, m()), Some(InfluxError::InvalidSyntax(s)) if s == "msg"));
    assert!(matches!(InfluxError::from_status(401, m()), Some(InfluxError::InvalidCredentials(_))));
    assert!(matches!(InfluxError::from_status(403, m()), Some(InfluxError::Forbidden(_))));
    assert!(matches!(InfluxError::from_status(404, m()), Some(InfluxError::Unknown(_))));
    assert!(matches!(InfluxError::from_status(500, m()), Some(InfluxError::Unknown(_))));
    assert!(InfluxError::from_status(204, m()).is_none());
    assert!(InfluxError::from_status(201, m()).is_none());
    assert!(InfluxError::from_status(503, m()).is_none());
}

#[test]
fn cloned_point_and_options_write_the_same() {
    let point = mem_point().field("name", Value::Str("Julius".to_string()));
    let copy = point.clone();
    assert_eq!(copy.serialize_with_timestamp(None), point.serialize_with_timestamp(None));
    assert_eq!(copy.tags, point.tags);

    let options = ClientOptions::new("t").with_bucket("b").with_precision(Precision::S);
    let copy = options.clone();
    assert_eq!(copy.write_query(), options.write_query());
    assert_eq!(copy.authorization(), "Token t");
}
