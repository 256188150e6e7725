use influxdb_client::escape::{
    escape_field_value_string, escape_measurement, escape_tag_and_field_keys,
};

#[test]
fn test_escape_tag_and_field_keys() {
    assert_eq!(escape_tag_and_field_keys("us,midwest"), r"us\,midwest");
    assert_eq!(escape_tag_and_field_keys("temp=rature"), r"temp\=rature");
    assert_eq!(
        escape_tag_and_field_keys("location place"),
        r"location\ place"
    );
}

#[test]
fn test_measurement_escape() {
    assert_eq!(escape_measurement("wea,ther"), r"wea\,ther");
    assert_eq!(escape_measurement("wea ther"), r"wea\ ther");
}

#[test]
fn test_string_escape() {
    assert_eq!(escape_field_value_string("too\"hot"), "too\\\"hot");
}

#[test]
fn safe_text_is_left_unchanged() {
    for s in ["", "cpu_load", "us-west.1", "a\\b", "Grüße"] {
        assert_eq!(escape_tag_and_field_keys(s), s);
        assert_eq!(escape_field_value_string(s), s);
    }
}

#[test]
fn measurement_escaping_keeps_equals_sign() {
    assert_eq!(escape_measurement("a=b"), "a=b");
    assert_eq!(escape_measurement("\"q\""), "\"q\"");
}

#[test]
fn field_string_escaping_keeps_separators() {
    assert_eq!(escape_field_value_string("a, b=c"), "a, b=c");
}

#[test]
fn backslash_is_not_escaped() {
    assert_eq!(escape_tag_and_field_keys(r"a\b"), r"a\b");
    assert_eq!(escape_measurement(r"a\ b"), r"a\\ b");
}

#[test]
fn key_escaping_adds_one_backslash_per_special_character() {
    let inputs = ["", "a,b=c d", ",,,", "x\\,y", "= =", "plain"];
    for s in inputs {
        let out = escape_tag_and_field_keys(s);
        let specials = s.chars().filter(|c| matches!(c, ',' | '=' | ' ')).count();
        let before = s.chars().filter(|c| *c == '\\').count();
        let after = out.chars().filter(|c| *c == '\\').count();
        assert_eq!(after - before, specials);
        assert_eq!(out.chars().count(), s.chars().count() + specials);
    }
}

#[test]
fn escaping_empty_text_gives_empty_text() {
    assert_eq!(escape_measurement(""), "");
    assert_eq!(escape_tag_and_field_keys(""), "");
    assert_eq!(escape_field_value_string(""), "");
}
