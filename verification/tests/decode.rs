use urban_rs::{Date, Definition};

fn full_entry_text() -> String {
    String::from(
        "{\
         \"word\": \"hello\",\
         \"definition\": \"a greeting\",\
         \"example\": \"hello there\",\
         \"author\": \"someone\",\
         \"written_on\": \"2020-03-16T00:31:52.123Z\",\
         \"defid\": 123,\
         \"thumbs_up\": 10,\
         \"thumbs_down\": 2,\
         \"permalink\": \"http://example.com/hello\",\
         \"sound_urls\": [\"http://a\", \"http://b\"]\
         }",
    )
}

fn parse_value(text: &str) -> serde_json::Value {
    serde_json::from_str(text).unwrap()
}

#[test]
fn full_entry_decodes_with_every_field() {
    let v = parse_value(&full_entry_text());
    let d = Definition::new(&v).unwrap();
    assert_eq!(d.word(), "hello");
    assert_eq!(d.definition(), "a greeting");
    assert_eq!(d.example(), "hello there");
    assert_eq!(d.author(), "someone");
    assert_eq!(d.written_on(), Date { year: 2020, month: 3, day: 16 });
    assert_eq!(d.defid().as_u64(), 123);
    assert_eq!(d.thumbs_up(), 10);
    assert_eq!(d.thumbs_down(), 2);
    assert_eq!(d.permalink(), "http://example.com/hello");
    assert_eq!(
        d.sound_urls(),
        &vec![String::from("http://a"), String::from("http://b")]
    );
}

#[test]
fn missing_any_required_field_fails() {
    let keys = [
        "word",
        "definition",
        "example",
        "author",
        "written_on",
        "defid",
        "thumbs_up",
        "thumbs_down",
        "permalink",
        "sound_urls",
    ];
    for key in keys.iter() {
        let v = parse_value(&full_entry_text());
        let mut m = v.as_object().unwrap().clone();
        m.remove(*key);
        let stripped = serde_json::Value::Object(m);
        assert!(
            Definition::new(&stripped).is_none(),
            "decode succeeded without field {}",
            key
        );
    }
}

#[test]
fn mistyped_field_fails() {
    let v = parse_value(&full_entry_text());
    let mut m = v.as_object().unwrap().clone();
    m.insert(
        String::from("word"),
        serde_json::Value::Number(serde_json::Number::from(5u64)),
    );
    let mistyped = serde_json::Value::Object(m);
    assert!(Definition::new(&mistyped).is_none());
}

#[test]
fn negative_count_fails() {
    let v = parse_value(&full_entry_text());
    let mut m = v.as_object().unwrap().clone();
    m.insert(
        String::from("thumbs_up"),
        serde_json::Value::Number(serde_json::Number::from(-3i64)),
    );
    let negative = serde_json::Value::Object(m);
    assert!(Definition::new(&negative).is_none());
}

fn with_written_on(text: &str) -> serde_json::Value {
    let v = parse_value(&full_entry_text());
    let mut m = v.as_object().unwrap().clone();
    m.insert(
        String::from("written_on"),
        serde_json::Value::String(String::from(text)),
    );
    serde_json::Value::Object(m)
}

#[test]
fn date_only_timestamp_fails() {
    assert!(Definition::new(&with_written_on("2020-03-16")).is_none());
}

#[test]
fn timestamp_with_wrong_fraction_length_fails() {
    assert!(Definition::new(&with_written_on("2020-03-16T00:31:52.12Z")).is_none());
    assert!(Definition::new(&with_written_on("2020-03-16T00:31:52.1234Z")).is_none());
}

#[test]
fn timestamp_without_fraction_is_tolerated_by_the_parser() {
    // The date parser treats the fractional part as optional when the dot
    // is absent; such a timestamp still decodes.
    let d = Definition::new(&with_written_on("2020-03-16T00:31:52Z")).unwrap();
    assert_eq!(d.written_on(), Date { year: 2020, month: 3, day: 16 });
}

#[test]
fn timestamp_without_trailing_z_fails() {
    assert!(Definition::new(&with_written_on("2020-03-16T00:31:52.123")).is_none());
}

#[test]
fn impossible_date_fails() {
    assert!(Definition::new(&with_written_on("2020-02-30T00:31:52.123Z")).is_none());
}

#[test]
fn timestamp_keeps_day_granularity() {
    let d = Definition::new(&with_written_on("1999-12-31T23:59:59.999Z")).unwrap();
    assert_eq!(d.written_on(), Date { year: 1999, month: 12, day: 31 });
}

#[test]
fn sound_urls_keep_exactly_the_strings_in_order() {
    let v = parse_value(&full_entry_text());
    let mut m = v.as_object().unwrap().clone();
    let mixed = serde_json::Value::Array(vec![
        serde_json::Value::String(String::from("http://a")),
        serde_json::Value::Number(serde_json::Number::from(5u64)),
        serde_json::Value::Null,
        serde_json::Value::Bool(true),
        serde_json::Value::String(String::from("b")),
    ]);
    m.insert(String::from("sound_urls"), mixed);
    let entry = serde_json::Value::Object(m);
    let d = Definition::new(&entry).unwrap();
    assert_eq!(d.sound_urls(), &vec![String::from("http://a"), String::from("b")]);
}

#[test]
fn sound_urls_not_an_array_fails() {
    let v = parse_value(&full_entry_text());
    let mut m = v.as_object().unwrap().clone();
    m.insert(
        String::from("sound_urls"),
        serde_json::Value::String(String::from("http://a")),
    );
    let entry = serde_json::Value::Object(m);
    assert!(Definition::new(&entry).is_none());
}

#[test]
fn empty_sound_urls_decode_to_empty() {
    let v = parse_value(&full_entry_text());
    let mut m = v.as_object().unwrap().clone();
    m.insert(String::from("sound_urls"), serde_json::Value::Array(vec![]));
    let entry = serde_json::Value::Object(m);
    let d = Definition::new(&entry).unwrap();
    assert!(d.sound_urls().is_empty());
}

#[test]
fn vote_counts_truncate_to_32_bits() {
    let v = parse_value(&full_entry_text());
    let mut m = v.as_object().unwrap().clone();
    m.insert(
        String::from("thumbs_up"),
        serde_json::Value::Number(serde_json::Number::from(4294967297u64)),
    );
    m.insert(
        String::from("thumbs_down"),
        serde_json::Value::Number(serde_json::Number::from(4294967295u64)),
    );
    let entry = serde_json::Value::Object(m);
    let d = Definition::new(&entry).unwrap();
    assert_eq!(d.thumbs_up(), 1);
    assert_eq!(d.thumbs_down(), 4294967295);
}

#[test]
fn equality_goes_by_identifier_alone() {
    let a = Definition::new(&parse_value(&full_entry_text())).unwrap();

    let v = parse_value(&full_entry_text());
    let mut m = v.as_object().unwrap().clone();
    m.insert(
        String::from("word"),
        serde_json::Value::String(String::from("other")),
    );
    m.insert(
        String::from("thumbs_up"),
        serde_json::Value::Number(serde_json::Number::from(999u64)),
    );
    let same_id_other_fields = Definition::new(&serde_json::Value::Object(m)).unwrap();
    assert!(a == same_id_other_fields);

    let v2 = parse_value(&full_entry_text());
    let mut m2 = v2.as_object().unwrap().clone();
    m2.insert(
        String::from("defid"),
        serde_json::Value::Number(serde_json::Number::from(124u64)),
    );
    let other_id_same_fields = Definition::new(&serde_json::Value::Object(m2)).unwrap();
    assert!(a != other_id_same_fields);
}

#[test]
fn display_string_renders_word_and_definition() {
    let d = Definition::new(&parse_value(&full_entry_text())).unwrap();
    assert_eq!(d.display_string(), "hello: a greeting");
}
