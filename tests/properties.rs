use edc_connector_client::types::properties::{ConversionError, Number, Properties, PropertyValue};

#[test]
fn get_after_set_gives_back_each_supported_type() {
    let mut p = Properties::new();
    p.set("s", "hello".to_string());
    p.set("b", true);
    p.set("i", -42i64);
    p.set("u", 42u64);
    p.set("i32", -7i32);
    p.set("u32", 7u32);
    assert_eq!(p.get::<String>("s"), Ok(Some("hello".to_string())));
    assert_eq!(p.get::<bool>("b"), Ok(Some(true)));
    assert_eq!(p.get::<i64>("i"), Ok(Some(-42)));
    assert_eq!(p.get::<u64>("u"), Ok(Some(42)));
    assert_eq!(p.get::<i32>("i32"), Ok(Some(-7)));
    assert_eq!(p.get::<u32>("u32"), Ok(Some(7)));
    assert_eq!(p.get::<i64>("i64max"), Ok(None));
    p.set("i64max", i64::MAX);
    assert_eq!(p.get::<i64>("i64max"), Ok(Some(i64::MAX)));
    p.set("u64max", u64::MAX);
    assert_eq!(p.get::<u64>("u64max"), Ok(Some(u64::MAX)));
}

#[test]
fn absent_key_reads_as_none() {
    let p = Properties::new();
    assert_eq!(p.get::<String>("missing"), Ok(None));
    assert_eq!(p.get::<i64>("missing"), Ok(None));
    assert!(p.get_raw("missing").is_none());
}

#[test]
fn shape_mismatch_is_an_error() {
    let mut p = Properties::new();
    p.set("s", "text".to_string());
    p.set("n", 5i64);
    assert_eq!(p.get::<i64>("s"), Err(ConversionError::WrongShape));
    assert_eq!(p.get::<bool>("n"), Err(ConversionError::WrongShape));
    assert_eq!(p.get::<String>("n"), Err(ConversionError::WrongShape));
}

#[test]
fn lossy_numbers_are_errors() {
    let mut p = Properties::new();
    p.set("neg", -1i64);
    p.set("big", u64::MAX);
    p.insert_value("frac", PropertyValue::Number(Number::Float(1.5f64.to_bits())));
    assert_eq!(p.get::<u64>("neg"), Err(ConversionError::Lossy));
    assert_eq!(p.get::<u32>("neg"), Err(ConversionError::Lossy));
    assert_eq!(p.get::<i64>("big"), Err(ConversionError::Lossy));
    assert_eq!(p.get::<i32>("big"), Err(ConversionError::Lossy));
    assert_eq!(p.get::<i64>("frac"), Err(ConversionError::Lossy));
}

#[test]
fn set_overwrites_in_place() {
    let mut p = Properties::new();
    p.set("a", 1i64);
    p.set("b", 2i64);
    p.set("a", "one".to_string());
    assert_eq!(p.len(), 2);
    assert_eq!(p.get::<String>("a"), Ok(Some("one".to_string())));
    assert_eq!(p.get::<i64>("b"), Ok(Some(2)));
    assert_eq!(p.get_raw("a"), Some(&PropertyValue::String("one".to_string())));
}

#[test]
fn integers_are_stored_canonically() {
    let mut p = Properties::new();
    p.set("pos", 3i64);
    p.set("neg", -3i32);
    assert_eq!(p.get_raw("pos"), Some(&PropertyValue::Number(Number::PosInt(3))));
    assert_eq!(p.get_raw("neg"), Some(&PropertyValue::Number(Number::NegInt(-3))));
}

#[test]
fn clone_keeps_nested_values() {
    let mut inner = Properties::new();
    inner.set("x", 1u64);
    let mut p = Properties::new();
    p.insert_value("obj", PropertyValue::Object(inner));
    p.insert_value(
        "arr",
        PropertyValue::Array(vec![PropertyValue::Null, PropertyValue::Bool(false), PropertyValue::String("s".to_string())]),
    );
    let q = p.clone();
    assert_eq!(p, q);
    assert_eq!(Properties::default().len(), 0);
}

#[test]
fn vectors_round_trip_and_report_the_first_bad_item() {
    let mut p = Properties::new();
    p.set("tags", vec!["a".to_string(), "b".to_string()]);
    p.set("nums", vec![1i64, -2, 3]);
    p.set("nested", vec![vec![1u32], vec![], vec![2u32, 3]]);
    assert_eq!(p.get::<Vec<String>>("tags"), Ok(Some(vec!["a".to_string(), "b".to_string()])));
    assert_eq!(p.get::<Vec<i64>>("nums"), Ok(Some(vec![1, -2, 3])));
    assert_eq!(p.get::<Vec<Vec<u32>>>("nested"), Ok(Some(vec![vec![1], vec![], vec![2, 3]])));
    assert_eq!(p.get::<Vec<u64>>("nums"), Err(ConversionError::Lossy));
    assert_eq!(p.get::<Vec<bool>>("nums"), Err(ConversionError::WrongShape));
    assert_eq!(p.get::<Vec<String>>("missing"), Ok(None));
    p.set("scalar", 1i64);
    assert_eq!(p.get::<Vec<i64>>("scalar"), Err(ConversionError::WrongShape));
    p.set("empty", Vec::<String>::new());
    assert_eq!(p.get::<Vec<String>>("empty"), Ok(Some(vec![])));
}

#[test]
fn dynamic_values_read_as_themselves() {
    let mut p = Properties::new();
    p.set("n", 5u64);
    assert_eq!(p.get::<PropertyValue>("n"), Ok(Some(PropertyValue::Number(Number::PosInt(5)))));
    p.set("v", PropertyValue::Null);
    assert_eq!(p.get::<PropertyValue>("v"), Ok(Some(PropertyValue::Null)));
    assert_eq!(p.get::<String>("v"), Err(ConversionError::WrongShape));
}

#[test]
fn keys_stay_unique_across_sets() {
    let mut p = Properties::new();
    for round in 0..3i64 {
        p.set("a", round);
        p.set("b", round);
    }
    assert_eq!(p.len(), 2);
    let keys: Vec<&str> = p.entries().iter().map(|(k, _)| k.as_str()).collect();
    assert_eq!(keys, vec!["a", "b"]);
    assert_eq!(p.get::<i64>("a"), Ok(Some(2)));
}
