use vidify::config::Properties;
use vidify::error::Error;

/// The default value should be equivalent to an empty vector.
#[test]
fn config_test_default_properties() {
    let properties = Properties::default();
    assert_eq!(properties.len(), 0);
}

/// An empty string should be equivalent to an empty vector.
#[test]
fn config_test_properties_from_empty_str() {
    let properties = Properties::from_str("").unwrap();
    assert_eq!(properties.len(), 0);
}

#[test]
fn config_test_properties_from_str_simple() {
    let properties = Properties::from_str("key1=val1").unwrap();
    assert_eq!(
        properties.get(0),
        Some(&("key1".to_string(), "val1".to_string()))
    );
    assert_eq!(properties.get(1), None);
}

// Testing the same as before but with a delimiter at the end to make
// sure it's the same result.
#[test]
fn config_test_properties_from_str_simple_delimiter_end() {
    let properties = Properties::from_str("key1=val1;").unwrap();
    assert_eq!(
        properties.get(0),
        Some(&("key1".to_string(), "val1".to_string()))
    );
    assert_eq!(properties.get(1), None);
}

/// Now with multiple keys and values
#[test]
fn config_test_properties_from_str_multiple() {
    let properties = Properties::from_str("key1=val1;key2=val2;key3=val3;").unwrap();
    assert_eq!(
        properties.get(0),
        Some(&("key1".to_string(), "val1".to_string()))
    );
    assert_eq!(
        properties.get(1),
        Some(&("key2".to_string(), "val2".to_string()))
    );
    assert_eq!(
        properties.get(2),
        Some(&("key3".to_string(), "val3".to_string()))
    );
    assert_eq!(properties.get(3), None);
}

/// Making sure that not including a '=' fails, for simplicity.
#[test]
#[should_panic]
fn config_test_properties_from_str_no_equal() {
    Properties::from_str("key1;key2=val2").unwrap();
}

/// The default value should be equivalent to an empty vector.
#[test]
fn lib_test_default_properties() {
    let properties = Properties::default();
    assert_eq!(properties.len(), 0);
}

/// An empty string should be equivalent to an empty vector.
#[test]
fn lib_test_properties_from_empty_str() {
    let properties = Properties::from_str("").unwrap();
    assert_eq!(properties.len(), 0);
}

#[test]
fn lib_test_properties_from_str_simple() {
    let properties = Properties::from_str("key1=val1").unwrap();
    assert_eq!(
        properties.get(0),
        Some(&("key1".to_string(), "val1".to_string()))
    );
    assert_eq!(properties.get(1), None);
}

// Testing the same as before but with a delimiter at the end to make
// sure it's the same result.
#[test]
fn lib_test_properties_from_str_simple_delimiter_end() {
    let properties = Properties::from_str("key1=val1;").unwrap();
    assert_eq!(
        properties.get(0),
        Some(&("key1".to_string(), "val1".to_string()))
    );
    assert_eq!(properties.get(1), None);
}

/// Now with multiple keys and values
#[test]
fn lib_test_properties_from_str_multiple() {
    let properties = Properties::from_str("key1=val1;key2=val2;key3=val3;").unwrap();
    assert_eq!(
        properties.get(0),
        Some(&("key1".to_string(), "val1".to_string()))
    );
    assert_eq!(
        properties.get(1),
        Some(&("key2".to_string(), "val2".to_string()))
    );
    assert_eq!(
        properties.get(2),
        Some(&("key3".to_string(), "val3".to_string()))
    );
    assert_eq!(properties.get(3), None);
}

/// Making sure that not including a '=' fails, for simplicity.
#[test]
#[should_panic]
fn lib_test_properties_from_str_no_equal() {
    Properties::from_str("key1;key2=val2").unwrap();
}

/// Parsing failures report the configuration error kind.
#[test]
fn properties_parse_error_kind() {
    assert_eq!(
        Properties::from_str("key1;key2=val2").unwrap_err(),
        Error::ConfigInvalid
    );
    assert_eq!(Properties::from_str(";").unwrap_err(), Error::ConfigInvalid);
}

/// A second '=' ends the value; anything after it is dropped.
#[test]
fn properties_value_stops_at_second_equal() {
    let properties = Properties::from_str("key=a=b").unwrap();
    assert_eq!(properties.get(0), Some(&("key".to_string(), "a".to_string())));
}

/// An empty value and an empty key both parse.
#[test]
fn properties_empty_key_or_value() {
    let properties = Properties::from_str("key=;=val").unwrap();
    assert_eq!(properties.get(0), Some(&("key".to_string(), "".to_string())));
    assert_eq!(properties.get(1), Some(&("".to_string(), "val".to_string())));
}

/// Printing writes every entry back as `key=val;`.
#[test]
fn properties_to_string_format() {
    let properties = Properties::from_str("key1=val1;key2=val2").unwrap();
    assert_eq!(properties.to_string(), "key1=val1;key2=val2;");
    assert_eq!(Properties::default().to_string(), "");
}
