use gpkg_sink::sink::GpkgSink;
use indexmap::IndexMap;

#[test]
fn singleton_array_normalizes_to_bare_string() {
    assert_eq!(GpkgSink::process_value("[\"x\"]".to_string()), "x");
}

#[test]
fn multi_element_array_is_left_unchanged() {
    assert_eq!(
        GpkgSink::process_value("[\"x\",\"y\"]".to_string()),
        "[\"x\",\"y\"]"
    );
}

#[test]
fn non_json_value_is_left_unchanged() {
    assert_eq!(GpkgSink::process_value("plain text".to_string()), "plain text");
}

#[test]
fn singleton_array_of_number_is_left_unchanged() {
    assert_eq!(GpkgSink::process_value("[5]".to_string()), "[5]");
}

#[test]
fn process_all_values_normalizes_each_value() {
    let mut m: IndexMap<String, String> = IndexMap::new();
    m.insert("a".to_string(), "[\"one\"]".to_string());
    m.insert("b".to_string(), "keep".to_string());
    let out = GpkgSink::process_all_values(m);
    assert_eq!(out.get("a").unwrap(), "one");
    assert_eq!(out.get("b").unwrap(), "keep");
    let keys: Vec<&String> = out.keys().collect();
    assert_eq!(keys, vec!["a", "b"]);
}

#[test]
fn generic_attribute_object_flattens_into_top_level() {
    let mut m: IndexMap<String, String> = IndexMap::new();
    m.insert("kept".to_string(), "v".to_string());
    m.insert(
        "genericAttribute".to_string(),
        "{\"type\":\"t\",\"a\":\"1\",\"b\":\"2\"}".to_string(),
    );
    let out = GpkgSink::flatten_generic_attribute(m);
    assert_eq!(out.get("a").unwrap(), "1");
    assert_eq!(out.get("b").unwrap(), "2");
    assert!(out.get("genericAttribute").is_none());
    assert!(out.get("type").is_none());
    assert_eq!(out.get("kept").unwrap(), "v");
}

#[test]
fn generic_attribute_non_string_field_is_serialized() {
    let mut m: IndexMap<String, String> = IndexMap::new();
    m.insert("genericAttribute".to_string(), "{\"n\":7}".to_string());
    let out = GpkgSink::flatten_generic_attribute(m);
    assert_eq!(out.get("n").unwrap(), "7");
}

#[test]
fn empty_map_stays_empty() {
    let out = GpkgSink::process_all_values(IndexMap::new());
    assert!(out.is_empty());
    let out = GpkgSink::flatten_generic_attribute(IndexMap::new());
    assert!(out.is_empty());
}

#[test]
fn table_short_name_strips_the_namespace() {
    assert_eq!(gpkg_sink::strutil::table_short_name("uro:FloodAttr"), "FloodAttr");
    assert_eq!(gpkg_sink::strutil::table_short_name("plain"), "plain");
    assert_eq!(gpkg_sink::strutil::table_short_name("a:b:c"), "c");
    assert_eq!(gpkg_sink::strutil::table_short_name("x:"), "");
}

#[test]
fn generic_attribute_non_object_value_is_dropped() {
    let mut m: IndexMap<String, String> = IndexMap::new();
    m.insert("genericAttribute".to_string(), "not json".to_string());
    m.insert("other".to_string(), "v".to_string());
    let out = GpkgSink::flatten_generic_attribute(m);
    assert!(out.get("genericAttribute").is_none());
    assert_eq!(out.get("other").unwrap(), "v");
    assert_eq!(out.len(), 1);
}
