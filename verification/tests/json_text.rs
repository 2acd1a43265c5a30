use exposed_app_operator::json::{quote, write_array, write_entry};

#[test]
fn quote_wraps_in_double_quotes() {
    assert_eq!(quote("add"), "\"add\"");
    assert_eq!(quote(""), "\"\"");
}

#[test]
fn quote_escapes_what_json_must_escape() {
    assert_eq!(quote("a\"b"), "\"a\\\"b\"");
    assert_eq!(quote("a\\b"), "\"a\\\\b\"");
    assert_eq!(quote("line\nbreak"), "\"line\\nbreak\"");
    assert_eq!(quote("tab\there"), "\"tab\\there\"");
    assert_eq!(quote("\u{1}"), "\"\\u0001\"");
}

#[test]
fn quote_keeps_other_characters() {
    assert_eq!(quote("/metadata/annotations/kubernetes.io~1description"), "\"/metadata/annotations/kubernetes.io~1description\"");
    assert_eq!(quote("héllo"), "\"héllo\"");
}

#[test]
fn write_entry_orders_op_path_value() {
    assert_eq!(
        write_entry("test", "/metadata/resourceVersion", "42"),
        "{\"op\":\"test\",\"path\":\"/metadata/resourceVersion\",\"value\":\"42\"}"
    );
}

#[test]
fn write_entry_escapes_the_value() {
    assert_eq!(
        write_entry("add", "/a", "x\"y"),
        "{\"op\":\"add\",\"path\":\"/a\",\"value\":\"x\\\"y\"}"
    );
}

#[test]
fn write_array_of_nothing() {
    assert_eq!(write_array(&vec![]), "[]");
}

#[test]
fn write_array_of_one() {
    assert_eq!(write_array(&vec!["1".to_string()]), "[1]");
}

#[test]
fn write_array_puts_commas_between_items() {
    let items = vec!["{}".to_string(), "2".to_string(), "\"x\"".to_string()];
    assert_eq!(write_array(&items), "[{},2,\"x\"]");
}

#[test]
fn written_patch_is_json_that_serde_reads_back() {
    let text = write_array(&vec![write_entry("add", "/p", "v \"q\" \\ \n")]);
    let value: serde_json::Value = serde_json::from_str(&text).unwrap();
    assert_eq!(value[0]["op"].as_str(), Some("add"));
    assert_eq!(value[0]["path"].as_str(), Some("/p"));
    assert_eq!(value[0]["value"].as_str(), Some("v \"q\" \\ \n"));
    assert_eq!(value.as_array().unwrap().len(), 1);
}
