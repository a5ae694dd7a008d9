use java_bindgen_macro::attr::{parse_attr_to_map, JavaBindgenAttr};

fn get(attr: &str, key: &str) -> Option<String> {
    parse_attr_to_map(attr).get(key).cloned()
}

#[test]
fn attr_map_reads_quoted_values() {
    let attr = "package = \"com.example\", return = \"String\"";
    assert_eq!(get(attr, "package"), Some("com.example".to_string()));
    assert_eq!(get(attr, "return"), Some("String".to_string()));
    assert_eq!(get(attr, "returns"), None);
}

#[test]
fn attr_map_last_entry_wins() {
    assert_eq!(get("a = 1, b = 2, a = 3", "a"), Some("3".to_string()));
    assert_eq!(get("a = 1, b = 2, a = 3", "b"), Some("2".to_string()));
}

#[test]
fn attr_map_entry_without_value() {
    assert_eq!(get("flag", "flag"), Some("".to_string()));
    assert_eq!(get("", ""), Some("".to_string()));
    assert_eq!(get("a=1,", ""), Some("".to_string()));
}

#[test]
fn attr_map_takes_second_part_only() {
    assert_eq!(get("a = b = c", "a"), Some("b".to_string()));
}

#[test]
fn attr_map_trims_then_unquotes() {
    assert_eq!(get("  key\t=\" x \"  ", "key"), Some(" x ".to_string()));
    assert_eq!(get("k = a\"b\"c", "k"), Some("abc".to_string()));
    assert_eq!(get("\u{3000}k\u{a0}= v", "k"), Some("v".to_string()));
}

#[test]
fn attr_map_keys_are_trimmed() {
    let m = parse_attr_to_map(" spaced key = 1");
    assert_eq!(m.get("spaced key").cloned(), Some("1".to_string()));
    assert_eq!(m.get(" spaced key").cloned(), None);
}

#[test]
fn parse_attr_defaults() {
    let a = JavaBindgenAttr::parse_attr("");
    assert_eq!(a.package, "");
    assert_eq!(a.return_type, None);
}

#[test]
fn parse_attr_package_and_return() {
    let a = JavaBindgenAttr::parse_attr("package = \"com.acme\", return = \"java.lang.String\"");
    assert_eq!(a.package, "com.acme");
    assert_eq!(a.return_type, Some("java.lang.String".to_string()));
}

#[test]
fn parse_attr_plural_return_key() {
    let a = JavaBindgenAttr::parse_attr("returns = \"int\"");
    assert_eq!(a.return_type, Some("int".to_string()));
}

#[test]
fn parse_attr_singular_key_takes_precedence() {
    let a = JavaBindgenAttr::parse_attr("returns = \"int\", return = \"long\"");
    assert_eq!(a.return_type, Some("long".to_string()));
}
