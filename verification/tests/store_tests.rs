use chatbot_core::catalog::{Role, RoleCatalog};
use chatbot_core::store::{decode_catalog, encode_catalog, StoreError};

fn catalog_of(entries: &[(&str, &str)]) -> RoleCatalog {
    let mut cat = RoleCatalog::new();
    for (name, system) in entries {
        assert!(cat.insert(name.to_string(), Role { system: system.to_string() }));
    }
    cat
}

fn assert_catalog_eq(a: &RoleCatalog, b: &RoleCatalog) {
    assert_eq!(a.len(), b.len());
    for i in 0..a.len() {
        assert_eq!(a.name_at(i), b.name_at(i));
        assert_eq!(a.system_at(i), b.system_at(i));
    }
}

#[test]
fn roundtrip_empty_catalog() {
    let cat = RoleCatalog::new();
    let text = encode_catalog(&cat);
    assert_eq!(text, "");
    let back = decode_catalog(&text).unwrap();
    assert_eq!(back.len(), 0);
}

#[test]
fn roundtrip_simple_entries() {
    let cat = catalog_of(&[("Tutor", "You are a patient math tutor."), ("Coder", "You write code.")]);
    let text = encode_catalog(&cat);
    let back = decode_catalog(&text).unwrap();
    assert_catalog_eq(&cat, &back);
}

#[test]
fn roundtrip_escapes_line_breaks_and_backslashes() {
    let cat = catalog_of(&[
        ("Poet", "Write\nin\nlines"),
        ("Paths", "C:\\Users\\nobody\\n"),
        ("Empty", ""),
    ]);
    let text = encode_catalog(&cat);
    let back = decode_catalog(&text).unwrap();
    assert_catalog_eq(&cat, &back);
}

#[test]
fn encoded_form_is_two_lines_per_entry() {
    let cat = catalog_of(&[("Poet", "a\nb")]);
    assert_eq!(encode_catalog(&cat), "Poet\na\\nb\n");
}

#[test]
fn decode_rejects_malformed_text() {
    assert!(matches!(decode_catalog("no trailing newline"), Err(StoreError::Malformed)));
    assert!(matches!(decode_catalog("name\n"), Err(StoreError::Malformed)));
    assert!(matches!(decode_catalog("a\\qb\nx\n"), Err(StoreError::Malformed)));
    assert!(matches!(decode_catalog("dangling\\\nx\n"), Err(StoreError::Malformed)));
}

#[test]
fn decode_rejects_bad_names() {
    assert!(matches!(decode_catalog("a\nx\na\ny\n"), Err(StoreError::InvalidNames)));
    assert!(matches!(decode_catalog("a b\nx\n"), Err(StoreError::InvalidNames)));
}
