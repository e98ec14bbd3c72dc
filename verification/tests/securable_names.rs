use unity_catalog::securable::{SecurableName, SecurableType};

#[test]
fn parse_three_segments() {
    let name = SecurableName::parse("rac_demo_catalog.rust_schema.dbu_forecasts");
    assert_eq!(name.segment_count(), 3);
    assert_eq!(name.catalog_name(), "rac_demo_catalog");
    assert_eq!(name.schema_name(), "rac_demo_catalog.rust_schema");
    assert_eq!(name.object_name(), "rac_demo_catalog.rust_schema.dbu_forecasts");
}

#[test]
fn parse_two_segments() {
    let name = SecurableName::parse("main.abs_dev");
    assert_eq!(name.segment_count(), 2);
    assert_eq!(name.catalog_name(), "main");
    assert_eq!(name.schema_name(), "main.abs_dev");
    assert_eq!(name.object_name(), "main.abs_dev");
}

#[test]
fn parse_one_segment() {
    let name = SecurableName::parse("main");
    assert_eq!(name.segment_count(), 1);
    assert_eq!(name.catalog_name(), "main");
    assert_eq!(name.object_name(), "main");
}

#[test]
fn parse_never_rejects() {
    // Tolerant parsing: empty and odd inputs still come out as names.
    let empty = SecurableName::parse("");
    assert_eq!(empty.segment_count(), 1);
    assert_eq!(empty.catalog_name(), "");

    let doubled = SecurableName::parse("a..b");
    assert_eq!(doubled.segment_count(), 3);
    assert_eq!(doubled.catalog_name(), "a");
    assert_eq!(doubled.schema_name(), "a.");

    let four = SecurableName::parse("a.b.c.d");
    assert_eq!(four.segment_count(), 4);
    assert_eq!(four.schema_name(), "a.b");
    assert_eq!(four.object_name(), "a.b.c.d");
}

#[test]
fn securable_tokens_round_trip() {
    let kinds = [
        SecurableType::Catalog,
        SecurableType::Schema,
        SecurableType::Table,
        SecurableType::StorageCredential,
        SecurableType::ExternalLocation,
        SecurableType::Function,
        SecurableType::Share,
        SecurableType::Provider,
        SecurableType::Recipient,
        SecurableType::Metastore,
        SecurableType::Volume,
        SecurableType::Connection,
    ];
    for kind in kinds {
        let token = kind.token_string();
        assert_eq!(SecurableType::from_token(token.as_str()), Some(kind));
    }
}

#[test]
fn securable_token_values() {
    assert_eq!(SecurableType::Catalog.token_string(), "catalog");
    assert_eq!(SecurableType::StorageCredential.token_string(), "storage_credential");
    assert_eq!(SecurableType::Connection.token_string(), "connection");
}

#[test]
fn unknown_token_is_rejected() {
    assert_eq!(SecurableType::from_token("tables"), None);
    assert_eq!(SecurableType::from_token(""), None);
    assert_eq!(SecurableType::from_token("Catalog"), None);
}
