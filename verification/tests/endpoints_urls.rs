use unity_catalog::endpoints;
use unity_catalog::securable::SecurableType;

const WS: &str = "adb-1234.11.azuredatabricks.net";

#[test]
fn catalogs_listing_url() {
    assert_eq!(
        endpoints::catalogs_url(WS),
        "https://adb-1234.11.azuredatabricks.net/api/2.1/unity-catalog/catalogs"
    );
}

#[test]
fn schemas_listing_url() {
    assert_eq!(
        endpoints::schemas_url(WS, "rac", None),
        "https://adb-1234.11.azuredatabricks.net/api/2.1/unity-catalog/schemas?catalog_name=rac"
    );
    assert_eq!(
        endpoints::schemas_url(WS, "rac", Some(100)),
        "https://adb-1234.11.azuredatabricks.net/api/2.1/unity-catalog/schemas?catalog_name=rac&max_results=100"
    );
}

#[test]
fn tables_listing_url() {
    assert_eq!(
        endpoints::tables_url(WS, "rac", "pos", None),
        "https://adb-1234.11.azuredatabricks.net/api/2.1/unity-catalog/tables?catalog_name=rac&schema_name=pos"
    );
    assert_eq!(
        endpoints::tables_url(WS, "rac", "pos", Some(7)),
        "https://adb-1234.11.azuredatabricks.net/api/2.1/unity-catalog/tables?catalog_name=rac&schema_name=pos&max_results=7"
    );
}

#[test]
fn describe_urls() {
    assert_eq!(
        endpoints::table_url(WS, "rac.pos.sales"),
        "https://adb-1234.11.azuredatabricks.net/api/2.1/unity-catalog/tables/rac.pos.sales"
    );
    assert_eq!(
        endpoints::schema_url(WS, "rac.pos"),
        "https://adb-1234.11.azuredatabricks.net/api/2.1/unity-catalog/schemas/rac.pos"
    );
    assert_eq!(
        endpoints::catalog_url(WS, "rac"),
        "https://adb-1234.11.azuredatabricks.net/api/2.1/unity-catalog/catalogs/rac"
    );
}

#[test]
fn permissions_and_owner_urls() {
    assert_eq!(
        endpoints::permissions_url(WS, &SecurableType::Table, "rac.pos.sales", "alice"),
        "https://adb-1234.11.azuredatabricks.net/api/2.1/unity-catalog/permissions/table/rac.pos.sales?principal=alice"
    );
    assert_eq!(
        endpoints::owner_url(WS, &SecurableType::Schema, "rac.pos"),
        "https://adb-1234.11.azuredatabricks.net/api/2.1/unity-catalog/schemas/rac.pos"
    );
    assert_eq!(
        endpoints::owner_url(WS, &SecurableType::Catalog, "rac"),
        "https://adb-1234.11.azuredatabricks.net/api/2.1/unity-catalog/catalogs/rac"
    );
}

#[test]
fn page_size_rendering_edges() {
    assert_eq!(
        endpoints::schemas_url(WS, "c", Some(0)),
        "https://adb-1234.11.azuredatabricks.net/api/2.1/unity-catalog/schemas?catalog_name=c&max_results=0"
    );
    assert_eq!(
        endpoints::schemas_url(WS, "c", Some(120450)),
        "https://adb-1234.11.azuredatabricks.net/api/2.1/unity-catalog/schemas?catalog_name=c&max_results=120450"
    );
}

#[test]
fn identity_url() {
    assert_eq!(
        endpoints::scim_me_url(WS),
        "https://adb-1234.11.azuredatabricks.net/api/2.0/preview/scim/v2/Me"
    );
}
