use magic_crypt::{MagicCrypt256, MagicCryptTrait};

use unity_catalog::api_client::bearer_token_matches;
use unity_catalog::credential_service::storage_credentials_response;
use unity_catalog::errors::CatalogError;
use unity_catalog::metastore::{
    Catalog, CatalogResponse, DatabricksMetastoreClient, MetastoreClient, Schema, SchemaResponse,
    Table, TableResponse,
};
use unity_catalog::permissions::{authentication_accepted, PrivilegeAssignmentsResponse, User};
use unity_catalog::reader::AzureDataLakeGen2Options;
use unity_catalog::sql::compose_upsert_sql;

fn sample_catalog(name: &str, owner: &str) -> Catalog {
    Catalog {
        name: name.to_string(),
        owner: owner.to_string(),
        comment: None,
        storage_root: None,
        provider_name: None,
        share_name: None,
        enable_predictive_optimization: None,
        metastore_id: "m1".to_string(),
        created_at: 1,
        created_by: owner.to_string(),
        updated_at: None,
        updated_by: None,
        catalog_type: "MANAGED_CATALOG".to_string(),
        storage_location: None,
        isolation_mode: None,
        connection_name: None,
        full_name: name.to_string(),
        securable_kind: None,
        securable_type: None,
        browse_only: None,
    }
}

fn sample_schema(name: &str) -> Schema {
    Schema {
        name: name.to_string(),
        catalog_name: "rac".to_string(),
        owner: "alice".to_string(),
        comment: None,
        storage_root: None,
        enable_predictive_optimization: None,
        metastore_id: "m1".to_string(),
        full_name: format!("rac.{}", name),
        storage_location: None,
        created_at: 1,
        created_by: "alice".to_string(),
        updated_at: None,
        updated_by: None,
        catalog_type: None,
        browse_only: None,
        schema_id: "s1".to_string(),
    }
}

#[test]
fn response_wrappers_keep_their_contents() {
    let catalogs = CatalogResponse::new(vec![sample_catalog("rac", "alice")]);
    assert_eq!(catalogs.catalogs.len(), 1);
    assert_eq!(catalogs.catalogs[0].name, "rac");

    let schemas = SchemaResponse::new(vec![sample_schema("pos")]);
    assert_eq!(schemas.schemas.as_ref().unwrap().len(), 1);

    let tables = TableResponse::new(Vec::<Table>::new());
    assert_eq!(tables.tables.unwrap().len(), 0);

    let grants = PrivilegeAssignmentsResponse::new();
    assert_eq!(grants.privilege_assignments.unwrap().len(), 0);
}

#[test]
fn extend_schemas_accumulates_in_order() {
    let mut listing = SchemaResponse { schemas: None };
    listing.extend_schemas(vec![sample_schema("a")]);
    listing.extend_schemas(vec![sample_schema("b"), sample_schema("c")]);
    let names: Vec<String> =
        listing.schemas.unwrap().iter().map(|s| s.name.clone()).collect();
    assert_eq!(names, vec!["a".to_string(), "b".to_string(), "c".to_string()]);
}

#[test]
fn clients_carry_their_configuration() {
    let client = unity_catalog::metastore::Client::new("ws".to_string(), "tok".to_string());
    assert_eq!(client.api_client.workspace_name, "ws");
    assert_eq!(client.api_client.db_token, "tok");

    let listing = MetastoreClient::new("ws2".to_string(), "tok2".to_string());
    assert_eq!(listing.api_client.workspace_name, "ws2");

    let bare = DatabricksMetastoreClient {
        db_token: "tok3".to_string(),
        workspace_name: "ws3".to_string(),
    };
    assert_eq!(bare.workspace_name, "ws3");
}

#[test]
fn authentication_requires_success_and_exact_name() {
    let user = User {
        id: "1".to_string(),
        user_name: "alice@example.com".to_string(),
        display_name: "Alice".to_string(),
        active: true,
    };
    assert!(authentication_accepted(true, &user, "alice@example.com"));
    assert!(!authentication_accepted(false, &user, "alice@example.com"));
    assert!(!authentication_accepted(true, &user, "Alice@example.com"));
    assert!(!authentication_accepted(true, &user, "bob@example.com"));
}

#[test]
fn bearer_token_must_match_exactly() {
    assert!(bearer_token_matches("tok", "tok"));
    assert!(!bearer_token_matches("tok", "tok2"));
    assert!(!bearer_token_matches("tok", ""));
}

#[test]
fn upsert_statement_shape() {
    assert_eq!(
        compose_upsert_sql("catalogs", "id"),
        "INSERT INTO catalogs *\n            ON CONFLICT(id) DO UPDATE SET * "
    );
}

#[test]
fn credential_endpoint_refuses_wrong_token() {
    let creds = AzureDataLakeGen2Options::new(
        "account".to_string(),
        "client".to_string(),
        "secret".to_string(),
        "tenant".to_string(),
    );
    let err = storage_credentials_response("service-token", "other", &creds).unwrap_err();
    assert_eq!(err, CatalogError::Unauthorized);
    assert_eq!(err.message(), "Unauthorized");
}

#[test]
fn credential_endpoint_encrypts_each_credential() {
    let creds = AzureDataLakeGen2Options::new(
        "account".to_string(),
        "client".to_string(),
        "secret".to_string(),
        "tenant".to_string(),
    );
    let pairs = storage_credentials_response("service-token", "service-token", &creds).unwrap();
    let keys: Vec<&str> = pairs.iter().map(|p| p.0.as_str()).collect();
    assert_eq!(
        keys,
        vec![
            "azure_storage_account_name",
            "azure_client_id",
            "azure_client_secret",
            "azure_tenant_id"
        ]
    );
    // The payload is not the plaintext, and it decrypts back to it
    // under the service token.
    let mc = MagicCrypt256::new("service-token", None::<&[u8]>);
    assert_ne!(pairs[2].1, "secret");
    assert_eq!(mc.decrypt_base64_to_string(&pairs[2].1).unwrap(), "secret");
    assert_eq!(mc.decrypt_base64_to_string(&pairs[0].1).unwrap(), "account");
}

#[test]
fn error_messages() {
    assert_eq!(CatalogError::TableLocationNotFound.message(), "Table Location Not Found.");
    assert_eq!(CatalogError::PermissionDenied.message(), "Permission Denied.");
    assert_eq!(CatalogError::AuthorizationFailed.message(), "Authorization Failed.");
    assert_eq!(CatalogError::WriteNotSupported.message(), "Write Not Supported.");
}
