use vstd::prelude::*;

use crate::api_client::APIClient;
use crate::errors::CatalogError;

verus! {

/// A catalog: the root level of the securable hierarchy.
#[derive(Debug)]
pub struct Catalog {
    pub name: String,
    pub owner: String,
    pub comment: Option<String>,
    pub storage_root: Option<String>,
    pub provider_name: Option<String>,
    pub share_name: Option<String>,
    pub enable_predictive_optimization: Option<String>,
    pub metastore_id: String,
    pub created_at: i64,
    pub created_by: String,
    pub updated_at: Option<i64>,
    pub updated_by: Option<String>,
    pub catalog_type: String,
    pub storage_location: Option<String>,
    pub isolation_mode: Option<String>,
    pub connection_name: Option<String>,
    pub full_name: String,
    pub securable_kind: Option<String>,
    pub securable_type: Option<String>,
    pub browse_only: Option<bool>,
}

/// The listing wrapper around a batch of catalogs.
#[derive(Debug)]
pub struct CatalogResponse {
    pub catalogs: Vec<Catalog>,
}

impl CatalogResponse {
    /// Wraps an already-collected batch of catalogs.
    pub fn new(catalogs: Vec<Catalog>) -> (r: Self)
        ensures
            r.catalogs == catalogs,
    {
        CatalogResponse { catalogs }
    }
}

/// A schema: the middle level of the securable hierarchy.
#[derive(Debug)]
pub struct Schema {
    pub name: String,
    pub catalog_name: String,
    pub owner: String,
    pub comment: Option<String>,
    pub storage_root: Option<String>,
    pub enable_predictive_optimization: Option<String>,
    pub metastore_id: String,
    pub full_name: String,
    pub storage_location: Option<String>,
    pub created_at: i64,
    pub created_by: String,
    pub updated_at: Option<i64>,
    pub updated_by: Option<String>,
    pub catalog_type: Option<String>,
    pub browse_only: Option<bool>,
    pub schema_id: String,
}

/// The listing wrapper around a batch of schemas; the list is absent
/// when the service answered without one.
#[derive(Debug)]
pub struct SchemaResponse {
    pub schemas: Option<Vec<Schema>>,
}

impl SchemaResponse {
    /// Wraps an already-collected batch of schemas.
    pub fn new(schemas: Vec<Schema>) -> (r: Self)
        ensures
            r.schemas == Some(schemas),
    {
        SchemaResponse { schemas: Some(schemas) }
    }

    /// Adds one catalog's worth of schemas to an accumulating listing,
    /// keeping everything already gathered in order.
    pub fn extend_schemas(&mut self, new_schemas: Vec<Schema>)
        ensures
            final(self).schemas is Some,
            old(self).schemas is Some ==> final(self).schemas->0@ == old(self).schemas->0@
                + new_schemas@,
            old(self).schemas is None ==> final(self).schemas->0@ == new_schemas@,
    {
        let mut incoming = new_schemas;
        match &mut self.schemas {
            Some(existing) => {
                existing.append(&mut incoming);
            },
            None => {
                self.schemas = Some(incoming);
            },
        }
    }
}

/// A table: the leaf level of the securable hierarchy. Only the
/// storage location and the owner matter to authorization and
/// reading; the rest mirrors the service's descriptor.
#[derive(Debug)]
pub struct Table {
    pub name: String,
    pub catalog_name: String,
    pub schema_name: String,
    pub table_type: String,
    pub data_source_format: Option<String>,
    pub storage_location: Option<String>,
    pub view_definition: Option<String>,
    pub sql_path: Option<String>,
    pub owner: String,
    pub comment: Option<String>,
    pub storage_credential_name: Option<String>,
    pub enable_predictive_optimization: Option<String>,
    pub metastore_id: Option<String>,
    pub full_name: String,
    pub data_access_configuration_id: Option<String>,
    pub created_at: i64,
    pub created_by: String,
    pub updated_at: Option<i64>,
    pub updated_by: Option<String>,
    pub deleted_at: Option<i64>,
    pub table_id: String,
    pub access_point: Option<String>,
    pub pipeline_id: Option<String>,
    pub browse_only: Option<bool>,
}

impl Table {
    /// The storage location backing this table. A table without one
    /// has no data at rest to read: that is the hard
    /// "Table Location Not Found." error, never an empty result.
    pub fn storage_path(&self) -> (r: Result<String, CatalogError>)
        ensures
            r is Ok <==> self.storage_location is Some,
            r is Ok ==> r->Ok_0@ == self.storage_location->0@,
            r is Err ==> r->Err_0 == CatalogError::TableLocationNotFound,
    {
        match &self.storage_location {
            Some(loc) => Ok(loc.clone()),
            None => Err(CatalogError::TableLocationNotFound),
        }
    }
}

/// The listing wrapper around a batch of tables; the list is absent
/// when the service answered without one.
#[derive(Debug)]
pub struct TableResponse {
    pub tables: Option<Vec<Table>>,
}

impl TableResponse {
    /// Wraps an already-collected batch of tables.
    pub fn new(tables: Vec<Table>) -> (r: Self)
        ensures
            r.tables == Some(tables),
    {
        TableResponse { tables: Some(tables) }
    }
}

/// The metadata client used by the table manager: a transport
/// configuration for the describe endpoints. Its fetching half lives
/// outside the library; the request paths it uses come from
/// `endpoints`.
#[derive(Debug)]
pub struct Client {
    pub api_client: APIClient,
}

impl Client {
    /// Bundles a workspace and credential into a metadata client.
    pub fn new(workspace_name: String, db_token: String) -> (r: Self)
        ensures
            r.api_client.workspace_name == workspace_name,
            r.api_client.db_token == db_token,
    {
        Client { api_client: APIClient { db_token, workspace_name } }
    }
}

/// The metadata client used for bulk listing and caching runs; the
/// same configuration as `Client`, kept as its own type because the
/// two serve different callers.
#[derive(Debug)]
pub struct MetastoreClient {
    pub api_client: APIClient,
}

impl MetastoreClient {
    /// Bundles a workspace and credential into a listing client.
    pub fn new(workspace_name: String, db_token: String) -> (r: Self)
        ensures
            r.api_client.workspace_name == workspace_name,
            r.api_client.db_token == db_token,
    {
        MetastoreClient { api_client: APIClient { db_token, workspace_name } }
    }
}

/// A listing client that carries its credential and workspace
/// directly, without the transport bundle.
#[derive(Debug)]
pub struct DatabricksMetastoreClient {
    pub db_token: String,
    pub workspace_name: String,
}

} // verus!
