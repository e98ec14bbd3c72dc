use vstd::prelude::*;

use crate::api_client::APIClient;
use crate::errors::CatalogError;
use crate::frames::{empty_frame, frame_rows};
use crate::metastore::Client;

verus! {

/// True when `s` contains no `/` separator.
pub open spec fn slash_free(s: Seq<char>) -> bool {
    forall|i: int| 0 <= i < s.len() ==> s[i] != '/'
}

/// The storage-object key of one data-file reference: its last path
/// segment, the part after the final `/` (or the whole reference when
/// it has no separator).
pub fn file_object_key(uri: &str) -> (r: String)
    ensures
        slash_free(r@),
        exists|k: int|
            0 <= k <= uri@.len() && r@ == uri@.subrange(k, uri@.len() as int) && (k == 0 || uri@[k
                - 1] == '/'),
{
    let n = uri.unicode_len();
    let mut start: usize = 0;
    let mut i: usize = 0;
    while i < n
        invariant
            start <= i <= n,
            n == uri@.len(),
            start == 0 || uri@[start as int - 1] == '/',
            slash_free(uri@.subrange(start as int, i as int)),
        decreases n - i,
    {
        if uri.get_char(i) == '/' {
            start = i + 1;
            i = i + 1;
            proof {
                assert(uri@.subrange(start as int, i as int) =~= Seq::<char>::empty());
            }
        } else {
            i = i + 1;
            proof {
                assert(uri@.subrange(start as int, i as int) =~= uri@.subrange(
                    start as int,
                    i as int - 1,
                ).push(uri@[i as int - 1]));
            }
        }
    }
    let r = uri.substring_char(start, n).to_owned();
    proof {
        assert(r@ == uri@.subrange(start as int, n as int));
    }
    r
}

fn clone_bytes(v: &Vec<u8>) -> (r: Vec<u8>)
    ensures
        r@ == v@,
{
    let mut r: Vec<u8> = Vec::new();
    let mut i: usize = 0;
    while i < v.len()
        invariant
            i <= v@.len(),
            r@ == v@.take(i as int),
        decreases v@.len() - i,
    {
        r.push(v[i]);
        proof {
            assert(v@.take(i as int + 1) =~= v@.take(i as int).push(v@[i as int]));
        }
        i = i + 1;
    }
    proof {
        assert(v@.take(v@.len() as int) =~= v@);
    }
    r
}

/// Folds per-file fetch outcomes into one all-or-nothing result: the
/// fetched contents in file order, or the first failure. One failed
/// fetch fails the whole read — no partial table is ever assembled —
/// and this holds whether the fetches ran one by one or concurrently,
/// since only the per-file outcomes enter here.
pub fn collect_fetches(results: &Vec<Result<Vec<u8>, String>>) -> (r: Result<Vec<Vec<u8>>, String>)
    ensures
        r is Ok <==> (forall|i: int| 0 <= i < results@.len() ==> #[trigger] results@[i] is Ok),
        r is Ok ==> r->Ok_0@.len() == results@.len() && (forall|i: int|
            0 <= i < results@.len() ==> #[trigger] r->Ok_0@[i]@ == results@[i]->Ok_0@),
        r is Err ==> exists|i: int|
            0 <= i < results@.len() && #[trigger] results@[i] is Err && r->Err_0@
                == results@[i]->Err_0@ && (forall|j: int| 0 <= j < i ==> #[trigger] results@[j] is Ok),
{
    let mut out: Vec<Vec<u8>> = Vec::new();
    let mut i: usize = 0;
    while i < results.len()
        invariant
            i <= results@.len(),
            out@.len() == i,
            forall|j: int| 0 <= j < i ==> #[trigger] results@[j] is Ok,
            forall|j: int| 0 <= j < i ==> #[trigger] out@[j]@ == results@[j]->Ok_0@,
        decreases results@.len() - i,
    {
        match &results[i] {
            Ok(bytes) => {
                out.push(clone_bytes(bytes));
            },
            Err(e) => {
                return Err(e.clone());
            },
        }
        i = i + 1;
    }
    Ok(out)
}

/// The storage-account credential bundle the object store is opened
/// with, independent of the metadata-service credential.
#[derive(Debug)]
pub struct AzureDataLakeGen2Options {
    pub azure_storage_account_name: String,
    pub azure_client_id: String,
    pub azure_client_secret: String,
    pub azure_tenant_id: String,
}

impl AzureDataLakeGen2Options {
    /// Bundles the four storage credentials.
    pub fn new(
        azure_storage_account_name: String,
        azure_client_id: String,
        azure_client_secret: String,
        azure_tenant_id: String,
    ) -> (r: Self)
        ensures
            r.azure_storage_account_name == azure_storage_account_name,
            r.azure_client_id == azure_client_id,
            r.azure_client_secret == azure_client_secret,
            r.azure_tenant_id == azure_tenant_id,
    {
        AzureDataLakeGen2Options {
            azure_storage_account_name,
            azure_client_id,
            azure_client_secret,
            azure_tenant_id,
        }
    }

    /// The storage options as key–value pairs, exactly the four
    /// credentials under their option names. The caller turns them
    /// into whatever map the store opener expects.
    pub fn to_pairs(&self) -> (r: Vec<(String, String)>)
        ensures
            r@.len() == 4,
            r@[0].0@ == "azure_storage_account_name"@ && r@[0].1@
                == self.azure_storage_account_name@,
            r@[1].0@ == "azure_client_id"@ && r@[1].1@ == self.azure_client_id@,
            r@[2].0@ == "azure_client_secret"@ && r@[2].1@ == self.azure_client_secret@,
            r@[3].0@ == "azure_tenant_id"@ && r@[3].1@ == self.azure_tenant_id@,
    {
        let mut r: Vec<(String, String)> = Vec::new();
        r.push(
            (
                String::from_str("azure_storage_account_name"),
                self.azure_storage_account_name.clone(),
            ),
        );
        r.push((String::from_str("azure_client_id"), self.azure_client_id.clone()));
        r.push((String::from_str("azure_client_secret"), self.azure_client_secret.clone()));
        r.push((String::from_str("azure_tenant_id"), self.azure_tenant_id.clone()));
        r
    }
}

/// The result of a permission-checked table read: either an explicit
/// denial, or the assembled table. The two are kept apart here so a
/// denial is never mistaken for a genuinely empty table.
pub enum ReadOutcome {
    /// The resolver denied read access; no data was fetched.
    Denied,
    /// The table was read and assembled.
    Loaded(polars::prelude::DataFrame),
}

impl ReadOutcome {
    /// Collapses the outcome the way the read entry point reports it:
    /// a denial becomes an empty table, indistinguishable from a table
    /// that holds no rows. Callers that must tell the two apart match
    /// on the outcome instead.
    pub fn into_frame(self) -> (r: polars::prelude::DataFrame)
        ensures
            self matches ReadOutcome::Loaded(df) ==> frame_rows(r) == frame_rows(df),
            self is Denied ==> frame_rows(r).len() == 0,
    {
        match self {
            ReadOutcome::Denied => empty_frame(),
            ReadOutcome::Loaded(df) => df,
        }
    }
}

/// The write path is not implemented. An authorized write request is
/// refused explicitly rather than reported as a successful no-op; an
/// unauthorized one is denied.
pub fn write_table_outcome(authorized: bool) -> (r: Result<(), CatalogError>)
    ensures
        r is Err,
        authorized ==> r->Err_0 == CatalogError::WriteNotSupported,
        !authorized ==> r->Err_0 == CatalogError::PermissionDenied,
{
    if authorized {
        Err(CatalogError::WriteNotSupported)
    } else {
        Err(CatalogError::PermissionDenied)
    }
}

/// The facade that reads authorized tables: one storage-credential
/// bundle, one transport configuration, one metadata client, and the
/// principal every call is checked for. The construction-time gate is
/// `from_parts`; the fetch-and-decide loops around the authorizer and
/// the assembler live with the caller, which owns the transport.
#[derive(Debug)]
pub struct DeltaLakeManager {
    pub storage_credentials: AzureDataLakeGen2Options,
    pub api_client: APIClient,
    pub metastore_client: Client,
    pub principal: String,
}

impl DeltaLakeManager {
    /// The construction-time gate. The caller authenticates the
    /// principal against the identity endpoint and passes the verdict
    /// in; under strict construction a failed authentication refuses
    /// the manager outright, under non-strict construction the
    /// verdict is recorded by the caller but does not block. Both the
    /// verdict and the mode are explicit because the two behaviours
    /// both occur in practice and a caller must choose knowingly.
    pub fn from_parts(
        storage_credentials: AzureDataLakeGen2Options,
        api_client: APIClient,
        metastore_client: Client,
        principal: String,
        authenticated: bool,
        strict: bool,
    ) -> (r: Result<DeltaLakeManager, CatalogError>)
        ensures
            r is Ok <==> (authenticated || !strict),
            r is Err ==> r->Err_0 == CatalogError::AuthorizationFailed,
            r is Ok ==> r->Ok_0.storage_credentials == storage_credentials
                && r->Ok_0.api_client == api_client && r->Ok_0.metastore_client == metastore_client
                && r->Ok_0.principal == principal,
    {
        if authenticated || !strict {
            Ok(
                DeltaLakeManager {
                    storage_credentials,
                    api_client,
                    metastore_client,
                    principal,
                },
            )
        } else {
            Err(CatalogError::AuthorizationFailed)
        }
    }
}

} // verus!
