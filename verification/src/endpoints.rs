use vstd::prelude::*;

use crate::securable::SecurableType;
use crate::text::{push_decimal, spec_decimal};

verus! {

/// The common prefix of every catalog-service request path.
pub open spec fn spec_api_base(workspace: Seq<char>) -> Seq<char> {
    "https://"@ + workspace + "/api/2.1/unity-catalog/"@
}

fn api_base(workspace: &str) -> (r: String)
    ensures
        r@ == spec_api_base(workspace@),
{
    let mut s = String::from_str("https://");
    s.append(workspace);
    s.append("/api/2.1/unity-catalog/");
    proof {
        assert(s@ =~= spec_api_base(workspace@));
    }
    s
}

/// The catalog listing endpoint.
pub fn catalogs_url(workspace: &str) -> (r: String)
    ensures
        r@ == spec_api_base(workspace@) + "catalogs"@,
{
    let mut s = api_base(workspace);
    s.append("catalogs");
    proof {
        assert(s@ =~= spec_api_base(workspace@) + "catalogs"@);
    }
    s
}

/// The schema listing endpoint for one catalog, with an optional page
/// size appended as a query parameter.
pub fn schemas_url(workspace: &str, catalog_name: &str, max_results: Option<usize>) -> (r: String)
    ensures
        (match max_results {
            None => r@ == spec_api_base(workspace@) + "schemas?catalog_name="@ + catalog_name@,
            Some(max) => r@ == spec_api_base(workspace@) + "schemas?catalog_name="@ + catalog_name@
                + "&max_results="@ + spec_decimal(max as nat),
        }),
{
    let mut s = api_base(workspace);
    s.append("schemas?catalog_name=");
    s.append(catalog_name);
    proof {
        assert(s@ =~= spec_api_base(workspace@) + "schemas?catalog_name="@ + catalog_name@);
    }
    if let Some(max) = max_results {
        let ghost before = s@;
        s.append("&max_results=");
        push_decimal(&mut s, max);
        proof {
            assert(s@ =~= before + "&max_results="@ + spec_decimal(max as nat));
        }
    }
    s
}

/// The table listing endpoint for one catalog and schema, with an
/// optional page size appended as a query parameter.
pub fn tables_url(
    workspace: &str,
    catalog_name: &str,
    schema_name: &str,
    max_results: Option<usize>,
) -> (r: String)
    ensures
        (match max_results {
            None => r@ == spec_api_base(workspace@) + "tables?catalog_name="@ + catalog_name@
                + "&schema_name="@ + schema_name@,
            Some(max) => r@ == spec_api_base(workspace@) + "tables?catalog_name="@ + catalog_name@
                + "&schema_name="@ + schema_name@ + "&max_results="@ + spec_decimal(max as nat),
        }),
{
    let mut s = api_base(workspace);
    s.append("tables?catalog_name=");
    s.append(catalog_name);
    s.append("&schema_name=");
    s.append(schema_name);
    proof {
        assert(s@ =~= spec_api_base(workspace@) + "tables?catalog_name="@ + catalog_name@
            + "&schema_name="@ + schema_name@);
    }
    if let Some(max) = max_results {
        let ghost before = s@;
        s.append("&max_results=");
        push_decimal(&mut s, max);
        proof {
            assert(s@ =~= before + "&max_results="@ + spec_decimal(max as nat));
        }
    }
    s
}

/// The endpoint describing one table.
pub fn table_url(workspace: &str, full_table_name: &str) -> (r: String)
    ensures
        r@ == spec_api_base(workspace@) + "tables/"@ + full_table_name@,
{
    let mut s = api_base(workspace);
    s.append("tables/");
    s.append(full_table_name);
    proof {
        assert(s@ =~= spec_api_base(workspace@) + "tables/"@ + full_table_name@);
    }
    s
}

/// The endpoint describing one schema.
pub fn schema_url(workspace: &str, full_schema_name: &str) -> (r: String)
    ensures
        r@ == spec_api_base(workspace@) + "schemas/"@ + full_schema_name@,
{
    let mut s = api_base(workspace);
    s.append("schemas/");
    s.append(full_schema_name);
    proof {
        assert(s@ =~= spec_api_base(workspace@) + "schemas/"@ + full_schema_name@);
    }
    s
}

/// The endpoint describing one catalog.
pub fn catalog_url(workspace: &str, name: &str) -> (r: String)
    ensures
        r@ == spec_api_base(workspace@) + "catalogs/"@ + name@,
{
    let mut s = api_base(workspace);
    s.append("catalogs/");
    s.append(name);
    proof {
        assert(s@ =~= spec_api_base(workspace@) + "catalogs/"@ + name@);
    }
    s
}

/// The expected shape of a privilege-grant query for one securable and
/// principal.
pub open spec fn spec_permissions_url(
    workspace: Seq<char>,
    securable: SecurableType,
    full_name: Seq<char>,
    principal: Seq<char>,
) -> Seq<char> {
    spec_api_base(workspace) + "permissions/"@ + securable.spec_token() + "/"@ + full_name
        + "?principal="@ + principal
}

/// The privilege-grant query for one securable, restricted to one
/// principal.
pub fn permissions_url(
    workspace: &str,
    securable: &SecurableType,
    full_name: &str,
    principal: &str,
) -> (r: String)
    ensures
        r@ == spec_permissions_url(workspace@, *securable, full_name@, principal@),
{
    let mut s = api_base(workspace);
    s.append("permissions/");
    let token = securable.token_string();
    s.append(token.as_str());
    s.append("/");
    s.append(full_name);
    s.append("?principal=");
    s.append(principal);
    proof {
        assert(s@ =~= spec_permissions_url(workspace@, *securable, full_name@, principal@));
    }
    s
}

/// The expected shape of an ownership lookup: the describe endpoint of
/// the securable's own kind, whose response carries the owner.
pub open spec fn spec_owner_url(
    workspace: Seq<char>,
    securable: SecurableType,
    full_name: Seq<char>,
) -> Seq<char> {
    spec_api_base(workspace) + securable.spec_token() + "s/"@ + full_name
}

/// The describe endpoint used to look up the owner of one securable.
pub fn owner_url(workspace: &str, securable: &SecurableType, full_name: &str) -> (r: String)
    ensures
        r@ == spec_owner_url(workspace@, *securable, full_name@),
{
    let mut s = api_base(workspace);
    let token = securable.token_string();
    s.append(token.as_str());
    s.append("s/");
    s.append(full_name);
    proof {
        assert(s@ =~= spec_owner_url(workspace@, *securable, full_name@));
    }
    s
}

/// The identity endpoint answering who the presented credential belongs
/// to.
pub fn scim_me_url(workspace: &str) -> (r: String)
    ensures
        r@ == "https://"@ + workspace@ + "/api/2.0/preview/scim/v2/Me"@,
{
    let mut s = String::from_str("https://");
    s.append(workspace);
    s.append("/api/2.0/preview/scim/v2/Me");
    proof {
        assert(s@ =~= "https://"@ + workspace@ + "/api/2.0/preview/scim/v2/Me"@);
    }
    s
}

} // verus!
