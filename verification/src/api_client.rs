use vstd::prelude::*;

use crate::text::str_eq;

verus! {

/// The configuration a transport needs: the workspace to talk to and
/// the bearer credential to present. The transport itself — issuing
/// the GET and surfacing status and body — lives outside the library.
#[derive(Debug)]
pub struct APIClient {
    /// The service credential used for authorization.
    pub db_token: String,
    /// The workspace the requests are addressed to.
    pub workspace_name: String,
}

/// Whether a presented bearer token is exactly the expected one. The
/// credential endpoint answers only callers that present the service's
/// own token.
pub fn bearer_token_matches(expected: &str, presented: &str) -> (r: bool)
    ensures
        r == (expected@ == presented@),
{
    str_eq(expected, presented)
}

} // verus!
