use vstd::prelude::*;

use magic_crypt::MagicCryptTrait;

use crate::api_client::bearer_token_matches;
use crate::errors::CatalogError;
use crate::reader::AzureDataLakeGen2Options;

verus! {

/// What encrypting `plain` under `key` yields. The cipher derives its
/// key and initialization vector from the passphrase alone, so the
/// result is a function of the two texts.
pub uninterp spec fn encrypted_of(key: Seq<char>, plain: Seq<char>) -> Seq<char>;

/// Relies on `MagicCrypt256::new` and
/// `MagicCryptTrait::encrypt_str_to_base64`: AES-256-CBC under a key
/// hashed from the passphrase, with the default initialization
/// vector, rendered as base64.
#[verifier::external_body]
pub(crate) fn encrypt_string(plain_text: String, encrypt_key: &str) -> (r: String)
    ensures
        r@ == encrypted_of(encrypt_key@, plain_text@),
{
    let mc = magic_crypt::MagicCrypt256::new(encrypt_key, None::<&[u8]>);
    mc.encrypt_str_to_base64(plain_text)
}

/// The credential endpoint's decision and payload: a caller that does
/// not present the service's own bearer token is refused; one that
/// does receives the four storage credentials, keyed by their option
/// names, each encrypted under the service token.
pub fn storage_credentials_response(
    expected_token: &str,
    presented_token: &str,
    credentials: &AzureDataLakeGen2Options,
) -> (r: Result<Vec<(String, String)>, CatalogError>)
    ensures
        r is Ok <==> presented_token@ == expected_token@,
        r is Err ==> r->Err_0 == CatalogError::Unauthorized,
        r is Ok ==> r->Ok_0@.len() == 4 && r->Ok_0@[0].0@ == "azure_storage_account_name"@
            && r->Ok_0@[0].1@ == encrypted_of(
            expected_token@,
            credentials.azure_storage_account_name@,
        ) && r->Ok_0@[1].0@ == "azure_client_id"@ && r->Ok_0@[1].1@ == encrypted_of(
            expected_token@,
            credentials.azure_client_id@,
        ) && r->Ok_0@[2].0@ == "azure_client_secret"@ && r->Ok_0@[2].1@ == encrypted_of(
            expected_token@,
            credentials.azure_client_secret@,
        ) && r->Ok_0@[3].0@ == "azure_tenant_id"@ && r->Ok_0@[3].1@ == encrypted_of(
            expected_token@,
            credentials.azure_tenant_id@,
        ),
{
    if !bearer_token_matches(expected_token, presented_token) {
        return Err(CatalogError::Unauthorized);
    }
    let mut out: Vec<(String, String)> = Vec::new();
    out.push(
        (
            String::from_str("azure_storage_account_name"),
            encrypt_string(credentials.azure_storage_account_name.clone(), expected_token),
        ),
    );
    out.push(
        (
            String::from_str("azure_client_id"),
            encrypt_string(credentials.azure_client_id.clone(), expected_token),
        ),
    );
    out.push(
        (
            String::from_str("azure_client_secret"),
            encrypt_string(credentials.azure_client_secret.clone(), expected_token),
        ),
    );
    out.push(
        (
            String::from_str("azure_tenant_id"),
            encrypt_string(credentials.azure_tenant_id.clone(), expected_token),
        ),
    );
    Ok(out)
}

} // verus!
