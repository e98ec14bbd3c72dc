use vstd::prelude::*;

verus! {

/// The failures that the catalog core distinguishes.
///
/// An authorization denial is *not* an error: the permission checks
/// report it as a `false` result. These variants cover the hard
/// failures that abort an operation outright.
#[derive(Debug, Clone, Copy, PartialEq, Eq, Structural)]
pub enum CatalogError {
    /// The table descriptor carries no storage location.
    TableLocationNotFound,
    /// The principal is not allowed to perform the operation.
    PermissionDenied,
    /// The principal could not be authenticated at construction time.
    AuthorizationFailed,
    /// The write path is not implemented; a write request is refused
    /// rather than silently treated as a successful no-op.
    WriteNotSupported,
    /// The caller did not present the service's own bearer token.
    Unauthorized,
}

impl CatalogError {
    /// The user-facing message for this error.
    pub fn message(&self) -> (r: String)
        ensures
            r@ == self.spec_message(),
    {
        match self {
            CatalogError::TableLocationNotFound => String::from_str("Table Location Not Found."),
            CatalogError::PermissionDenied => String::from_str("Permission Denied."),
            CatalogError::AuthorizationFailed => String::from_str("Authorization Failed."),
            CatalogError::WriteNotSupported => String::from_str("Write Not Supported."),
            CatalogError::Unauthorized => String::from_str("Unauthorized"),
        }
    }

    /// The message each variant renders to.
    pub open spec fn spec_message(self) -> Seq<char> {
        match self {
            CatalogError::TableLocationNotFound => "Table Location Not Found."@,
            CatalogError::PermissionDenied => "Permission Denied."@,
            CatalogError::AuthorizationFailed => "Authorization Failed."@,
            CatalogError::WriteNotSupported => "Write Not Supported."@,
            CatalogError::Unauthorized => "Unauthorized"@,
        }
    }
}

} // verus!
