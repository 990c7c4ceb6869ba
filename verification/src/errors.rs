use vstd::prelude::*;

verus! {

/// Which sub-record of a composite account failed to persist while the
/// principal row had already been committed.
#[derive(Clone, Copy, Debug, PartialEq, Eq, Structural)]
pub enum WhichRecord {
    VehicleRecord,
    BankDetailRecord,
}

/// The error taxonomy of the account-provisioning and session-authentication
/// core.  Refusals that must stay uninformative to outside callers
/// (`InvalidCredentials`, `Unauthorized`) carry no payload at all.
#[derive(Clone, Copy, Debug, PartialEq, Eq, Structural)]
pub enum Error {
    /// Login refusal: unknown email or mismatched credential.  The two cases
    /// are deliberately indistinguishable.
    InvalidCredentials,
    /// The identity store reported a uniqueness violation (duplicate email).
    DuplicateIdentity,
    /// A requested record does not exist (e.g. no bank details for a principal).
    NotFound,
    /// The principal row was committed but one of the dependent records was
    /// not; the payload says which insert failed.
    PartialProvisioning(WhichRecord),
    /// Authenticated decryption refused a blob: tampered data, a wrong
    /// secret, or a blob too short to carry the fixed header.
    AuthenticationFailure,
    /// Field encryption was requested while no secret is configured.
    ConfigurationMissing,
    /// Catch-all for data-store failures without a recognized meaning.
    StorageFailure,
    /// The access guard rejected an unauthenticated request to a protected
    /// route.
    Unauthorized,
    /// The request body was malformed (reported by the request validator).
    ValidationFailure,
    /// The cryptography provider reported an internal fault.
    CryptoFault,
}

/// The HTTP status that each error surfaces as.
pub open spec fn status_of(e: Error) -> u16 {
    match e {
        Error::InvalidCredentials => 401,
        Error::DuplicateIdentity => 409,
        Error::NotFound => 404,
        Error::PartialProvisioning(_) => 500,
        Error::AuthenticationFailure => 500,
        Error::ConfigurationMissing => 500,
        Error::StorageFailure => 500,
        Error::Unauthorized => 401,
        Error::ValidationFailure => 422,
        Error::CryptoFault => 500,
    }
}

impl Error {
    /// The HTTP status code this error is reported with.
    pub fn status_code(&self) -> (code: u16)
        ensures
            code == status_of(*self),
    {
        match self {
            Error::InvalidCredentials => 401,
            Error::DuplicateIdentity => 409,
            Error::NotFound => 404,
            Error::PartialProvisioning(_) => 500,
            Error::AuthenticationFailure => 500,
            Error::ConfigurationMissing => 500,
            Error::StorageFailure => 500,
            Error::Unauthorized => 401,
            Error::ValidationFailure => 422,
            Error::CryptoFault => 500,
        }
    }
}

} // verus!
