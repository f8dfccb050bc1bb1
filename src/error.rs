use vstd::prelude::*;

verus! {

/// Every failure that the library reports.
#[derive(Debug, Clone, PartialEq, Eq)]
pub enum Error {
    AssumeRoleError(String),
    GetSessionTokenError(String),
    ProfileNotForSignIn(String),
    ProfileNotSignedIn(String),
    RusotoTlsError(String),
    RusotoCredentialsError(String),
    ProfileNotFound(String),
    ProfileTypeError(String, String),
    ProfileParamNotFound(String, String),
    AssumeRoleSettingNotFound(String),
    ConfigFileError(String),
    CredentialFileError(String),
    NgydvConfigError(String),
    AwsResponseFormatError(String),
    UserHomeNotFoundError,
    UnableToWriteCredentialFileError(String),
    UnableToRemoveCredentialFileError(String),
    SessionExpiredError(String),
}

} // verus!
