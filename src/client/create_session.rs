use vstd::prelude::*;
use crate::client::{answer_credential, answer_ok, issued_credential, with_credential, Authentication};
use crate::error::Error;
use crate::profile::{Access, IssuedCredentials, Profile};

verus! {

/// The fields of a session-token request.
#[derive(Debug, Clone, PartialEq, Eq)]
pub struct SessionTokenRequest {
    pub duration_seconds: Option<i64>,
    pub serial_number: Option<String>,
    pub token_code: Option<String>,
}

/// A session-token request and how it is authenticated.
#[derive(Debug, Clone, PartialEq, Eq)]
pub struct SessionCreation {
    pub authentication: Authentication,
    pub request: SessionTokenRequest,
}

/// How long a session lasts: twelve hours, in seconds.
pub const SESSION_SECONDS: i64 = 43200;

/// Decides the MFA session for a profile: a request for a session of twelve
/// hours with the profile's MFA device and the token, authenticated by the
/// profile's own long-term key. Fails with `ProfileParamNotFound` for a
/// profile without access settings and `ProfileTypeError` for one that is no
/// MFA-guarded static key.
pub fn prepare(profile: &Profile, token: &str) -> (r: Result<SessionCreation, Error>)
    ensures
        match profile.access {
            None => r is Err && r->Err_0 is ProfileParamNotFound,
            Some(Access::AccessKey(key)) => match key.mfa_device {
                Some(device) => {
                    &&& r is Ok
                    &&& r->Ok_0.request.duration_seconds is Some && r->Ok_0.request.duration_seconds->0 == 12 * 60 * 60
                    &&& r->Ok_0.request.serial_number == Some(device)
                    &&& r->Ok_0.request.token_code is Some
                    &&& r->Ok_0.request.token_code->0@ == token@
                    &&& r->Ok_0.authentication == Authentication::ProfileCredentials(profile.profile_name)
                },
                None => r is Err && r->Err_0 is ProfileTypeError,
            },
            Some(Access::AssumeRole(_)) => r is Err && r->Err_0 is ProfileTypeError,
        },
{
    let serial_number = match &profile.access {
        None => return Err(Error::ProfileParamNotFound(profile.profile_name.clone(), String::from_str("ACCESS_KEY"))),
        Some(Access::AccessKey(key)) => match &key.mfa_device {
            Some(device) => device.clone(),
            None => return Err(Error::ProfileTypeError(profile.profile_name.clone(), String::from_str("CreateSession"))),
        },
        Some(Access::AssumeRole(_)) => {
            return Err(Error::ProfileTypeError(profile.profile_name.clone(), String::from_str("CreateSession")))
        },
    };
    let request = SessionTokenRequest {
        duration_seconds: Some(SESSION_SECONDS),
        serial_number: Some(serial_number),
        token_code: Some(String::from_str(token)),
    };
    Ok(SessionCreation { authentication: Authentication::ProfileCredentials(profile.profile_name.clone()), request })
}

/// Installs the credential of the service's answer as the profile's
/// credential. Fails, changing nothing, with `AwsResponseFormatError` where
/// the answer carries no credential or its expiration does not parse.
pub fn complete(profile: &mut Profile, issued: Option<IssuedCredentials>) -> (r: Result<(), Error>)
    ensures
        answer_ok(issued) ==> r is Ok && *final(profile) == with_credential(*old(profile), issued_credential(issued->0)),
        !answer_ok(issued) ==> r is Err && r->Err_0 is AwsResponseFormatError && *final(profile) == *old(profile),
{
    match answer_credential(issued, "no credential in GetSessionToken response") {
        Ok(c) => {
            profile.credential = Some(c);
            Ok(())
        },
        Err(e) => Err(e),
    }
}

} // verus!
