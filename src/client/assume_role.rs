use vstd::prelude::*;
use crate::client::{answer_credential, answer_ok, issued_credential, with_credential, Authentication};
use crate::collection::ProfileMap;
use crate::error::Error;
use crate::profile::{copy_credential, Access, IssuedCredentials};

verus! {

/// The fields of a role-assumption request.
#[derive(Debug, Clone, PartialEq, Eq)]
pub struct AssumeRoleRequest {
    pub role_arn: String,
    pub role_session_name: String,
    pub serial_number: Option<String>,
    pub token_code: Option<String>,
}

/// A role-assumption request and how it is authenticated.
#[derive(Debug, Clone, PartialEq, Eq)]
pub struct RoleAssumption {
    pub authentication: Authentication,
    pub request: AssumeRoleRequest,
}

/// The session name every role assumption uses.
pub open spec fn session_name() -> Seq<char> {
    "session_name"@
}

/// Decides the role assumption for the named profile. With an MFA token the
/// request carries the role's MFA serial and the token, and is authenticated
/// by the source profile's long-term credential; without one it carries
/// neither and is authenticated by the source profile's cached temporary
/// credential. Fails with `ProfileNotFound` for an unknown profile or source
/// profile, `AssumeRoleSettingNotFound` for a profile that is no delegated
/// role, and `ProfileNotSignedIn` naming the source profile when no token is
/// given and the source profile holds no credential.
pub fn prepare(profile_name: &str, profile_map: &ProfileMap, mfa_token: Option<String>) -> (r: Result<RoleAssumption, Error>)
    requires
        profile_map.wf(),
    ensures
        !profile_map@.contains_key(profile_name@) ==> r is Err && r->Err_0 is ProfileNotFound
            && r->Err_0->ProfileNotFound_0@ == profile_name@,
        profile_map@.contains_key(profile_name@) ==> {
            let p = profile_map@[profile_name@];
            match p.access {
                Some(Access::AssumeRole(role)) => {
                    let source = role.source_profile@;
                    if !profile_map@.contains_key(source) {
                        r is Err && r->Err_0 is ProfileNotFound && r->Err_0->ProfileNotFound_0@ == source
                    } else if mfa_token is None && profile_map@[source].credential is None {
                        r is Err && r->Err_0 is ProfileNotSignedIn && r->Err_0->ProfileNotSignedIn_0@ == source
                    } else {
                        &&& r is Ok
                        &&& r->Ok_0.request.role_arn == role.role_arn
                        &&& r->Ok_0.request.role_session_name@ == session_name()
                        &&& r->Ok_0.request.token_code == mfa_token
                        &&& mfa_token is Some ==> r->Ok_0.request.serial_number == Some(role.mfa_serial)
                        &&& mfa_token is None ==> r->Ok_0.request.serial_number is None
                        &&& mfa_token is Some ==> r->Ok_0.authentication == Authentication::ProfileCredentials(role.source_profile)
                        &&& mfa_token is None ==> r->Ok_0.authentication == Authentication::Temporary(
                            profile_map@[source].credential->0,
                        )
                    }
                },
                _ => r is Err && r->Err_0 is AssumeRoleSettingNotFound && r->Err_0->AssumeRoleSettingNotFound_0
                    == p.profile_name,
            }
        },
{
    let profile = match profile_map.get(profile_name) {
        Ok(p) => p,
        Err(e) => return Err(e),
    };
    let assume_role = match &profile.access {
        Some(Access::AssumeRole(role)) => role,
        _ => return Err(Error::AssumeRoleSettingNotFound(profile.profile_name.clone())),
    };
    let source = match profile_map.get(assume_role.source_profile.as_str()) {
        Ok(s) => s,
        Err(e) => return Err(e),
    };
    let authentication = match &mfa_token {
        Some(_) => Authentication::ProfileCredentials(assume_role.source_profile.clone()),
        None => match &source.credential {
            Some(c) => Authentication::Temporary(copy_credential(c)),
            None => return Err(Error::ProfileNotSignedIn(assume_role.source_profile.clone())),
        },
    };
    let serial_number = match &mfa_token {
        Some(_) => Some(assume_role.mfa_serial.clone()),
        None => None,
    };
    proof {
        reveal_strlit("session_name");
    }
    let request = AssumeRoleRequest {
        role_arn: assume_role.role_arn.clone(),
        role_session_name: String::from_str("session_name"),
        serial_number,
        token_code: mfa_token,
    };
    Ok(RoleAssumption { authentication, request })
}

/// Installs the credential of the service's answer as the named profile's
/// credential. Fails, changing nothing, with `AwsResponseFormatError` where
/// the answer carries no credential or its expiration does not parse, and with
/// `ProfileNotFound` for an unknown profile.
pub fn complete(profile_name: &str, profile_map: &mut ProfileMap, issued: Option<IssuedCredentials>) -> (r: Result<(), Error>)
    requires
        old(profile_map).wf(),
    ensures
        final(profile_map).wf(),
        !answer_ok(issued) ==> r is Err && r->Err_0 is AwsResponseFormatError && final(profile_map)@
            == old(profile_map)@,
        answer_ok(issued) && !old(profile_map)@.contains_key(profile_name@) ==> r is Err
            && r->Err_0 is ProfileNotFound && final(profile_map)@ == old(profile_map)@,
        answer_ok(issued) && old(profile_map)@.contains_key(profile_name@) ==> r is Ok
            && final(profile_map)@ == old(profile_map)@.insert(
            profile_name@,
            with_credential(old(profile_map)@[profile_name@], issued_credential(issued->0)),
        ),
{
    let credential = match answer_credential(issued, "no credential in AssumeRole response") {
        Ok(c) => c,
        Err(e) => return Err(e),
    };
    match profile_map.get_mut(profile_name) {
        Ok(profile) => {
            profile.credential = Some(credential);
            Ok(())
        },
        Err(e) => Err(e),
    }
}

} // verus!
