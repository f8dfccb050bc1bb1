//! The two ways of acquiring a temporary credential from the remote identity
//! service. Each is split in two: `prepare` decides what to send and how to
//! authenticate, and `complete` installs what came back.

pub mod assume_role;
pub mod create_session;

use vstd::prelude::*;
use crate::clock::rfc3339_instant;
use crate::collection::ProfileMap;
use crate::error::Error;
use crate::profile::{Credential, IssuedCredentials, Profile, ProfileType};

verus! {

/// How a request to the identity service is authenticated.
#[derive(Debug, Clone, PartialEq, Eq)]
pub enum Authentication {
    /// The long-term credential configured for the named profile.
    ProfileCredentials(String),
    /// A cached temporary credential, used as it is.
    Temporary(Credential),
}

/// Which acquisition a sign-in takes.
#[derive(Debug, Clone, Copy, PartialEq, Eq)]
pub enum SignIn {
    /// Assume the profile's delegated role.
    AssumeRole,
    /// Create an MFA session with the profile's static key.
    Session,
}

/// The credential that the service's answer yields, where its expiration parses.
pub open spec fn issued_credential(c: IssuedCredentials) -> Credential {
    Credential {
        access_key_id: c.access_key_id,
        expiration: rfc3339_instant(c.expiration@)->0 as i64,
        secret_access_key: c.secret_access_key,
        session_token: c.session_token,
    }
}

/// Whether the service's answer carries a credential whose expiration parses.
pub open spec fn answer_ok(issued: Option<IssuedCredentials>) -> bool {
    issued is Some && rfc3339_instant(issued->0.expiration@) is Some
}

/// Which acquisition signs in the named profile: a delegated role is assumed,
/// an MFA-guarded key opens a session; any other profile fails with
/// `ProfileNotForSignIn`, and an unknown name with `ProfileNotFound`.
pub fn sign_in_kind(profile_map: &ProfileMap, profile_name: &str) -> (r: Result<SignIn, Error>)
    requires
        profile_map.wf(),
    ensures
        !profile_map@.contains_key(profile_name@) ==> r is Err && r->Err_0 is ProfileNotFound,
        profile_map@.contains_key(profile_name@) ==> match profile_map@[profile_name@].spec_profile_type() {
            ProfileType::AssumeRole(_) => r == Ok::<SignIn, Error>(SignIn::AssumeRole),
            ProfileType::SessionWithMFA => r == Ok::<SignIn, Error>(SignIn::Session),
            _ => r is Err && r->Err_0 is ProfileNotForSignIn && r->Err_0->ProfileNotForSignIn_0@
                == profile_name@,
        },
{
    let profile = match profile_map.get(profile_name) {
        Ok(p) => p,
        Err(e) => return Err(e),
    };
    match profile.profile_type() {
        ProfileType::AssumeRole(_) => Ok(SignIn::AssumeRole),
        ProfileType::SessionWithMFA => Ok(SignIn::Session),
        _ => Err(Error::ProfileNotForSignIn(String::from_str(profile_name))),
    }
}

/// The credential of the service's answer, or `AwsResponseFormatError` where
/// there is none (with `missing` as the message) or its expiration does not parse.
pub(crate) fn answer_credential(issued: Option<IssuedCredentials>, missing: &str) -> (r: Result<Credential, Error>)
    ensures
        answer_ok(issued) ==> r == Ok::<Credential, Error>(issued_credential(issued->0)),
        !answer_ok(issued) ==> r is Err && r->Err_0 is AwsResponseFormatError,
{
    match issued {
        None => Err(Error::AwsResponseFormatError(String::from_str(missing))),
        Some(c) => Credential::new(&c),
    }
}

/// A profile with its credential replaced.
pub open spec fn with_credential(p: Profile, c: Credential) -> Profile {
    Profile { credential: Some(c), ..p }
}

} // verus!
