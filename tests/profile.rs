use ngydv::error::Error;
use ngydv::profile::{
    duration_phrase, duration_to_string, Access, AccessKey, AssumedRole, Credential, IssuedCredentials, Profile,
    ProfileType,
};

fn credential(expiration: i64) -> Credential {
    Credential {
        access_key_id: "ASIAKEY".to_string(),
        expiration,
        secret_access_key: "secret".to_string(),
        session_token: "token".to_string(),
    }
}

fn profile(name: &str, access: Option<Access>, credential: Option<Credential>) -> Profile {
    Profile { order: 0, profile_name: name.to_string(), region: None, access, credential }
}

fn role() -> Access {
    Access::AssumeRole(AssumedRole {
        role_arn: "arn:aws:iam::1:role/dev".to_string(),
        mfa_serial: "arn:aws:iam::1:mfa/me".to_string(),
        source_profile: "default".to_string(),
    })
}

fn key(mfa: Option<&str>) -> Access {
    Access::AccessKey(AccessKey {
        access_key_id: "AKIA".to_string(),
        secret_access_key: "s".to_string(),
        mfa_device: mfa.map(|m| m.to_string()),
    })
}

#[test]
fn one_hour_five_minutes() {
    let now = 1_600_000_000;
    let p = profile("dev", Some(role()), Some(credential(now + 3900)));
    assert_eq!(p.credential_str_at(now), " 1 hour 5 minutes");
    assert_eq!(duration_phrase(3900), " 1 hour 5 minutes");
}

#[test]
fn duration_units_and_plurals() {
    assert_eq!(duration_phrase(1), " 1 second");
    assert_eq!(duration_phrase(61), " 1 minute 1 second");
    assert_eq!(duration_phrase(7322), " 2 hours 2 minutes 2 seconds");
    assert_eq!(duration_phrase(43200), " 12 hours");
    assert_eq!(duration_to_string(0, "hour", "hours"), "");
    assert_eq!(duration_to_string(-3, "hour", "hours"), "");
    assert_eq!(duration_to_string(1, "hour", "hours"), " 1 hour");
    assert_eq!(duration_to_string(10, "hour", "hours"), " 10 hours");
}

#[test]
fn expired_credential_renders_expiry() {
    let now = 1_600_000_000;
    let p = profile("dev", Some(role()), Some(credential(now - 10)));
    assert!(p.credential_str_at(now).starts_with("expired at "));
    let q = profile("dev", Some(role()), Some(credential(now)));
    assert!(q.credential_str_at(now).starts_with("expired at "));
    assert_eq!(profile("x", None, None).credential_str_at(now), "-");
}

#[test]
fn life_is_signed() {
    let c = credential(100);
    assert_eq!(c.life_at(40), 60);
    assert_eq!(c.life_at(160), -60);
}

#[test]
fn delegated_role_without_credential_is_not_signed_in() {
    let p = profile("dev", Some(role()), None);
    match p.export_at(0) {
        Err(Error::ProfileNotSignedIn(name)) => assert_eq!(name, "dev"),
        other => panic!("unexpected {:?}", other),
    }
    let m = profile("mfa", Some(key(Some("arn:mfa"))), None);
    assert!(matches!(m.export(), Err(Error::ProfileNotSignedIn(_))));
}

#[test]
fn export_of_live_credential() {
    let now = 1_000;
    let p = profile("dev", Some(role()), Some(credential(now + 60)));
    assert_eq!(
        p.export_at(now).unwrap(),
        "export AWS_ACCESS_KEY_ID=ASIAKEY\nexport AWS_SECRET_ACCESS_KEY=secret\nexport AWS_SESSION_TOKEN=token\nunset AWS_PROFILE\necho 'set access_key_id, secret_access_key, session_token to env for profile 'dev''\n"
    );
}

#[test]
fn export_of_expired_credential_fails() {
    let p = profile("dev", Some(role()), Some(credential(500)));
    assert!(matches!(p.export_at(500), Err(Error::SessionExpiredError(_))));
}

#[test]
fn export_of_plain_profile_selects_it() {
    let expected = "export AWS_PROFILE=work\nunset AWS_ACCESS_KEY_ID\nunset AWS_SECRET_ACCESS_KEY\nunset AWS_SESSION_TOKEN\necho 'set AWS_PROFILE for profile 'work''\n";
    assert_eq!(profile("work", Some(key(None)), None).export_at(0).unwrap(), expected);
    assert_eq!(profile("work", None, None).export().unwrap(), expected);
}

#[test]
fn profile_types_and_texts() {
    assert_eq!(profile("a", Some(role()), None).profile_type(), ProfileType::AssumeRole("default".to_string()));
    assert_eq!(profile("a", Some(key(Some("m"))), None).profile_type(), ProfileType::SessionWithMFA);
    assert_eq!(profile("a", Some(key(None)), None).profile_type(), ProfileType::Keys);
    assert_eq!(profile("a", None, None).profile_type(), ProfileType::NoAccess);
    assert_eq!(profile("a", Some(role()), None).profile_type_str(), "Assume role from default");
    assert_eq!(profile("a", Some(key(Some("m"))), None).profile_type_str(), "Access key with mfa device");
    assert_eq!(profile("a", Some(key(None)), None).profile_type_str(), "Access key");
    assert_eq!(profile("a", None, None).profile_type_str(), "");
    assert_eq!(profile("a", None, None).region_str(), "none");
    let mut r = profile("a", None, None);
    r.region = Some("us-west-2".to_string());
    assert_eq!(r.region_str(), "us-west-2");
}

#[test]
fn credential_from_service_answer() {
    let issued = IssuedCredentials {
        access_key_id: "ASIA".to_string(),
        secret_access_key: "sec".to_string(),
        session_token: "tok".to_string(),
        expiration: "2020-09-13T12:26:40Z".to_string(),
    };
    let c = Credential::new(&issued).unwrap();
    assert_eq!(c.expiration, 1_600_000_000);
    assert_eq!(c.access_key_id, "ASIA");
    let with_offset = IssuedCredentials { expiration: "2020-09-13T21:26:40+09:00".to_string(), ..issued.clone() };
    assert_eq!(Credential::new(&with_offset).unwrap().expiration, 1_600_000_000);
    let bad = IssuedCredentials { expiration: "yesterday".to_string(), ..issued };
    assert!(matches!(Credential::new(&bad), Err(Error::AwsResponseFormatError(_))));
}
