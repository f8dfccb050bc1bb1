use ngydv::client::{assume_role, create_session, sign_in_kind, Authentication, SignIn};
use ngydv::collection::ProfileMap;
use ngydv::error::Error;
use ngydv::profile::{Access, AccessKey, AssumedRole, Credential, IssuedCredentials, Profile};

fn temp() -> Credential {
    Credential {
        access_key_id: "ASIASRC".to_string(),
        expiration: 2_000_000_000,
        secret_access_key: "srcsecret".to_string(),
        session_token: "srctoken".to_string(),
    }
}

fn registry(source_credential: Option<Credential>) -> ProfileMap {
    let mut map = ProfileMap::new();
    map.insert(
        "default",
        Profile {
            order: 0,
            profile_name: "default".to_string(),
            region: None,
            access: Some(Access::AccessKey(AccessKey {
                access_key_id: "AKIA".to_string(),
                secret_access_key: "s".to_string(),
                mfa_device: Some("arn:mfa".to_string()),
            })),
            credential: source_credential,
        },
    );
    map.insert(
        "dev",
        Profile {
            order: 1,
            profile_name: "dev".to_string(),
            region: None,
            access: Some(Access::AssumeRole(AssumedRole {
                role_arn: "arn:role".to_string(),
                mfa_serial: "arn:serial".to_string(),
                source_profile: "default".to_string(),
            })),
            credential: None,
        },
    );
    map.insert(
        "plain",
        Profile { order: 2, profile_name: "plain".to_string(), region: None, access: None, credential: None },
    );
    map
}

fn answer(expiration: &str) -> IssuedCredentials {
    IssuedCredentials {
        access_key_id: "ASIANEW".to_string(),
        secret_access_key: "newsecret".to_string(),
        session_token: "newtoken".to_string(),
        expiration: expiration.to_string(),
    }
}

#[test]
fn sign_in_dispatch() {
    let map = registry(None);
    assert_eq!(sign_in_kind(&map, "dev").unwrap(), SignIn::AssumeRole);
    assert_eq!(sign_in_kind(&map, "default").unwrap(), SignIn::Session);
    assert!(matches!(sign_in_kind(&map, "plain"), Err(Error::ProfileNotForSignIn(n)) if n == "plain"));
    assert!(matches!(sign_in_kind(&map, "nope"), Err(Error::ProfileNotFound(_))));
}

#[test]
fn role_with_token_uses_long_term_source() {
    let map = registry(None);
    let plan = assume_role::prepare("dev", &map, Some("123456".to_string())).unwrap();
    assert_eq!(plan.authentication, Authentication::ProfileCredentials("default".to_string()));
    assert_eq!(plan.request.role_arn, "arn:role");
    assert_eq!(plan.request.role_session_name, "session_name");
    assert_eq!(plan.request.serial_number, Some("arn:serial".to_string()));
    assert_eq!(plan.request.token_code, Some("123456".to_string()));
}

#[test]
fn role_without_token_uses_cached_source() {
    let map = registry(Some(temp()));
    let plan = assume_role::prepare("dev", &map, None).unwrap();
    assert_eq!(plan.authentication, Authentication::Temporary(temp()));
    assert_eq!(plan.request.serial_number, None);
    assert_eq!(plan.request.token_code, None);
    let unsigned = registry(None);
    assert!(matches!(assume_role::prepare("dev", &unsigned, None), Err(Error::ProfileNotSignedIn(n)) if n == "default"));
}

#[test]
fn role_errors() {
    let map = registry(None);
    assert!(matches!(assume_role::prepare("plain", &map, None), Err(Error::AssumeRoleSettingNotFound(_))));
    assert!(matches!(assume_role::prepare("default", &map, None), Err(Error::AssumeRoleSettingNotFound(_))));
    assert!(matches!(assume_role::prepare("nope", &map, None), Err(Error::ProfileNotFound(_))));
}

#[test]
fn role_answer_installed() {
    let mut map = registry(None);
    assume_role::complete("dev", &mut map, Some(answer("2020-09-13T12:26:40Z"))).unwrap();
    let c = map.get("dev").unwrap().credential.clone().unwrap();
    assert_eq!(c.access_key_id, "ASIANEW");
    assert_eq!(c.expiration, 1_600_000_000);
    assert!(matches!(assume_role::complete("dev", &mut map, None), Err(Error::AwsResponseFormatError(_))));
    assert!(matches!(
        assume_role::complete("dev", &mut map, Some(answer("not a date"))),
        Err(Error::AwsResponseFormatError(_))
    ));
    assert!(matches!(
        assume_role::complete("nope", &mut map, Some(answer("2020-09-13T12:26:40Z"))),
        Err(Error::ProfileNotFound(_))
    ));
}

#[test]
fn session_request_and_answer() {
    let map = registry(None);
    let mut p = map.get("default").unwrap().clone();
    let plan = create_session::prepare(&p, "654321").unwrap();
    assert_eq!(plan.request.duration_seconds, Some(43200));
    assert_eq!(plan.request.serial_number, Some("arn:mfa".to_string()));
    assert_eq!(plan.request.token_code, Some("654321".to_string()));
    assert_eq!(plan.authentication, Authentication::ProfileCredentials("default".to_string()));
    create_session::complete(&mut p, Some(answer("2020-09-13T12:26:40Z"))).unwrap();
    assert_eq!(p.credential.unwrap().session_token, "newtoken");
}

#[test]
fn session_errors() {
    let map = registry(None);
    assert!(matches!(create_session::prepare(map.get("dev").unwrap(), "1"), Err(Error::ProfileTypeError(_, _))));
    assert!(matches!(create_session::prepare(map.get("plain").unwrap(), "1"), Err(Error::ProfileParamNotFound(_, _))));
    let mut p = map.get("default").unwrap().clone();
    assert!(matches!(create_session::complete(&mut p, None), Err(Error::AwsResponseFormatError(_))));
    assert_eq!(p.credential, None);
}
