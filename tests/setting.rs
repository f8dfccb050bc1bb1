use ngydv::profile::{Access, AccessKey, AssumedRole, Profile, ProfileType};
use ngydv::setting::{
    create_profile, profile_name, properties_to_vec, read_aws_config, read_config, read_credentials, read_ngydv,
    IniSection, PropertyMap,
};
use ngydv::error::Error;
use ngydv::table::Table;

const KEY_ID: &str = "XXXXXXXXXXXXXXXXXXXX";
const SECRET_KEY: &str = "xxxxxxxxxxxxxxxxxxxxxxxxxxxxxxxxxxxxxxxx";

fn profile_text() -> String {
    r#"
[profile default]
output = yaml
region = ap-northeast-1
"#
    .to_string()
}

fn credential_text() -> String {
    format!(
        r#"
[default]
aws_access_key_id = {}
aws_secret_access_key = {}
"#,
        KEY_ID, SECRET_KEY
    )
    .to_string()
}

fn sections(text: &str) -> Vec<IniSection> {
    let doc = ini::Ini::load_from_str(text).unwrap();
    doc.iter()
        .map(|(name, props)| IniSection {
            name: name.map(|n| n.to_string()),
            properties: props.iter().map(|(k, v)| (k.to_string(), v.to_string())).collect(),
        })
        .collect()
}

fn assert_entry(props: &PropertyMap, name: &str, order: usize, kvs: Vec<(&str, &str)>) {
    let (o, table) = props.get(name).unwrap();
    assert_eq!(*o, order);
    assert_eq!(table.len(), kvs.len());
    for (k, v) in kvs {
        assert_eq!(table.get(k).map(|s| s.as_str()), Some(v));
    }
}

#[test]
fn create_profile_with_credential_and_config() {
    let mut props: PropertyMap = Table::new();
    read_config(&sections(&profile_text()), &mut props).unwrap();
    read_credentials(&sections(&credential_text()), &mut props).unwrap();

    let expected = Profile {
        order: 0,
        profile_name: "default".to_string(),
        region: Some("ap-northeast-1".to_string()),
        access: Some(Access::AccessKey(AccessKey {
            access_key_id: KEY_ID.to_string(),
            secret_access_key: SECRET_KEY.to_string(),
            mfa_device: None,
        })),
        credential: None,
    };
    assert_eq!(create_profile("default", props.get("default").unwrap()), expected);
}

#[test]
fn read_credentials_only() {
    let mut props: PropertyMap = Table::new();
    assert!(read_credentials(&sections(&credential_text()), &mut props).is_ok());
    assert_eq!(props.len(), 1);
    assert_entry(
        &props,
        "default",
        0,
        vec![("aws_access_key_id", KEY_ID), ("aws_secret_access_key", SECRET_KEY)],
    );
}

#[test]
fn read_credential_with_config() {
    let mut props: PropertyMap = Table::new();
    assert!(read_config(&sections(&profile_text()), &mut props).is_ok());
    assert!(read_credentials(&sections(&credential_text()), &mut props).is_ok());
    assert_eq!(props.len(), 1);
    assert_entry(
        &props,
        "default",
        0,
        vec![
            ("aws_access_key_id", KEY_ID),
            ("aws_secret_access_key", SECRET_KEY),
            ("output", "yaml"),
            ("region", "ap-northeast-1"),
        ],
    );
}

fn read_credential_error(text: &str) {
    let mut props: PropertyMap = Table::new();
    assert!(read_credentials(&sections(text), &mut props).is_err());
}

#[test]
fn read_credential_empty_profile_header() {
    read_credential_error(
        r#"
[]
aws_access_key_id = AAAAAAAAA
aws_secret_access_key = aaaaaaaaaaaaaaaaaa
"#,
    );
}

#[test]
fn read_config_ok() {
    let mut props: PropertyMap = Table::new();
    assert!(read_config(&sections(&profile_text()), &mut props).is_ok());
    assert_eq!(props.len(), 1);
    assert_entry(&props, "default", 0, vec![("output", "yaml"), ("region", "ap-northeast-1")]);
}

fn read_config_error(text: &str) {
    let mut props: PropertyMap = Table::new();
    assert!(read_config(&sections(text), &mut props).is_err());
}

#[test]
fn read_config_profile_name() {
    read_config_error(
        r#"
    [profile ]
    output = yaml
    region = ap-northeast-1
"#,
    );
}

#[test]
fn read_config_empty_profile_header() {
    read_config_error(
        r#"
    [ ]
    output = yaml
    region = ap-northeast-1
"#,
    );
}

#[test]
fn profile_name_strips_prefix_and_spaces() {
    assert_eq!(profile_name("profile default"), Some("default".to_string()));
    assert_eq!(profile_name("  work  "), Some("work".to_string()));
    assert_eq!(profile_name("profile"), None);
    assert_eq!(profile_name("profile "), None);
    assert_eq!(profile_name(""), None);
    assert_eq!(profile_name("x profile y"), Some("x y".to_string()));
}

#[test]
fn properties_later_value_wins() {
    let t = properties_to_vec(&vec![
        ("a".to_string(), "1".to_string()),
        ("b".to_string(), "2".to_string()),
        ("a".to_string(), "3".to_string()),
    ]);
    assert_eq!(t.len(), 2);
    assert_eq!(t.get("a").map(|s| s.as_str()), Some("3"));
    assert_eq!(t.get("b").map(|s| s.as_str()), Some("2"));
}

#[test]
fn merged_default_profile_from_two_sources() {
    let map = read_aws_config(&profile_text(), &credential_text(), None).unwrap();
    let p = map.get("default").unwrap();
    assert_eq!(p.order, 0);
    assert_eq!(p.region, Some("ap-northeast-1".to_string()));
    assert_eq!(
        p.access,
        Some(Access::AccessKey(AccessKey {
            access_key_id: KEY_ID.to_string(),
            secret_access_key: SECRET_KEY.to_string(),
            mfa_device: None,
        }))
    );
    assert_eq!(p.credential, None);
}

#[test]
fn override_source_wins_and_adds() {
    let config = "[profile default]\nregion = ap-northeast-1\n[profile other]\nregion = us-east-1\n";
    let creds = "[default]\naws_access_key_id = A\naws_secret_access_key = S\n";
    let overrides = "[default]\naws_secret_access_key = T\nmfa_device = arn:mfa\n[local]\nregion = eu-west-1\n";
    let map = read_aws_config(config, creds, Some(overrides)).unwrap();
    let p = map.get("default").unwrap();
    assert_eq!(
        p.access,
        Some(Access::AccessKey(AccessKey {
            access_key_id: "A".to_string(),
            secret_access_key: "T".to_string(),
            mfa_device: Some("arn:mfa".to_string()),
        }))
    );
    assert_eq!(p.profile_type(), ProfileType::SessionWithMFA);
    let local = map.get("local").unwrap();
    assert_eq!(local.order, 2);
    assert_eq!(local.region, Some("eu-west-1".to_string()));
    assert_eq!(local.access, None);
    assert_eq!(map.get("other").unwrap().order, 1);
}

#[test]
fn role_wins_over_static_key() {
    let config = "[profile dev]\nrole_arn = arn:role\nmfa_serial = arn:mfa\nsource_profile = default\n";
    let creds = "[dev]\naws_access_key_id = A\naws_secret_access_key = S\n";
    let map = read_aws_config(config, creds, None).unwrap();
    let p = map.get("dev").unwrap();
    assert_eq!(
        p.access,
        Some(Access::AssumeRole(AssumedRole {
            role_arn: "arn:role".to_string(),
            mfa_serial: "arn:mfa".to_string(),
            source_profile: "default".to_string(),
        }))
    );
    assert_eq!(p.profile_type(), ProfileType::AssumeRole("default".to_string()));
}

#[test]
fn unparsable_or_bad_sources_fail_by_source() {
    assert!(matches!(read_aws_config("[broken", "", None), Err(Error::ConfigFileError(_))));
    assert!(matches!(read_aws_config("[profile ]\n", "", None), Err(Error::ConfigFileError(_))));
    assert!(matches!(read_aws_config("", "[ ]\na = b\n", None), Err(Error::CredentialFileError(_))));
    assert!(matches!(read_aws_config("", "", Some("[profile]\n")), Err(Error::NgydvConfigError(_))));
    assert!(read_aws_config("", "", Some("[broken")).is_ok());
}

#[test]
fn read_ngydv_merges_into_existing() {
    let mut props: PropertyMap = Table::new();
    read_config(&sections("[profile a]\nregion = r1\n"), &mut props).unwrap();
    read_ngydv(&sections("[a]\nregion = r2\nx = y\n[b]\nk = v\n"), &mut props).unwrap();
    assert_entry(&props, "a", 0, vec![("region", "r2"), ("x", "y")]);
    assert_entry(&props, "b", 1, vec![("k", "v")]);
}
