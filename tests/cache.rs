use ngydv::cache::{restore_credentials, store_credentials};
use ngydv::collection::ProfileMap;
use ngydv::profile::{Access, AccessKey, Credential, Profile};
use ngydv::table::Table;

fn credential(id: &str) -> Credential {
    Credential {
        access_key_id: id.to_string(),
        expiration: 2_000_000_000,
        secret_access_key: "secret".to_string(),
        session_token: "token".to_string(),
    }
}

fn registry() -> ProfileMap {
    let mut map = ProfileMap::new();
    for (i, name) in ["default", "dev"].iter().enumerate() {
        map.insert(
            name,
            Profile {
                order: i,
                profile_name: name.to_string(),
                region: Some("ap-northeast-1".to_string()),
                access: Some(Access::AccessKey(AccessKey {
                    access_key_id: "AKIA".to_string(),
                    secret_access_key: "s".to_string(),
                    mfa_device: None,
                })),
                credential: None,
            },
        );
    }
    map
}

#[test]
fn missing_cache_leaves_registry_unchanged() {
    let mut map = registry();
    restore_credentials(&mut map, None);
    assert_eq!(map.get("default").unwrap(), registry().get("default").unwrap());
    assert_eq!(map.get("dev").unwrap(), registry().get("dev").unwrap());
    assert_eq!(map.names().len(), 2);
}

#[test]
fn restore_only_sets_credentials() {
    let mut map = registry();
    let mut saved = Table::new();
    saved.insert("dev", credential("ASIADEV"));
    saved.insert("unknown", credential("ASIAX"));
    restore_credentials(&mut map, Some(&saved));
    let dev = map.get("dev").unwrap();
    assert_eq!(dev.credential, Some(credential("ASIADEV")));
    assert_eq!(dev.region, Some("ap-northeast-1".to_string()));
    assert_eq!(dev.access, registry().get("dev").unwrap().access);
    assert_eq!(map.get("default").unwrap(), registry().get("default").unwrap());
    assert!(map.get("unknown").is_err());
}

#[test]
fn store_keeps_profiles_with_credentials() {
    let mut map = registry();
    map.get_mut("dev").unwrap().credential = Some(credential("ASIADEV"));
    let stored = store_credentials(&map);
    assert_eq!(stored, vec![("dev".to_string(), credential("ASIADEV"))]);
    assert!(store_credentials(&registry()).is_empty());
}
