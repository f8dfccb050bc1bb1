use ngydv::collection::ProfileMap;
use ngydv::error::Error;
use ngydv::profile::{Credential, Profile};

fn profile(name: &str, key: Option<(&str, &str)>) -> Profile {
    Profile {
        order: 0,
        profile_name: name.to_string(),
        region: None,
        access: None,
        credential: key.map(|(a, s)| Credential {
            access_key_id: a.to_string(),
            expiration: 0,
            secret_access_key: s.to_string(),
            session_token: "t".to_string(),
        }),
    }
}

#[test]
fn lookup_and_insert() {
    let mut map = ProfileMap::new();
    assert!(matches!(map.get("a"), Err(Error::ProfileNotFound(n)) if n == "a"));
    map.insert("a", profile("a", None));
    map.insert("b", profile("b", Some(("K", "S"))));
    map.insert("a", profile("a2", None));
    assert_eq!(map.get("a").unwrap().profile_name, "a2");
    assert_eq!(map.names(), vec!["a".to_string(), "b".to_string()]);
    assert_eq!(map.profiles().len(), 2);
    assert!(matches!(map.get_mut("zzz"), Err(Error::ProfileNotFound(_))));
}

#[test]
fn find_profile_by_key_pair() {
    let mut map = ProfileMap::new();
    map.insert("a", profile("a", None));
    map.insert("b", profile("b", Some(("K", "S"))));
    assert_eq!(map.profile_by_key("K", "S").unwrap().profile_name, "b");
    assert!(map.profile_by_key("K", "X").is_none());
    assert!(map.profile_by_key("X", "S").is_none());
}
