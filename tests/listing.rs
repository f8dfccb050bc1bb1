use ngydv::collection::ProfileMap;
use ngydv::listing::profile_table_rows;
use ngydv::profile::{Access, AccessKey, Credential, Profile};

fn profile(name: &str, order: usize, region: Option<&str>, access: Option<Access>, credential: Option<Credential>) -> Profile {
    Profile { order, profile_name: name.to_string(), region: region.map(|r| r.to_string()), access, credential }
}

#[test]
fn rows_follow_display_order() {
    let mut map = ProfileMap::new();
    map.insert("c", profile("c", 2, None, None, None));
    map.insert(
        "a",
        profile(
            "a",
            0,
            Some("ap-northeast-1"),
            Some(Access::AccessKey(AccessKey {
                access_key_id: "K".to_string(),
                secret_access_key: "S".to_string(),
                mfa_device: None,
            })),
            None,
        ),
    );
    map.insert(
        "b",
        profile(
            "b",
            1,
            None,
            None,
            Some(Credential {
                access_key_id: "K".to_string(),
                expiration: 7_200,
                secret_access_key: "S".to_string(),
                session_token: "T".to_string(),
            }),
        ),
    );
    let rows = profile_table_rows(&map, 0);
    assert_eq!(rows.len(), 3);
    assert_eq!(rows[0], vec!["1", "a", "ap-northeast-1", "Access key", "-"]);
    assert_eq!(rows[1], vec!["2", "b", "none", "", " 2 hours"]);
    assert_eq!(rows[2], vec!["3", "c", "none", "", "-"]);
}
