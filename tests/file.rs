use ngydv::file::{aws_config_file, aws_path, credentials_path, join_path};

#[test]
fn paths_under_home() {
    assert_eq!(aws_path("/home/me", "config"), "/home/me/.aws/config");
    assert_eq!(aws_path("/home/me/", "credentials"), "/home/me/.aws/credentials");
    assert_eq!(join_path("", "x"), "x");
    if let Ok(p) = aws_config_file() {
        assert!(p.ends_with("/.aws/config"));
    }
    if let Ok(p) = credentials_path() {
        assert!(p.ends_with("/.aws/ngydv_credentials.yaml"));
    }
}
