use ngydv::collection::ProfileMap;
use ngydv::env::{clear_environment_vars, create_env_list, env_table_rows, show_current_profile, EnvVariables};
use ngydv::profile::{Credential, Profile};

fn empty_env() -> EnvVariables {
    EnvVariables {
        aws_access_key_id: None,
        aws_ca_bundle: None,
        aws_config_file: None,
        aws_default_output: None,
        aws_default_region: None,
        aws_pager: None,
        aws_profile: None,
        aws_role_session_name: None,
        aws_secret_access_key: None,
        aws_session_token: None,
        aws_shared_credentials_file: None,
    }
}

#[test]
fn env_list_has_every_variable() {
    let mut env = empty_env();
    env.aws_profile = Some("dev".to_string());
    let rows = create_env_list(&env);
    assert_eq!(rows.len(), 11);
    assert_eq!(rows[6], (Some("dev".to_string()), Some("default".to_string()), "aws_profile".to_string(),
        "The name of the CLI profile with the credentials and options to use".to_string()));
    assert_eq!(rows[0].0, None);
    let cells = env_table_rows(&env);
    assert_eq!(cells[6], vec!["AWS_PROFILE".to_string(), rows[6].3.clone(), "default".to_string(), "dev".to_string()]);
    assert_eq!(cells[0][2], "");
}

#[test]
fn clear_script_unsets_upper_case_names() {
    let script = clear_environment_vars(&empty_env());
    assert!(script.starts_with("unset AWS_ACCESS_KEY_ID\nunset AWS_CA_BUNDLE\n"));
    assert!(script.ends_with("unset AWS_SHARED_CREDENTIALS_FILE\necho clear all aws cli related environment variables.\n"));
    assert_eq!(script.lines().count(), 12);
}

fn registry() -> ProfileMap {
    let mut map = ProfileMap::new();
    map.insert(
        "dev",
        Profile {
            order: 0,
            profile_name: "dev".to_string(),
            region: None,
            access: None,
            credential: Some(Credential {
                access_key_id: "K".to_string(),
                expiration: 3_700,
                secret_access_key: "S".to_string(),
                session_token: "T".to_string(),
            }),
        },
    );
    map
}

#[test]
fn show_by_key_variables() {
    let mut env = empty_env();
    env.aws_access_key_id = Some("K".to_string());
    env.aws_secret_access_key = Some("S".to_string());
    assert_eq!(
        show_current_profile(&registry(), &env, 0),
        "1. checking AWS_ACCESS_KEY_ID and AWS_ACCESS_KEY_ID.\n\nenvironment variables are set. current profile is dev.\n 1 hour 1 minute 40 seconds\n"
    );
}

#[test]
fn show_by_profile_variable_and_default() {
    let mut env = empty_env();
    env.aws_profile = Some("dev".to_string());
    assert_eq!(
        show_current_profile(&registry(), &env, 0),
        "1. checking AWS_ACCESS_KEY_ID and AWS_ACCESS_KEY_ID.\n  environment variables are not set.\n2. checking AWS_PROFILE.\n\nAWS_PROFILE is set. current profile is dev.\n"
    );
    let none = show_current_profile(&registry(), &empty_env(), 0);
    assert!(none.ends_with("3. checking profile named 'default'.\n\n no profile with name \"default\".\n\nno default profile.\n"));
}
