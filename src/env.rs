use vstd::prelude::*;
use crate::collection::{holds_key, ProfileMap};
use crate::profile::Profile;
use crate::setting::opt_view;
use crate::text::{starts_with, to_upper, upper_of};

verus! {

/// The environment variables of the AWS command line interface, as read from
/// the process environment.
#[derive(Debug, Clone, PartialEq, Eq)]
pub struct EnvVariables {
    pub aws_access_key_id: Option<String>,
    pub aws_ca_bundle: Option<String>,
    pub aws_config_file: Option<String>,
    pub aws_default_output: Option<String>,
    pub aws_default_region: Option<String>,
    pub aws_pager: Option<String>,
    pub aws_profile: Option<String>,
    pub aws_role_session_name: Option<String>,
    pub aws_secret_access_key: Option<String>,
    pub aws_session_token: Option<String>,
    pub aws_shared_credentials_file: Option<String>,
}

/// One row of the listing: the value, the default, the name and what it is for.
pub type EnvRow = (Option<String>, Option<String>, String, String);

/// A row of the listing as text values.
pub type EnvRowView = (Option<Seq<char>>, Option<Seq<char>>, Seq<char>, Seq<char>);

/// The rows of a listing as text values.
pub open spec fn rows_view(v: Seq<EnvRow>) -> Seq<EnvRowView> {
    v.map_values(|r: EnvRow| (opt_view(r.0), opt_view(r.1), r.2@, r.3@))
}

/// Every variable of the listing, in order, with its value in `env`.
pub open spec fn env_rows(env: EnvVariables) -> Seq<EnvRowView> {
    seq![
        (opt_view(env.aws_access_key_id), None, "aws_access_key_id"@, "AWS access key associated with an IAM user or role"@),
        (opt_view(env.aws_ca_bundle), None, "aws_ca_bundle"@, "The path to a certificate bundle to use for HTTPS certificate validation"@),
        (opt_view(env.aws_config_file), Some("~/.aws/config"@), "aws_config_file"@, "The location of the file that the AWS CLI uses to store configuration profiles"@),
        (opt_view(env.aws_default_output), Some("json"@), "aws_default_output"@, "The output format to use"@),
        (opt_view(env.aws_default_region), None, "aws_default_region"@, "The AWS Region to send the request to"@),
        (opt_view(env.aws_pager), None, "aws_pager"@, "The pager program used for output"@),
        (opt_view(env.aws_profile), Some("default"@), "aws_profile"@, "The name of the CLI profile with the credentials and options to use"@),
        (opt_view(env.aws_role_session_name), None, "aws_role_session_name"@, "A name to associate with the role session"@),
        (opt_view(env.aws_secret_access_key), None, "aws_secret_access_key"@, "The secret key associated with the access key"@),
        (opt_view(env.aws_session_token), None, "aws_session_token"@, "The session token value that is required if you are using temporary security credentials"@),
        (opt_view(env.aws_shared_credentials_file), Some("~/.aws/credentials"@), "aws_shared_credentials_file"@, "The location of the file that the AWS CLI uses to store access keys"@),
    ]
}

fn text(s: &str) -> (r: String)
    ensures
        r@ == s@,
{
    String::from_str(s)
}

fn some_text(s: &str) -> (r: Option<String>)
    ensures
        opt_view(r) == Some(s@),
{
    Some(String::from_str(s))
}

/// Every variable of the listing, in order, with its value in `env`, its
/// default and what it is for.
pub fn create_env_list(env: &EnvVariables) -> (r: Vec<EnvRow>)
    ensures
        rows_view(r@) == env_rows(*env),
{
    let r = vec![
        (env.aws_access_key_id.clone(), None, text("aws_access_key_id"), text("AWS access key associated with an IAM user or role")),
        (env.aws_ca_bundle.clone(), None, text("aws_ca_bundle"), text("The path to a certificate bundle to use for HTTPS certificate validation")),
        (env.aws_config_file.clone(), some_text("~/.aws/config"), text("aws_config_file"), text("The location of the file that the AWS CLI uses to store configuration profiles")),
        (env.aws_default_output.clone(), some_text("json"), text("aws_default_output"), text("The output format to use")),
        (env.aws_default_region.clone(), None, text("aws_default_region"), text("The AWS Region to send the request to")),
        (env.aws_pager.clone(), None, text("aws_pager"), text("The pager program used for output")),
        (env.aws_profile.clone(), some_text("default"), text("aws_profile"), text("The name of the CLI profile with the credentials and options to use")),
        (env.aws_role_session_name.clone(), None, text("aws_role_session_name"), text("A name to associate with the role session")),
        (env.aws_secret_access_key.clone(), None, text("aws_secret_access_key"), text("The secret key associated with the access key")),
        (env.aws_session_token.clone(), None, text("aws_session_token"), text("The session token value that is required if you are using temporary security credentials")),
        (env.aws_shared_credentials_file.clone(), some_text("~/.aws/credentials"), text("aws_shared_credentials_file"), text("The location of the file that the AWS CLI uses to store access keys")),
    ];
    assert(rows_view(r@) =~= env_rows(*env));
    r
}

/// The lines that unset each listed variable, by its upper-case name.
pub open spec fn unset_lines(rows: Seq<EnvRowView>) -> Seq<char>
    decreases rows.len(),
{
    if rows.len() == 0 {
        Seq::empty()
    } else {
        unset_lines(rows.drop_last()) + "unset "@ + upper_of(rows.last().2) + "\n"@
    }
}

/// The script that clears every variable of the listing.
pub open spec fn clear_script(env: EnvVariables) -> Seq<char> {
    unset_lines(env_rows(env)) + "echo clear all aws cli related environment variables.\n"@
}

/// The shell script that unsets every variable of the listing.
pub fn clear_environment_vars(env: &EnvVariables) -> (r: String)
    ensures
        r@ == clear_script(*env),
{
    let rows = create_env_list(env);
    let mut out = String::new();
    let mut i: usize = 0;
    while i < rows.len()
        invariant
            i <= rows.len(),
            rows_view(rows@) == env_rows(*env),
            out@ == unset_lines(rows_view(rows@).subrange(0, i as int)),
        decreases rows.len() - i,
    {
        proof {
            let v = rows_view(rows@);
            assert(v.subrange(0, i + 1).drop_last() =~= v.subrange(0, i as int));
        }
        out.append("unset ");
        let name = to_upper(rows[i].2.as_str());
        out.append(name.as_str());
        out.append("\n");
        i = i + 1;
    }
    assert(rows_view(rows@).subrange(0, rows.len() as int) =~= rows_view(rows@));
    out.append("echo clear all aws cli related environment variables.\n");
    out
}

/// An optional text, or the empty text.
pub open spec fn or_empty(o: Option<Seq<char>>) -> Seq<char> {
    match o {
        Some(t) => t,
        None => Seq::empty(),
    }
}

/// The cells of the listing's row: the upper-case name, what it is for, the
/// default and the value, the last two empty where absent.
pub open spec fn table_cells(row: EnvRowView) -> Seq<Seq<char>> {
    seq![upper_of(row.2), row.3, or_empty(row.1), or_empty(row.0)]
}

fn or_empty_text(o: &Option<String>) -> (r: String)
    ensures
        r@ == or_empty(opt_view(*o)),
{
    match o {
        Some(v) => v.clone(),
        None => String::new(),
    }
}

/// The cells of the environment listing, a row per variable.
pub fn env_table_rows(env: &EnvVariables) -> (r: Vec<Vec<String>>)
    ensures
        r@.len() == env_rows(*env).len(),
        forall|i: int| 0 <= i < r@.len() ==> (#[trigger] r@[i])@.map_values(|c: String| c@)
            == table_cells(env_rows(*env)[i]),
{
    let rows = create_env_list(env);
    let mut out: Vec<Vec<String>> = Vec::new();
    let mut i: usize = 0;
    while i < rows.len()
        invariant
            i <= rows.len(),
            rows_view(rows@) == env_rows(*env),
            out@.len() == i,
            forall|j: int| 0 <= j < i ==> (#[trigger] out@[j])@.map_values(|c: String| c@)
                == table_cells(env_rows(*env)[j]),
        decreases rows.len() - i,
    {
        let row = &rows[i];
        let cells = vec![to_upper(row.2.as_str()), row.3.clone(), or_empty_text(&row.1), or_empty_text(&row.0)];
        assert(cells@.map_values(|c: String| c@) =~= table_cells(rows_view(rows@)[i as int]));
        out.push(cells);
        i = i + 1;
    }
    out
}

/// Both key variables are set.
pub open spec fn keys_set(env: EnvVariables) -> bool {
    env.aws_access_key_id is Some && env.aws_secret_access_key is Some
}

/// A profile holds the credential whose key pair the environment carries.
pub open spec fn key_profile_found(m: Map<Seq<char>, Profile>, env: EnvVariables) -> bool {
    keys_set(env) && exists|k: Seq<char>| #[trigger] m.contains_key(k) && holds_key(
        m[k],
        env.aws_access_key_id->0@,
        env.aws_secret_access_key->0@,
    )
}

/// The report's start where the key variables name a profile.
pub open spec fn key_report(name: Seq<char>) -> Seq<char> {
    "1. checking AWS_ACCESS_KEY_ID and AWS_ACCESS_KEY_ID.\n"@
        + "\nenvironment variables are set. current profile is "@ + name + ".\n"@
}

/// The report where the key variables name no profile.
pub open spec fn fallback_report(m: Map<Seq<char>, Profile>, env: EnvVariables) -> Seq<char> {
    "1. checking AWS_ACCESS_KEY_ID and AWS_ACCESS_KEY_ID.\n"@ + (if keys_set(env) {
        Seq::empty()
    } else {
        "  environment variables are not set.\n"@
    }) + "2. checking AWS_PROFILE.\n"@ + match env.aws_profile {
        Some(name) => "\nAWS_PROFILE is set. current profile is "@ + name@ + ".\n"@,
        None => "  environment variable is not set.\n"@ + "3. checking profile named 'default'.\n"@
            + if m.contains_key("default"@) {
            "\nuse profile \"default\" as default.\n"@
        } else {
            "\n no profile with name \"default\".\n"@ + "\nno default profile.\n"@
        },
    }
}

/// Reports which profile is in effect for the command line interface: the
/// one whose cached credential the key variables carry (with its remaining
/// lifetime at `now`), else the one that AWS_PROFILE names, else "default".
pub fn show_current_profile(profile_map: &ProfileMap, env_vars: &EnvVariables, now: i64) -> (r: String)
    requires
        profile_map.wf(),
    ensures
        key_profile_found(profile_map@, *env_vars) ==> exists|k: Seq<char>|
            #[trigger] profile_map@.contains_key(k) && holds_key(
                profile_map@[k],
                env_vars.aws_access_key_id->0@,
                env_vars.aws_secret_access_key->0@,
            ) && starts_with(r@, key_report(profile_map@[k].profile_name@)),
        !key_profile_found(profile_map@, *env_vars) ==> r@ == fallback_report(profile_map@, *env_vars),
{
    let mut out = String::from_str("1. checking AWS_ACCESS_KEY_ID and AWS_ACCESS_KEY_ID.\n");
    match (&env_vars.aws_access_key_id, &env_vars.aws_secret_access_key) {
        (Some(access_key_id), Some(secret_access_key)) => {
            if let Some(profile) = profile_map.profile_by_key(access_key_id.as_str(), secret_access_key.as_str()) {
                out.append("\nenvironment variables are set. current profile is ");
                out.append(profile.profile_name.as_str());
                out.append(".\n");
                let ghost head = out@;
                let cred = profile.credential_str_at(now);
                out.append(cred.as_str());
                out.append("\n");
                proof {
                    assert(out@.subrange(0, head.len() as int) =~= head);
                }
                return out;
            }
        },
        _ => {
            out.append("  environment variables are not set.\n");
        },
    }
    out.append("2. checking AWS_PROFILE.\n");
    if let Some(profile_name) = &env_vars.aws_profile {
        out.append("\nAWS_PROFILE is set. current profile is ");
        out.append(profile_name.as_str());
        out.append(".\n");
        return out;
    } else {
        out.append("  environment variable is not set.\n");
    }
    out.append("3. checking profile named 'default'.\n");
    if let Ok(_) = profile_map.get("default") {
        out.append("\nuse profile \"default\" as default.\n");
        return out;
    } else {
        out.append("\n no profile with name \"default\".\n");
    }
    out.append("\nno default profile.\n");
    out
}

} // verus!
