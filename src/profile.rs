use vstd::prelude::*;
use crate::clock::{local_time_text, now_seconds, parse_rfc3339, rfc3339_instant};
use crate::error::Error;
use crate::export::{pair_views, rc, rc_text, str_views};
use crate::text::{decimal, decimal_text};

verus! {

/// A long-term access key pair, with the MFA device that guards it, if any.
#[derive(Debug, Clone, PartialEq, Eq)]
pub struct AccessKey {
    pub access_key_id: String,
    pub secret_access_key: String,
    pub mfa_device: Option<String>,
}

/// A temporary credential. `expiration` is an instant in whole seconds since
/// the Unix epoch (UTC).
#[derive(Debug, Clone, PartialEq, Eq)]
pub struct Credential {
    pub access_key_id: String,
    pub expiration: i64,
    pub secret_access_key: String,
    pub session_token: String,
}

/// The credential fields as the remote identity service returns them, with the
/// expiration still in its RFC 3339 text form.
#[derive(Debug, Clone, PartialEq, Eq)]
pub struct IssuedCredentials {
    pub access_key_id: String,
    pub secret_access_key: String,
    pub session_token: String,
    pub expiration: String,
}

/// How a profile authenticates.
#[derive(Debug, Clone, PartialEq, Eq)]
pub enum ProfileType {
    /// A delegated role, assumed from the named source profile.
    AssumeRole(String),
    /// A static key guarded by an MFA device.
    SessionWithMFA,
    /// A plain static key.
    Keys,
    /// No access settings at all.
    NoAccess,
}

/// The settings that a delegated role is assumed with.
#[derive(Debug, Clone, PartialEq, Eq)]
pub struct AssumedRole {
    pub role_arn: String,
    pub mfa_serial: String,
    pub source_profile: String,
}

/// The access settings of a profile: one shape or the other.
#[derive(Debug, Clone, PartialEq, Eq)]
pub enum Access {
    AccessKey(AccessKey),
    AssumeRole(AssumedRole),
}

/// A named configuration unit.
#[derive(Debug, Clone, PartialEq, Eq)]
pub struct Profile {
    pub order: usize,
    pub profile_name: String,
    pub region: Option<String>,
    pub access: Option<Access>,
    pub credential: Option<Credential>,
}

/// The phrase for `n` units: empty when `n` is not positive, singular
/// wording when it is one, plural wording otherwise.
pub open spec fn unit_text(n: int, singular: Seq<char>, plural: Seq<char>) -> Seq<char> {
    if n <= 0 {
        Seq::empty()
    } else if n == 1 {
        " 1 "@ + singular
    } else {
        " "@ + decimal(n as nat) + " "@ + plural
    }
}

/// A lifetime in seconds as hours, minutes and seconds.
pub open spec fn duration_text(secs: int) -> Seq<char> {
    unit_text(secs / 3600, "hour"@, "hours"@) + unit_text((secs / 60) % 60, "minute"@, "minutes"@)
        + unit_text(secs % 60, "second"@, "seconds"@)
}

/// Whether a text is in the "expired at ..." form.
pub open spec fn is_expired_form(t: Seq<char>) -> bool {
    t.len() >= 11 && t.subrange(0, 11) == "expired at "@
}

/// How a credential with the given remaining lifetime is shown, where
/// `expired_at` is its expiry instant in local time.
pub open spec fn life_text(life: int, expired_at: Seq<char>) -> Seq<char> {
    if life > 0 {
        duration_text(life)
    } else {
        "expired at "@ + expired_at
    }
}

/// Copies a credential.
pub(crate) fn copy_credential(c: &Credential) -> (r: Credential)
    ensures
        r == *c,
{
    Credential {
        access_key_id: c.access_key_id.clone(),
        expiration: c.expiration,
        secret_access_key: c.secret_access_key.clone(),
        session_token: c.session_token.clone(),
    }
}

impl Credential {
    /// Builds a credential from the service's answer; the expiration must be
    /// an RFC 3339 date-time.
    pub fn new(cred: &IssuedCredentials) -> (r: Result<Credential, Error>)
        ensures
            match r {
                Ok(c) => {
                    &&& rfc3339_instant(cred.expiration@) == Some(c.expiration as int)
                    &&& c.access_key_id == cred.access_key_id
                    &&& c.secret_access_key == cred.secret_access_key
                    &&& c.session_token == cred.session_token
                },
                Err(e) => rfc3339_instant(cred.expiration@) is None && e is AwsResponseFormatError,
            },
    {
        match parse_rfc3339(cred.expiration.as_str()) {
            Ok(expiration) => Ok(Credential {
                access_key_id: cred.access_key_id.clone(),
                expiration,
                secret_access_key: cred.secret_access_key.clone(),
                session_token: cred.session_token.clone(),
            }),
            Err(msg) => Err(Error::AwsResponseFormatError(msg)),
        }
    }

    /// The signed number of seconds from `now` until the expiration.
    pub fn life_at(&self, now: i64) -> (r: i128)
        ensures
            r == self.expiration - now,
    {
        self.expiration as i128 - now as i128
    }

    /// The signed number of seconds from the current time until the expiration.
    pub fn life(&self) -> (r: i128)
        ensures
            self.expiration - i64::MAX <= r <= self.expiration - i64::MIN,
    {
        self.life_at(now_seconds())
    }

    /// The expiration, in the machine's local time.
    pub fn local_expired_at_str(&self) -> String {
        match local_time_text(self.expiration) {
            Some(t) => t,
            None => String::new(),
        }
    }
}

/// Writes the phrase for `num` units.
pub fn duration_to_string(num: i128, singular: &str, plural: &str) -> (r: String)
    requires
        num <= u64::MAX,
    ensures
        r@ == unit_text(num as int, singular@, plural@),
{
    if num <= 0 {
        String::new()
    } else if num == 1 {
        let mut s = String::from_str(" 1 ");
        s.append(singular);
        s
    } else {
        let mut s = String::from_str(" ");
        let digits = decimal_text(num as u128);
        s.append(digits.as_str());
        s.append(" ");
        s.append(plural);
        s
    }
}

/// Writes a positive lifetime in seconds as hours, minutes and seconds.
pub fn duration_phrase(secs: i128) -> (r: String)
    requires
        0 < secs <= u64::MAX,
    ensures
        r@ == duration_text(secs as int),
{
    let mut s = duration_to_string(secs / 3600, "hour", "hours");
    let minutes = duration_to_string((secs / 60) % 60, "minute", "minutes");
    let seconds = duration_to_string(secs % 60, "second", "seconds");
    s.append(minutes.as_str());
    s.append(seconds.as_str());
    s
}

/// Any text of the duration form is empty or starts with a space.
proof fn lemma_duration_starts_with_space(secs: int)
    ensures
        duration_text(secs).len() == 0 || duration_text(secs)[0] == ' ',
{
    reveal_strlit(" 1 ");
    reveal_strlit(" ");
    let a = unit_text(secs / 3600, "hour"@, "hours"@);
    let b = unit_text((secs / 60) % 60, "minute"@, "minutes"@);
    let c = unit_text(secs % 60, "second"@, "seconds"@);
    assert(duration_text(secs) == a + b + c);
    if a.len() > 0 {
        assert((a + b + c)[0] == a[0]);
    } else if b.len() > 0 {
        assert((a + b + c)[0] == b[0]);
    } else {
        assert(a + b + c == c);
    }
}

/// A positive lifetime shows as hours, minutes and seconds, where a unit whose
/// count is zero is left out and a count of one takes the singular word; a
/// negative lifetime shows as "expired at ...". Each form rules out the other.
pub proof fn lemma_life_text_form(life: int, expired_at: Seq<char>)
    requires
        life != 0,
    ensures
        life < 0 <==> is_expired_form(life_text(life, expired_at)),
        life > 0 <==> life_text(life, expired_at) == duration_text(life),
        life > 0 ==> life_text(life, expired_at) == unit_text(life / 3600, "hour"@, "hours"@)
            + unit_text((life / 60) % 60, "minute"@, "minutes"@) + unit_text(life % 60, "second"@, "seconds"@),
{
    reveal_strlit("expired at ");
    lemma_duration_starts_with_space(life);
    if life > 0 {
        let d = duration_text(life);
        if d.len() >= 11 {
            assert(d.subrange(0, 11)[0] == ' ');
        }
    } else {
        let t = "expired at "@ + expired_at;
        assert(t.subrange(0, 11) =~= "expired at "@);
        assert(t[0] == 'e');
    }
}

/// How the listing shows a profile's cached credential at time `now`: "-"
/// when there is none, its remaining lifetime while it lasts, else the
/// "expired at ..." form.
pub open spec fn shows_credential(p: Profile, now: int, t: Seq<char>) -> bool {
    match p.credential {
        None => t == "-"@,
        Some(c) => {
            &&& c.expiration - now > 0 ==> t == duration_text(c.expiration - now)
            &&& c.expiration - now <= 0 ==> t == life_text(c.expiration - now, t.subrange(11, t.len() as int))
            &&& c.expiration - now <= 0 ==> is_expired_form(t)
        },
    }
}

impl Profile {
    /// How this profile authenticates, by its access settings.
    pub open spec fn spec_profile_type(&self) -> ProfileType {
        match self.access {
            Some(Access::AssumeRole(role)) => ProfileType::AssumeRole(role.source_profile),
            Some(Access::AccessKey(key)) => if key.mfa_device is Some {
                ProfileType::SessionWithMFA
            } else {
                ProfileType::Keys
            },
            None => ProfileType::NoAccess,
        }
    }

    /// How this profile authenticates.
    pub fn profile_type(&self) -> (r: ProfileType)
        ensures
            r == self.spec_profile_type(),
    {
        match &self.access {
            Some(Access::AssumeRole(assumed_role)) => ProfileType::AssumeRole(
                assumed_role.source_profile.clone(),
            ),
            Some(Access::AccessKey(access_key)) => match access_key.mfa_device {
                Some(_) => ProfileType::SessionWithMFA,
                None => ProfileType::Keys,
            },
            None => ProfileType::NoAccess,
        }
    }

    /// The profile's type in words, as shown in the listing.
    pub fn profile_type_str(&self) -> (r: String)
        ensures
            r@ == match self.spec_profile_type() {
                ProfileType::AssumeRole(source) => "Assume role from "@ + source@,
                ProfileType::SessionWithMFA => "Access key with mfa device"@,
                ProfileType::Keys => "Access key"@,
                ProfileType::NoAccess => Seq::empty(),
            },
    {
        match self.profile_type() {
            ProfileType::AssumeRole(source) => {
                let mut s = String::from_str("Assume role from ");
                s.append(source.as_str());
                s
            },
            ProfileType::SessionWithMFA => String::from_str("Access key with mfa device"),
            ProfileType::Keys => String::from_str("Access key"),
            ProfileType::NoAccess => String::new(),
        }
    }

    /// The region, or "none".
    pub fn region_str(&self) -> (r: String)
        ensures
            r@ == match self.region {
                Some(region) => region@,
                None => "none"@,
            },
    {
        match &self.region {
            Some(region) => region.clone(),
            None => String::from_str("none"),
        }
    }

    /// The cached credential as shown in the listing at time `now`: "-" when
    /// there is none, its remaining lifetime while it lasts, else the
    /// "expired at ..." form with the expiry in local time.
    pub fn credential_str_at(&self, now: i64) -> (r: String)
        ensures
            shows_credential(*self, now as int, r@),
    {
        match &self.credential {
            Some(cred) => {
                let life = cred.life_at(now);
                if life > 0 {
                    duration_phrase(life)
                } else {
                    let mut s = String::from_str("expired at ");
                    let at = cred.local_expired_at_str();
                    s.append(at.as_str());
                    proof {
                        reveal_strlit("expired at ");
                        assert(s@.subrange(0, 11) =~= "expired at "@);
                        assert(s@ =~= "expired at "@ + s@.subrange(11, s@.len() as int));
                    }
                    s
                }
            },
            None => String::from_str("-"),
        }
    }

    /// The cached credential as shown in the listing at the current time.
    pub fn credential_str(&self) -> (r: String)
        ensures
            exists|now: i64| #[trigger] shows_credential(*self, now as int, r@),
    {
        self.credential_str_at(now_seconds())
    }

    /// The snippet that exports a live temporary credential of the profile.
    pub open spec fn session_export_text(&self, c: Credential) -> Seq<char> {
        rc_text(
            seq![
                ("AWS_ACCESS_KEY_ID"@, c.access_key_id@),
                ("AWS_SECRET_ACCESS_KEY"@, c.secret_access_key@),
                ("AWS_SESSION_TOKEN"@, c.session_token@),
            ],
            seq!["AWS_PROFILE"@],
            seq![
                "set access_key_id, secret_access_key, session_token to env for profile '"@
                    + self.profile_name@ + "'"@,
            ],
        )
    }

    /// The snippet that selects the profile by name and clears temporary keys.
    pub open spec fn profile_export_text(&self) -> Seq<char> {
        rc_text(
            seq![("AWS_PROFILE"@, self.profile_name@)],
            seq!["AWS_ACCESS_KEY_ID"@, "AWS_SECRET_ACCESS_KEY"@, "AWS_SESSION_TOKEN"@],
            seq!["set AWS_PROFILE for profile '"@ + self.profile_name@ + "'"@],
        )
    }

    /// The shell snippet that exposes this profile at time `now`.
    /// A live credential is exported; an expired one fails with the expiry in
    /// local time; without one, a plain key profile or one without access
    /// settings is selected by name, and any other fails as not signed in.
    pub fn export_at(&self, now: i64) -> (r: Result<String, Error>)
        ensures
            match self.credential {
                Some(c) => if c.expiration - now > 0 {
                    r is Ok && r->Ok_0@ == self.session_export_text(c)
                } else {
                    r is Err && r->Err_0 is SessionExpiredError
                },
                None => match self.spec_profile_type() {
                    ProfileType::Keys | ProfileType::NoAccess => r is Ok && r->Ok_0@
                        == self.profile_export_text(),
                    _ => r is Err && r->Err_0 is ProfileNotSignedIn
                        && r->Err_0->ProfileNotSignedIn_0 == self.profile_name,
                },
            },
    {
        match &self.credential {
            Some(cred) => {
                if cred.life_at(now) > 0 {
                    let mut message = String::from_str(
                        "set access_key_id, secret_access_key, session_token to env for profile '",
                    );
                    message.append(self.profile_name.as_str());
                    message.append("'");
                    let exports = vec![
                        ("AWS_ACCESS_KEY_ID", cred.access_key_id.clone()),
                        ("AWS_SECRET_ACCESS_KEY", cred.secret_access_key.clone()),
                        ("AWS_SESSION_TOKEN", cred.session_token.clone()),
                    ];
                    let unset = vec!["AWS_PROFILE"];
                    let messages = vec![message.as_str()];
                    let ghost texts = (pair_views(exports@), str_views(unset@), str_views(messages@));
                    assert(texts.0 =~= seq![
                        ("AWS_ACCESS_KEY_ID"@, cred.access_key_id@),
                        ("AWS_SECRET_ACCESS_KEY"@, cred.secret_access_key@),
                        ("AWS_SESSION_TOKEN"@, cred.session_token@),
                    ]);
                    assert(texts.1 =~= seq!["AWS_PROFILE"@]);
                    assert(texts.2 =~= seq![message@]);
                    Ok(rc(exports, unset, messages))
                } else {
                    Err(Error::SessionExpiredError(cred.local_expired_at_str()))
                }
            },
            None => match self.profile_type() {
                ProfileType::Keys | ProfileType::NoAccess => {
                    let mut message = String::from_str("set AWS_PROFILE for profile '");
                    message.append(self.profile_name.as_str());
                    message.append("'");
                    let exports = vec![("AWS_PROFILE", self.profile_name.clone())];
                    let unset = vec!["AWS_ACCESS_KEY_ID", "AWS_SECRET_ACCESS_KEY", "AWS_SESSION_TOKEN"];
                    let messages = vec![message.as_str()];
                    let ghost texts = (pair_views(exports@), str_views(unset@), str_views(messages@));
                    assert(texts.0 =~= seq![("AWS_PROFILE"@, self.profile_name@)]);
                    assert(texts.1 =~= seq!["AWS_ACCESS_KEY_ID"@, "AWS_SECRET_ACCESS_KEY"@, "AWS_SESSION_TOKEN"@]);
                    assert(texts.2 =~= seq![message@]);
                    Ok(rc(exports, unset, messages))
                },
                ProfileType::AssumeRole(_) | ProfileType::SessionWithMFA => {
                    Err(Error::ProfileNotSignedIn(self.profile_name.clone()))
                },
            },
        }
    }

    /// The shell snippet that exposes this profile at the current time.
    pub fn export(&self) -> (r: Result<String, Error>)
        ensures
            self.credential is None ==> match self.spec_profile_type() {
                ProfileType::Keys | ProfileType::NoAccess => r is Ok && r->Ok_0@
                    == self.profile_export_text(),
                _ => r is Err && r->Err_0 is ProfileNotSignedIn
                    && r->Err_0->ProfileNotSignedIn_0 == self.profile_name,
            },
            self.credential is Some ==> match r {
                Ok(t) => t@ == self.session_export_text(self.credential->0),
                Err(e) => e is SessionExpiredError,
            },
    {
        self.export_at(now_seconds())
    }
}

} // verus!
