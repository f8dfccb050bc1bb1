use vstd::prelude::*;
use crate::collection::ProfileMap;
use crate::error::Error;
use crate::profile::{Access, AccessKey, AssumedRole, Profile};
use crate::table::Table;
use crate::text::{remove_first, same_text, trim, trim_of, without_first};
use vstd::string::StrSliceExecFns;

verus! {

/// One section of an INI document: its header (`None` for the properties
/// that stand before any header) and its properties in file order.
#[derive(Debug, Clone, PartialEq, Eq)]
pub struct IniSection {
    pub name: Option<String>,
    pub properties: Vec<(String, String)>,
}

/// A section as plain text values.
pub type SectionView = (Option<Seq<char>>, Seq<(Seq<char>, Seq<char>)>);

/// The properties of one profile: key to value.
pub type PropertyModel = Map<Seq<char>, Seq<char>>;

/// The merged sources: profile name to display order and properties.
pub type SourceModel = Map<Seq<char>, (int, PropertyModel)>;

/// The merged sources as the library holds them.
pub type PropertyMap = Table<(usize, Table<String>)>;

/// The text values of a list of key/value pairs.
pub open spec fn pairs_view(v: Seq<(String, String)>) -> Seq<(Seq<char>, Seq<char>)> {
    v.map_values(|p: (String, String)| (p.0@, p.1@))
}

/// The text values of an optional text.
pub open spec fn opt_view(o: Option<String>) -> Option<Seq<char>> {
    match o {
        Some(s) => Some(s@),
        None => None,
    }
}

/// A section as plain text values.
pub open spec fn section_view(s: IniSection) -> SectionView {
    (opt_view(s.name), pairs_view(s.properties@))
}

/// A list of sections as plain text values.
pub open spec fn sections_view(v: Seq<IniSection>) -> Seq<SectionView> {
    v.map_values(|s: IniSection| section_view(s))
}

/// The sections of an INI text in file order, or `None` where it does not parse.
pub uninterp spec fn ini_document(text: Seq<char>) -> Option<Seq<SectionView>>;

/// Relies on rust-ini's `Ini::load_from_str`: it parses the text into its
/// sections, each with its properties, both in file order.
#[verifier::external_body]
fn parse_ini(text: &str) -> (r: Result<Vec<IniSection>, String>)
    ensures
        match r {
            Ok(v) => ini_document(text@) == Some(sections_view(v@)),
            Err(_) => ini_document(text@) is None,
        },
{
    match ini::Ini::load_from_str(text) {
        Ok(doc) => Ok(doc.iter().map(|(name, props)| IniSection {
            name: name.map(|n| n.to_string()),
            properties: props.iter().map(|(k, v)| (k.to_string(), v.to_string())).collect(),
        }).collect()),
        Err(e) => Err(format!("{:?}", e)),
    }
}

/// Key/value pairs as a map, where a later pair wins over an earlier one.
pub open spec fn kv_map(props: Seq<(Seq<char>, Seq<char>)>) -> PropertyModel
    decreases props.len(),
{
    if props.len() == 0 {
        Map::empty()
    } else {
        kv_map(props.drop_last()).insert(props.last().0, props.last().1)
    }
}

/// A property table as text values.
pub open spec fn props_model(t: Map<Seq<char>, String>) -> PropertyModel {
    t.map_values(|s: String| s@)
}

/// The merged sources as text values.
pub open spec fn source_model(m: Map<Seq<char>, (usize, Table<String>)>) -> SourceModel {
    m.map_values(|e: (usize, Table<String>)| (e.0 as int, props_model(e.1@)))
}

/// The merged sources are well formed, and so is each property table.
pub open spec fn property_map_wf(props: PropertyMap) -> bool {
    &&& props.wf()
    &&& forall|k: Seq<char>| #[trigger] props@.contains_key(k) ==> props@[k].1.wf()
}

/// The profile name that a section header stands for: the first "profile "
/// taken out and the rest trimmed; `None` where that leaves nothing or the
/// word "profile".
pub open spec fn profile_name_of(section: Seq<char>) -> Option<Seq<char>> {
    let t = trim_of(without_first(section, "profile "@));
    if t.len() == 0 || t == "profile"@ {
        None
    } else {
        Some(t)
    }
}

/// The profile name of a section, if it has a usable header.
pub open spec fn section_name(sec: SectionView) -> Option<Seq<char>> {
    match sec.0 {
        Some(n) => profile_name_of(n),
        None => None,
    }
}

/// Every section has a usable header.
pub open spec fn all_named(secs: Seq<SectionView>) -> bool {
    forall|i: int| 0 <= i < secs.len() ==> (#[trigger] section_name(secs[i])) is Some
}

/// Reads sections the way the primary source is read: each section replaces
/// the entry of its name, ranked by the number of entries before it.
pub open spec fn replace_sections(m: SourceModel, secs: Seq<SectionView>) -> SourceModel
    decreases secs.len(),
{
    if secs.len() == 0 {
        m
    } else {
        let prev = replace_sections(m, secs.drop_last());
        prev.insert(section_name(secs.last())->0, (prev.len() as int, kv_map(secs.last().1)))
    }
}

/// Adds one section's properties to the entry of its name, new values winning,
/// or makes a new entry ranked last.
pub open spec fn merge_one(m: SourceModel, name: Seq<char>, kv: PropertyModel) -> SourceModel {
    if m.contains_key(name) {
        m.insert(name, (m[name].0, m[name].1.union_prefer_right(kv)))
    } else {
        m.insert(name, (m.len() as int, kv))
    }
}

/// Reads sections the way the credentials and override sources are read.
pub open spec fn merge_sections(m: SourceModel, secs: Seq<SectionView>) -> SourceModel
    decreases secs.len(),
{
    if secs.len() == 0 {
        m
    } else {
        merge_one(
            merge_sections(m, secs.drop_last()),
            section_name(secs.last())->0,
            kv_map(secs.last().1),
        )
    }
}

proof fn lemma_props_model_insert(t: Map<Seq<char>, String>, k: Seq<char>, v: String)
    ensures
        props_model(t.insert(k, v)) == props_model(t).insert(k, v@),
{
    assert(props_model(t.insert(k, v)) =~= props_model(t).insert(k, v@));
}

proof fn lemma_source_model_insert(m: Map<Seq<char>, (usize, Table<String>)>, k: Seq<char>, v: (usize, Table<String>))
    ensures
        source_model(m.insert(k, v)) == source_model(m).insert(k, (v.0 as int, props_model(v.1@))),
        source_model(m).len() == m.len(),
        source_model(m).dom() == m.dom(),
{
    assert(source_model(m.insert(k, v)) =~= source_model(m).insert(k, (v.0 as int, props_model(v.1@))));
    assert(source_model(m).dom() =~= m.dom());
}

/// Puts each pair into the table in order, later pairs winning.
fn put_all(t: &mut Table<String>, props: &Vec<(String, String)>)
    requires
        old(t).wf(),
    ensures
        final(t).wf(),
        props_model(final(t)@) == props_model(old(t)@).union_prefer_right(kv_map(pairs_view(props@))),
{
    let ghost start = props_model(t@);
    let mut i: usize = 0;
    while i < props.len()
        invariant
            t.wf(),
            i <= props.len(),
            props_model(t@) == start.union_prefer_right(kv_map(pairs_view(props@.subrange(0, i as int)))),
        decreases props.len() - i,
    {
        let ghost before = t@;
        let ghost prefix = pairs_view(props@.subrange(0, i as int));
        t.insert(props[i].0.as_str(), props[i].1.clone());
        proof {
            lemma_props_model_insert(before, props@[i as int].0@, props@[i as int].1);
            let next = pairs_view(props@.subrange(0, i + 1));
            assert(next.drop_last() =~= prefix);
            assert(start.union_prefer_right(kv_map(next)) =~= start.union_prefer_right(kv_map(prefix)).insert(
                props@[i as int].0@,
                props@[i as int].1@,
            ));
        }
        i = i + 1;
    }
    assert(props@.subrange(0, props.len() as int) =~= props@);
}

/// The properties of a section as a table, later pairs winning.
pub fn properties_to_vec(properties: &Vec<(String, String)>) -> (r: Table<String>)
    ensures
        r.wf(),
        props_model(r@) == kv_map(pairs_view(properties@)),
{
    let mut t: Table<String> = Table::new();
    put_all(&mut t, properties);
    assert(props_model(t@) =~= kv_map(pairs_view(properties@)));
    t
}

/// The profile name that a section header stands for.
pub fn profile_name(section_key: &str) -> (r: Option<String>)
    ensures
        opt_view(r) == profile_name_of(section_key@),
{
    let removed = remove_first(section_key, "profile ");
    let name = trim(removed.as_str());
    if name.unicode_len() == 0 || same_text(name, "profile") {
        None
    } else {
        Some(String::from_str(name))
    }
}

/// The message for a section header that names no profile.
fn empty_header_message(section: &str) -> (r: String)
    ensures
        r@ == "section header line "@ + section@ + " is empty."@,
{
    let mut m = String::from_str("section header line ");
    m.append(section);
    m.append(" is empty.");
    m
}

/// The profile name of a section, or the message that says why it has none.
fn section_profile_name(sec: &IniSection) -> (r: Result<String, String>)
    ensures
        match r {
            Ok(n) => section_name(section_view(*sec)) == Some(n@),
            Err(_) => section_name(section_view(*sec)) is None,
        },
{
    match &sec.name {
        None => Err(String::from_str("section name not found")),
        Some(section) => match profile_name(section.as_str()) {
            Some(n) => Ok(n),
            None => Err(empty_header_message(section.as_str())),
        },
    }
}

/// Reads the primary source: each section becomes the entry of its profile
/// name, ranked by the number of entries already there. Fails with
/// `ConfigFileError` at the first section without a usable header.
pub fn read_config(conf: &Vec<IniSection>, props: &mut PropertyMap) -> (r: Result<(), Error>)
    requires
        property_map_wf(*old(props)),
    ensures
        property_map_wf(*final(props)),
        r is Ok <==> all_named(sections_view(conf@)),
        r is Ok ==> source_model(final(props)@) == replace_sections(
            source_model(old(props)@),
            sections_view(conf@),
        ),
        r is Err ==> r->Err_0 is ConfigFileError,
{
    let ghost start = source_model(props@);
    let mut i: usize = 0;
    while i < conf.len()
        invariant
            i <= conf.len(),
            property_map_wf(*props),
            all_named(sections_view(conf@.subrange(0, i as int))),
            source_model(props@) == replace_sections(start, sections_view(conf@.subrange(0, i as int))),
        decreases conf.len() - i,
    {
        let ghost prefix = sections_view(conf@.subrange(0, i as int));
        let ghost next = sections_view(conf@.subrange(0, i + 1));
        proof {
            assert(next.drop_last() =~= prefix);
            assert(next.last() == section_view(conf@[i as int]));
        }
        match section_profile_name(&conf[i]) {
            Err(msg) => {
                proof {
                    assert(sections_view(conf@)[i as int] == section_view(conf@[i as int]));
                }
                return Err(Error::ConfigFileError(msg));
            },
            Ok(name) => {
                let order = props.len();
                let table = properties_to_vec(&conf[i].properties);
                let ghost before = props@;
                props.insert(name.as_str(), (order, table));
                proof {
                    lemma_source_model_insert(before, name@, (order, table));
                    assert forall|j: int| 0 <= j < next.len() implies (#[trigger] section_name(next[j])) is Some by {
                        if j < i {
                            assert(next[j] == prefix[j]);
                        }
                    }
                }
            },
        }
        i = i + 1;
    }
    assert(conf@.subrange(0, conf.len() as int) =~= conf@);
    Ok(())
}

/// Adds a section's properties to the entry of that profile name, new values
/// winning, or makes a new entry ranked last.
pub fn merge_props(profile_name: &str, prop: &Vec<(String, String)>, props: &mut PropertyMap)
    requires
        property_map_wf(*old(props)),
    ensures
        property_map_wf(*final(props)),
        source_model(final(props)@) == merge_one(
            source_model(old(props)@),
            profile_name@,
            kv_map(pairs_view(prop@)),
        ),
{
    let ghost before = props@;
    let order = props.len();
    match props.get_mut(profile_name) {
        Some(entry) => {
            put_all(&mut entry.1, prop);
        },
        None => {
            let table = properties_to_vec(prop);
            props.insert(profile_name, (order, table));
        },
    }
    proof {
        lemma_source_model_insert(before, profile_name@, props@[profile_name@]);
        assert(source_model(props@) =~= source_model(before.insert(profile_name@, props@[profile_name@])));
    }
}

/// Merges every section into the entries, stopping at the first section
/// without a usable header and handing back its message.
fn merge_all(secs: &Vec<IniSection>, props: &mut PropertyMap) -> (r: Result<(), String>)
    requires
        property_map_wf(*old(props)),
    ensures
        property_map_wf(*final(props)),
        r is Ok <==> all_named(sections_view(secs@)),
        r is Ok ==> source_model(final(props)@) == merge_sections(
            source_model(old(props)@),
            sections_view(secs@),
        ),
{
    let ghost start = source_model(props@);
    let mut i: usize = 0;
    while i < secs.len()
        invariant
            i <= secs.len(),
            property_map_wf(*props),
            all_named(sections_view(secs@.subrange(0, i as int))),
            source_model(props@) == merge_sections(start, sections_view(secs@.subrange(0, i as int))),
        decreases secs.len() - i,
    {
        let ghost prefix = sections_view(secs@.subrange(0, i as int));
        let ghost next = sections_view(secs@.subrange(0, i + 1));
        proof {
            assert(next.drop_last() =~= prefix);
            assert(next.last() == section_view(secs@[i as int]));
        }
        match section_profile_name(&secs[i]) {
            Err(msg) => {
                proof {
                    assert(sections_view(secs@)[i as int] == section_view(secs@[i as int]));
                }
                return Err(msg);
            },
            Ok(name) => {
                merge_props(name.as_str(), &secs[i].properties, props);
                proof {
                    assert forall|j: int| 0 <= j < next.len() implies (#[trigger] section_name(next[j])) is Some by {
                        if j < i {
                            assert(next[j] == prefix[j]);
                        }
                    }
                }
            },
        }
        i = i + 1;
    }
    assert(secs@.subrange(0, secs.len() as int) =~= secs@);
    Ok(())
}

/// Reads the credentials source: each section is merged into the entry of
/// its profile name. Fails with `CredentialFileError` at the first section
/// without a usable header.
pub fn read_credentials(cred: &Vec<IniSection>, props: &mut PropertyMap) -> (r: Result<(), Error>)
    requires
        property_map_wf(*old(props)),
    ensures
        property_map_wf(*final(props)),
        r is Ok <==> all_named(sections_view(cred@)),
        r is Ok ==> source_model(final(props)@) == merge_sections(
            source_model(old(props)@),
            sections_view(cred@),
        ),
        r is Err ==> r->Err_0 is CredentialFileError,
{
    match merge_all(cred, props) {
        Ok(()) => Ok(()),
        Err(msg) => Err(Error::CredentialFileError(msg)),
    }
}

/// Reads the override source: each section is merged into the entry of its
/// profile name. Fails with `NgydvConfigError` at the first section without a
/// usable header.
pub fn read_ngydv(cred: &Vec<IniSection>, props: &mut PropertyMap) -> (r: Result<(), Error>)
    requires
        property_map_wf(*old(props)),
    ensures
        property_map_wf(*final(props)),
        r is Ok <==> all_named(sections_view(cred@)),
        r is Ok ==> source_model(final(props)@) == merge_sections(
            source_model(old(props)@),
            sections_view(cred@),
        ),
        r is Err ==> r->Err_0 is NgydvConfigError,
{
    match merge_all(cred, props) {
        Ok(()) => Ok(()),
        Err(msg) => Err(Error::NgydvConfigError(msg)),
    }
}

/// The value of a key, if present.
pub open spec fn lookup(m: PropertyModel, k: Seq<char>) -> Option<Seq<char>> {
    if m.contains_key(k) {
        Some(m[k])
    } else {
        None
    }
}

/// The properties hold a complete static key.
pub open spec fn has_key_pair(m: PropertyModel) -> bool {
    m.contains_key("aws_access_key_id"@) && m.contains_key("aws_secret_access_key"@)
}

/// The properties hold a complete delegated role.
pub open spec fn has_role(m: PropertyModel) -> bool {
    m.contains_key("role_arn"@) && m.contains_key("mfa_serial"@) && m.contains_key("source_profile"@)
}

/// The access settings that the properties give: a complete delegated role
/// wins over a complete static key.
pub open spec fn access_matches(a: Option<Access>, m: PropertyModel) -> bool {
    match a {
        Some(Access::AssumeRole(role)) => {
            &&& has_role(m)
            &&& role.role_arn@ == m["role_arn"@]
            &&& role.mfa_serial@ == m["mfa_serial"@]
            &&& role.source_profile@ == m["source_profile"@]
        },
        Some(Access::AccessKey(key)) => {
            &&& !has_role(m)
            &&& has_key_pair(m)
            &&& key.access_key_id@ == m["aws_access_key_id"@]
            &&& key.secret_access_key@ == m["aws_secret_access_key"@]
            &&& opt_view(key.mfa_device) == lookup(m, "mfa_device"@)
        },
        None => !has_role(m) && !has_key_pair(m),
    }
}

/// The profile built from merged properties under a name and rank.
pub open spec fn profile_matches(p: Profile, name: Seq<char>, order: int, m: PropertyModel) -> bool {
    &&& p.profile_name@ == name
    &&& p.order == order
    &&& opt_view(p.region) == lookup(m, "region"@)
    &&& access_matches(p.access, m)
    &&& p.credential is None
}

fn value_of(t: &Table<String>, key: &str) -> (r: Option<String>)
    requires
        t.wf(),
    ensures
        opt_view(r) == lookup(props_model(t@), key@),
{
    match t.get(key) {
        Some(v) => Some(v.clone()),
        None => None,
    }
}

/// Builds the profile of a merged entry: region from "region"; a static key
/// where both key fields are there, with "mfa_device" if present; and a
/// delegated role where "role_arn", "mfa_serial" and "source_profile" are all
/// there, which replaces the static key.
pub fn create_profile(name: &str, prop: &(usize, Table<String>)) -> (r: Profile)
    requires
        prop.1.wf(),
    ensures
        profile_matches(r, name@, prop.0 as int, props_model(prop.1@)),
{
    let (order, table) = prop;
    let mut profile = Profile {
        order: *order,
        profile_name: String::from_str(name),
        region: value_of(table, "region"),
        access: None,
        credential: None,
    };
    if let (Some(access_key_id), Some(secret_access_key)) = (
        value_of(table, "aws_access_key_id"),
        value_of(table, "aws_secret_access_key"),
    ) {
        profile.access = Some(
            Access::AccessKey(
                AccessKey { access_key_id, secret_access_key, mfa_device: value_of(table, "mfa_device") },
            ),
        );
    }
    if let (Some(role_arn), Some(mfa_serial), Some(source_profile)) = (
        value_of(table, "role_arn"),
        value_of(table, "mfa_serial"),
        value_of(table, "source_profile"),
    ) {
        profile.access = Some(Access::AssumeRole(AssumedRole { role_arn, mfa_serial, source_profile }));
    }
    profile
}

/// Where merged properties hold both a complete static key and a complete
/// delegated role, the profile built from them is a delegated role.
pub proof fn lemma_role_wins(p: Profile, name: Seq<char>, order: int, m: PropertyModel)
    requires
        profile_matches(p, name, order, m),
        has_key_pair(m),
        has_role(m),
    ensures
        p.access is Some,
        p.access->0 is AssumeRole,
        p.spec_profile_type() is AssumeRole,
{
}

/// The sections that an INI text yields, none where it does not parse.
pub open spec fn parsed_or_empty(text: Seq<char>) -> Seq<SectionView> {
    match ini_document(text) {
        Some(secs) => secs,
        None => Seq::empty(),
    }
}

/// The sections of the override source: none where it is absent or does not parse.
pub open spec fn override_sections(text: Option<Seq<char>>) -> Seq<SectionView> {
    match text {
        Some(t) => parsed_or_empty(t),
        None => Seq::empty(),
    }
}

/// A source text parses and each of its sections has a usable header.
pub open spec fn source_ok(text: Seq<char>) -> bool {
    ini_document(text) is Some && all_named(ini_document(text)->0)
}

/// The three sources merged: the primary source read first, then the
/// credentials source, then the override source.
pub open spec fn merged_sources(
    config: Seq<SectionView>,
    credentials: Seq<SectionView>,
    overrides: Seq<SectionView>,
) -> SourceModel {
    merge_sections(merge_sections(replace_sections(Map::empty(), config), credentials), overrides)
}

/// The view of an optional text slice.
pub open spec fn opt_str_view(o: Option<&str>) -> Option<Seq<char>> {
    match o {
        Some(s) => Some(s@),
        None => None,
    }
}

/// Builds the registry from the three property sources. The primary and
/// credentials sources must parse (`ConfigFileError`, `CredentialFileError`);
/// an override source that is absent or does not parse counts as empty. A
/// section without a usable header fails with the error of its source. Each
/// merged entry becomes a profile by `create_profile`.
pub fn read_aws_config(config_text: &str, credentials_text: &str, override_text: Option<&str>) -> (r: Result<ProfileMap, Error>)
    ensures
        r is Ok <==> source_ok(config_text@) && source_ok(credentials_text@) && all_named(
            override_sections(opt_str_view(override_text)),
        ),
        !source_ok(config_text@) ==> r is Err && r->Err_0 is ConfigFileError,
        source_ok(config_text@) && !source_ok(credentials_text@) ==> r is Err && r->Err_0 is CredentialFileError,
        source_ok(config_text@) && source_ok(credentials_text@) && !all_named(
            override_sections(opt_str_view(override_text)),
        ) ==> r is Err && r->Err_0 is NgydvConfigError,
        r is Ok ==> {
            let m = merged_sources(
                ini_document(config_text@)->0,
                ini_document(credentials_text@)->0,
                override_sections(opt_str_view(override_text)),
            );
            &&& r->Ok_0.wf()
            &&& r->Ok_0@.dom() == m.dom()
            &&& forall|n: Seq<char>| #[trigger] m.contains_key(n) ==> profile_matches(r->Ok_0@[n], n, m[n].0, m[n].1)
        },
{
    let mut props: PropertyMap = Table::new();
    proof {
        assert(source_model(props@) =~= Map::empty());
    }
    let conf = match parse_ini(config_text) {
        Ok(c) => c,
        Err(e) => return Err(Error::ConfigFileError(e)),
    };
    if let Err(e) = read_config(&conf, &mut props) {
        return Err(e);
    }
    let cred = match parse_ini(credentials_text) {
        Ok(c) => c,
        Err(e) => return Err(Error::CredentialFileError(e)),
    };
    if let Err(e) = read_credentials(&cred, &mut props) {
        return Err(e);
    }
    if let Some(text) = override_text {
        if let Ok(ngydv) = parse_ini(text) {
            if let Err(e) = read_ngydv(&ngydv, &mut props) {
                return Err(e);
            }
        }
    }
    let ghost m = source_model(props@);
    assert(m == merged_sources(
        ini_document(config_text@)->0,
        ini_document(credentials_text@)->0,
        override_sections(opt_str_view(override_text)),
    ));
    let mut profiles = ProfileMap::new();
    let n = props.len();
    proof {
        props.lemma_keys();
    }
    let mut i: usize = 0;
    while i < n
        invariant
            property_map_wf(props),
            m == source_model(props@),
            n == props.keys().len(),
            props.keys().no_duplicates(),
            props@.dom() == props.keys().to_set(),
            i <= n,
            profiles.wf(),
            profiles@.dom() == props.keys().subrange(0, i as int).to_set(),
            forall|j: int| 0 <= j < i ==> profile_matches(
                profiles@[#[trigger] props.keys()[j]],
                props.keys()[j],
                m[props.keys()[j]].0,
                m[props.keys()[j]].1,
            ),
        decreases n - i,
    {
        let (name, prop) = props.entry(i);
        let profile = create_profile(name.as_str(), prop);
        let ghost before = profiles@;
        profiles.insert(name.as_str(), profile);
        proof {
            let keys = props.keys();
            assert(keys.subrange(0, i + 1) =~= keys.subrange(0, i as int).push(keys[i as int]));
            keys.subrange(0, i as int).lemma_push_to_set_commute(keys[i as int]);
            assert forall|j: int| 0 <= j < i + 1 implies profile_matches(
                profiles@[#[trigger] keys[j]],
                keys[j],
                m[keys[j]].0,
                m[keys[j]].1,
            ) by {
                if j < i {
                    assert(keys[j] != keys[i as int]);
                }
            }
        }
        i = i + 1;
    }
    proof {
        assert(props.keys().subrange(0, n as int) =~= props.keys());
        assert(m.dom() =~= props@.dom());
        assert forall|k: Seq<char>| #[trigger] m.contains_key(k) implies profile_matches(profiles@[k], k, m[k].0, m[k].1) by {
            assert(props.keys().to_set().contains(k));
            let j = choose|j: int| 0 <= j < props.keys().len() && props.keys()[j] == k;
            assert(profile_matches(profiles@[props.keys()[j]], props.keys()[j], m[props.keys()[j]].0, m[props.keys()[j]].1));
        }
    }
    Ok(profiles)
}

/// In a merge of sections, a key that some section sets for a profile ends up
/// in that profile with the value from the last section of the profile that
/// sets it.
pub proof fn lemma_last_section_wins(
    m: SourceModel,
    secs: Seq<SectionView>,
    n: Seq<char>,
    k: Seq<char>,
    j: int,
)
    requires
        all_named(secs),
        0 <= j < secs.len(),
        section_name(secs[j]) == Some(n),
        kv_map(secs[j].1).contains_key(k),
        forall|i: int|
            j < i < secs.len() && #[trigger] section_name(secs[i]) == Some(n) ==> !kv_map(
                secs[i].1,
            ).contains_key(k),
    ensures
        merge_sections(m, secs).contains_key(n),
        merge_sections(m, secs)[n].1.contains_key(k),
        merge_sections(m, secs)[n].1[k] == kv_map(secs[j].1)[k],
    decreases secs.len(),
{
    let last = secs.len() - 1;
    assert(section_name(secs[last]) is Some);
    if j < last {
        let init = secs.drop_last();
        assert forall|i: int| 0 <= i < init.len() implies (#[trigger] section_name(init[i])) is Some by {
            assert(init[i] == secs[i]);
        }
        assert forall|i: int| j < i < init.len() && #[trigger] section_name(init[i]) == Some(n) implies !kv_map(
            init[i].1,
        ).contains_key(k) by {
            assert(init[i] == secs[i]);
        }
        assert(init[j] == secs[j]);
        lemma_last_section_wins(m, init, n, k, j);
    }
}

/// For any three sources: a key that a section of the override source sets
/// for a profile ends up in the merged profile, with the value from the last
/// override section of that profile that sets it, whatever the primary and
/// credentials sources hold for it.
pub proof fn lemma_override_wins(
    config: Seq<SectionView>,
    credentials: Seq<SectionView>,
    overrides: Seq<SectionView>,
    n: Seq<char>,
    k: Seq<char>,
    j: int,
)
    requires
        all_named(overrides),
        0 <= j < overrides.len(),
        section_name(overrides[j]) == Some(n),
        kv_map(overrides[j].1).contains_key(k),
        forall|i: int|
            j < i < overrides.len() && #[trigger] section_name(overrides[i]) == Some(n) ==> !kv_map(
                overrides[i].1,
            ).contains_key(k),
    ensures
        merged_sources(config, credentials, overrides).contains_key(n),
        merged_sources(config, credentials, overrides)[n].1.contains_key(k),
        merged_sources(config, credentials, overrides)[n].1[k] == kv_map(overrides[j].1)[k],
{
    lemma_last_section_wins(
        merge_sections(replace_sections(Map::empty(), config), credentials),
        overrides,
        n,
        k,
        j,
    );
}

} // verus!
