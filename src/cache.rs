use vstd::prelude::*;
use crate::collection::ProfileMap;
use crate::profile::{copy_credential, Credential, Profile};
use crate::table::Table;

verus! {

/// A profile after restoring the saved credentials: the credential saved
/// under its name, if any, replaces its own; nothing else changes.
pub open spec fn restored(p: Profile, name: Seq<char>, saved: Map<Seq<char>, Credential>) -> Profile {
    if saved.contains_key(name) {
        Profile { credential: Some(saved[name]), ..p }
    } else {
        p
    }
}

/// Restoring saved credentials into a registry never changes the name,
/// rank, region or access settings of any of its profiles, only credentials;
/// a profile with nothing saved under its name stays as it was.
pub proof fn lemma_restore_keeps_settings(
    before: Map<Seq<char>, Profile>,
    after: Map<Seq<char>, Profile>,
    saved: Map<Seq<char>, Credential>,
)
    requires
        after.dom() == before.dom(),
        forall|k: Seq<char>| #[trigger] before.contains_key(k) ==> after[k] == restored(before[k], k, saved),
    ensures
        forall|k: Seq<char>| #[trigger] before.contains_key(k) ==> {
            &&& after[k].profile_name == before[k].profile_name
            &&& after[k].order == before[k].order
            &&& after[k].region == before[k].region
            &&& after[k].access == before[k].access
            &&& saved.contains_key(k) ==> after[k].credential == Some(saved[k])
            &&& !saved.contains_key(k) ==> after[k] == before[k]
        },
{
}

/// Puts saved credentials back: each profile whose name has a saved
/// credential gets it; nothing else changes. With nothing saved (`None`: the
/// cache is missing, unreadable or malformed) the registry stays as it is.
pub fn restore_credentials(profile_map: &mut ProfileMap, saved: Option<&Table<Credential>>)
    requires
        old(profile_map).wf(),
        saved is Some ==> saved->0.wf(),
    ensures
        final(profile_map).wf(),
        final(profile_map)@.dom() == old(profile_map)@.dom(),
        saved is None ==> final(profile_map)@ == old(profile_map)@,
        saved is Some ==> forall|k: Seq<char>| #[trigger] old(profile_map)@.contains_key(k)
            ==> final(profile_map)@[k] == restored(old(profile_map)@[k], k, saved->0@),
{
    let saved = match saved {
        Some(t) => t,
        None => return,
    };
    let names = profile_map.names();
    let ghost start = profile_map@;
    let ghost keys = profile_map.keys();
    proof {
        profile_map.lemma_keys();
    }
    let mut i: usize = 0;
    while i < names.len()
        invariant
            saved.wf(),
            profile_map.wf(),
            profile_map.keys() == keys,
            keys.no_duplicates(),
            start.dom() == keys.to_set(),
            names@.len() == keys.len(),
            forall|j: int| 0 <= j < names@.len() ==> #[trigger] names@[j]@ == keys[j],
            i <= names.len(),
            profile_map@.dom() == start.dom(),
            forall|j: int| 0 <= j < i ==> profile_map@[#[trigger] keys[j]] == restored(start[keys[j]], keys[j], saved@),
            forall|j: int| i <= j < keys.len() ==> profile_map@[#[trigger] keys[j]] == start[keys[j]],
        decreases names.len() - i,
    {
        let name = names[i].as_str();
        assert(name@ == keys[i as int]);
        assert(start.dom().contains(keys[i as int]));
        match saved.get(name) {
            Some(cred) => {
                let ghost before = profile_map@;
                match profile_map.get_mut(name) {
                    Ok(profile) => {
                        profile.credential = Some(copy_credential(cred));
                    },
                    Err(_) => {},
                }
                proof {
                    assert forall|j: int| 0 <= j < keys.len() && j != i implies profile_map@[#[trigger] keys[j]] == before[keys[j]] by {
                        assert(keys[j] != keys[i as int]);
                    }
                    assert(profile_map@.dom() =~= start.dom());
                }
            },
            None => {},
        }
        i = i + 1;
    }
    proof {
        assert forall|k: Seq<char>| #[trigger] start.contains_key(k) implies profile_map@[k] == restored(start[k], k, saved@) by {
            assert(keys.to_set().contains(k));
            let j = choose|j: int| 0 <= j < keys.len() && keys[j] == k;
            assert(profile_map@[keys[j]] == restored(start[keys[j]], keys[j], saved@));
        }
    }
}

/// The credentials to save, in the order of `keys`, one for each profile
/// that holds one.
pub open spec fn cache_entries(ps: Seq<Profile>) -> Seq<(Seq<char>, Credential)>
    decreases ps.len(),
{
    if ps.len() == 0 {
        Seq::empty()
    } else {
        let prev = cache_entries(ps.drop_last());
        match ps.last().credential {
            Some(c) => prev.push((ps.last().profile_name@, c)),
            None => prev,
        }
    }
}

/// The profiles of a registry in the order of its keys.
pub open spec fn profile_seq(m: Map<Seq<char>, Profile>, keys: Seq<Seq<char>>) -> Seq<Profile> {
    keys.map_values(|k: Seq<char>| m[k])
}

/// The view of the credentials to save.
pub open spec fn entries_view(v: Seq<(String, Credential)>) -> Seq<(Seq<char>, Credential)> {
    v.map_values(|e: (String, Credential)| (e.0@, e.1))
}

/// What the cache file holds: the name and credential of every profile that
/// holds a credential.
pub fn store_credentials(profile_map: &ProfileMap) -> (r: Vec<(String, Credential)>)
    requires
        profile_map.wf(),
    ensures
        entries_view(r@) == cache_entries(profile_seq(profile_map@, profile_map.keys())),
{
    let profiles = profile_map.profiles();
    let ghost ps = profile_seq(profile_map@, profile_map.keys());
    let mut r: Vec<(String, Credential)> = Vec::new();
    let mut i: usize = 0;
    while i < profiles.len()
        invariant
            i <= profiles.len(),
            profiles@.len() == ps.len(),
            forall|j: int| 0 <= j < profiles@.len() ==> *#[trigger] profiles@[j] == ps[j],
            entries_view(r@) == cache_entries(ps.subrange(0, i as int)),
        decreases profiles.len() - i,
    {
        let profile = profiles[i];
        proof {
            assert(ps.subrange(0, i + 1).drop_last() =~= ps.subrange(0, i as int));
        }
        match &profile.credential {
            None => {},
            Some(credential) => {
                let ghost before = r@;
                r.push((profile.profile_name.clone(), copy_credential(credential)));
                assert(entries_view(r@) =~= entries_view(before).push((profile.profile_name@, *credential)));
            },
        }
        i = i + 1;
    }
    assert(ps.subrange(0, profiles.len() as int) =~= ps);
    r
}

} // verus!
