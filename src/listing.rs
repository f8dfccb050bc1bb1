use vstd::prelude::*;
use crate::collection::ProfileMap;
use crate::profile::Profile;
use crate::text::{decimal, decimal_text};

verus! {

/// Relies on `slice::sort`: the pairs come out in ascending order, which
/// orders them by their first component, and none is lost or added.
#[verifier::external_body]
fn sort_pairs(v: &mut Vec<(usize, usize)>)
    ensures
        final(v)@.to_multiset() == old(v)@.to_multiset(),
        forall|i: int, j: int| 0 <= i < j < final(v)@.len() ==> final(v)@[i].0 <= final(v)@[j].0,
{
    v.sort();
}

/// The text of each cell.
pub open spec fn cells_view(v: Seq<String>) -> Seq<Seq<char>> {
    v.map_values(|c: String| c@)
}

/// A row of the listing that shows the profile: five cells, the first four
/// as `leading_cells` says; the fifth shows its credential.
pub open spec fn shows(row: Vec<String>, p: Profile) -> bool {
    row@.len() == 5 && cells_view(row@.subrange(0, 4)) == leading_cells(p)
}

/// A row of the listing shows some profile of the registry.
pub open spec fn shows_some(row: Vec<String>, m: Map<Seq<char>, Profile>, keys: Seq<Seq<char>>) -> bool {
    exists|j: int| 0 <= j < keys.len() && #[trigger] shows(row, m[keys[j]])
}

/// Two rows of the listing show profiles of the registry, the first of a
/// rank no greater than the second.
pub open spec fn ranked(first: Vec<String>, second: Vec<String>, m: Map<Seq<char>, Profile>, keys: Seq<Seq<char>>) -> bool {
    exists|a: int, b: int|
        0 <= a < keys.len() && 0 <= b < keys.len() && #[trigger] shows(first, m[keys[a]])
            && #[trigger] shows(second, m[keys[b]]) && m[keys[a]].order <= m[keys[b]].order
}

/// The first four cells of a profile's row in the listing: its rank counted
/// from one, its name, its region and its type.
pub open spec fn leading_cells(p: Profile) -> Seq<Seq<char>> {
    seq![decimal(p.order as nat + 1), p.profile_name@, region_text(p), type_text(p)]
}

/// The region cell.
pub open spec fn region_text(p: Profile) -> Seq<char> {
    match p.region {
        Some(region) => region@,
        None => "none"@,
    }
}

/// The type cell.
pub open spec fn type_text(p: Profile) -> Seq<char> {
    match p.spec_profile_type() {
        crate::profile::ProfileType::AssumeRole(source) => "Assume role from "@ + source@,
        crate::profile::ProfileType::SessionWithMFA => "Access key with mfa device"@,
        crate::profile::ProfileType::Keys => "Access key"@,
        crate::profile::ProfileType::NoAccess => Seq::empty(),
    }
}

/// The rows of the profile listing at time `now`, one per profile, ranked by
/// display order: id, name, region, type and credential.
pub fn profile_table_rows(profile_map: &ProfileMap, now: i64) -> (r: Vec<Vec<String>>)
    requires
        profile_map.wf(),
    ensures
        r@.len() == profile_map.keys().len(),
        forall|i: int| 0 <= i < r@.len() ==> #[trigger] shows_some(r@[i], profile_map@, profile_map.keys()),
        forall|i: int, k: int| 0 <= i < k < r@.len() ==> #[trigger] ranked(r@[i], r@[k], profile_map@, profile_map.keys()),
{
    let profiles = profile_map.profiles();
    let ghost ps = profiles@;
    let mut ranks: Vec<(usize, usize)> = Vec::new();
    let mut i: usize = 0;
    while i < profiles.len()
        invariant
            i <= profiles.len(),
            ranks@.len() == i,
            forall|j: int| 0 <= j < i ==> #[trigger] ranks@[j] == (profiles@[j].order, j as usize),
        decreases profiles.len() - i,
    {
        ranks.push((profiles[i].order, i));
        i = i + 1;
    }
    let ghost unsorted = ranks@;
    sort_pairs(&mut ranks);
    proof {
        ranks@.to_multiset_ensures();
        unsorted.to_multiset_ensures();
        assert forall|j: int| 0 <= j < ranks@.len() implies ranks@[j].1 < profiles@.len()
            && ranks@[j].0 == profiles@[ranks@[j].1 as int].order by {
            ranks@.to_multiset_ensures();
            unsorted.to_multiset_ensures();
            assert(ranks@.contains(ranks@[j]));
            assert(ranks@.to_multiset().count(ranks@[j]) > 0);
            assert(unsorted.to_multiset().count(ranks@[j]) > 0);
            assert(unsorted.contains(ranks@[j]));
            let w = choose|w: int| 0 <= w < unsorted.len() && unsorted[w] == ranks@[j];
        }
    }
    let mut rows: Vec<Vec<String>> = Vec::new();
    let mut k: usize = 0;
    while k < ranks.len()
        invariant
            k <= ranks.len(),
            ranks@.len() == profiles@.len(),
            profiles@.len() == profile_map.keys().len(),
            forall|j: int| 0 <= j < profiles@.len() ==> *#[trigger] profiles@[j] == profile_map@[profile_map.keys()[j]],
            forall|j: int| 0 <= j < ranks@.len() ==> #[trigger] ranks@[j].1 < profiles@.len()
                && ranks@[j].0 == profiles@[ranks@[j].1 as int].order,
            forall|a: int, b: int| 0 <= a < b < ranks@.len() ==> #[trigger] ranks@[a].0 <= #[trigger] ranks@[b].0,
            rows@.len() == k,
            forall|j: int| 0 <= j < k ==> #[trigger] shows(
                rows@[j],
                profile_map@[profile_map.keys()[ranks@[j].1 as int]],
            ),
        decreases ranks.len() - k,
    {
        let p = profiles[ranks[k].1];
        let row = vec![
            decimal_text(p.order as u128 + 1),
            p.profile_name.clone(),
            p.region_str(),
            p.profile_type_str(),
            p.credential_str_at(now),
        ];
        assert(cells_view(row@.subrange(0, 4)) =~= leading_cells(*p));
        assert(*p == profile_map@[profile_map.keys()[ranks@[k as int].1 as int]]);
        rows.push(row);
        k = k + 1;
    }
    proof {
        let m = profile_map@;
        let keys = profile_map.keys();
        assert forall|i: int| 0 <= i < rows@.len() implies #[trigger] shows_some(rows@[i], m, keys) by {
            let j = ranks@[i].1 as int;
            assert(shows(rows@[i], m[keys[j]]));
        }
        assert forall|i: int, k2: int| 0 <= i < k2 < rows@.len() implies #[trigger] ranked(rows@[i], rows@[k2], m, keys) by {
            let a = ranks@[i].1 as int;
            let b = ranks@[k2].1 as int;
            assert(ranks@[i].0 <= ranks@[k2].0);
            assert(shows(rows@[i], m[keys[a]]));
            assert(shows(rows@[k2], m[keys[b]]));
        }
    }
    rows
}

} // verus!
