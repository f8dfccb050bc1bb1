use vstd::prelude::*;
use crate::error::Error;
use crate::profile::Profile;
use crate::table::Table;
use crate::text::same_text;

verus! {

/// Whether a profile holds a cached credential with the given key pair.
pub open spec fn holds_key(p: Profile, access_key_id: Seq<char>, secret_access_key: Seq<char>) -> bool {
    p.credential is Some && p.credential->0.access_key_id@ == access_key_id
        && p.credential->0.secret_access_key@ == secret_access_key
}

/// All profiles, each under a unique name.
pub struct ProfileMap {
    map: Table<Profile>,
}

impl View for ProfileMap {
    type V = Map<Seq<char>, Profile>;

    closed spec fn view(&self) -> Map<Seq<char>, Profile> {
        self.map@
    }
}

impl ProfileMap {
    /// The registry's internal invariant holds.
    pub closed spec fn wf(&self) -> bool {
        self.map.wf()
    }

    /// The names, each once, in the order the registry keeps them.
    pub closed spec fn keys(&self) -> Seq<Seq<char>> {
        self.map.keys()
    }

    /// The keys are the names of the registry, each once.
    pub proof fn lemma_keys(&self)
        requires
            self.wf(),
        ensures
            self.keys().no_duplicates(),
            self@.dom() == self.keys().to_set(),
            self@.dom().len() == self.keys().len(),
    {
        self.map.lemma_keys();
    }

    /// An empty registry.
    pub fn new() -> (r: Self)
        ensures
            r.wf(),
            r@ == Map::<Seq<char>, Profile>::empty(),
    {
        ProfileMap { map: Table::new() }
    }

    /// The profile of that name, or `ProfileNotFound` naming it.
    pub fn get(&self, name: &str) -> (r: Result<&Profile, Error>)
        requires
            self.wf(),
        ensures
            match r {
                Ok(p) => self@.contains_key(name@) && *p == self@[name@],
                Err(e) => !self@.contains_key(name@) && e is ProfileNotFound
                    && e->ProfileNotFound_0@ == name@,
            },
    {
        match self.map.get(name) {
            Some(p) => Ok(p),
            None => Err(Error::ProfileNotFound(name.to_owned())),
        }
    }

    /// The profile of that name, to change in place, or `ProfileNotFound`
    /// naming it.
    pub fn get_mut(&mut self, name: &str) -> (r: Result<&mut Profile, Error>)
        requires
            old(self).wf(),
        ensures
            final(self).wf(),
            final(self).keys() == old(self).keys(),
            match r {
                Ok(p) => old(self)@.contains_key(name@) && *p == old(self)@[name@] && final(self)@
                    == old(self)@.insert(name@, *final(p)),
                Err(e) => !old(self)@.contains_key(name@) && e is ProfileNotFound
                    && e->ProfileNotFound_0@ == name@ && final(self)@ == old(self)@,
            },
    {
        match self.map.get_mut(name) {
            Some(p) => Ok(p),
            None => Err(Error::ProfileNotFound(name.to_owned())),
        }
    }

    /// Adds the profile under that name, replacing any profile of the name.
    pub fn insert(&mut self, name: &str, profile: Profile)
        requires
            old(self).wf(),
        ensures
            final(self).wf(),
            final(self)@ == old(self)@.insert(name@, profile),
    {
        self.map.insert(name, profile);
    }

    /// The names of all profiles, in the order of `keys`.
    pub fn names(&self) -> (r: Vec<String>)
        requires
            self.wf(),
        ensures
            r@.len() == self.keys().len(),
            forall|i: int| 0 <= i < r@.len() ==> #[trigger] r@[i]@ == self.keys()[i],
    {
        let mut r: Vec<String> = Vec::new();
        let n = self.map.len();
        let mut i: usize = 0;
        while i < n
            invariant
                self.wf(),
                n == self.keys().len(),
                i <= n,
                r@.len() == i,
                forall|j: int| 0 <= j < i ==> #[trigger] r@[j]@ == self.keys()[j],
            decreases n - i,
        {
            let (name, _) = self.map.entry(i);
            r.push(name.clone());
            i = i + 1;
        }
        r
    }

    /// All profiles, in the order of `keys`.
    pub fn profiles(&self) -> (r: Vec<&Profile>)
        requires
            self.wf(),
        ensures
            r@.len() == self.keys().len(),
            forall|i: int| 0 <= i < r@.len() ==> *#[trigger] r@[i] == self@[self.keys()[i]],
    {
        let mut r: Vec<&Profile> = Vec::new();
        let n = self.map.len();
        let mut i: usize = 0;
        while i < n
            invariant
                self.wf(),
                n == self.keys().len(),
                i <= n,
                r@.len() == i,
                forall|j: int| 0 <= j < i ==> *#[trigger] r@[j] == self@[self.keys()[j]],
            decreases n - i,
        {
            let (_, profile) = self.map.entry(i);
            r.push(profile);
            i = i + 1;
        }
        r
    }

    /// A profile whose cached credential has the given key pair, if any.
    pub fn profile_by_key(&self, access_key_id: &str, secret_access_key: &str) -> (r: Option<&Profile>)
        requires
            self.wf(),
        ensures
            match r {
                Some(p) => holds_key(*p, access_key_id@, secret_access_key@) && exists|k: Seq<char>|
                    #[trigger] self@.contains_key(k) && self@[k] == *p,
                None => forall|k: Seq<char>| #[trigger] self@.contains_key(k) ==> !holds_key(
                    self@[k],
                    access_key_id@,
                    secret_access_key@,
                ),
            },
    {
        let n = self.map.len();
        let mut i: usize = 0;
        while i < n
            invariant
                self.wf(),
                n == self.keys().len(),
                i <= n,
                forall|j: int| 0 <= j < i ==> !holds_key(
                    #[trigger] self@[self.keys()[j]],
                    access_key_id@,
                    secret_access_key@,
                ),
            decreases n - i,
        {
            let (name, profile) = self.map.entry(i);
            if let Some(cred) = &profile.credential {
                if same_text(cred.access_key_id.as_str(), access_key_id) && same_text(
                    cred.secret_access_key.as_str(),
                    secret_access_key,
                ) {
                    assert(self@.contains_key(name@) && self@[name@] == *profile);
                    return Some(profile);
                }
            }
            i = i + 1;
        }
        proof {
            self.lemma_keys();
            assert forall|k: Seq<char>| #[trigger] self@.contains_key(k) implies !holds_key(self@[k], access_key_id@, secret_access_key@) by {
                assert(self.keys().to_set().contains(k));
                let j = choose|j: int| 0 <= j < self.keys().len() && self.keys()[j] == k;
                assert(self@[self.keys()[j]] == self@[k]);
            }
        }
        None
    }
}

} // verus!
