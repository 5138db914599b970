//! The registry: an immutable map from package name to repository.

use vstd::prelude::*;

verus! {

/// What a repository is to the contracts: its owner and its name.
pub type RepoView = (Seq<char>, Seq<char>);

/// What the registry is to the contracts: package name to repository.
pub type RegistryView = Map<Seq<char>, RepoView>;

/// A repository's owner and name are both non-empty.
pub open spec fn repo_ok(r: RepoView) -> bool {
    r.0.len() > 0 && r.1.len() > 0
}

/// One upstream source location: an owner and a repository name.
pub struct Repository {
    owner: String,
    name: String,
}

impl View for Repository {
    type V = RepoView;

    closed spec fn view(&self) -> RepoView {
        (self.owner@, self.name@)
    }
}

impl Repository {
    #[verifier::type_invariant]
    closed spec fn inv(&self) -> bool {
        repo_ok(self@)
    }

    /// A repository, when neither the owner nor the name is empty.
    pub fn new(owner: String, name: String) -> (r: Option<Repository>)
        ensures
            r is Some <==> (owner@.len() > 0 && name@.len() > 0),
            r matches Some(x) ==> x@ == (owner@, name@),
    {
        if owner.as_str().unicode_len() > 0 && name.as_str().unicode_len() > 0 {
            let r = Repository { owner, name };
            proof {
                assert(r@ == (r.owner@, r.name@));
            }
            Some(r)
        } else {
            None
        }
    }

    pub fn owner(&self) -> (r: &String)
        ensures
            r@ == self@.0,
    {
        &self.owner
    }

    pub fn name(&self) -> (r: &String)
        ensures
            r@ == self@.1,
    {
        &self.name
    }
}

/// The entries hold each name once, and agree with the map both ways.
/// Every repository of the map is well formed.
closed spec fn entries_match(entries: Seq<(String, Repository)>, mapping: RegistryView) -> bool {
    &&& forall|i: int, j: int| 0 <= i < j < entries.len() ==> entries[i].0@ != entries[j].0@
    &&& forall|i: int|
        0 <= i < entries.len() ==> #[trigger] mapping.contains_key(entries[i].0@)
            && mapping[entries[i].0@] == entries[i].1@
    &&& forall|k: Seq<char>| #[trigger]
        mapping.contains_key(k) ==> exists|i: int| 0 <= i < entries.len() && entries[i].0@ == k
    &&& forall|k: Seq<char>| #[trigger] mapping.contains_key(k) ==> repo_ok(mapping[k])
}

/// The mapping from package name to repository. Names are unique and
/// compared exactly: no case folding, no normalisation.
pub struct Repositories {
    entries: Vec<(String, Repository)>,
    mapping: Ghost<RegistryView>,
}

impl View for Repositories {
    type V = RegistryView;

    closed spec fn view(&self) -> RegistryView {
        self.mapping@
    }
}

impl Repositories {
    #[verifier::type_invariant]
    closed spec fn inv(&self) -> bool {
        entries_match(self.entries@, self.mapping@)
    }

    /// The empty registry.
    pub fn new() -> (r: Repositories)
        ensures
            r@ == Map::<Seq<char>, RepoView>::empty(),
    {
        Repositories { entries: Vec::new(), mapping: Ghost(Map::empty()) }
    }

    /// The registry with `name` mapped to `repo`, replacing what it was
    /// mapped to before.
    pub fn insert(self, name: String, repo: Repository) -> (r: Repositories)
        ensures
            r@ == self@.insert(name@, repo@),
    {
        proof {
            use_type_invariant(&self);
            use_type_invariant(&repo);
            assert(entries_match(self.entries@, self.mapping@));
        }
        let ghost mapping = self.mapping@;
        let ghost before = self.entries@;
        assert(forall|j: int|
            0 <= j < before.len() ==> #[trigger] mapping.contains_key(before[j].0@)
                && mapping[before[j].0@] == before[j].1@);
        let Repositories { mut entries, mapping: _ } = self;
        let n = entries.len();
        let mut i: usize = 0;
        while i < n
            invariant
                n == entries@.len(),
                entries@ == before,
                0 <= i <= n,
                forall|j: int| 0 <= j < i ==> entries@[j].0@ != name@,
            ensures
                i < n ==> entries@[i as int].0@ == name@,
                forall|j: int| 0 <= j < i ==> entries@[j].0@ != name@,
            decreases n - i,
        {
            if entries[i].0 == name {
                break;
            }
            i = i + 1;
        }
        let ghost repo_view = repo@;
        let ghost new_map = mapping.insert(name@, repo_view);
        if i < n {
            entries.set(i, (name, repo));
        } else {
            entries.push((name, repo));
        }
        proof {
            let e = entries@;
            assert forall|j: int| 0 <= j < e.len() && j != i implies #[trigger] e[j] == before[j]
                && e[j].0@ != name@ by {}
            assert forall|j: int, l: int| 0 <= j < l < e.len() implies e[j].0@ != e[l].0@ by {
                if j != i && l != i {
                    assert(e[j] == before[j] && e[l] == before[l]);
                }
            }
            assert forall|j: int| 0 <= j < e.len() implies #[trigger] new_map.contains_key(
                e[j].0@,
            ) && new_map[e[j].0@] == e[j].1@ by {
                if j != i {
                    assert(e[j] == before[j]);
                }
            }
            assert forall|k: Seq<char>| #[trigger] new_map.contains_key(k) implies exists|j: int|
                0 <= j < e.len() && e[j].0@ == k by {
                if k != name@ {
                    let j = choose|j: int| 0 <= j < before.len() && before[j].0@ == k;
                    assert(e[j] == before[j]);
                } else {
                    assert(e[i as int].0@ == k);
                }
            }
            assert(repo_ok(repo_view));
            assert forall|k: Seq<char>| #[trigger] new_map.contains_key(k) implies repo_ok(
                new_map[k],
            ) by {
                if k != name@ {
                    assert(mapping.contains_key(k));
                }
            }
            assert(entries_match(e, new_map));
        }
        let r = Repositories { entries, mapping: Ghost(new_map) };
        r
    }

    /// The names of all packages, each once, in no particular order.
    pub fn all(&self) -> (r: Vec<String>)
        ensures
            r@.map_values(|s: String| s@).to_set() == self@.dom(),
            r@.map_values(|s: String| s@).no_duplicates(),
    {
        proof {
            use_type_invariant(self);
        }
        let mut r: Vec<String> = Vec::new();
        let mut i: usize = 0;
        while i < self.entries.len()
            invariant
                0 <= i <= self.entries@.len(),
                r@.len() == i,
                forall|j: int| 0 <= j < i ==> #[trigger] r@[j]@ == self.entries@[j].0@,
            decreases self.entries@.len() - i,
        {
            r.push(self.entries[i].0.clone());
            i = i + 1;
        }
        proof {
            use_type_invariant(self);
            assert(entries_match(self.entries@, self.mapping@));
        }
        let ghost names = r@.map_values(|s: String| s@);
        assert forall|k: Seq<char>| names.to_set().contains(k) <==> self@.contains_key(k) by {
            if self@.contains_key(k) {
                let j = choose|j: int| 0 <= j < self.entries@.len() && self.entries@[j].0@ == k;
                assert(names[j] == k);
            }
            if names.to_set().contains(k) {
                let j = choose|j: int| 0 <= j < names.len() && names[j] == k;
                assert(self.entries@[j].0@ == k);
            }
        }
        assert(names.to_set() =~= self@.dom());
        r
    }

    /// The repository that `name` maps to, compared exactly.
    pub fn get(&self, name: &String) -> (r: Option<&Repository>)
        ensures
            r is Some <==> self@.contains_key(name@),
            r matches Some(x) ==> x@ == self@[name@],
    {
        proof {
            use_type_invariant(self);
        }
        let mut i: usize = 0;
        while i < self.entries.len()
            invariant
                0 <= i <= self.entries@.len(),
                forall|j: int| 0 <= j < i ==> self.entries@[j].0@ != name@,
            decreases self.entries@.len() - i,
        {
            if self.entries[i].0 == *name {
                proof {
                    use_type_invariant(self);
                    assert(entries_match(self.entries@, self.mapping@));
                    assert(self.mapping@.contains_key(self.entries@[i as int].0@));
                }
                return Some(&self.entries[i].1);
            }
            i = i + 1;
        }
        proof {
            use_type_invariant(self);
            assert(entries_match(self.entries@, self.mapping@));
            if self@.contains_key(name@) {
                let j = choose|j: int| 0 <= j < self.entries@.len() && self.entries@[j].0@ == name@;
            }
        }
        None
    }
}

} // verus!
