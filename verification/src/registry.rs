//! The registry of installed versions. It mirrors, as plain values, the two
//! directories the launcher manages: the names of the installed version
//! directories and the names of the existing profile directories. A
//! front-end fills it from a directory scan, and mirrors on disk the profile
//! creations and the deletions the registry reports.
use crate::paths;
use vstd::prelude::*;

verus! {

broadcast use vstd::seq_lib::group_seq_properties;

/// No name occurs twice.
pub open spec fn distinct_names(s: Seq<Seq<char>>) -> bool {
    forall|i: int, j: int| 0 <= i < j < s.len() ==> s[i] != s[j]
}

/// Whether `v` holds a string whose characters are `n`.
fn contains_name(v: &Vec<String>, n: &str) -> (r: bool)
    ensures
        r == v.deep_view().contains(n@),
{
    let mut i: usize = 0;
    while i < v.len()
        invariant
            i <= v.len(),
            forall|j: int| 0 <= j < i ==> v.deep_view()[j] != n@,
        decreases v.len() - i,
    {
        if paths::str_eq(v[i].as_str(), n) {
            proof {
                assert(v.deep_view()[i as int] == n@);
            }
            return true;
        }
        i += 1;
    }
    false
}

/// Keeps the first occurrence of each name, dropping later duplicates.
fn dedup_names(entries: Vec<String>) -> (r: Vec<String>)
    ensures
        distinct_names(r.deep_view()),
        r.deep_view() == entries.deep_view().remove_duplicates(Seq::empty()),
        forall|n: Seq<char>| r.deep_view().contains(n) <==> entries.deep_view().contains(n),
{
    let ghost ed = entries.deep_view();
    let mut r: Vec<String> = Vec::new();
    let mut i: usize = 0;
    while i < entries.len()
        invariant
            i <= entries.len(),
            ed == entries.deep_view(),
            ed.len() == entries.len(),
            distinct_names(r.deep_view()),
            r.deep_view() == ed.take(i as int).remove_duplicates(Seq::empty()),
            forall|n: Seq<char>| r.deep_view().contains(n) <==> ed.take(i as int).contains(n),
        decreases entries.len() - i,
    {
        let ghost pre = r.deep_view();
        let e = entries[i].clone();
        proof {
            assert(ed[i as int] == e@);
        }
        if !contains_name(&r, e.as_str()) {
            let ghost x = e@;
            r.push(e);
            proof {
                assert(r.deep_view() =~= pre.push(x));
                assert forall|a: int, b: int|
                    0 <= a < b < r.deep_view().len() implies r.deep_view()[a]
                    != r.deep_view()[b] by {
                    if b == pre.len() {
                        assert(r.deep_view()[a] == pre[a]);
                        assert(pre.contains(pre[a]));
                    }
                }
            }
        }
        proof {
            let told = ed.take(i as int);
            assert(ed.take(i + 1) =~= told.push(ed[i as int]));
            assert(told.push(ed[i as int]) =~= told + seq![ed[i as int]]);
            assert(told + Seq::<Seq<char>>::empty() =~= told);
            told.lemma_remove_duplicates_append(ed[i as int], Seq::empty());
            assert(r.deep_view() == ed.take(i + 1).remove_duplicates(Seq::empty()));
            assert forall|n: Seq<char>|
                r.deep_view().contains(n) <==> ed.take(i + 1).contains(n) by {
                assert(ed.take(i + 1).contains(n) <==> (told.contains(n) || n == ed[i as int]));
            }
        }
        i += 1;
    }
    proof {
        assert(ed.take(ed.len() as int) =~= ed);
    }
    r
}

/// One installed version: its name and its two directories.
pub struct Version {
    pub name: String,
    pub install_path: String,
    pub profile_path: String,
}

/// The directories to remove for a deletion, handed to the front-end. Both
/// removals are best-effort: a missing directory on disk is not an error.
pub struct DeletePlan {
    pub version_dir: String,
    pub profile_dir: Option<String>,
}

/// The in-memory registry: the platform data root and the names found under
/// the versions and profiles directories.
pub struct Registry {
    root: String,
    versions: Vec<String>,
    profiles: Vec<String>,
}

impl Registry {
    /// The platform data root this registry was built over.
    pub closed spec fn spec_root(&self) -> Seq<char> {
        self.root@
    }

    /// The names of the installed versions.
    pub closed spec fn spec_versions(&self) -> Seq<Seq<char>> {
        self.versions.deep_view()
    }

    /// The names of the existing profile directories.
    pub closed spec fn spec_profiles(&self) -> Seq<Seq<char>> {
        self.profiles.deep_view()
    }

    /// Each list of names holds no duplicates, as directory listings cannot.
    pub open spec fn well_formed(&self) -> bool {
        &&& distinct_names(self.spec_versions())
        &&& distinct_names(self.spec_profiles())
    }

    /// Builds a registry from a scan of the versions and profiles
    /// directories under `root`: the scanned names, with duplicates dropped.
    pub fn from_scan(root: String, version_entries: Vec<String>, profile_entries: Vec<String>) -> (
        r: Registry)
        ensures
            r.well_formed(),
            r.spec_root() == root@,
            r.spec_versions() == version_entries.deep_view().remove_duplicates(Seq::empty()),
            r.spec_profiles() == profile_entries.deep_view().remove_duplicates(Seq::empty()),
            forall|n: Seq<char>|
                r.spec_versions().contains(n) <==> version_entries.deep_view().contains(n),
            forall|n: Seq<char>|
                r.spec_profiles().contains(n) <==> profile_entries.deep_view().contains(n),
    {
        Registry {
            root,
            versions: dedup_names(version_entries),
            profiles: dedup_names(profile_entries),
        }
    }

    /// The name list, in registry order.
    pub fn version_names(&self) -> (r: &Vec<String>)
        ensures
            r.deep_view() == self.spec_versions(),
    {
        &self.versions
    }

    /// Lists the installed versions with their directories, and ensures
    /// every version has a profile: the first result pairs each version, in
    /// registry order, with its install and profile paths; the second names
    /// the profiles that were missing, which the caller must now create on
    /// disk. Afterwards every version name has a profile name.
    pub fn list_versions(&mut self) -> (r: (Vec<Version>, Vec<String>))
        requires
            old(self).well_formed(),
        ensures
            final(self).well_formed(),
            final(self).spec_root() == old(self).spec_root(),
            final(self).spec_versions() == old(self).spec_versions(),
            r.0.len() == final(self).spec_versions().len(),
            forall|i: int|
                0 <= i < r.0.len() ==> {
                    &&& (#[trigger] r.0[i]).name@ == final(self).spec_versions()[i]
                    &&& r.0[i].install_path@ == paths::spec_version_path(
                        old(self).spec_root(),
                        final(self).spec_versions()[i],
                    )
                    &&& r.0[i].profile_path@ == paths::spec_profile_path(
                        old(self).spec_root(),
                        final(self).spec_versions()[i],
                    )
                },
            forall|n: Seq<char>|
                final(self).spec_versions().contains(n) ==> final(self).spec_profiles().contains(n),
            forall|n: Seq<char>|
                old(self).spec_profiles().contains(n) ==> final(self).spec_profiles().contains(n),
            forall|n: Seq<char>|
                final(self).spec_profiles().contains(n) ==> old(self).spec_profiles().contains(n)
                    || old(self).spec_versions().contains(n),
            forall|n: Seq<char>|
                r.1.deep_view().contains(n) <==> (old(self).spec_versions().contains(n) && !old(
                    self,
                ).spec_profiles().contains(n)),
            distinct_names(r.1.deep_view()),
    {
        let mut listed: Vec<Version> = Vec::new();
        let mut created: Vec<String> = Vec::new();
        let mut i: usize = 0;
        while i < self.versions.len()
            invariant
                i <= self.versions.len(),
                self.well_formed(),
                self.spec_root() == old(self).spec_root(),
                self.spec_versions() == old(self).spec_versions(),
                listed.len() == i,
                forall|k: int|
                    0 <= k < i ==> {
                        &&& (#[trigger] listed[k]).name@ == self.spec_versions()[k]
                        &&& listed[k].install_path@ == paths::spec_version_path(
                            self.spec_root(),
                            self.spec_versions()[k],
                        )
                        &&& listed[k].profile_path@ == paths::spec_profile_path(
                            self.spec_root(),
                            self.spec_versions()[k],
                        )
                    },
                forall|k: int|
                    0 <= k < i ==> self.spec_profiles().contains(
                        #[trigger] self.spec_versions()[k],
                    ),
                forall|n: Seq<char>|
                    old(self).spec_profiles().contains(n) ==> self.spec_profiles().contains(n),
                forall|n: Seq<char>|
                    self.spec_profiles().contains(n) ==> old(self).spec_profiles().contains(n)
                        || old(self).spec_versions().contains(n),
                forall|n: Seq<char>|
                    created.deep_view().contains(n) <==> (old(self).spec_versions().contains(n)
                        && !old(self).spec_profiles().contains(n)
                        && self.spec_profiles().contains(n)),
                distinct_names(created.deep_view()),
                forall|n: Seq<char>|
                    created.deep_view().contains(n) ==> self.spec_profiles().contains(n),
            decreases self.versions.len() - i,
        {
            let name = self.versions[i].clone();
            proof {
                assert(name@ == self.spec_versions()[i as int]);
                assert(self.spec_versions().contains(name@));
            }
            let install_path = paths::version_path(self.root.as_str(), name.as_str());
            let profile_path = paths::profile_path(self.root.as_str(), name.as_str());
            listed.push(Version { name: name.clone(), install_path, profile_path });
            let ghost old_profiles = self.spec_profiles();
            let ghost old_created = created.deep_view();
            let ghost x = name@;
            if !contains_name(&self.profiles, name.as_str()) {
                self.profiles.push(name.clone());
                created.push(name);
                proof {
                    assert(self.spec_profiles() =~= old_profiles.push(x));
                    assert(created.deep_view() =~= old_created.push(x));
                    assert forall|a: int, b: int|
                        0 <= a < b < self.spec_profiles().len() implies self.spec_profiles()[a]
                        != self.spec_profiles()[b] by {
                        if b == old_profiles.len() {
                            assert(self.spec_profiles()[a] == old_profiles[a]);
                            assert(old_profiles.contains(old_profiles[a]));
                        }
                    }
                    assert(!old_created.contains(x));
                    assert forall|a: int, b: int|
                        0 <= a < b < created.deep_view().len() implies created.deep_view()[a]
                        != created.deep_view()[b] by {
                        if b == old_created.len() {
                            assert(created.deep_view()[a] == old_created[a]);
                            assert(old_created.contains(old_created[a]));
                        }
                    }
                }
            }
            i += 1;
        }
        (listed, created)
    }

    /// Where `n` stands in `v`, or `None` where it does not.
    fn index_of_name(v: &Vec<String>, n: &str) -> (r: Option<usize>)
        ensures
            r matches Some(i) ==> i < v.len() && v.deep_view()[i as int] == n@,
            r is None ==> !v.deep_view().contains(n@),
    {
        let mut i: usize = 0;
        while i < v.len()
            invariant
                i <= v.len(),
                forall|j: int| 0 <= j < i ==> v.deep_view()[j] != n@,
            decreases v.len() - i,
        {
            if paths::str_eq(v[i].as_str(), n) {
                proof {
                    assert(v.deep_view()[i as int] == n@);
                }
                return Some(i);
            }
            i += 1;
        }
        None
    }

    /// Deletes the version named `name`: drops it from the version list if
    /// it is there (a name that is not there leaves the list unchanged, and
    /// is not an error), drops its profile likewise when `also_profile` is
    /// set, and returns the directories the caller must now remove from
    /// disk, best-effort.
    pub fn delete_version(&mut self, name: &str, also_profile: bool) -> (r: DeletePlan)
        requires
            old(self).well_formed(),
        ensures
            final(self).well_formed(),
            final(self).spec_root() == old(self).spec_root(),
            r.version_dir@ == paths::spec_version_path(old(self).spec_root(), name@),
            r.profile_dir matches Some(p) ==> also_profile && p@ == paths::spec_profile_path(
                old(self).spec_root(),
                name@,
            ),
            also_profile ==> r.profile_dir is Some,
            forall|n: Seq<char>|
                final(self).spec_versions().contains(n) <==> (old(self).spec_versions().contains(n)
                    && n != name@),
            !old(self).spec_versions().contains(name@) ==> final(self).spec_versions() == old(
                self,
            ).spec_versions(),
            old(self).spec_versions().contains(name@) ==> exists|i: int|
                0 <= i < old(self).spec_versions().len() && old(self).spec_versions()[i] == name@
                    && final(self).spec_versions() == old(self).spec_versions().remove(i),
            also_profile ==> forall|n: Seq<char>|
                final(self).spec_profiles().contains(n) <==> (old(self).spec_profiles().contains(n)
                    && n != name@),
            !also_profile ==> final(self).spec_profiles() == old(self).spec_profiles(),
    {
        let version_dir = paths::version_path(self.root.as_str(), name);
        match Self::index_of_name(&self.versions, name) {
            Some(i) => {
                let ghost prev = self.spec_versions();
                self.versions.remove(i);
                proof {
                    Self::lemma_remove_distinct(prev, i as int, name@);
                    assert(self.spec_versions() =~= prev.remove(i as int));
                }
            },
            None => {},
        }
        let profile_dir = if also_profile {
            match Self::index_of_name(&self.profiles, name) {
                Some(i) => {
                    let ghost prev = self.spec_profiles();
                    self.profiles.remove(i);
                    proof {
                        Self::lemma_remove_distinct(prev, i as int, name@);
                        assert(self.spec_profiles() =~= prev.remove(i as int));
                    }
                },
                None => {},
            }
            Some(paths::profile_path(self.root.as_str(), name))
        } else {
            None
        };
        DeletePlan { version_dir, profile_dir }
    }

    /// Removing the one index holding `name` from a duplicate-free list
    /// removes exactly `name`, keeps the rest, and keeps the list
    /// duplicate-free.
    proof fn lemma_remove_distinct(s: Seq<Seq<char>>, i: int, name: Seq<char>)
        requires
            distinct_names(s),
            0 <= i < s.len(),
            s[i] == name,
        ensures
            distinct_names(s.remove(i)),
            forall|n: Seq<char>| s.remove(i).contains(n) <==> (s.contains(n) && n != name),
    {
        let t = s.remove(i);
        assert forall|n: Seq<char>| t.contains(n) implies s.contains(n) && n != name by {
            let k = choose|k: int| 0 <= k < t.len() && t[k] == n;
            if k < i {
                assert(s[k] == n);
            } else {
                assert(s[k + 1] == n);
            }
        }
        assert forall|n: Seq<char>| s.contains(n) && n != name implies t.contains(n) by {
            let k = choose|k: int| 0 <= k < s.len() && s[k] == n;
            if k < i {
                assert(t[k] == n);
            } else {
                assert(k > i);
                assert(t[k - 1] == n);
            }
        }
        assert forall|a: int, b: int| 0 <= a < b < t.len() implies t[a] != t[b] by {
            let sa: int = if a < i {
                a
            } else {
                a + 1
            };
            let sb: int = if b < i {
                b
            } else {
                b + 1
            };
            assert(t[a] == s[sa]);
            assert(t[b] == s[sb]);
        }
    }
}

} // verus!
