//! The documents that a server publishes, as their decoders hand them over.

use vstd::prelude::*;
use crate::generic::MaybeRfc2822DateTime;

verus! {

/// A version number as the `semver` crate holds it; carried, never read.
#[verifier::external_type_specification]
#[verifier::external_body]
pub struct ExVersion(semver::Version);

/// A JSON value as the `serde_json` crate holds it; carried, never read.
#[verifier::external_type_specification]
#[verifier::external_body]
pub struct ExValue(serde_json::Value);

/// Trusted: `Clone::clone` of `semver::Version`, which the crate derives. The
/// contract claims that the copy equals the value copied.
pub assume_specification[ <semver::Version as Clone>::clone ](version: &semver::Version) -> (copy:
    semver::Version)
    ensures
        copy == *version,
;

/// Trusted: `Clone::clone` of `serde_json::Value`, which the crate derives.
/// The contract claims that the copy equals the value copied.
pub assume_specification[ <serde_json::Value as Clone>::clone ](value: &serde_json::Value) -> (copy:
    serde_json::Value)
    ensures
        copy == *value,
;

/// One repository or replica of the discovery document.
#[derive(Debug, Clone, PartialEq)]
pub struct RepositoryEntry {
    pub name: String,
    pub url: String,
}

/// The discovery document of a server: what it hosts, and what it runs on.
///
/// A server lists origin copies under `repositories` and mirror copies under
/// `replicas`.
#[derive(Debug, Clone, PartialEq)]
pub struct RepositoriesJSON {
    pub schema: u32,
    pub cvmfs_version: Option<String>,
    pub last_geodb_update: MaybeRfc2822DateTime,
    pub os_version_id: Option<String>,
    pub os_pretty_name: Option<String>,
    pub os_id: Option<String>,
    pub repositories: Vec<RepositoryEntry>,
    pub replicas: Vec<RepositoryEntry>,
}

/// The names of the entries, in their order.
pub open spec fn entry_names(entries: Seq<RepositoryEntry>) -> Seq<Seq<char>> {
    Seq::new(entries.len(), |i: int| entries[i].name@)
}

/// The views of the strings, in their order.
pub open spec fn name_views(names: Seq<String>) -> Seq<Seq<char>> {
    Seq::new(names.len(), |i: int| names[i]@)
}

impl RepositoriesJSON {
    /// The names that the document lists: repositories first, then replicas.
    pub open spec fn spec_names(&self) -> Seq<Seq<char>> {
        entry_names(self.repositories@) + entry_names(self.replicas@)
    }

    /// Whether the document lists any replica.
    pub fn has_replicas(&self) -> (found: bool)
        ensures
            found == (self.replicas@.len() > 0),
    {
        self.replicas.len() > 0
    }

    /// The names of the repositories and of the replicas. To the collector
    /// the two are the same thing.
    pub fn names(&self) -> (names: Vec<String>)
        ensures
            name_views(names@) == self.spec_names(),
    {
        let mut names: Vec<String> = Vec::new();
        let mut i: usize = 0;
        while i < self.repositories.len()
            invariant
                i <= self.repositories@.len(),
                name_views(names@) == entry_names(self.repositories@.take(i as int)),
            decreases self.repositories@.len() - i,
        {
            let ghost prev = names@;
            names.push(self.repositories[i].name.clone());
            i += 1;
            proof {
                let done = self.repositories@.take(i as int);
                assert(name_views(prev).len() == i - 1);
                assert forall|k: int| 0 <= k < i implies name_views(names@)[k] == entry_names(
                    done,
                )[k] by {
                    if k < i - 1 {
                        assert(name_views(prev)[k] == entry_names(
                            self.repositories@.take(i - 1),
                        )[k]);
                    }
                }
                assert(name_views(names@) =~= entry_names(done));
            }
        }
        assert(self.repositories@.take(i as int) =~= self.repositories@);
        let mut j: usize = 0;
        while j < self.replicas.len()
            invariant
                j <= self.replicas@.len(),
                name_views(names@) == entry_names(self.repositories@) + entry_names(
                    self.replicas@.take(j as int),
                ),
            decreases self.replicas@.len() - j,
        {
            let ghost prev = names@;
            let ghost base = self.repositories@.len();
            names.push(self.replicas[j].name.clone());
            j += 1;
            proof {
                let before = entry_names(self.repositories@) + entry_names(
                    self.replicas@.take(j - 1),
                );
                let after = entry_names(self.repositories@) + entry_names(
                    self.replicas@.take(j as int),
                );
                assert(name_views(prev).len() == base + j - 1);
                assert forall|k: int| 0 <= k < base + j implies name_views(names@)[k] == after[k] by {
                    if k < base + j - 1 {
                        assert(name_views(prev)[k] == before[k]);
                    }
                }
                assert(name_views(names@) =~= after);
            }
        }
        assert(self.replicas@.take(j as int) =~= self.replicas@);
        names
    }
}

/// The metadata document of a server: who runs it. The four fields come
/// together or not at all.
#[derive(Debug, PartialEq)]
pub struct MetaJSON {
    pub administrator: String,
    pub email: String,
    pub organisation: String,
    pub custom: serde_json::Value,
}

impl Clone for MetaJSON {
    fn clone(&self) -> (copy: Self)
        ensures
            copy == *self,
    {
        MetaJSON {
            administrator: self.administrator.clone(),
            email: self.email.clone(),
            organisation: self.organisation.clone(),
            custom: self.custom.clone(),
        }
    }
}

/// The live status of one repository.
#[derive(Debug, Clone, PartialEq)]
pub struct StatusJSON {
    pub last_snapshot: MaybeRfc2822DateTime,
    pub last_gc: MaybeRfc2822DateTime,
}

/// The published state of one repository, decoded. `s` is its revision.
#[derive(Debug, Clone, PartialEq)]
pub struct Manifest {
    pub s: i32,
}

} // verus!
