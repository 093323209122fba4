//! Schemas and the lock that pins what was downloaded of each.
//!
//! A configuration names the schemas a build needs, each by its subject in
//! the registry and a version. The lock records, for each subject that has been
//! downloaded, the version and the SHA-512 checksum of what came; a download
//! that does not match the lock is refused.

use vstd::prelude::*;

pub mod hex;
pub mod sync;

use crate::triage::io::{io_fault, io_fault_of, IoFault};
use crate::util::text::str_eq;

verus! {

/// Version and configuration information for a single schema
#[derive(Debug, Clone, PartialEq, Eq, PartialOrd, Ord)]
pub struct SchemaSpec {
    /// The version of the schema to retrieve in the registry
    pub version: usize,
    /// The module path to use when compiling the schema to Go
    pub go_mod: Option<String>,
}

/// A single entry in the TOML schema configuration
#[derive(Debug, Clone, PartialEq, Eq, PartialOrd, Ord)]
pub struct Schema {
    /// The subject name of the schema in the registry
    pub subject: String,
    /// The version and configuration of the schema
    pub spec: SchemaSpec,
}

/// What the configuration gives for a subject: a bare version, or a version
/// with its configuration.
#[derive(Debug)]
pub enum SchemaSpecConfig {
    Simple(usize),
    Complex(SchemaSpec),
}

impl SchemaSpecConfig {
    /// The schema that this entry of the configuration stands for, under
    /// `subject`: a bare version stands for that version with no further
    /// configuration.
    pub fn into_schema(self, subject: String) -> (schema: Schema)
        ensures
            schema.subject == subject,
            schema.spec == match self {
                SchemaSpecConfig::Simple(version) => SchemaSpec { version, go_mod: None },
                SchemaSpecConfig::Complex(spec) => spec,
            },
    {
        let spec = match self {
            SchemaSpecConfig::Simple(version) => SchemaSpec { version, go_mod: None },
            SchemaSpecConfig::Complex(c) => c,
        };

        Schema { subject, spec }
    }
}

/// What the lock records of one subject.
#[derive(Debug, Clone, PartialEq, Eq, PartialOrd, Ord)]
pub struct LockedSchema {
    /// The subject name of the schema in the registry
    pub subject: String,
    /// The version that was downloaded
    pub version: usize,
    /// The SHA-512 checksum of what was downloaded
    pub sha512: Vec<u8>,
}

/// What the lock records of one subject, as plain values.
pub struct Locked {
    pub version: usize,
    pub sha512: Seq<u8>,
}

/// The lock: what is recorded of each subject, under the subject's name.
#[derive(Debug)]
pub struct LockMap {
    entries: Vec<LockedSchema>,
}

/// Where an error says that a file was not found, there is no file; any
/// other error stands.
pub fn not_found_opt<T>(err: std::io::Error) -> (r: Result<Option<T>, std::io::Error>)
    ensures
        r == if io_fault_of(err) is NotFound {
            Ok::<Option<T>, std::io::Error>(None)
        } else {
            Err::<Option<T>, std::io::Error>(err)
        },
{
    match io_fault(&err) {
        IoFault::NotFound => Ok(None),
        _ => Err(err),
    }
}

/// Whether two vectors of bytes hold the same bytes.
pub fn same_bytes(a: &Vec<u8>, b: &Vec<u8>) -> (same: bool)
    ensures
        same == (a@ == b@),
{
    if a.len() != b.len() {
        return false;
    }
    let mut i: usize = 0;
    while i < a.len()
        invariant
            i <= a@.len(),
            a@.len() == b@.len(),
            forall|j: int| 0 <= j < i ==> a@[j] == b@[j],
        decreases a@.len() - i,
    {
        if a[i] != b[i] {
            return false;
        }
        i += 1;
    }
    assert(a@ =~= b@);
    true
}

impl LockedSchema {
    /// What is recorded, as plain values.
    pub open spec fn locked(&self) -> Locked {
        Locked { version: self.version, sha512: self.sha512@ }
    }
}

impl LockMap {
    /// Whether no subject stands twice among the first `n` entries.
    spec fn distinct_upto(&self, n: int) -> bool {
        forall|i: int, j: int|
            0 <= i < j < n ==> (#[trigger] self.entries@[i]).subject@ != (
            #[trigger] self.entries@[j]).subject@
    }

    /// No subject is recorded twice.
    #[verifier::type_invariant]
    spec fn subjects_are_distinct(&self) -> bool {
        self.distinct_upto(self.entries@.len() as int)
    }

    /// Where the record of `subject` stands among the entries.
    spec fn position(&self, subject: Seq<char>) -> int {
        choose|i: int| 0 <= i < self.entries@.len() && self.entries@[i].subject@ == subject
    }

    /// Whether the lock holds a record of `subject`.
    pub closed spec fn contains(&self, subject: Seq<char>) -> bool {
        exists|i: int| 0 <= i < self.entries@.len() && self.entries@[i].subject@ == subject
    }

    /// What the lock records of `subject`.
    pub closed spec fn get(&self, subject: Seq<char>) -> Locked
        recommends
            self.contains(subject),
    {
        self.entries@[self.position(subject)].locked()
    }

    /// How many subjects the lock records.
    pub closed spec fn len(&self) -> nat {
        self.entries@.len()
    }

    /// A lock that records nothing.
    pub fn new() -> (map: LockMap)
        ensures
            map.len() == 0,
            forall|subject: Seq<char>| !map.contains(subject),
    {
        LockMap { entries: Vec::new() }
    }

    /// Where the record of `subject` stands, if there is one.
    fn find(&self, subject: &str) -> (at: Option<usize>)
        ensures
            match at {
                Some(i) => i < self.entries@.len() && self.entries@[i as int].subject@
                    == subject@ && self.contains(subject@) && self.position(subject@) == i,
                None => !self.contains(subject@),
            },
    {
        proof {
            use_type_invariant(self);
        }
        let mut i: usize = 0;
        while i < self.entries.len()
            invariant
                i <= self.entries@.len(),
                self.distinct_upto(self.entries@.len() as int),
                forall|j: int| 0 <= j < i ==> self.entries@[j].subject@ != subject@,
            decreases self.entries@.len() - i,
        {
            if str_eq(self.entries[i].subject.as_str(), subject) {
                proof {
                    assert(self.contains(subject@));
                    let k = self.position(subject@);
                    if k != i {
                        assert(self.entries@[k].subject@ == self.entries@[i as int].subject@);
                    }
                }
                return Some(i);
            }
            i += 1;
        }
        None
    }

    /// Record `locked` under its subject, in place of what was recorded of
    /// that subject before.
    pub fn insert(&mut self, locked: LockedSchema)
        ensures
            final(self).contains(locked.subject@),
            final(self).get(locked.subject@) == locked.locked(),
            forall|subject: Seq<char>|
                subject != locked.subject@ ==> (final(self).contains(subject) == old(self).contains(subject)),
            forall|subject: Seq<char>|
                subject != locked.subject@ && old(self).contains(subject) ==> final(self).get(
                    subject,
                ) == old(self).get(subject),
            final(self).len() == if old(self).contains(locked.subject@) {
                old(self).len()
            } else {
                old(self).len() + 1
            },
    {
        proof {
            use_type_invariant(&*self);
        }
        let ghost before = self.entries@;
        let ghost name = locked.subject@;
        let ghost value = locked.locked();
        let mut entries = Vec::new();
        std::mem::swap(&mut entries, &mut self.entries);
        let found = find_subject(&entries, locked.subject.as_str());
        match found {
            Some(i) => {
                entries.set(i, locked);
            },
            None => {
                entries.push(locked);
            },
        }
        proof {
            let after = entries@;
            let at: int = match found {
                Some(i) => i as int,
                None => before.len() as int,
            };
            assert(after[at].subject@ == name);
            assert(after[at].locked() == value);
            assert forall|i: int, j: int| 0 <= i < j < after.len() implies (#[trigger] after[i]).subject@
                != (#[trigger] after[j]).subject@ by {
                if i != at && j != at {
                    assert(after[i] == before[i] && after[j] == before[j]);
                } else if i == at {
                    assert(after[j] == before[j]);
                } else {
                    assert(after[i] == before[i]);
                }
            }
        }
        self.entries = entries;
        proof {
            let after = self.entries@;
            let at: int = match found {
                Some(i) => i as int,
                None => before.len() as int,
            };
            assert(self.contains(name));
            assert(self.position(name) == at);
            assert forall|subject: Seq<char>| subject != name implies (self.contains(subject)
                == old(self).contains(subject)) by {
                if old(self).contains(subject) {
                    let i = old(self).position(subject);
                    assert(after[i] == before[i]);
                }
                if self.contains(subject) {
                    let i = self.position(subject);
                    assert(after[i] == before[i]);
                }
            }
            assert forall|subject: Seq<char>|
                subject != name && old(self).contains(subject) implies self.get(subject) == old(self).get(subject) by {
                let i = old(self).position(subject);
                assert(after[i] == before[i]);
                let k = self.position(subject);
                assert(k == i);
            }
        }
    }

    /// The lock that a list of records amounts to: each is recorded under its
    /// subject, a later one in place of an earlier one of the same subject.
    pub fn from_locked(schemas: Vec<LockedSchema>) -> (map: LockMap)
        ensures
            forall|subject: Seq<char>|
                map.contains(subject) <==> exists|i: int|
                    0 <= i < schemas@.len() && (#[trigger] schemas@[i]).subject@ == subject,
            forall|i: int|
                0 <= i < schemas@.len() && (forall|j: int|
                    i < j < schemas@.len() ==> (#[trigger] schemas@[j]).subject@
                        != schemas@[i].subject@) ==> map.get((#[trigger] schemas@[i]).subject@)
                    == schemas@[i].locked(),
    {
        let mut map = LockMap::new();
        for locked in it: schemas
            invariant
                forall|subject: Seq<char>|
                    map.contains(subject) <==> exists|i: int|
                        0 <= i < it.index() && (#[trigger] it.seq()[i]).subject@ == subject,
                forall|i: int|
                    0 <= i < it.index() && (forall|j: int|
                        i < j < it.index() ==> (#[trigger] it.seq()[j]).subject@
                            != it.seq()[i].subject@) ==> map.get((#[trigger] it.seq()[i]).subject@)
                        == it.seq()[i].locked(),
        {
            let ghost before = map;
            let ghost n = it.index();
            map.insert(locked);
            proof {
                assert forall|subject: Seq<char>| map.contains(subject) implies exists|i: int|
                    0 <= i < n + 1 && (#[trigger] it.seq()[i]).subject@ == subject by {
                    if subject == locked.subject@ {
                        assert(it.seq()[n].subject@ == subject);
                    } else {
                        assert(before.contains(subject));
                        let i = choose|i: int|
                            0 <= i < n && (#[trigger] it.seq()[i]).subject@ == subject;
                        assert(it.seq()[i].subject@ == subject);
                    }
                }
                assert forall|subject: Seq<char>|
                    (exists|i: int|
                        0 <= i < n + 1 && (#[trigger] it.seq()[i]).subject@
                            == subject) implies map.contains(subject) by {
                    let i = choose|i: int|
                        0 <= i < n + 1 && (#[trigger] it.seq()[i]).subject@ == subject;
                    if subject != locked.subject@ {
                        assert(i < n);
                        assert(before.contains(subject));
                    }
                }
                assert forall|i: int|
                    0 <= i < n + 1 && (forall|j: int|
                        i < j < n + 1 ==> (#[trigger] it.seq()[j]).subject@
                            != it.seq()[i].subject@) implies map.get(
                    (#[trigger] it.seq()[i]).subject@,
                ) == it.seq()[i].locked() by {
                    if i < n {
                        assert(it.seq()[n].subject@ != it.seq()[i].subject@);
                        assert(before.contains(it.seq()[i].subject@));
                    }
                }
            }
        }
        map
    }

    /// Look up what the lock records of a schema's subject, and hand it out
    /// where it is a record of the schema's version.
    pub fn read_lock<'a>(&'a self, schema: &Schema) -> (locked: Option<&'a LockedSchema>)
        ensures
            match locked {
                Some(found) => {
                    &&& self.contains(schema.subject@)
                    &&& found.subject@ == schema.subject@
                    &&& found.locked() == self.get(schema.subject@)
                    &&& found.version == schema.spec.version
                },
                None => !self.contains(schema.subject@) || self.get(schema.subject@).version
                    != schema.spec.version,
            },
    {
        match self.find(schema.subject.as_str()) {
            Some(i) => {
                let found = &self.entries[i];
                if found.version == schema.spec.version {
                    Some(found)
                } else {
                    None
                }
            },
            None => None,
        }
    }

    /// The records of the lock, one for each subject, in no particular order.
    pub fn locked_schemas(&self) -> (records: &Vec<LockedSchema>)
        ensures
            records@.len() == self.len(),
            forall|i: int|
                0 <= i < records@.len() ==> self.contains((#[trigger] records@[i]).subject@)
                    && self.get(records@[i].subject@) == records@[i].locked(),
            forall|i: int, j: int|
                0 <= i < j < records@.len() ==> (#[trigger] records@[i]).subject@ != (
                #[trigger] records@[j]).subject@,
    {
        proof {
            use_type_invariant(self);
            assert forall|i: int| 0 <= i < self.entries@.len() implies self.contains(
                (#[trigger] self.entries@[i]).subject@,
            ) && self.get(self.entries@[i].subject@) == self.entries@[i].locked() by {
                let subject = self.entries@[i].subject@;
                assert(self.contains(subject));
                let k = self.position(subject);
                assert(k == i);
            }
        }
        &self.entries
    }

    /// Whether two locks record the same of the same subjects.
    pub fn same_as(&self, other: &LockMap) -> (same: bool)
        ensures
            same == (self.len() == other.len() && forall|subject: Seq<char>|
                self.contains(subject) ==> other.contains(subject) && other.get(subject)
                    == self.get(subject)),
    {
        proof {
            use_type_invariant(self);
            use_type_invariant(other);
        }
        if self.entries.len() != other.entries.len() {
            return false;
        }
        let mut i: usize = 0;
        while i < self.entries.len()
            invariant
                i <= self.entries@.len(),
                self.distinct_upto(self.entries@.len() as int),
                forall|j: int|
                    0 <= j < i ==> other.contains((#[trigger] self.entries@[j]).subject@)
                        && other.get(self.entries@[j].subject@) == self.entries@[j].locked(),
            decreases self.entries@.len() - i,
        {
            let mine = &self.entries[i];
            let matches = match other.find(mine.subject.as_str()) {
                Some(k) => other.entries[k].version == mine.version && same_bytes(
                    &other.entries[k].sha512,
                    &mine.sha512,
                ),
                None => false,
            };
            if !matches {
                proof {
                    let subject = mine.subject@;
                    assert(self.contains(subject));
                    assert(self.position(subject) == i);
                    if other.contains(subject) {
                        assert(other.get(subject) != self.get(subject)) by {
                            assert(other.get(subject).sha512 == other.entries@[other.position(
                                subject,
                            )].sha512@);
                        }
                    }
                }
                return false;
            }
            proof {
                let k = other.position(mine.subject@);
                assert(other.entries@[k].locked().sha512 =~= mine.locked().sha512);
                assert(other.entries@[k].locked() == mine.locked());
            }
            i += 1;
        }
        proof {
            assert forall|subject: Seq<char>| self.contains(subject) implies other.contains(
                subject,
            ) && other.get(subject) == self.get(subject) by {
                let j = self.position(subject);
                assert(other.contains(self.entries@[j].subject@));
            }
        }
        true
    }
}

/// Where the record of `subject` stands among `entries`, if there is one.
fn find_subject(entries: &Vec<LockedSchema>, subject: &str) -> (at: Option<usize>)
    ensures
        match at {
            Some(i) => i < entries@.len() && entries@[i as int].subject@ == subject@,
            None => forall|j: int| 0 <= j < entries@.len() ==> entries@[j].subject@ != subject@,
        },
{
    let mut i: usize = 0;
    while i < entries.len()
        invariant
            i <= entries@.len(),
            forall|j: int| 0 <= j < i ==> entries@[j].subject@ != subject@,
        decreases entries@.len() - i,
    {
        if str_eq(entries[i].subject.as_str(), subject) {
            return Some(i);
        }
        i += 1;
    }
    None
}

} // verus!
