//! The record of the files that a session wrote.

use vstd::prelude::*;
use crate::names::{strictly_sorted, NameMap};
use crate::text::{chars_of, extend_str, string_of};

verus! {

/// What was done to a file.
#[derive(Debug, Clone, Copy, PartialEq, Eq, Structural)]
pub enum FileOperation {
    Created,
    Modified,
    Deleted,
}

impl FileOperation {
    /// The word for the operation.
    pub open spec fn label_spec(self) -> Seq<char> {
        match self {
            FileOperation::Created => "created"@,
            FileOperation::Modified => "modified"@,
            FileOperation::Deleted => "deleted"@,
        }
    }

    /// The word for the operation.
    pub fn label(&self) -> (r: &'static str)
        ensures
            r@ == self.label_spec(),
    {
        match self {
            FileOperation::Created => "created",
            FileOperation::Modified => "modified",
            FileOperation::Deleted => "deleted",
        }
    }
}

/// One file that the session wrote: its path in normal form, what was done
/// to it last, and when, in milliseconds of the caller's clock.
#[derive(Debug, Clone)]
pub struct FileChange {
    pub path: String,
    pub operation: FileOperation,
    pub timestamp: u64,
}

/// Whether a path starts at the root.
pub open spec fn is_absolute(path: Seq<char>) -> bool {
    path.len() > 0 && path[0] == '/'
}

/// The path `path` as seen from the directory `base`: itself where it
/// starts at the root, and else `base` and `path` with one separator
/// between them, which an empty `base` or one that ends in a separator
/// does not need.
pub open spec fn normalized(base: Seq<char>, path: Seq<char>) -> Seq<char> {
    if is_absolute(path) {
        path
    } else if base.len() == 0 || base.last() == '/' {
        base + path
    } else {
        base + seq!['/'] + path
    }
}

/// The path `path` as seen from the directory `base`.
pub fn normalize_path(base: &str, path: &str) -> (r: String)
    ensures
        r@ == normalized(base@, path@),
{
    let p = chars_of(path);
    if p.len() > 0 && p[0] == '/' {
        return string_of(&p);
    }
    let mut out = chars_of(base);
    if out.len() > 0 && out[out.len() - 1] != '/' {
        out.push('/');
    }
    extend_str(&mut out, path);
    string_of(&out)
}

/// The files that a session wrote, one record for each path.
#[derive(Debug, Clone)]
pub struct ChangeLedger {
    records: NameMap<FileChange>,
}

impl ChangeLedger {
    /// The records are in the order of their paths, and each stands under
    /// its own path.
    pub closed spec fn wf(&self) -> bool {
        &&& self.records.wf()
        &&& forall|k: Seq<char>| #[trigger]
            self.records@.dom().contains(k) ==> self.records@[k].path@ == k
    }

    /// The records by path.
    pub closed spec fn view(&self) -> Map<Seq<char>, FileChange> {
        self.records@
    }

    /// What was done last to each file on record, and when.
    pub closed spec fn entries(&self) -> Map<Seq<char>, (FileOperation, u64)> {
        Map::new(
            |k: Seq<char>| self.records@.dom().contains(k),
            |k: Seq<char>| (self.records@[k].operation, self.records@[k].timestamp),
        )
    }

    /// The paths on record, in the order of strings.
    pub closed spec fn paths(&self) -> Seq<Seq<char>> {
        self.records.keys()
    }

    /// The records in the order of their paths.
    pub closed spec fn listing(&self) -> Seq<FileChange> {
        self.records.values()
    }

    /// How the listing relates to the records by path.
    pub proof fn lemma_listing(&self)
        requires
            self.wf(),
        ensures
            strictly_sorted(self.paths()),
            self.paths().len() == self.listing().len(),
            forall|i: int|
                0 <= i < self.paths().len() ==> self@.dom().contains(#[trigger] self.paths()[i])
                    && self@[self.paths()[i]] == self.listing()[i] && self.listing()[i].path@
                    == self.paths()[i],
            forall|k: Seq<char>|
                self@.dom().contains(k) ==> exists|i: int|
                    0 <= i < self.paths().len() && #[trigger] self.paths()[i] == k,
            self.entries().dom() == self@.dom(),
            forall|k: Seq<char>| #[trigger]
                self@.dom().contains(k) ==> self.entries()[k] == (
                    self@[k].operation,
                    self@[k].timestamp,
                ),
    {
        self.records.lemma_listing();
        assert(self.entries().dom() =~= self@.dom());
    }

    /// There are as many records as there are paths on record.
    pub proof fn lemma_count(&self)
        requires
            self.wf(),
        ensures
            self.entries().dom().finite(),
            self.entries().dom().len() == self.paths().len(),
    {
        self.records.lemma_dom_len();
        assert(self.entries().dom() =~= self.records@.dom());
    }

    /// A ledger without records.
    pub fn new() -> (l: Self)
        ensures
            l.wf(),
            l@ == Map::<Seq<char>, FileChange>::empty(),
            l.entries() == Map::<Seq<char>, (FileOperation, u64)>::empty(),
            l.paths().len() == 0,
    {
        let l = ChangeLedger { records: NameMap::new() };
        assert(l.entries() =~= Map::<Seq<char>, (FileOperation, u64)>::empty());
        l
    }

    /// Puts on record that `operation` was done at `timestamp` to the file
    /// `path`, seen from `base`. The record takes the place of an earlier
    /// one for the same file.
    pub fn record(&mut self, base: &str, path: &str, operation: FileOperation, timestamp: u64)
        requires
            old(self).wf(),
        ensures
            final(self).wf(),
            final(self).entries() == old(self).entries().insert(
                normalized(base@, path@),
                (operation, timestamp),
            ),
            final(self)@.dom() == old(self)@.dom().insert(normalized(base@, path@)),
            final(self)@[normalized(base@, path@)].path@ == normalized(base@, path@),
            final(self)@[normalized(base@, path@)].operation == operation,
            final(self)@[normalized(base@, path@)].timestamp == timestamp,
            forall|k: Seq<char>|
                k != normalized(base@, path@) && old(self)@.dom().contains(k) ==> final(self)@[k]
                    == old(self)@[k],
    {
        let key = normalize_path(base, path);
        let change = FileChange { path: key.clone(), operation, timestamp };
        self.records.insert(key, change);
        assert(self.entries() =~= old(self).entries().insert(
            normalized(base@, path@),
            (operation, timestamp),
        ));
    }

    /// The number of files on record.
    pub fn count(&self) -> (n: usize)
        ensures
            n == self.paths().len(),
    {
        self.records.len()
    }

    /// Takes every record out.
    pub fn clear(&mut self)
        ensures
            final(self).wf(),
            final(self)@ == Map::<Seq<char>, FileChange>::empty(),
            final(self).entries() == Map::<Seq<char>, (FileOperation, u64)>::empty(),
            final(self).paths().len() == 0,
    {
        self.records.clear();
        assert(self.entries() =~= Map::<Seq<char>, (FileOperation, u64)>::empty());
    }

    /// The records in the order of their paths.
    pub fn summary(&self) -> (r: Vec<&FileChange>)
        ensures
            r@.len() == self.listing().len(),
            forall|i: int| 0 <= i < r@.len() ==> *(#[trigger] r@[i]) == self.listing()[i],
    {
        let mut out: Vec<&FileChange> = Vec::new();
        let n = self.records.len();
        let mut i: usize = 0;
        while i < n
            invariant
                i <= n,
                n == self.listing().len(),
                out@.len() == i,
                forall|j: int| 0 <= j < i ==> *(#[trigger] out@[j]) == self.listing()[j],
            decreases n - i,
        {
            out.push(self.records.value_at(i));
            i += 1;
        }
        out
    }
}

/// Two records for one path leave one record, which is the second.
pub proof fn law_second_record_wins(
    before: Map<Seq<char>, (FileOperation, u64)>,
    path: Seq<char>,
    first: (FileOperation, u64),
    second: (FileOperation, u64),
)
    ensures
        before.insert(path, first).insert(path, second) == before.insert(path, second),
        before.insert(path, first).insert(path, second)[path] == second,
        before.insert(path, first).insert(path, second).dom() == before.dom().insert(path),
{
    assert(before.insert(path, first).insert(path, second) =~= before.insert(path, second));
}

} // verus!
