use vstd::prelude::*;

pub use crate::kind::EntityKind;

verus! {

/// `std::path::PathBuf`, the source paths of index entries.
#[verifier::external_type_specification]
#[verifier::external_body]
pub struct ExPathBuf(std::path::PathBuf);

/// A declaration entry of the repository index, keyed by project, kind and
/// the kind's natural key.
#[derive(Debug)]
pub struct IndexEntry {
    pub project: String,
    pub kind: EntityKind,
    pub key: String,
    pub source_path: std::path::PathBuf,
}

/// The repository index of one invocation.
#[derive(Debug)]
pub struct RepositoryIndex {
    entries: Vec<IndexEntry>,
}

/// The entries of a project and kind, in index order.
pub open spec fn project_kind_entries(entries: Seq<IndexEntry>, project: Seq<char>, kind: EntityKind) -> Seq<IndexEntry> {
    entries.filter(|e: IndexEntry| e.project@ == project && e.kind == kind)
}

impl RepositoryIndex {
    /// The entries, in index order.
    pub closed spec fn entries_spec(&self) -> Seq<IndexEntry> {
        self.entries@
    }

    /// An index of the given entries.
    pub fn new(entries: Vec<IndexEntry>) -> (idx: Self)
        ensures
            idx.entries_spec() == entries@,
    {
        RepositoryIndex { entries }
    }

    /// All entries.
    pub fn entries(&self) -> (s: &[IndexEntry])
        ensures
            s@ == self.entries_spec(),
    {
        self.entries.as_slice()
    }

    /// The entries of a project and kind, in index order.
    pub fn find_by_project_kind(&self, project: &str, kind: EntityKind) -> (r: Vec<&IndexEntry>)
        ensures
            r@.len() == project_kind_entries(self.entries_spec(), project@, kind).len(),
            forall|i: int| 0 <= i < r@.len() ==> *r@[i] == project_kind_entries(self.entries_spec(), project@, kind)[i],
    {
        let ghost all = self.entries@;
        let ghost pred = |e: IndexEntry| e.project@ == project@ && e.kind == kind;
        let mut found: Vec<&IndexEntry> = Vec::new();
        let mut index: usize = 0;
        proof {
            reveal(Seq::filter);
            assert(all.take(0).filter(pred) =~= Seq::<IndexEntry>::empty());
        }
        while index < self.entries.len()
            invariant
                0 <= index <= all.len(),
                all == self.entries@,
                pred == (|e: IndexEntry| e.project@ == project@ && e.kind == kind),
                found@.len() == all.take(index as int).filter(pred).len(),
                forall|i: int| 0 <= i < found@.len() ==> *found@[i] == all.take(index as int).filter(pred)[i],
            decreases all.len() - index,
        {
            let entry = &self.entries[index];
            proof {
                assert(all.take(index as int + 1) =~= all.take(index as int).push(*entry));
                crate::adapters::datasource::lemma_filter_step(all.take(index as int), *entry, pred);
            }
            if crate::text::same_text(entry.project.as_str(), project) && entry.kind == kind {
                found.push(entry);
            }
            index = index + 1;
        }
        proof {
            assert(all.take(all.len() as int) =~= all);
            assert(project_kind_entries(all, project@, kind) == all.filter(pred));
        }
        found
    }
}

} // verus!
