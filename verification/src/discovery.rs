use vstd::prelude::*;

use crate::error::AppError;
use crate::text::same_text;

verus! {

/// Maximum number of files one repository discovery visits.
pub const MAX_VISITED_FILES: usize = 10_000;

/// Maximum size of one sidecar file: 32 MiB.
pub const MAX_SIDECAR_FILE_BYTES: u64 = 33_554_432;

/// Maximum total size of the files one declaration uploads: 128 MiB.
pub const MAX_AGGREGATE_UPLOAD_BYTES: u64 = 134_217_728;

/// Maximum size of a source file path printed in output.
pub const MAX_SOURCE_FILE_PATH_BYTES: usize = 4_096;

/// A discovered YAML file and its size in bytes when it was found.
#[derive(Debug)]
pub struct DiscoveredFile {
    pub path: std::path::PathBuf,
    pub byte_len: u64,
}

impl DiscoveredFile {
    /// A discovered file.
    pub fn new(path: std::path::PathBuf, byte_len: u64) -> (f: Self)
        ensures
            f.path == path,
            f.byte_len == byte_len,
    {
        DiscoveredFile { path, byte_len }
    }
}

/// Refuses a file whose reported size is over its byte limit.
pub fn check_declared_size(byte_len: u64, max_bytes: u64, limit_message: &str) -> (r: Result<(), AppError>)
    ensures
        r is Ok <==> byte_len <= max_bytes,
        r is Err ==> (r->Err_0 is Schema && r->Err_0->Schema_0@ == limit_message@),
{
    if byte_len > max_bytes {
        Err(AppError::Schema(limit_message.to_owned()))
    } else {
        Ok(())
    }
}

/// Refuses a chunked read once the bytes read so far pass the limit.
pub fn check_read_total(already: usize, read: usize, max_bytes: u64, limit_message: &str) -> (r: Result<(), AppError>)
    ensures
        r is Ok <==> already + read <= max_bytes,
        r is Err ==> (r->Err_0 is Schema && r->Err_0->Schema_0@ == limit_message@),
{
    let total: u128 = already as u128 + read as u128;
    if total > max_bytes as u128 {
        Err(AppError::Schema(limit_message.to_owned()))
    } else {
        Ok(())
    }
}

/// The size limit message of a sidecar.
pub fn sidecar_limit_message() -> (s: &'static str)
    ensures
        s@ == "sidecar exceeds its per-file byte limit"@,
{
    "sidecar exceeds its per-file byte limit"
}

/// Whether a directory entry named `name` is skipped by discovery: every
/// directory named `.git`.
pub fn is_skipped_directory(name: Option<&str>) -> (r: bool)
    ensures
        r == (name is Some && name->0@ == ".git"@),
{
    match name {
        Some(n) => same_text(n, ".git"),
        None => false,
    }
}

/// Whether a file extension marks a YAML declaration: `yaml` or `yml`.
pub open spec fn yaml_extension(extension: Option<Seq<char>>) -> bool {
    extension == Some("yaml"@) || extension == Some("yml"@)
}

/// Counts the regular files one discovery visits, against the cap.
pub struct FileVisitor {
    visited: usize,
}

impl FileVisitor {
    /// The files visited so far.
    pub closed spec fn visited_spec(&self) -> usize {
        self.visited
    }

    /// A visitor that has seen no file.
    pub fn new() -> (v: Self)
        ensures
            v.visited_spec() == 0,
    {
        FileVisitor { visited: 0 }
    }

    /// Counts one regular file: passing the cap of 10,000 files is refused;
    /// the repository configuration file and files without a YAML
    /// extension are counted but not collected.
    pub fn visit(&mut self, is_repository_config: bool, extension: Option<&str>) -> (r: Result<bool, AppError>)
        requires
            old(self).visited_spec() <= MAX_VISITED_FILES,
        ensures
            old(self).visited_spec() + 1 > MAX_VISITED_FILES ==> (r is Err && r->Err_0 is Schema
                && final(self).visited_spec() == old(self).visited_spec()),
            old(self).visited_spec() + 1 <= MAX_VISITED_FILES ==> (final(self).visited_spec()
                == old(self).visited_spec() + 1 && r == Ok::<bool, AppError>(!is_repository_config
                && yaml_extension(match extension {
                Some(e) => Some(e@),
                None => None,
            }))),
    {
        if self.visited >= MAX_VISITED_FILES {
            return Err(AppError::Schema("repository file cap (10000) exceeded during discovery".to_owned()));
        }
        self.visited = self.visited + 1;
        if is_repository_config {
            return Ok(false);
        }
        let yaml = match extension {
            Some(e) => same_text(e, "yaml") || same_text(e, "yml"),
            None => false,
        };
        Ok(yaml)
    }
}

// ---------------------------------------------------------------------------
// Selection of the walked files
// ---------------------------------------------------------------------------

/// Bytewise order of two paths: the first differing byte decides, and a
/// proper prefix comes first.
pub open spec fn bytes_less(a: Seq<u8>, b: Seq<u8>) -> bool
    decreases a.len(),
{
    if a.len() == 0 {
        b.len() > 0
    } else if b.len() == 0 {
        false
    } else if a[0] != b[0] {
        a[0] < b[0]
    } else {
        bytes_less(a.drop_first(), b.drop_first())
    }
}

/// No path is below itself.
pub proof fn lemma_bytes_less_irreflexive(a: Seq<u8>)
    ensures
        !bytes_less(a, a),
    decreases a.len(),
{
    if a.len() > 0 {
        lemma_bytes_less_irreflexive(a.drop_first());
    }
}

/// The bytewise order is transitive.
pub proof fn lemma_bytes_less_transitive(a: Seq<u8>, b: Seq<u8>, c: Seq<u8>)
    requires
        bytes_less(a, b),
        bytes_less(b, c),
    ensures
        bytes_less(a, c),
    decreases a.len(),
{
    if a.len() > 0 && b.len() > 0 && c.len() > 0 {
        if a[0] == b[0] && b[0] == c[0] {
            lemma_bytes_less_transitive(a.drop_first(), b.drop_first(), c.drop_first());
        }
    }
}

/// The order of two paths is decided after their common prefix.
proof fn lemma_bytes_less_common_prefix(a: Seq<u8>, b: Seq<u8>, n: int)
    requires
        0 <= n <= a.len(),
        n <= b.len(),
        forall|j: int| 0 <= j < n ==> a[j] == b[j],
    ensures
        bytes_less(a, b) == bytes_less(a.subrange(n, a.len() as int), b.subrange(n, b.len() as int)),
    decreases n,
{
    if n > 0 {
        lemma_bytes_less_common_prefix(a.drop_first(), b.drop_first(), n - 1);
        assert(a.drop_first().subrange(n - 1, a.len() - 1) =~= a.subrange(n, a.len() as int));
        assert(b.drop_first().subrange(n - 1, b.len() - 1) =~= b.subrange(n, b.len() as int));
    } else {
        assert(a.subrange(0, a.len() as int) =~= a);
        assert(b.subrange(0, b.len() as int) =~= b);
    }
}

/// Whether path `a` sorts strictly before path `b`, byte by byte.
pub fn is_bytes_less(a: &Vec<u8>, b: &Vec<u8>) -> (r: bool)
    ensures
        r == bytes_less(a@, b@),
{
    let mut i: usize = 0;
    while i < a.len() && i < b.len() && a[i] == b[i]
        invariant
            0 <= i <= a@.len(),
            i <= b@.len(),
            forall|j: int| 0 <= j < i ==> a@[j] == b@[j],
        decreases a.len() - i,
    {
        i = i + 1;
    }
    proof {
        lemma_bytes_less_common_prefix(a@, b@, i as int);
    }
    if i == a.len() {
        i < b.len()
    } else if i == b.len() {
        false
    } else {
        a[i] < b[i]
    }
}

/// The collected files as path bytes and sizes.
pub open spec fn found_view(v: Seq<(Vec<u8>, u64)>) -> Seq<(Seq<u8>, u64)> {
    v.map_values(|f: (Vec<u8>, u64)| (f.0@, f.1))
}

/// Whether files stand in bytewise path order (equal paths in the order
/// they were found).
pub open spec fn in_path_order(s: Seq<(Seq<u8>, u64)>) -> bool {
    forall|i: int, j: int| 0 <= i < j < s.len() ==> !bytes_less(#[trigger] s[j].0, #[trigger] s[i].0)
}

/// Whether discovery collects a regular file: not the repository
/// configuration file, and with a `yaml` or `yml` extension.
pub open spec fn collects(is_repository_config: bool, extension: Option<Seq<char>>) -> bool {
    !is_repository_config && yaml_extension(extension)
}

/// The selection that one discovery walk builds: every regular file the walk
/// reaches is visited, in walk order; the cap of 10,000 visited files is
/// enforced as the walk goes; the collected YAML files are kept in bytewise
/// path order.
pub struct YamlSelection {
    visitor: FileVisitor,
    found: Vec<(Vec<u8>, u64)>,
}

impl YamlSelection {
    #[verifier::type_invariant]
    spec fn selection_invariant(self) -> bool {
        &&& self.visitor.visited_spec() <= MAX_VISITED_FILES
        &&& in_path_order(found_view(self.found@))
    }

    /// The regular files visited so far.
    pub closed spec fn visited_spec(&self) -> usize {
        self.visitor.visited_spec()
    }

    /// The files collected so far, in bytewise path order.
    pub closed spec fn found_spec(&self) -> Seq<(Seq<u8>, u64)> {
        found_view(self.found@)
    }

    /// A selection that has visited nothing.
    pub fn new() -> (s: Self)
        ensures
            s.visited_spec() == 0,
            s.found_spec() == Seq::<(Seq<u8>, u64)>::empty(),
    {
        let s = YamlSelection { visitor: FileVisitor::new(), found: Vec::new() };
        proof {
            assert(found_view(s.found@) =~= Seq::<(Seq<u8>, u64)>::empty());
        }
        s
    }

    /// Visits one regular file with its path bytes, its size, whether it is
    /// the repository configuration file and its extension. Passing the
    /// cap is refused; a collected file joins the others in path order,
    /// after any equal path; any other file is only counted.
    pub fn visit(&mut self, path: Vec<u8>, byte_len: u64, is_repository_config: bool, extension: Option<&str>) -> (r: Result<(), AppError>)
        ensures
            in_path_order(final(self).found_spec()),
            old(self).visited_spec() + 1 > MAX_VISITED_FILES ==> (r is Err && r->Err_0 is Schema
                && final(self).found_spec() == old(self).found_spec()),
            old(self).visited_spec() + 1 <= MAX_VISITED_FILES ==> {
                &&& r is Ok
                &&& final(self).visited_spec() == old(self).visited_spec() + 1
                &&& collects(is_repository_config, match extension {
                    Some(e) => Some(e@),
                    None => None,
                }) ==> final(self).found_spec().to_multiset() == old(self).found_spec().to_multiset().insert(
                    (path@, byte_len),
                )
                &&& !collects(is_repository_config, match extension {
                    Some(e) => Some(e@),
                    None => None,
                }) ==> final(self).found_spec() == old(self).found_spec()
            },
    {
        proof {
            use_type_invariant(&*self);
        }
        let mut visitor = FileVisitor::new();
        std::mem::swap(&mut visitor, &mut self.visitor);
        let outcome = visitor.visit(is_repository_config, extension);
        self.visitor = visitor;
        let collect = match outcome {
            Ok(c) => c,
            Err(e) => {
                return Err(e);
            },
        };
        if !collect {
            return Ok(());
        }
        let mut found: Vec<(Vec<u8>, u64)> = Vec::new();
        std::mem::swap(&mut found, &mut self.found);
        let ghost before = found_view(found@);
        let mut index: usize = 0;
        while index < found.len() && !is_bytes_less(&path, &found[index].0)
            invariant
                0 <= index <= found@.len(),
                found_view(found@) == before,
                in_path_order(before),
                forall|j: int| 0 <= j < index ==> !bytes_less(path@, #[trigger] before[j].0),
            decreases found.len() - index,
        {
            index = index + 1;
        }
        let ghost copy = (path@, byte_len);
        let ghost after = before.insert(index as int, copy);
        proof {
            assert forall|i: int, j: int| 0 <= i < j < after.len() implies !bytes_less(
                #[trigger] after[j].0,
                #[trigger] after[i].0,
            ) by {
                if j < index {
                    assert(after[i] == before[i] && after[j] == before[j]);
                } else if j == index {
                    assert(after[i] == before[i]);
                } else if i == index {
                    assert(after[j] == before[j - 1]);
                    if bytes_less(before[j - 1].0, copy.0) {
                        if j - 1 == index {
                            lemma_bytes_less_transitive(copy.0, before[index as int].0, copy.0);
                            lemma_bytes_less_irreflexive(copy.0);
                        } else {
                            lemma_bytes_less_transitive(before[j - 1].0, copy.0, before[index as int].0);
                        }
                    }
                } else if i < index {
                    assert(after[i] == before[i] && after[j] == before[j - 1]);
                    if bytes_less(before[j - 1].0, before[i].0) {
                    }
                } else {
                    assert(after[i] == before[i - 1] && after[j] == before[j - 1]);
                }
            }
            vstd::seq_lib::to_multiset_insert(before, index as int, copy);
        }
        found.insert(index, (path, byte_len));
        proof {
            assert(found_view(found@) =~= after);
        }
        self.found = found;
        Ok(())
    }

    /// The collected files in bytewise path order.
    pub fn finish(self) -> (files: Vec<(Vec<u8>, u64)>)
        ensures
            found_view(files@) == self.found_spec(),
            in_path_order(found_view(files@)),
    {
        proof {
            use_type_invariant(&self);
        }
        self.found
    }
}

} // verus!
