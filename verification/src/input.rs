use vstd::prelude::*;

use crate::error::{AppError, InputError};
use crate::text::{has_control, is_control_char, same_text};

verus! {

/// Maximum size of the Skill content a sidecar provides: 128 KiB.
pub const MAX_SKILL_CONTENT_BYTES: u64 = 131_072;

/// Maximum size of one uploaded file: 32 MiB.
pub const MAX_FILE_BYTES: u64 = 33_554_432;

/// Maximum total size of one declaration's uploaded files: 128 MiB.
pub const MAX_AGGREGATE_FILE_BYTES: u64 = 134_217_728;

/// Maximum number of files one File Datasource uploads.
pub const MAX_FILE_PARTS: usize = 10;

/// One uploaded file: its base name and bytes.
#[derive(Debug)]
pub struct FilePart {
    pub filename: String,
    pub bytes: Vec<u8>,
}

/// A base name that may be sent: non-empty, without control characters,
/// `/` or `\`.
pub open spec fn safe_name(s: Seq<char>) -> bool {
    s.len() > 0 && forall|i: int| 0 <= i < s.len() ==> !is_control_char(#[trigger] s[i]) && s[i] != '/' && s[i] != '\\'
}

/// Checks the base name of a file (`None` when the path has no UTF-8 base name).
pub fn safe_basename(file_name: Option<&str>) -> (r: Result<String, AppError>)
    ensures
        match file_name {
            Some(n) => if safe_name(n@) {
                r is Ok && r->Ok_0@ == n@
            } else {
                r == Err::<String, AppError>(AppError::InputLayer(InputError::UnsafeBasename))
            },
            None => r == Err::<String, AppError>(AppError::InputLayer(InputError::UnsafeBasename)),
        },
{
    let name = match file_name {
        Some(n) => n,
        None => {
            return Err(AppError::InputLayer(InputError::UnsafeBasename));
        },
    };
    if name.is_empty() {
        return Err(AppError::InputLayer(InputError::UnsafeBasename));
    }
    let mut clean = true;
    for c in it: name.chars()
        invariant
            it.seq() == name@,
            clean == (forall|i: int| 0 <= i < it.index() ==> !is_control_char(#[trigger] name@[i]) && name@[i] != '/' && name@[i] != '\\'),
    {
        let code = c as u32;
        if code <= 0x1f || (0x7f <= code && code <= 0x9f) || c == '/' || c == '\\' {
            clean = false;
        }
    }
    if !clean {
        return Err(AppError::InputLayer(InputError::UnsafeBasename));
    }
    Ok(name.to_owned())
}

/// Whether a `..` segment starts at position `i` of a `/`-separated path.
pub open spec fn parent_segment_at(s: Seq<char>, i: int) -> bool {
    0 <= i && i + 2 <= s.len() && s[i] == '.' && s[i + 1] == '.' && (i == 0 || s[i - 1] == '/') && (i
        + 2 == s.len() || s[i + 2] == '/')
}

/// Whether the path has a `..` segment.
pub open spec fn has_parent_segment(s: Seq<char>) -> bool {
    exists|i: int| #[trigger] parent_segment_at(s, i)
}

/// An authored auxiliary path that stays below the declaration's directory:
/// non-empty, not absolute, and without a `..` segment.
pub open spec fn safe_relative_path(s: Seq<char>) -> bool {
    s.len() > 0 && s[0] != '/' && !has_parent_segment(s)
}

/// Refuses an authored auxiliary path that could leave the declaration's directory.
pub fn check_relative_path(authored: &str) -> (r: Result<(), AppError>)
    ensures
        r is Ok <==> safe_relative_path(authored@),
        r is Err ==> r->Err_0 == AppError::InputLayer(InputError::UnsafeAuxiliary),
{
    let chars = crate::text::text_chars(authored);
    let n = chars.len();
    if n == 0 || chars[0] == '/' {
        return Err(AppError::InputLayer(InputError::UnsafeAuxiliary));
    }
    let mut i: usize = 0;
    while i < n - 1
        invariant
            n == chars@.len(),
            n >= 1,
            chars@ == authored@,
            0 <= i <= n,
            forall|j: int| 0 <= j < i ==> !#[trigger] parent_segment_at(chars@, j),
        decreases n - i,
    {
        let starts = i == 0 || chars[i - 1] == '/';
        let ends = i + 2 == n || chars[i + 2] == '/';
        if chars[i] == '.' && chars[i + 1] == '.' && starts && ends {
            proof {
                assert(parent_segment_at(chars@, i as int));
            }
            return Err(AppError::InputLayer(InputError::UnsafeAuxiliary));
        }
        i = i + 1;
    }
    proof {
        assert forall|j: int| !parent_segment_at(authored@, j) by {
            if parent_segment_at(authored@, j) {
                assert(j < i);
            }
        }
    }
    Ok(())
}

/// The running checks of a File Datasource's parts: how many files may
/// come, the resolved targets seen so far, and the bytes read so far.
pub struct FilePartsBudget {
    seen: Vec<String>,
    aggregate: u64,
}

impl FilePartsBudget {
    /// The targets seen so far.
    pub closed spec fn seen_spec(&self) -> Seq<Seq<char>> {
        crate::text::texts_of(self.seen@)
    }

    /// The bytes read so far.
    pub closed spec fn aggregate_spec(&self) -> u64 {
        self.aggregate
    }

    /// Starts the checks of `count` authored files: between one and ten.
    pub fn start(count: usize) -> (r: Result<FilePartsBudget, AppError>)
        ensures
            r is Ok <==> 1 <= count <= MAX_FILE_PARTS,
            r is Ok ==> r->Ok_0.seen_spec() == Seq::<Seq<char>>::empty() && r->Ok_0.aggregate_spec() == 0,
            r is Err ==> r->Err_0 is Schema,
    {
        if count == 0 || count > MAX_FILE_PARTS {
            return Err(AppError::Schema("file datasource must name between one and ten files".to_owned()));
        }
        let b = FilePartsBudget { seen: Vec::new(), aggregate: 0 };
        proof {
            assert(crate::text::texts_of(b.seen@) =~= Seq::<Seq<char>>::empty());
        }
        Ok(b)
    }

    /// Records a resolved target: a repeated target is refused.
    pub fn accept_target(&mut self, target: &str) -> (r: Result<(), AppError>)
        ensures
            r is Ok <==> !old(self).seen_spec().contains(target@),
            r is Ok ==> final(self).seen_spec() == old(self).seen_spec().push(target@),
            final(self).aggregate_spec() == old(self).aggregate_spec(),
            r is Err ==> r->Err_0 is Schema,
    {
        let mut index: usize = 0;
        while index < self.seen.len()
            invariant
                0 <= index <= self.seen@.len(),
                forall|j: int| 0 <= j < index ==> self.seen@[j]@ != target@,
            decreases self.seen.len() - index,
        {
            if same_text(self.seen[index].as_str(), target) {
                proof {
                    assert(crate::text::texts_of(self.seen@)[index as int] == target@);
                }
                return Err(AppError::Schema("file datasource contains duplicate file targets".to_owned()));
            }
            index = index + 1;
        }
        let ghost before = self.seen@;
        proof {
            if crate::text::texts_of(before).contains(target@) {
                let j = choose|j: int| 0 <= j < crate::text::texts_of(before).len() && crate::text::texts_of(before)[j] == target@;
                assert(before[j]@ == target@);
            }
        }
        self.seen.push(target.to_owned());
        proof {
            assert(crate::text::texts_of(self.seen@) =~= crate::text::texts_of(before).push(target@));
        }
        Ok(())
    }

    /// Adds the size of a read file: the total may not pass 128 MiB.
    pub fn accept_bytes(&mut self, length: usize) -> (r: Result<(), AppError>)
        ensures
            r is Ok <==> old(self).aggregate_spec() + length <= MAX_AGGREGATE_FILE_BYTES,
            r is Ok ==> final(self).aggregate_spec() == old(self).aggregate_spec() + length,
            final(self).seen_spec() == old(self).seen_spec(),
            r is Err ==> r->Err_0 is Schema,
    {
        let total: u128 = self.aggregate as u128 + length as u128;
        if total > MAX_AGGREGATE_FILE_BYTES as u128 {
            return Err(AppError::Schema("file datasource aggregate exceeds 128 MiB".to_owned()));
        }
        self.aggregate = total as u64;
        Ok(())
    }
}

} // verus!
