use vstd::prelude::*;

use crate::error::{AppError, ParseError};
use crate::json_value::{JsonValue, find_member, member_index, member_value};
use crate::json::nat_decimal;
use crate::domain::ParsedNaturalIdentity;
use crate::text::{decimal_text, has_control, insert_sorted, is_control_char, same_text, sorted_texts, text_chars, texts_of, utf8_len, utf8_len_at_most};
use vstd::utf8::{decode_utf8, encode_utf8, valid_utf8};

pub use crate::kind::EntityKind;

verus! {

/// Maximum size of one declaration file: 1 MiB.
pub const MAX_YAML_FILE_BYTES: usize = 1_048_576;

/// Maximum nesting depth of a declaration.
pub const MAX_YAML_DEPTH: usize = 32;

/// Maximum size of one scalar: 128 KiB.
pub const MAX_YAML_SCALAR_BYTES: usize = 131_072;

/// Maximum number of members of one sequence or mapping.
pub const MAX_YAML_COLLECTION_MEMBERS: usize = 10_000;

/// `'<file>': <detail>`, the shape of every declaration failure message.
pub open spec fn file_message(file: Seq<char>, detail: Seq<char>) -> Seq<char> {
    "'"@ + file + "': "@ + detail
}

/// `'<file>': <detail>`.
fn file_message_text(file: &str, detail: &str) -> (text: String)
    ensures
        text@ == file_message(file@, detail@),
{
    let mut text = String::from_str("'");
    text.append(file);
    text.append("': ");
    text.append(detail);
    text
}

/// Refuses a declaration file larger than 1 MiB, before anything is parsed.
pub fn check_file_size(length: usize, file: &str) -> (r: Result<(), AppError>)
    ensures
        r is Ok <==> length <= MAX_YAML_FILE_BYTES,
        r is Err ==> r->Err_0 is YamlParse,
{
    if length > MAX_YAML_FILE_BYTES {
        Err(AppError::YamlParse(file_message_text(file, "YAML file exceeds the 1048576-byte limit")))
    } else {
        Ok(())
    }
}

// ---------------------------------------------------------------------------
// Raw byte injection scan
// ---------------------------------------------------------------------------

/// A construct that declarations may not use.
#[derive(Debug, Clone, Copy, PartialEq, Eq, Structural)]
pub enum Injection {
    Anchor,
    Alias,
    Tag,
}

/// Where the scanner stands: outside quotes, inside a single- or
/// double-quoted scalar, or inside a comment.
#[derive(Debug, Clone, Copy, PartialEq, Eq, Structural)]
pub enum ScanMode {
    Plain,
    Single,
    Double,
    Comment,
}

/// An ASCII letter or digit, or `_`.
pub open spec fn is_word(b: u8) -> bool {
    (48 <= b <= 57) || (65 <= b <= 90) || (97 <= b <= 122) || b == 95
}

/// Whether `b` is an ASCII letter or digit, or `_`.
pub fn is_word_byte(b: u8) -> (r: bool)
    ensures
        r == is_word(b),
{
    (48 <= b && b <= 57) || (65 <= b && b <= 90) || (97 <= b && b <= 122) || b == 95
}

/// The first anchor, alias or tag that the raw text holds outside quoted
/// scalars and comments, scanning from byte `i` in `mode`. Outside quotes
/// `&` or `*` before a word byte is an anchor or an alias, and `!` before
/// `!`, `<` or a word byte a tag; `''` inside a single-quoted scalar and a
/// backslash escape inside a double-quoted one do not end the scalar; a
/// comment runs to the end of its line.
pub open spec fn first_injection(bytes: Seq<u8>, i: int, mode: ScanMode) -> Option<Injection>
    decreases bytes.len() - i,
{
    if i < 0 || i >= bytes.len() {
        None
    } else {
        let b = bytes[i];
        let has_next = i + 1 < bytes.len();
        match mode {
            ScanMode::Single => if b == 39 {
                if has_next && bytes[i + 1] == 39 {
                    first_injection(bytes, i + 2, ScanMode::Single)
                } else {
                    first_injection(bytes, i + 1, ScanMode::Plain)
                }
            } else {
                first_injection(bytes, i + 1, ScanMode::Single)
            },
            ScanMode::Double => if b == 34 {
                first_injection(bytes, i + 1, ScanMode::Plain)
            } else if b == 92 {
                if has_next {
                    first_injection(bytes, i + 2, ScanMode::Double)
                } else {
                    None
                }
            } else {
                first_injection(bytes, i + 1, ScanMode::Double)
            },
            ScanMode::Comment => if b == 10 {
                first_injection(bytes, i + 1, ScanMode::Plain)
            } else {
                first_injection(bytes, i + 1, ScanMode::Comment)
            },
            ScanMode::Plain => if b == 39 {
                first_injection(bytes, i + 1, ScanMode::Single)
            } else if b == 34 {
                first_injection(bytes, i + 1, ScanMode::Double)
            } else if b == 35 {
                first_injection(bytes, i + 1, ScanMode::Comment)
            } else if b == 38 && has_next && is_word(bytes[i + 1]) {
                Some(Injection::Anchor)
            } else if b == 42 && has_next && is_word(bytes[i + 1]) {
                Some(Injection::Alias)
            } else if b == 33 && has_next && (bytes[i + 1] == 33 || bytes[i + 1] == 60 || is_word(
                bytes[i + 1],
            )) {
                Some(Injection::Tag)
            } else {
                first_injection(bytes, i + 1, ScanMode::Plain)
            },
        }
    }
}

/// The message of each refused construct.
pub open spec fn injection_detail(found: Injection) -> Seq<char> {
    match found {
        Injection::Anchor => "YAML anchor found; anchors are not permitted"@,
        Injection::Alias => "YAML alias found; aliases are not permitted"@,
        Injection::Tag => "YAML tag found; tags are not permitted"@,
    }
}

/// The message of a refused construct.
fn injection_detail_text(found: Injection) -> (text: &'static str)
    ensures
        text@ == injection_detail(found),
{
    match found {
        Injection::Anchor => "YAML anchor found; anchors are not permitted",
        Injection::Alias => "YAML alias found; aliases are not permitted",
        Injection::Tag => "YAML tag found; tags are not permitted",
    }
}

/// Scans the raw declaration bytes for anchors, aliases and tags before any
/// parsing; the first one found is refused as a YAML error naming the file.
pub fn scan_for_injections(raw: &str, file: &str) -> (r: Result<(), AppError>)
    ensures
        match first_injection(encode_utf8(raw@), 0, ScanMode::Plain) {
            None => r is Ok,
            Some(found) => r is Err && r->Err_0 is YamlParse && r->Err_0->YamlParse_0@
                == file_message(file@, injection_detail(found)),
        },
{
    let bytes = raw.as_bytes();
    let len = bytes.len();
    let mut i: usize = 0;
    let mut mode = ScanMode::Plain;
    while i < len
        invariant
            len == bytes@.len(),
            bytes@ == encode_utf8(raw@),
            first_injection(bytes@, i as int, mode) == first_injection(bytes@, 0, ScanMode::Plain),
        decreases len - i,
    {
        let b = bytes[i];
        let has_next = i + 1 < len;
        match mode {
            ScanMode::Single => {
                if b == 39 {
                    if has_next && bytes[i + 1] == 39 {
                        i = i + 2;
                    } else {
                        mode = ScanMode::Plain;
                        i = i + 1;
                    }
                } else {
                    i = i + 1;
                }
            },
            ScanMode::Double => {
                if b == 34 {
                    mode = ScanMode::Plain;
                    i = i + 1;
                } else if b == 92 {
                    if has_next {
                        i = i + 2;
                    } else {
                        i = len;
                    }
                } else {
                    i = i + 1;
                }
            },
            ScanMode::Comment => {
                if b == 10 {
                    mode = ScanMode::Plain;
                }
                i = i + 1;
            },
            ScanMode::Plain => {
                let found = if b == 38 && has_next && is_word_byte(bytes[i + 1]) {
                    Some(Injection::Anchor)
                } else if b == 42 && has_next && is_word_byte(bytes[i + 1]) {
                    Some(Injection::Alias)
                } else if b == 33 && has_next && (bytes[i + 1] == 33 || bytes[i + 1] == 60
                    || is_word_byte(bytes[i + 1])) {
                    Some(Injection::Tag)
                } else {
                    None
                };
                match found {
                    Some(kind) => {
                        return Err(
                            AppError::YamlParse(file_message_text(file, injection_detail_text(kind))),
                        );
                    },
                    None => {},
                }
                if b == 39 {
                    mode = ScanMode::Single;
                } else if b == 34 {
                    mode = ScanMode::Double;
                } else if b == 35 {
                    mode = ScanMode::Comment;
                }
                i = i + 1;
            },
        }
    }
    Ok(())
}

// ---------------------------------------------------------------------------
// Restricted YAML events
// ---------------------------------------------------------------------------

/// Watches the YAML event stream for anchors, aliases and tags; the first
/// one seen is kept.
#[derive(Debug, Clone, Copy, PartialEq, Eq, Structural)]
pub struct RestrictedYamlEvents {
    pub rejected: Option<Injection>,
}

impl RestrictedYamlEvents {
    /// A watcher that has seen nothing refused.
    pub fn new() -> (w: Self)
        ensures
            w.rejected is None,
    {
        RestrictedYamlEvents { rejected: None }
    }

    /// A node (scalar, sequence or mapping start) with an anchor id (0 for
    /// none) and whether it carries a tag.
    pub fn inspect_node(&mut self, anchor_id: usize, tag_present: bool)
        ensures
            old(self).rejected is Some ==> final(self).rejected == old(self).rejected,
            old(self).rejected is None ==> final(self).rejected == (if anchor_id != 0 {
                Some(Injection::Anchor)
            } else if tag_present {
                Some(Injection::Tag)
            } else {
                None
            }),
    {
        if self.rejected.is_none() && anchor_id != 0 {
            self.rejected = Some(Injection::Anchor);
        }
        if self.rejected.is_none() && tag_present {
            self.rejected = Some(Injection::Tag);
        }
    }

    /// An alias event.
    pub fn on_alias(&mut self)
        ensures
            old(self).rejected is Some ==> final(self).rejected == old(self).rejected,
            old(self).rejected is None ==> final(self).rejected == Some(Injection::Alias),
    {
        if self.rejected.is_none() {
            self.rejected = Some(Injection::Alias);
        }
    }

    /// The result: the first refused construct, as a YAML error naming the file.
    pub fn finish(self, file: &str) -> (r: Result<(), AppError>)
        ensures
            self.rejected is None ==> r is Ok,
            self.rejected is Some ==> (r is Err && r->Err_0 is YamlParse && r->Err_0->YamlParse_0@
                == file_message(file@, injection_detail(self.rejected->0))),
    {
        match self.rejected {
            None => Ok(()),
            Some(kind) => Err(AppError::YamlParse(file_message_text(file, injection_detail_text(kind)))),
        }
    }
}

// ---------------------------------------------------------------------------
// YAML tree budget
// ---------------------------------------------------------------------------

/// A parsed YAML document as the library reads it: a number keeps its
/// printed text; a node with a non-standard tag is `Tagged`.
#[derive(Debug)]
pub enum YamlValue {
    Null,
    Bool(bool),
    Number(String),
    String(String),
    Sequence(Vec<YamlValue>),
    Mapping(Vec<(YamlValue, YamlValue)>),
    Tagged,
}

/// Whether a node held at `depth` keeps every budget: depth at most 32,
/// scalars at most 128 KiB, collections at most 10,000 members, no tagged
/// node and no `<<` merge key.
pub open spec fn yaml_within_budget(v: YamlValue, depth: int) -> bool
    decreases v, 0nat,
{
    if depth > MAX_YAML_DEPTH {
        false
    } else {
        match v {
            YamlValue::String(s) => utf8_len(s@) <= MAX_YAML_SCALAR_BYTES,
            YamlValue::Sequence(items) => items@.len() <= MAX_YAML_COLLECTION_MEMBERS
                && items_within_budget(items@, items@.len(), depth + 1),
            YamlValue::Mapping(entries) => entries@.len() <= MAX_YAML_COLLECTION_MEMBERS
                && entries_within_budget(entries@, entries@.len(), depth + 1),
            YamlValue::Tagged => false,
            _ => true,
        }
    }
}

/// Whether the first `n` items keep the budget at `depth`.
pub open spec fn items_within_budget(items: Seq<YamlValue>, n: nat, depth: int) -> bool
    decreases items, n,
{
    if n == 0 || n > items.len() {
        true
    } else {
        items_within_budget(items, (n - 1) as nat, depth) && yaml_within_budget(items[n - 1], depth)
    }
}

/// Whether a key is the merge key `<<`.
pub open spec fn is_merge_key(k: YamlValue) -> bool {
    match k {
        YamlValue::String(s) => s@ == "<<"@,
        _ => false,
    }
}

/// Whether the first `n` entries keep the budget at `depth` and none has
/// the merge key.
pub open spec fn entries_within_budget(entries: Seq<(YamlValue, YamlValue)>, n: nat, depth: int) -> bool
    decreases entries, n,
{
    if n == 0 || n > entries.len() {
        true
    } else {
        entries_within_budget(entries, (n - 1) as nat, depth) && !is_merge_key(entries[n - 1].0)
            && yaml_within_budget(entries[n - 1].0, depth) && yaml_within_budget(
            entries[n - 1].1,
            depth,
        )
    }
}

/// The detail of the first budget breach of a node held at `depth`, in
/// document order (a mapping entry's merge key, then its key, then its
/// value); none when the node keeps every budget.
pub open spec fn yaml_breach(v: YamlValue, depth: int) -> Option<Seq<char>>
    decreases v, 0nat,
{
    if depth > MAX_YAML_DEPTH {
        Some("YAML nesting depth exceeds the 32-level limit"@)
    } else {
        match v {
            YamlValue::String(s) => if utf8_len(s@) <= MAX_YAML_SCALAR_BYTES {
                None
            } else {
                Some("YAML scalar exceeds the 131072-byte limit"@)
            },
            YamlValue::Sequence(items) => if items@.len() > MAX_YAML_COLLECTION_MEMBERS {
                Some("YAML sequence exceeds the 10000-member limit"@)
            } else {
                items_breach(items@, items@.len(), depth + 1)
            },
            YamlValue::Mapping(entries) => if entries@.len() > MAX_YAML_COLLECTION_MEMBERS {
                Some("YAML mapping exceeds the 10000-member limit"@)
            } else {
                entries_breach(entries@, entries@.len(), depth + 1)
            },
            YamlValue::Tagged => Some("YAML tagged value found; tags are not permitted"@),
            _ => None,
        }
    }
}

/// The first breach among the first `n` items held at `depth`.
pub open spec fn items_breach(items: Seq<YamlValue>, n: nat, depth: int) -> Option<Seq<char>>
    decreases items, n,
{
    if n == 0 || n > items.len() {
        None
    } else {
        match items_breach(items, (n - 1) as nat, depth) {
            Some(m) => Some(m),
            None => yaml_breach(items[n - 1], depth),
        }
    }
}

/// The first breach among the first `n` entries held at `depth`.
pub open spec fn entries_breach(entries: Seq<(YamlValue, YamlValue)>, n: nat, depth: int) -> Option<Seq<char>>
    decreases entries, n,
{
    if n == 0 || n > entries.len() {
        None
    } else {
        match entries_breach(entries, (n - 1) as nat, depth) {
            Some(m) => Some(m),
            None => if is_merge_key(entries[n - 1].0) {
                Some("YAML merge key ('<<') is not permitted"@)
            } else {
                match yaml_breach(entries[n - 1].0, depth) {
                    Some(m) => Some(m),
                    None => yaml_breach(entries[n - 1].1, depth),
                }
            },
        }
    }
}

/// Once a breach is found among the first `n` items, it stays the first.
proof fn lemma_items_breach_prefix(items: Seq<YamlValue>, n: nat, m: nat, depth: int)
    requires
        n <= m <= items.len(),
        items_breach(items, n, depth) is Some,
    ensures
        items_breach(items, m, depth) == items_breach(items, n, depth),
    decreases m - n,
{
    if n < m {
        lemma_items_breach_prefix(items, n, (m - 1) as nat, depth);
    }
}

/// Once a breach is found among the first `n` entries, it stays the first.
proof fn lemma_entries_breach_prefix(entries: Seq<(YamlValue, YamlValue)>, n: nat, m: nat, depth: int)
    requires
        n <= m <= entries.len(),
        entries_breach(entries, n, depth) is Some,
    ensures
        entries_breach(entries, m, depth) == entries_breach(entries, n, depth),
    decreases m - n,
{
    if n < m {
        lemma_entries_breach_prefix(entries, n, (m - 1) as nat, depth);
    }
}

/// Checks a parsed YAML tree held at `depth` against the budgets; the first
/// breach in document order is a YAML error naming the file and the breach
/// (among them the merge-key refusal).
pub fn check_yaml_tree(value: &YamlValue, depth: usize, file: &str) -> (r: Result<(), AppError>)
    ensures
        r is Ok <==> yaml_within_budget(*value, depth as int),
        r is Ok <==> yaml_breach(*value, depth as int) is None,
        r is Err ==> (r->Err_0 is YamlParse && r->Err_0->YamlParse_0@ == file_message(
            file@,
            yaml_breach(*value, depth as int)->0,
        )),
    decreases *value,
{
    if depth > MAX_YAML_DEPTH {
        return Err(
            AppError::YamlParse(file_message_text(file, "YAML nesting depth exceeds the 32-level limit")),
        );
    }
    match value {
        YamlValue::String(s) => {
            if !utf8_len_at_most(s.as_str(), MAX_YAML_SCALAR_BYTES) {
                return Err(
                    AppError::YamlParse(
                        file_message_text(file, "YAML scalar exceeds the 131072-byte limit"),
                    ),
                );
            }
            Ok(())
        },
        YamlValue::Sequence(items) => {
            if items.len() > MAX_YAML_COLLECTION_MEMBERS {
                return Err(
                    AppError::YamlParse(
                        file_message_text(file, "YAML sequence exceeds the 10000-member limit"),
                    ),
                );
            }
            let mut index: usize = 0;
            while index < items.len()
                invariant
                    0 <= index <= items@.len(),
                    *value == YamlValue::Sequence(*items),
                    depth <= MAX_YAML_DEPTH,
                    items@.len() <= MAX_YAML_COLLECTION_MEMBERS,
                    items_within_budget(items@, index as nat, depth + 1),
                    items_breach(items@, index as nat, depth + 1) is None,
                decreases items.len() - index,
            {
                proof {
                    assert(yaml_within_budget(*value, depth as int) == (items@.len()
                        <= MAX_YAML_COLLECTION_MEMBERS && items_within_budget(
                        items@,
                        items@.len(),
                        depth + 1,
                    )));
                    assert(decreases_to!(*value => *items));
                    assert(decreases_to!(*items => items[index as int]));
                }
                match check_yaml_tree(&items[index], depth + 1, file) {
                    Ok(()) => {},
                    Err(e) => {
                        proof {
                            lemma_items_budget_prefix(items@, (index + 1) as nat, items@.len(), depth + 1);
                            lemma_items_breach_prefix(items@, (index + 1) as nat, items@.len(), depth + 1);
                        }
                        return Err(e);
                    },
                }
                index = index + 1;
            }
            Ok(())
        },
        YamlValue::Mapping(entries) => {
            if entries.len() > MAX_YAML_COLLECTION_MEMBERS {
                return Err(
                    AppError::YamlParse(
                        file_message_text(file, "YAML mapping exceeds the 10000-member limit"),
                    ),
                );
            }
            let mut index: usize = 0;
            while index < entries.len()
                invariant
                    0 <= index <= entries@.len(),
                    *value == YamlValue::Mapping(*entries),
                    depth <= MAX_YAML_DEPTH,
                    entries@.len() <= MAX_YAML_COLLECTION_MEMBERS,
                    entries_within_budget(entries@, index as nat, depth + 1),
                    entries_breach(entries@, index as nat, depth + 1) is None,
                decreases entries.len() - index,
            {
                proof {
                    assert(yaml_within_budget(*value, depth as int) == (entries@.len()
                        <= MAX_YAML_COLLECTION_MEMBERS && entries_within_budget(
                        entries@,
                        entries@.len(),
                        depth + 1,
                    )));
                    assert(decreases_to!(*value => *entries));
                    assert(decreases_to!(*entries => entries[index as int]));
                }
                let merge = match &entries[index].0 {
                    YamlValue::String(s) => same_text(s.as_str(), "<<"),
                    _ => false,
                };
                if merge {
                    proof {
                        lemma_entries_budget_prefix(entries@, (index + 1) as nat, entries@.len(), depth + 1);
                        lemma_entries_breach_prefix(entries@, (index + 1) as nat, entries@.len(), depth + 1);
                    }
                    return Err(
                        AppError::YamlParse(
                            file_message_text(file, "YAML merge key ('<<') is not permitted"),
                        ),
                    );
                }
                match check_yaml_tree(&entries[index].0, depth + 1, file) {
                    Ok(()) => {},
                    Err(e) => {
                        proof {
                            lemma_entries_budget_prefix(entries@, (index + 1) as nat, entries@.len(), depth + 1);
                            lemma_entries_breach_prefix(entries@, (index + 1) as nat, entries@.len(), depth + 1);
                        }
                        return Err(e);
                    },
                }
                match check_yaml_tree(&entries[index].1, depth + 1, file) {
                    Ok(()) => {},
                    Err(e) => {
                        proof {
                            lemma_entries_budget_prefix(entries@, (index + 1) as nat, entries@.len(), depth + 1);
                            lemma_entries_breach_prefix(entries@, (index + 1) as nat, entries@.len(), depth + 1);
                        }
                        return Err(e);
                    },
                }
                index = index + 1;
            }
            Ok(())
        },
        YamlValue::Tagged => Err(
            AppError::YamlParse(file_message_text(file, "YAML tagged value found; tags are not permitted")),
        ),
        _ => Ok(()),
    }
}

/// A breach among the first `n` items is a breach among the first `m >= n`.
proof fn lemma_items_budget_prefix(items: Seq<YamlValue>, n: nat, m: nat, depth: int)
    requires
        n <= m <= items.len(),
        !items_within_budget(items, n, depth),
    ensures
        !items_within_budget(items, m, depth),
    decreases m - n,
{
    if n < m {
        lemma_items_budget_prefix(items, n, (m - 1) as nat, depth);
    }
}

/// A breach among the first `n` entries is a breach among the first `m >= n`.
proof fn lemma_entries_budget_prefix(entries: Seq<(YamlValue, YamlValue)>, n: nat, m: nat, depth: int)
    requires
        n <= m <= entries.len(),
        !entries_within_budget(entries, n, depth),
    ensures
        !entries_within_budget(entries, m, depth),
    decreases m - n,
{
    if n < m {
        lemma_entries_budget_prefix(entries, n, (m - 1) as nat, depth);
    }
}

// ---------------------------------------------------------------------------
// Secret-like fields
// ---------------------------------------------------------------------------

/// Longest rendered warning path, in bytes.
pub const MAX_WARNING_FIELD_PATH_LENGTH: usize = 1024;

/// An ASCII letter or digit.
pub open spec fn is_ascii_alnum(c: char) -> bool {
    ('a' <= c && c <= 'z') || ('A' <= c && c <= 'Z') || ('0' <= c && c <= '9')
}

/// A key that a canonical path may name: non-empty, ASCII letters, digits,
/// `_` and `-` only.
pub open spec fn path_key(key: Seq<char>) -> bool {
    key.len() > 0 && forall|i: int|
        0 <= i < key.len() ==> is_ascii_alnum(#[trigger] key[i]) || key[i] == '_' || key[i] == '-'
}

/// A canonical field path under construction: the rendered text, and
/// whether it can still be extended (it cannot once a key could not be
/// named or the length limit was reached).
#[derive(Debug, Clone)]
pub struct CanonicalWarningPath {
    pub rendered: String,
    pub extendable: bool,
}

/// The rendered path of a child key.
pub open spec fn key_step(rendered: Seq<char>, key: Seq<char>) -> Seq<char> {
    if rendered.len() == 0 {
        key
    } else {
        rendered + "."@ + key
    }
}

/// The path model of a child key: unchanged but frozen when the path is
/// frozen, the key cannot be named, or the result passes 1024 bytes.
pub open spec fn child_key_model(path: (Seq<char>, bool), key: Seq<char>) -> (Seq<char>, bool) {
    if !path.1 || !path_key(key) {
        (path.0, false)
    } else if utf8_len(key_step(path.0, key)) > MAX_WARNING_FIELD_PATH_LENGTH {
        (path.0, false)
    } else {
        (key_step(path.0, key), true)
    }
}

/// The path model of an array element.
pub open spec fn child_index_model(path: (Seq<char>, bool), index: nat) -> (Seq<char>, bool) {
    let next = path.0 + "["@ + nat_decimal(index) + "]"@;
    if !path.1 {
        path
    } else if utf8_len(next) > MAX_WARNING_FIELD_PATH_LENGTH {
        (path.0, false)
    } else {
        (next, true)
    }
}

impl CanonicalWarningPath {
    /// The path's model.
    pub open spec fn model(&self) -> (Seq<char>, bool) {
        (self.rendered@, self.extendable)
    }

    /// The empty path of the document root.
    pub fn root() -> (p: Self)
        ensures
            p.model() == (Seq::<char>::empty(), true),
    {
        CanonicalWarningPath { rendered: String::new(), extendable: true }
    }

    /// The path of a member named `key`.
    pub fn child_key(&self, key: &str) -> (p: Self)
        ensures
            p.model() == child_key_model(self.model(), key@),
    {
        let mut nameable = !key.is_empty();
        for c in it: key.chars()
            invariant
                it.seq() == key@,
                nameable == (key@.len() > 0 && forall|i: int|
                    0 <= i < it.index() ==> is_ascii_alnum(#[trigger] key@[i]) || key@[i] == '_'
                        || key@[i] == '-'),
        {
            if !(('a' <= c && c <= 'z') || ('A' <= c && c <= 'Z') || ('0' <= c && c <= '9') || c
                == '_' || c == '-') {
                nameable = false;
            }
        }
        if !self.extendable || !nameable {
            return CanonicalWarningPath { rendered: self.rendered.clone(), extendable: false };
        }
        let rendered = if self.rendered.as_str().is_empty() {
            key.to_owned()
        } else {
            let mut text = self.rendered.clone();
            text.append(".");
            text.append(key);
            text
        };
        if !utf8_len_at_most(rendered.as_str(), MAX_WARNING_FIELD_PATH_LENGTH) {
            return CanonicalWarningPath { rendered: self.rendered.clone(), extendable: false };
        }
        CanonicalWarningPath { rendered, extendable: true }
    }

    /// The path of the array element at `index`.
    pub fn child_index(&self, index: usize) -> (p: Self)
        ensures
            p.model() == child_index_model(self.model(), index as nat),
    {
        if !self.extendable {
            return CanonicalWarningPath { rendered: self.rendered.clone(), extendable: false };
        }
        let mut rendered = self.rendered.clone();
        rendered.append("[");
        rendered.append(decimal_text(index as u64).as_str());
        rendered.append("]");
        if !utf8_len_at_most(rendered.as_str(), MAX_WARNING_FIELD_PATH_LENGTH) {
            return CanonicalWarningPath { rendered: self.rendered.clone(), extendable: false };
        }
        CanonicalWarningPath { rendered, extendable: true }
    }

    /// The path to report, unless it is the root's empty path.
    pub fn warning_path(&self) -> (r: Option<&str>)
        ensures
            r is Some <==> self.rendered@.len() > 0,
            r is Some ==> r->0@ == self.rendered@,
    {
        if self.rendered.as_str().is_empty() {
            None
        } else {
            Some(self.rendered.as_str())
        }
    }
}

/// The lower-case form of an ASCII letter; any other character as it is.
pub open spec fn ascii_lower(c: char) -> char {
    if 'A' <= c && c <= 'Z' {
        (((c as u8) + 32) as u8) as char
    } else {
        c
    }
}

/// A field name reduced to its ASCII letters and digits, lower-cased.
pub open spec fn normalized_field(field: Seq<char>) -> Seq<char>
    decreases field.len(),
{
    if field.len() == 0 {
        Seq::empty()
    } else if is_ascii_alnum(field.last()) {
        normalized_field(field.drop_last()).push(ascii_lower(field.last()))
    } else {
        normalized_field(field.drop_last())
    }
}

/// Whether `needle` occurs in `hay`.
pub open spec fn holds_text(hay: Seq<char>, needle: Seq<char>) -> bool {
    exists|i: int| 0 <= i && i + needle.len() <= hay.len() && #[trigger] hay.subrange(i, i + needle.len()) == needle
}

/// A credential-like field name: its normalized form holds `token`,
/// `secret`, `password`, `apikey` or `credential`.
pub open spec fn credential_like(field: Seq<char>) -> bool {
    let n = normalized_field(field);
    holds_text(n, "token"@) || holds_text(n, "secret"@) || holds_text(n, "password"@) || holds_text(
        n,
        "apikey"@,
    ) || holds_text(n, "credential"@)
}

/// Normalizing a joined name normalizes each part.
proof fn lemma_normalized_concat(x: Seq<char>, y: Seq<char>)
    ensures
        normalized_field(x + y) == normalized_field(x) + normalized_field(y),
    decreases y.len(),
{
    if y.len() == 0 {
        assert(x + y =~= x);
        assert(normalized_field(x) + normalized_field(y) =~= normalized_field(x));
    } else {
        assert((x + y).drop_last() =~= x + y.drop_last());
        assert((x + y).last() == y.last());
        lemma_normalized_concat(x, y.drop_last());
        if is_ascii_alnum(y.last()) {
            assert(normalized_field(x) + normalized_field(y) =~= (normalized_field(x) + normalized_field(
                y.drop_last(),
            )).push(ascii_lower(y.last())));
        }
    }
}

/// A name of lower-case ASCII letters is its own normalized form.
proof fn lemma_normalized_lower(m: Seq<char>)
    requires
        forall|k: int| 0 <= k < m.len() ==> 'a' <= #[trigger] m[k] && m[k] <= 'z',
    ensures
        normalized_field(m) == m,
    decreases m.len(),
{
    if m.len() > 0 {
        assert(m.last() == m[m.len() - 1]);
        lemma_normalized_lower(m.drop_last());
        assert(m.drop_last().push(m.last()) =~= m);
    }
}

/// A field name is credential-like when it holds one of the markers
/// `token`, `secret`, `password`, `apikey` or `credential` anywhere, with
/// anything before and after it (so `db_credential`, `credentials` and
/// `MyApiKey` names all count).
pub proof fn law_credential_markers(before: Seq<char>, marker: Seq<char>, after: Seq<char>)
    requires
        marker == "token"@ || marker == "secret"@ || marker == "password"@ || marker == "apikey"@ || marker
            == "credential"@,
    ensures
        credential_like(before + marker + after),
{
    reveal_strlit("token");
    reveal_strlit("secret");
    reveal_strlit("password");
    reveal_strlit("apikey");
    reveal_strlit("credential");
    assert forall|k: int| 0 <= k < marker.len() implies 'a' <= #[trigger] marker[k] && marker[k] <= 'z' by {}
    lemma_normalized_lower(marker);
    lemma_normalized_concat(before + marker, after);
    lemma_normalized_concat(before, marker);
    let n = normalized_field(before + marker + after);
    let p = normalized_field(before).len() as int;
    assert(n == normalized_field(before) + marker + normalized_field(after));
    assert(n.subrange(p, p + marker.len()) =~= marker);
}

/// Only the five markers make a name credential-like: a name whose
/// normalized form holds none of them is not.
pub proof fn law_credential_only_markers(field: Seq<char>)
    ensures
        credential_like(field) ==> exists|marker: Seq<char>|
            (marker == "token"@ || marker == "secret"@ || marker == "password"@ || marker == "apikey"@
                || marker == "credential"@) && #[trigger] holds_text(normalized_field(field), marker),
{
}

/// Whether `needle` occurs in `hay`.
fn contains_chars(hay: &Vec<char>, needle: &Vec<char>) -> (r: bool)
    ensures
        r == holds_text(hay@, needle@),
{
    if needle.len() > hay.len() {
        proof {
            assert forall|i: int| 0 <= i && i + needle@.len() <= hay@.len() implies !(#[trigger] hay@.subrange(i, i + needle@.len()) == needle@) by {}
        }
        return false;
    }
    if needle.len() == 0 {
        proof {
            assert(hay@.subrange(0, 0 + needle@.len() as int) =~= needle@);
        }
        return true;
    }
    let last = hay.len() - needle.len();
    let mut start: usize = 0;
    while start <= last
        invariant
            last == hay@.len() - needle@.len(),
            needle@.len() >= 1,
            needle@.len() <= hay@.len(),
            hay@.len() == hay.len(),
            hay.len() <= usize::MAX,
            last < hay@.len(),
            0 <= start <= last + 1,
            forall|i: int| 0 <= i < start ==> #[trigger] hay@.subrange(i, i + needle@.len()) != needle@,
        decreases last + 1 - start,
    {
        let mut k: usize = 0;
        while k < needle.len() && hay[start + k] == needle[k]
            invariant
                0 <= k <= needle@.len(),
                start <= last,
                last == hay@.len() - needle@.len(),
                needle@.len() <= hay@.len(),
                start + needle@.len() <= hay@.len(),
                hay@.len() == hay.len(),
                forall|j: int| 0 <= j < k ==> hay@[start + j] == needle@[j],
            decreases needle.len() - k,
        {
            k = k + 1;
        }
        if k == needle.len() {
            proof {
                assert(hay@.subrange(start as int, start + needle@.len()) =~= needle@);
            }
            return true;
        }
        proof {
            assert(hay@.subrange(start as int, start + needle@.len())[k as int] != needle@[k as int]);
        }
        start = start + 1;
    }
    false
}

/// Whether a field name looks like it names a credential.
pub fn credential_field_name(field: &str) -> (r: bool)
    ensures
        r == credential_like(field@),
{
    let mut normalized: Vec<char> = Vec::new();
    for c in it: field.chars()
        invariant
            it.seq() == field@,
            normalized@ == normalized_field(field@.take(it.index() as int)),
    {
        proof {
            assert(field@.take(it.index() + 1).drop_last() =~= field@.take(it.index() as int));
            assert(field@.take(it.index() + 1).last() == c);
        }
        if 'A' <= c && c <= 'Z' {
            let code: u8 = (c as u8) + 32;
            let lower = code as char;
            normalized.push(lower);
        } else if ('a' <= c && c <= 'z') || ('0' <= c && c <= '9') {
            normalized.push(c);
        }
    }
    proof {
        assert(field@.take(field@.len() as int) =~= field@);
    }
    contains_chars(&normalized, &text_chars("token")) || contains_chars(&normalized, &text_chars("secret"))
        || contains_chars(&normalized, &text_chars("password")) || contains_chars(
        &normalized,
        &text_chars("apikey"),
    ) || contains_chars(&normalized, &text_chars("credential"))
}

/// The number of character classes present: lower-case ASCII, upper-case
/// ASCII, ASCII digits, and everything else.
pub open spec fn class_count(s: Seq<char>) -> int {
    (if exists|i: int| 0 <= i < s.len() && 'a' <= #[trigger] s[i] && s[i] <= 'z' { 1int } else { 0 })
        + (if exists|i: int| 0 <= i < s.len() && 'A' <= #[trigger] s[i] && s[i] <= 'Z' { 1int } else { 0 })
        + (if exists|i: int| 0 <= i < s.len() && '0' <= #[trigger] s[i] && s[i] <= '9' { 1int } else { 0 })
        + (if exists|i: int| 0 <= i < s.len() && !is_ascii_alnum(#[trigger] s[i]) { 1int } else { 0 })
}

/// A value that resembles a plaintext secret: at least 20 bytes, at least
/// three character classes and at least 12 distinct characters.
pub open spec fn secret_like(s: Seq<char>) -> bool {
    utf8_len(s) >= 20 && class_count(s) >= 3 && s.to_set().len() >= 12
}

/// A value resembles a plaintext secret only with at least 20 bytes and 12
/// distinct characters, drawn from at least three of lower-case letters,
/// upper-case letters, digits and other characters; and every value of at
/// least 20 bytes with 12 distinct characters that mixes lower-case
/// letters, upper-case letters and digits does.
pub proof fn law_secret_heuristic(s: Seq<char>)
    ensures
        secret_like(s) ==> utf8_len(s) >= 20 && s.to_set().len() >= 12,
        secret_like(s) ==> {
            let lower = exists|i: int| 0 <= i < s.len() && 'a' <= #[trigger] s[i] && s[i] <= 'z';
            let upper = exists|i: int| 0 <= i < s.len() && 'A' <= #[trigger] s[i] && s[i] <= 'Z';
            let digit = exists|i: int| 0 <= i < s.len() && '0' <= #[trigger] s[i] && s[i] <= '9';
            let other = exists|i: int| 0 <= i < s.len() && !is_ascii_alnum(#[trigger] s[i]);
            (lower && upper && digit) || (lower && upper && other) || (lower && digit && other) || (upper
                && digit && other)
        },
        (utf8_len(s) >= 20 && s.to_set().len() >= 12 && (exists|i: int|
            0 <= i < s.len() && 'a' <= #[trigger] s[i] && s[i] <= 'z') && (exists|i: int|
            0 <= i < s.len() && 'A' <= #[trigger] s[i] && s[i] <= 'Z') && (exists|i: int|
            0 <= i < s.len() && '0' <= #[trigger] s[i] && s[i] <= '9')) ==> secret_like(s),
{
}

/// Whether a value resembles a plaintext secret.
pub fn resembles_plaintext_secret(value: &str) -> (r: bool)
    ensures
        r == secret_like(value@),
{
    if utf8_len_at_most(value, 19) {
        return false;
    }
    let mut lower = false;
    let mut upper = false;
    let mut digit = false;
    let mut other = false;
    let mut distinct: Vec<char> = Vec::new();
    proof {
        assert(value@.take(0).to_set() =~= Set::<char>::empty());
        assert(distinct@.to_set() =~= Set::<char>::empty());
    }
    for c in it: value.chars()
        invariant
            it.seq() == value@,
            0 <= it.index() <= value@.len(),
            lower == (exists|i: int| 0 <= i < it.index() && 'a' <= #[trigger] value@[i] && value@[i] <= 'z'),
            upper == (exists|i: int| 0 <= i < it.index() && 'A' <= #[trigger] value@[i] && value@[i] <= 'Z'),
            digit == (exists|i: int| 0 <= i < it.index() && '0' <= #[trigger] value@[i] && value@[i] <= '9'),
            other == (exists|i: int| 0 <= i < it.index() && !is_ascii_alnum(#[trigger] value@[i])),
            distinct@.no_duplicates(),
            distinct@.len() <= 12,
            distinct@.to_set().subset_of(value@.take(it.index() as int).to_set()),
            distinct@.len() < 12 ==> distinct@.to_set() == value@.take(it.index() as int).to_set(),
    {
        let ghost k = it.index();
        proof {
            assert(value@.take(k + 1) =~= value@.take(k as int).push(c));
            value@.take(k as int).lemma_push_to_set_commute(c);
        }
        if 'a' <= c && c <= 'z' {
            lower = true;
        } else if 'A' <= c && c <= 'Z' {
            upper = true;
        } else if '0' <= c && c <= '9' {
            digit = true;
        } else {
            other = true;
        }
        if distinct.len() < 12 {
            let mut present = false;
            let mut j: usize = 0;
            while j < distinct.len()
                invariant
                    0 <= j <= distinct@.len(),
                    present == (exists|m: int| 0 <= m < j && distinct@[m] == c),
                decreases distinct.len() - j,
            {
                if distinct[j] == c {
                    present = true;
                }
                j = j + 1;
            }
            if !present {
                let ghost before = distinct@;
                distinct.push(c);
                proof {
                    before.lemma_push_to_set_commute(c);
                    assert(distinct@ == before.push(c));
                    assert forall|a: int, b: int| 0 <= a < b < distinct@.len() implies distinct@[a] != distinct@[b] by {
                        if b == before.len() {
                            assert(distinct@[a] == before[a]);
                        }
                    }
                }
            } else {
                proof {
                    assert(distinct@.to_set().contains(c));
                }
            }
        }
    }
    proof {
        assert(value@.take(value@.len() as int) =~= value@);
        vstd::seq_lib::seq_to_set_is_finite(value@);
        distinct@.unique_seq_to_set();
        if distinct@.len() >= 12 {
            vstd::set_lib::lemma_len_subset(distinct@.to_set(), value@.to_set());
        }
    }
    let classes = (if lower { 1u8 } else { 0 }) + (if upper { 1u8 } else { 0 }) + (if digit { 1u8 } else { 0 })
        + (if other { 1u8 } else { 0 });
    classes >= 3 && distinct.len() >= 12
}

/// The rendered paths of the secret-like string fields below a value held
/// at `path`: members whose name looks like a credential and whose string
/// value resembles a secret, reported by their canonical path when it is
/// not the root's.
pub open spec fn suspicious_paths(v: JsonValue, path: (Seq<char>, bool)) -> Set<Seq<char>>
    decreases v, 0nat,
{
    match v {
        JsonValue::Object(members) => members_paths(members@, members@.len(), path),
        JsonValue::Array(items) => items_paths(items@, items@.len(), path),
        _ => Set::empty(),
    }
}

/// Whether a member is reported itself.
pub open spec fn reported_member(key: Seq<char>, child: JsonValue, child_path: (Seq<char>, bool)) -> bool {
    credential_like(key) && (match child {
        JsonValue::String(s) => secret_like(s@),
        _ => false,
    }) && child_path.0.len() > 0
}

/// The paths found in the first `n` members of an object at `path`.
pub open spec fn members_paths(members: Seq<(String, JsonValue)>, n: nat, path: (Seq<char>, bool)) -> Set<Seq<char>>
    decreases members, n,
{
    if n == 0 || n > members.len() {
        Set::empty()
    } else {
        let key = members[n - 1].0@;
        let child = members[n - 1].1;
        let child_path = child_key_model(path, key);
        let own = if reported_member(key, child, child_path) {
            set![child_path.0]
        } else {
            Set::empty()
        };
        members_paths(members, (n - 1) as nat, path).union(own).union(
            suspicious_paths(child, child_path),
        )
    }
}

/// A member whose name is credential-like and whose value is a
/// secret-like string is reported at its own path, among the first `n`
/// members that hold it.
proof fn lemma_secret_member_reported(members: Seq<(String, JsonValue)>, n: nat, path: (Seq<char>, bool), k: int)
    requires
        0 <= k < n <= members.len(),
        credential_like(members[k].0@),
        members[k].1 is String,
        secret_like(members[k].1->String_0@),
        child_key_model(path, members[k].0@).0.len() > 0,
    ensures
        members_paths(members, n, path).contains(child_key_model(path, members[k].0@).0),
    decreases n,
{
    if k < n - 1 {
        lemma_secret_member_reported(members, (n - 1) as nat, path, k);
    }
}

/// Lint reports every member of an object whose name is credential-like
/// (holds `token`, `secret`, `password`, `apikey` or `credential`) and
/// whose value is a string that resembles a plaintext secret, at the
/// member's path, whatever other members the object holds.
pub proof fn law_secret_member_reported(v: JsonValue, path: (Seq<char>, bool), k: int)
    requires
        v is Object,
        0 <= k < v->Object_0@.len(),
        credential_like(v->Object_0@[k].0@),
        v->Object_0@[k].1 is String,
        secret_like(v->Object_0@[k].1->String_0@),
        child_key_model(path, v->Object_0@[k].0@).0.len() > 0,
    ensures
        suspicious_paths(v, path).contains(child_key_model(path, v->Object_0@[k].0@).0),
{
    lemma_secret_member_reported(v->Object_0@, v->Object_0@.len(), path, k);
}

/// The paths found in the first `n` elements of an array at `path`.
pub open spec fn items_paths(items: Seq<JsonValue>, n: nat, path: (Seq<char>, bool)) -> Set<Seq<char>>
    decreases items, n,
{
    if n == 0 || n > items.len() {
        Set::empty()
    } else {
        items_paths(items, (n - 1) as nat, path).union(
            suspicious_paths(items[n - 1], child_index_model(path, (n - 1) as nat)),
        )
    }
}

/// A path state whose text can be reported: at most 1024 bytes and no
/// control character.
pub open spec fn path_state_ok(p: (Seq<char>, bool)) -> bool {
    utf8_len(p.0) <= MAX_WARNING_FIELD_PATH_LENGTH && !has_control(p.0)
}

/// A canonical field path that a warning may carry: non-empty, at most
/// 1024 bytes, without control characters.
pub open spec fn reportable_path(s: Seq<char>) -> bool {
    s.len() > 0 && utf8_len(s) <= MAX_WARNING_FIELD_PATH_LENGTH && !has_control(s)
}

/// Joining texts without control characters gives one without them.
proof fn lemma_no_control_concat(a: Seq<char>, b: Seq<char>)
    requires
        !has_control(a),
        !has_control(b),
    ensures
        !has_control(a + b),
{
    assert forall|i: int| 0 <= i < (a + b).len() implies !is_control_char(#[trigger] (a + b)[i]) by {
        if i < a.len() {
            assert((a + b)[i] == a[i]);
        } else {
            assert((a + b)[i] == b[i - a.len()]);
        }
    }
}

/// A decimal digit is no control character.
proof fn lemma_digit_not_control(k: int)
    requires
        0 <= k < 10,
    ensures
        !has_control(seq![crate::json::decimal_digit(k)]),
{
    let d = crate::json::decimal_digit(k);
    assert(d == '0' || d == '1' || d == '2' || d == '3' || d == '4' || d == '5' || d == '6' || d == '7'
        || d == '8' || d == '9');
    assert(seq![d][0] == d);
}

/// A decimal spelling holds no control character.
proof fn lemma_nat_decimal_no_control(n: nat)
    ensures
        !has_control(nat_decimal(n)),
    decreases n,
{
    if n < 10 {
        lemma_digit_not_control(n as int);
    } else {
        lemma_nat_decimal_no_control(n / 10);
        lemma_digit_not_control((n % 10) as int);
        lemma_no_control_concat(nat_decimal(n / 10), seq![crate::json::decimal_digit((n % 10) as int)]);
    }
}

/// A nameable key holds no control character.
proof fn lemma_path_key_no_control(key: Seq<char>)
    requires
        path_key(key),
    ensures
        !has_control(key),
{
    assert forall|i: int| 0 <= i < key.len() implies !is_control_char(#[trigger] key[i]) by {
        assert(is_ascii_alnum(key[i]) || key[i] == '_' || key[i] == '-');
    }
}

/// A child key keeps a path reportable.
proof fn lemma_child_key_ok(p: (Seq<char>, bool), key: Seq<char>)
    requires
        path_state_ok(p),
    ensures
        path_state_ok(child_key_model(p, key)),
{
    if p.1 && path_key(key) && utf8_len(key_step(p.0, key)) <= MAX_WARNING_FIELD_PATH_LENGTH {
        lemma_path_key_no_control(key);
        if p.0.len() > 0 {
            reveal_strlit(".");
            assert(!has_control("."@)) by {
                assert("."@[0] == '.');
            }
            lemma_no_control_concat(p.0, "."@);
            lemma_no_control_concat(p.0 + "."@, key);
        }
    }
}

/// An element index keeps a path reportable.
proof fn lemma_child_index_ok(p: (Seq<char>, bool), index: nat)
    requires
        path_state_ok(p),
    ensures
        path_state_ok(child_index_model(p, index)),
{
    let next = p.0 + "["@ + nat_decimal(index) + "]"@;
    if p.1 && utf8_len(next) <= MAX_WARNING_FIELD_PATH_LENGTH {
        reveal_strlit("[");
        reveal_strlit("]");
        assert(!has_control("["@)) by {
            assert("["@[0] == '[');
        }
        assert(!has_control("]"@)) by {
            assert("]"@[0] == ']');
        }
        lemma_nat_decimal_no_control(index);
        lemma_no_control_concat(p.0, "["@);
        lemma_no_control_concat(p.0 + "["@, nat_decimal(index));
        lemma_no_control_concat(p.0 + "["@ + nat_decimal(index), "]"@);
    }
}

/// Every path reported below a reportable path state can be carried by a
/// warning.
pub proof fn lemma_suspicious_paths_reportable(v: JsonValue, p: (Seq<char>, bool))
    requires
        path_state_ok(p),
    ensures
        forall|x: Seq<char>| #[trigger] suspicious_paths(v, p).contains(x) ==> reportable_path(x),
    decreases v, 0nat,
{
    match v {
        JsonValue::Object(members) => {
            lemma_members_paths_reportable(members@, members@.len(), p);
            assert(suspicious_paths(v, p) == members_paths(members@, members@.len(), p));
        },
        JsonValue::Array(items) => {
            lemma_items_paths_reportable(items@, items@.len(), p);
            assert(suspicious_paths(v, p) == items_paths(items@, items@.len(), p));
        },
        _ => {
            assert(suspicious_paths(v, p) == Set::<Seq<char>>::empty());
        },
    }
}

/// The member part of `lemma_suspicious_paths_reportable`.
proof fn lemma_members_paths_reportable(members: Seq<(String, JsonValue)>, n: nat, p: (Seq<char>, bool))
    requires
        path_state_ok(p),
    ensures
        forall|x: Seq<char>| #[trigger] members_paths(members, n, p).contains(x) ==> reportable_path(x),
    decreases members, n,
{
    if n == 0 || n > members.len() {
        assert(members_paths(members, n, p) == Set::<Seq<char>>::empty());
    } else {
        let key = members[n - 1].0@;
        let child = members[n - 1].1;
        let child_path = child_key_model(p, key);
        lemma_members_paths_reportable(members, (n - 1) as nat, p);
        lemma_child_key_ok(p, key);
        lemma_suspicious_paths_reportable(child, child_path);
        let own = if reported_member(key, child, child_path) {
            set![child_path.0]
        } else {
            Set::empty()
        };
        assert(members_paths(members, n, p) == members_paths(members, (n - 1) as nat, p).union(own).union(
            suspicious_paths(child, child_path),
        ));
        assert forall|x: Seq<char>| #[trigger] members_paths(members, n, p).contains(x) implies reportable_path(x) by {
            if members_paths(members, (n - 1) as nat, p).contains(x) {
            } else if suspicious_paths(child, child_path).contains(x) {
            } else {
                assert(own.contains(x));
            }
        }
    }
}

/// The element part of `lemma_suspicious_paths_reportable`.
proof fn lemma_items_paths_reportable(items: Seq<JsonValue>, n: nat, p: (Seq<char>, bool))
    requires
        path_state_ok(p),
    ensures
        forall|x: Seq<char>| #[trigger] items_paths(items, n, p).contains(x) ==> reportable_path(x),
    decreases items, n,
{
    if n == 0 || n > items.len() {
        assert(items_paths(items, n, p) == Set::<Seq<char>>::empty());
    } else {
        lemma_items_paths_reportable(items, (n - 1) as nat, p);
        lemma_child_index_ok(p, (n - 1) as nat);
        lemma_suspicious_paths_reportable(items[n - 1], child_index_model(p, (n - 1) as nat));
        assert(items_paths(items, n, p) == items_paths(items, (n - 1) as nat, p).union(
            suspicious_paths(items[n - 1], child_index_model(p, (n - 1) as nat)),
        ));
        assert forall|x: Seq<char>| #[trigger] items_paths(items, n, p).contains(x) implies reportable_path(x) by {
            if items_paths(items, (n - 1) as nat, p).contains(x) {
            } else {
                assert(suspicious_paths(items[n - 1], child_index_model(p, (n - 1) as nat)).contains(x));
            }
        }
    }
}

/// Adds the paths of the secret-like fields below `value` to a sorted list.
pub fn collect_suspicious_paths(value: &JsonValue, path: &CanonicalWarningPath, output: &mut Vec<String>)
    requires
        sorted_texts(texts_of(old(output)@)),
    ensures
        sorted_texts(texts_of(final(output)@)),
        texts_of(final(output)@).to_set() == texts_of(old(output)@).to_set().union(
            suspicious_paths(*value, path.model()),
        ),
    decreases *value,
{
    match value {
        JsonValue::Object(members) => {
            let ghost start = texts_of(output@).to_set();
            let mut index: usize = 0;
            proof {
                assert(start.union(members_paths(members@, 0, path.model())) =~= start);
            }
            while index < members.len()
                invariant
                    0 <= index <= members@.len(),
                    *value == JsonValue::Object(*members),
                    sorted_texts(texts_of(output@)),
                    texts_of(output@).to_set() == start.union(members_paths(members@, index as nat, path.model())),
                decreases members.len() - index,
            {
                proof {
                    assert(suspicious_paths(*value, path.model()) == members_paths(members@, members@.len(), path.model()));
                    assert(decreases_to!(*value => *members));
                    assert(decreases_to!(*members => members[index as int]));
                }
                let key = members[index].0.as_str();
                let child = &members[index].1;
                let child_path = path.child_key(key);
                let ghost before = texts_of(output@).to_set();
                let string_secret = match child {
                    JsonValue::String(s) => resembles_plaintext_secret(s.as_str()),
                    _ => false,
                };
                if credential_field_name(key) && string_secret {
                    match child_path.warning_path() {
                        Some(p) => {
                            insert_sorted(output, p.to_owned());
                        },
                        None => {},
                    }
                }
                let ghost middle = texts_of(output@).to_set();
                collect_suspicious_paths(child, &child_path, output);
                proof {
                    let own = if reported_member(key@, *child, child_path.model()) {
                        set![child_path.model().0]
                    } else {
                        Set::empty()
                    };
                    assert(middle =~= before.union(own));
                    assert(members_paths(members@, (index + 1) as nat, path.model()) == members_paths(
                        members@,
                        index as nat,
                        path.model(),
                    ).union(own).union(suspicious_paths(*child, child_path.model())));
                    assert(texts_of(output@).to_set() =~= start.union(
                        members_paths(members@, (index + 1) as nat, path.model()),
                    ));
                }
                index = index + 1;
            }
        },
        JsonValue::Array(items) => {
            let ghost start = texts_of(output@).to_set();
            let mut index: usize = 0;
            proof {
                assert(start.union(items_paths(items@, 0, path.model())) =~= start);
            }
            while index < items.len()
                invariant
                    0 <= index <= items@.len(),
                    *value == JsonValue::Array(*items),
                    sorted_texts(texts_of(output@)),
                    texts_of(output@).to_set() == start.union(items_paths(items@, index as nat, path.model())),
                decreases items.len() - index,
            {
                proof {
                    assert(suspicious_paths(*value, path.model()) == items_paths(items@, items@.len(), path.model()));
                    assert(decreases_to!(*value => *items));
                    assert(decreases_to!(*items => items[index as int]));
                }
                let child_path = path.child_index(index);
                collect_suspicious_paths(&items[index], &child_path, output);
                proof {
                    assert(texts_of(output@).to_set() =~= start.union(
                        items_paths(items@, (index + 1) as nat, path.model()),
                    ));
                }
                index = index + 1;
            }
        },
        _ => {
            proof {
                assert(texts_of(output@).to_set().union(Set::empty()) =~= texts_of(output@).to_set());
            }
        },
    }
}

// ---------------------------------------------------------------------------
// Parsed declarations
// ---------------------------------------------------------------------------

/// The string at `value.outer.inner`, if there is one.
pub open spec fn nested_text(value: JsonValue, outer: Seq<char>, inner: Seq<char>) -> Option<Seq<char>> {
    match value {
        JsonValue::Object(members) => match member_value(members@, outer) {
            Some(JsonValue::Object(fields)) => match member_value(fields@, inner) {
                Some(JsonValue::String(s)) => Some(s@),
                _ => None,
            },
            _ => None,
        },
        _ => None,
    }
}

/// The string at `value.outer.inner`, if there is one.
pub fn nested_str<'a>(value: &'a JsonValue, outer: &str, inner: &str) -> (r: Option<&'a str>)
    ensures
        match nested_text(*value, outer@, inner@) {
            Some(t) => r is Some && r->0@ == t,
            None => r is None,
        },
{
    match value.get(outer) {
        Some(JsonValue::Object(fields)) => match crate::json_value::find_member(fields, inner) {
            Some(JsonValue::String(s)) => Some(s.as_str()),
            _ => None,
        },
        _ => None,
    }
}

/// A parsed, checked, schema-valid declaration: its kind, its JSON value and
/// the file it came from.
#[derive(Debug)]
pub struct ParsedDeclaration {
    pub kind: EntityKind,
    pub value: JsonValue,
    pub source_path: String,
}

/// The schema spelling of a kind, as `extract_entity_kind` reads it.
pub open spec fn kind_named(text: Seq<char>) -> Option<EntityKind> {
    if text == "Assistant"@ {
        Some(EntityKind::Assistant)
    } else if text == "Workflow"@ {
        Some(EntityKind::Workflow)
    } else if text == "Datasource"@ {
        Some(EntityKind::Datasource)
    } else if text == "Skill"@ {
        Some(EntityKind::Skill)
    } else {
        None
    }
}

/// The `kind` string of a declaration value, if there is one.
pub open spec fn kind_text_of(value: JsonValue) -> Option<Seq<char>> {
    match value {
        JsonValue::Object(members) => match member_value(members@, "kind"@) {
            Some(JsonValue::String(s)) => Some(s@),
            _ => None,
        },
        _ => None,
    }
}

/// Reads the entity kind from the declaration's `kind` field; a missing or
/// unknown kind is a schema error.
pub fn extract_entity_kind(value: &JsonValue, file: &str) -> (r: Result<EntityKind, AppError>)
    ensures
        match kind_text_of(*value) {
            Some(t) => match kind_named(t) {
                Some(k) => r == Ok::<EntityKind, AppError>(k),
                None => r is Err && r->Err_0 is Schema,
            },
            None => r is Err && r->Err_0 is Schema,
        },
{
    let text = match value.get("kind") {
        Some(JsonValue::String(s)) => s.as_str(),
        _ => {
            return Err(AppError::Schema(file_message_text(file, "'kind' field is missing or not a string")));
        },
    };
    if same_text(text, "Assistant") {
        Ok(EntityKind::Assistant)
    } else if same_text(text, "Workflow") {
        Ok(EntityKind::Workflow)
    } else if same_text(text, "Datasource") {
        Ok(EntityKind::Datasource)
    } else if same_text(text, "Skill") {
        Ok(EntityKind::Skill)
    } else {
        Err(AppError::Schema(file_message_text(file, "unknown kind")))
    }
}

/// The key field of each kind's natural identity.
pub open spec fn key_field(kind: EntityKind) -> Seq<char> {
    match kind {
        EntityKind::Assistant | EntityKind::Workflow => "slug"@,
        EntityKind::Skill => "name"@,
        EntityKind::Datasource => "repo_name"@,
    }
}

/// Whether the identity fields of a declaration are present: the project,
/// the key field and, for a Datasource, `spec.index_type`.
pub open spec fn identity_present(kind: EntityKind, value: JsonValue) -> bool {
    nested_text(value, "metadata"@, "project"@) is Some && nested_text(value, "metadata"@, key_field(kind))
        is Some && (kind == EntityKind::Datasource ==> nested_text(value, "spec"@, "index_type"@) is Some)
}

/// Whether parsed identity fields are those of the declaration.
pub open spec fn identity_read(kind: EntityKind, value: JsonValue, id: ParsedNaturalIdentity) -> bool {
    let project = nested_text(value, "metadata"@, "project"@);
    let key = nested_text(value, "metadata"@, key_field(kind));
    match id {
        ParsedNaturalIdentity::Assistant { project: p, slug } => kind == EntityKind::Assistant
            && project == Some(p@) && key == Some(slug@),
        ParsedNaturalIdentity::Workflow { project: p, slug } => kind == EntityKind::Workflow
            && project == Some(p@) && key == Some(slug@),
        ParsedNaturalIdentity::Skill { project: p, name } => kind == EntityKind::Skill && project
            == Some(p@) && key == Some(name@),
        ParsedNaturalIdentity::Datasource { project: p, repository, index_type } => kind
            == EntityKind::Datasource && project == Some(p@) && key == Some(repository@)
            && nested_text(value, "spec"@, "index_type"@) == Some(index_type@),
    }
}

/// `required field <name> is absent`.
fn absent_field(name: &str) -> (e: AppError)
    ensures
        e is Schema,
{
    let mut message = String::from_str("required field ");
    message.append(name);
    message.append(" is absent");
    AppError::Schema(message)
}

impl ParsedDeclaration {
    /// The declaration's kind.
    pub fn kind(&self) -> (k: EntityKind)
        ensures
            k == self.kind,
    {
        self.kind
    }

    /// The file the declaration came from (for diagnostics only).
    pub fn source_path(&self) -> (s: &str)
        ensures
            s@ == self.source_path@,
    {
        self.source_path.as_str()
    }

    /// The natural identity fields; a missing one is a schema error.
    pub fn natural_identity(&self) -> (r: Result<ParsedNaturalIdentity, AppError>)
        ensures
            r is Ok <==> identity_present(self.kind, self.value),
            r is Ok ==> identity_read(self.kind, self.value, r->Ok_0),
            r is Err ==> r->Err_0 is Schema,
    {
        let project = match nested_str(&self.value, "metadata", "project") {
            Some(p) => p.to_owned(),
            None => {
                return Err(absent_field("/metadata/project"));
            },
        };
        let key_name = match self.kind {
            EntityKind::Assistant | EntityKind::Workflow => "slug",
            EntityKind::Skill => "name",
            EntityKind::Datasource => "repo_name",
        };
        let key = match nested_str(&self.value, "metadata", key_name) {
            Some(k) => k.to_owned(),
            None => {
                return Err(absent_field("/metadata/<key>"));
            },
        };
        match self.kind {
            EntityKind::Assistant => Ok(ParsedNaturalIdentity::Assistant { project, slug: key }),
            EntityKind::Workflow => Ok(ParsedNaturalIdentity::Workflow { project, slug: key }),
            EntityKind::Skill => Ok(ParsedNaturalIdentity::Skill { project, name: key }),
            EntityKind::Datasource => {
                let index_type = match nested_str(&self.value, "spec", "index_type") {
                    Some(t) => t.to_owned(),
                    None => {
                        return Err(absent_field("/spec/index_type"));
                    },
                };
                Ok(ParsedNaturalIdentity::Datasource { project, repository: key, index_type })
            },
        }
    }

    /// The authored display name of a Workflow (`spec.name`).
    pub fn workflow_name(&self) -> (r: Option<&str>)
        ensures
            self.kind != EntityKind::Workflow ==> r is None,
            self.kind == EntityKind::Workflow ==> match nested_text(self.value, "spec"@, "name"@) {
                Some(t) => r is Some && r->0@ == t,
                None => r is None,
            },
    {
        match self.kind {
            EntityKind::Workflow => nested_str(&self.value, "spec", "name"),
            _ => None,
        }
    }

    /// Whether the declaration is a Workflow in the deprecated autonomous mode.
    pub open spec fn workflow_is_autonomous_spec(&self) -> bool {
        self.kind == EntityKind::Workflow && nested_text(self.value, "spec"@, "mode"@) == Some(
            "Autonomous"@,
        )
    }

    /// Whether the declaration is a Workflow in the deprecated autonomous mode.
    pub fn workflow_is_autonomous(&self) -> (r: bool)
        ensures
            r == self.workflow_is_autonomous_spec(),
    {
        match self.kind {
            EntityKind::Workflow => match nested_str(&self.value, "spec", "mode") {
                Some(mode) => same_text(mode, "Autonomous"),
                None => false,
            },
            _ => false,
        }
    }

    /// The canonical paths of secret-like authored string fields, sorted and
    /// without repetition.
    pub fn suspicious_secret_paths(&self) -> (r: Vec<String>)
        ensures
            sorted_texts(texts_of(r@)),
            texts_of(r@).to_set() == suspicious_paths(self.value, (Seq::<char>::empty(), true)),
    {
        let mut paths: Vec<String> = Vec::new();
        let root = CanonicalWarningPath::root();
        proof {
            assert(texts_of(paths@) =~= Seq::<Seq<char>>::empty());
            assert(texts_of(paths@).to_set() =~= Set::<Seq<char>>::empty());
        }
        collect_suspicious_paths(&self.value, &root, &mut paths);
        proof {
            assert(Set::<Seq<char>>::empty().union(suspicious_paths(self.value, root.model()))
                =~= suspicious_paths(self.value, root.model()));
        }
        paths
    }
}

// ---------------------------------------------------------------------------
// Declaration fields read after parsing
// ---------------------------------------------------------------------------

/// The member `field` of the declaration's `spec`.
pub open spec fn spec_field(value: JsonValue, field: Seq<char>) -> Option<JsonValue> {
    match value {
        JsonValue::Object(m) => match member_value(m@, "spec"@) {
            Some(JsonValue::Object(f)) => member_value(f@, field),
            _ => None,
        },
        _ => None,
    }
}

/// The member `field` of the declaration's `spec`.
pub fn spec_member<'a>(value: &'a JsonValue, field: &str) -> (r: Option<&'a JsonValue>)
    ensures
        match spec_field(*value, field@) {
            Some(v) => r is Some && *r->0 == v,
            None => r is None,
        },
{
    match value.get("spec") {
        Some(JsonValue::Object(f)) => find_member(f, field),
        _ => None,
    }
}

/// The texts of the string items of a list, in order (other items skipped).
pub open spec fn string_items(items: Seq<JsonValue>) -> Seq<Seq<char>>
    decreases items.len(),
{
    if items.len() == 0 {
        Seq::empty()
    } else {
        let rest = string_items(items.drop_last());
        match items.last() {
            JsonValue::String(s) => rest.push(s@),
            _ => rest,
        }
    }
}

/// The local files of a file Datasource (`spec.files`), if the declaration
/// is one.
pub open spec fn file_paths_of(kind: EntityKind, value: JsonValue) -> Option<Seq<Seq<char>>> {
    if kind == EntityKind::Datasource && nested_text(value, "spec"@, "index_type"@) == Some("file"@) {
        match spec_field(value, "files"@) {
            Some(JsonValue::Array(a)) => Some(string_items(a@)),
            _ => None,
        }
    } else {
        None
    }
}

/// Members that `contentFrom` expansion keeps: all but `contentFrom` and
/// `content`, in order.
pub open spec fn kept_members(m: Seq<(String, JsonValue)>) -> Seq<(String, JsonValue)>
    decreases m.len(),
{
    if m.len() == 0 {
        Seq::empty()
    } else {
        let rest = kept_members(m.drop_last());
        if m.last().0@ == "contentFrom"@ || m.last().0@ == "content"@ {
            rest
        } else {
            rest.push(m.last())
        }
    }
}

/// Whether `after` is `before` with `spec.contentFrom` replaced by
/// `spec.content` holding `content`; a value without a `spec` object is
/// left as it is.
pub open spec fn content_expanded(before: JsonValue, after: JsonValue, content: Seq<char>) -> bool {
    match before {
        JsonValue::Object(m) => match member_index(m@, "spec"@) {
            Some(i) => match m@[i].1 {
                JsonValue::Object(f) => {
                    &&& after is Object
                    &&& after->Object_0@.len() == m@.len()
                    &&& forall|j: int| 0 <= j < m@.len() && j != i ==> after->Object_0@[j] == m@[j]
                    &&& after->Object_0@[i].0 == m@[i].0
                    &&& after->Object_0@[i].1 is Object
                    &&& ({
                        let g = after->Object_0@[i].1->Object_0@;
                        &&& g.len() == kept_members(f@).len() + 1
                        &&& g.take(g.len() - 1) == kept_members(f@)
                        &&& g.last().0@ == "content"@
                        &&& g.last().1 is String
                        &&& g.last().1->String_0@ == content
                    })
                },
                _ => after == before,
            },
            None => after == before,
        },
        _ => after == before,
    }
}

/// The text of bytes that are valid UTF-8 (`String::from_utf8`): some
/// exactly when they are valid, holding the characters they encode.
#[verifier::external_body]
fn utf8_text(bytes: Vec<u8>) -> (r: Option<String>)
    ensures
        r is Some <==> valid_utf8(bytes@),
        r is Some ==> r->0@ == decode_utf8(bytes@),
{
    String::from_utf8(bytes).ok()
}

/// The spec members kept by `contentFrom` expansion, then `content`.
fn expanded_spec_members(fields: Vec<(String, JsonValue)>, content: String) -> (r: Vec<(String, JsonValue)>)
    ensures
        r@.len() == kept_members(fields@).len() + 1,
        r@.take(r@.len() - 1) == kept_members(fields@),
        r@.last().0@ == "content"@,
        r@.last().1 == JsonValue::String(content),
{
    let ghost all = fields@;
    let mut out: Vec<(String, JsonValue)> = Vec::new();
    proof {
        assert(all.take(0) =~= Seq::<(String, JsonValue)>::empty());
    }
    for member in it: fields.into_iter()
        invariant
            it.seq() == all,
            0 <= it.index() <= all.len(),
            out@ == kept_members(all.take(it.index() as int)),
    {
        proof {
            assert(member == all[it.index() as int]);
            assert(all.take(it.index() + 1).drop_last() =~= all.take(it.index() as int));
            assert(all.take(it.index() + 1).last() == member);
        }
        if !same_text(member.0.as_str(), "contentFrom") && !same_text(member.0.as_str(), "content") {
            out.push(member);
        }
    }
    proof {
        assert(all.take(all.len() as int) =~= all);
    }
    let ghost kept = out@;
    out.push(("content".to_owned(), JsonValue::String(content)));
    proof {
        reveal_strlit("content");
        assert(out@.take(out@.len() - 1) =~= kept);
    }
    out
}

/// The index of the first member named `key`, if any.
fn member_position(members: &Vec<(String, JsonValue)>, key: &str) -> (r: Option<usize>)
    ensures
        r is Some <==> member_index(members@, key@) is Some,
        r is Some ==> member_index(members@, key@) == Some(r->0 as int) && r->0 < members@.len(),
{
    proof {
        crate::json_value::lemma_member_index(members@, key@);
    }
    let mut index: usize = 0;
    while index < members.len()
        invariant
            0 <= index <= members@.len(),
            forall|j: int| 0 <= j < index ==> members@[j].0@ != key@,
        decreases members.len() - index,
    {
        if same_text(members[index].0.as_str(), key) {
            proof {
                crate::json_value::lemma_member_index(members@, key@);
                let i = member_index(members@, key@);
                if i is Some {
                    if i->0 < index {
                        assert(members@[i->0].0@ != key@);
                    } else if i->0 > index {
                        assert(members@[index as int].0@ != key@);
                    }
                }
            }
            return Some(index);
        }
        index = index + 1;
    }
    None
}

impl ParsedDeclaration {
    /// The local files of a file Datasource (`spec.files`), in order.
    pub fn file_datasource_paths(&self) -> (r: Option<Vec<String>>)
        ensures
            match file_paths_of(self.kind, self.value) {
                Some(p) => r is Some && texts_of(r->0@) == p,
                None => r is None,
            },
    {
        if self.kind != EntityKind::Datasource {
            return None;
        }
        match nested_str(&self.value, "spec", "index_type") {
            Some(t) => {
                if !same_text(t, "file") {
                    return None;
                }
            },
            None => {
                return None;
            },
        }
        let items = match spec_member(&self.value, "files") {
            Some(JsonValue::Array(a)) => a,
            _ => {
                return None;
            },
        };
        let mut out: Vec<String> = Vec::new();
        let mut i: usize = 0;
        proof {
            assert(items@.take(0) =~= Seq::<JsonValue>::empty());
            assert(texts_of(out@) =~= Seq::<Seq<char>>::empty());
        }
        while i < items.len()
            invariant
                0 <= i <= items@.len(),
                texts_of(out@) == string_items(items@.take(i as int)),
            decreases items.len() - i,
        {
            proof {
                assert(items@.take(i + 1).drop_last() =~= items@.take(i as int));
                assert(items@.take(i + 1).last() == items@[i as int]);
            }
            match &items[i] {
                JsonValue::String(path) => {
                    let ghost before = out@;
                    out.push(path.as_str().to_owned());
                    proof {
                        assert(texts_of(out@) =~= texts_of(before).push(path@));
                    }
                },
                _ => {},
            }
            i = i + 1;
        }
        proof {
            assert(items@.take(items@.len() as int) =~= items@);
        }
        Some(out)
    }

    /// The sidecar file a Skill's `spec.contentFrom` names, if it names one.
    pub fn content_from_path(&self) -> (r: Option<&str>)
        ensures
            self.kind != EntityKind::Skill ==> r is None,
            self.kind == EntityKind::Skill ==> match nested_text(self.value, "spec"@, "contentFrom"@) {
                Some(t) => r is Some && r->0@ == t,
                None => r is None,
            },
    {
        match self.kind {
            EntityKind::Skill => nested_str(&self.value, "spec", "contentFrom"),
            _ => None,
        }
    }

    /// Replaces `spec.contentFrom` by `spec.content`, the UTF-8 text of the
    /// sidecar file's bytes; bytes that are not UTF-8 are a sidecar error.
    pub fn expand_content_from(self, sidecar: Vec<u8>) -> (r: Result<ParsedDeclaration, AppError>)
        ensures
            r is Ok <==> valid_utf8(sidecar@),
            r is Err ==> r->Err_0 == AppError::ParseLayer(ParseError::SidecarUtf8 { path: self.source_path }),
            r is Ok ==> ({
                let d = r->Ok_0;
                &&& d.kind == self.kind
                &&& d.source_path == self.source_path
                &&& content_expanded(self.value, d.value, decode_utf8(sidecar@))
            }),
    {
        let ParsedDeclaration { kind, value, source_path } = self;
        let content = match utf8_text(sidecar) {
            Some(t) => t,
            None => {
                return Err(AppError::ParseLayer(ParseError::SidecarUtf8 { path: source_path }));
            },
        };
        let value = match value {
            JsonValue::Object(mut members) => {
                match member_position(&members, "spec") {
                    Some(i) => {
                        let is_object = match &members[i].1 {
                            JsonValue::Object(_) => true,
                            _ => false,
                        };
                        if is_object {
                            let ghost old_members = members@;
                            let (key, spec) = members.remove(i);
                            let fields = match spec {
                                JsonValue::Object(f) => f,
                                _ => Vec::new(),
                            };
                            let expanded = expanded_spec_members(fields, content);
                            members.insert(i, (key, JsonValue::Object(expanded)));
                            proof {
                                assert(members@ =~= old_members.update(i as int, members@[i as int]));
                                assert(old_members[i as int].1 == JsonValue::Object(fields));
                            }
                            JsonValue::Object(members)
                        } else {
                            JsonValue::Object(members)
                        }
                    },
                    None => JsonValue::Object(members),
                }
            },
            other => other,
        };
        Ok(ParsedDeclaration { kind, value, source_path })
    }
}

// ---------------------------------------------------------------------------
// Reading a declaration's text
// ---------------------------------------------------------------------------

/// `serde_yaml`'s document value.
#[verifier::external_type_specification]
#[verifier::external_body]
pub struct ExYamlDocument(serde_yaml::Value);

/// `serde_json`'s document value.
#[verifier::external_type_specification]
#[verifier::external_body]
pub struct ExJsonDocument(serde_json::Value);

/// The tree that `serde_yaml::from_str` reads from a text, node for node
/// (a number by the text `serde_yaml` prints for it, a tagged node as
/// `Tagged`); nothing when the text is not well-formed YAML.
pub uninterp spec fn yaml_text_tree(text: Seq<char>) -> Option<YamlValue>;

/// The JSON value that `serde_json::to_value` gives for the document that
/// `serde_yaml::from_str` reads from a text (a number by the text
/// `serde_json` prints for it, members in the order of `serde_json`'s map);
/// nothing when the text is not well-formed YAML or the document has no
/// JSON form.
pub uninterp spec fn yaml_text_json(text: Seq<char>) -> Option<JsonValue>;

/// A `serde_yaml` node as the library's YAML value, one node for one node:
/// a number by the text `serde_yaml` prints for it, a tagged node as
/// `Tagged`, mapping entries in document order. Nothing is stated of it: it
/// only converts for `read_yaml_tree`.
#[verifier::external_body]
fn yaml_value_of(value: &serde_yaml::Value) -> YamlValue {
    match value {
        serde_yaml::Value::Null => YamlValue::Null,
        serde_yaml::Value::Bool(b) => YamlValue::Bool(*b),
        serde_yaml::Value::Number(n) => YamlValue::Number(n.to_string()),
        serde_yaml::Value::String(s) => YamlValue::String(s.clone()),
        serde_yaml::Value::Sequence(items) => YamlValue::Sequence(items.iter().map(yaml_value_of).collect()),
        serde_yaml::Value::Mapping(entries) => YamlValue::Mapping(
            entries.iter().map(|(k, v)| (yaml_value_of(k), yaml_value_of(v))).collect(),
        ),
        serde_yaml::Value::Tagged(_) => YamlValue::Tagged,
    }
}

/// A `serde_json` value as the library's JSON value, one node for one node:
/// a number by the text `serde_json` prints for it, members in the map's
/// order. Nothing is stated of it: it only converts for `read_yaml_json`.
#[verifier::external_body]
fn json_value_of(value: serde_json::Value) -> JsonValue {
    match value {
        serde_json::Value::Null => JsonValue::Null,
        serde_json::Value::Bool(b) => JsonValue::Bool(b),
        serde_json::Value::Number(n) => JsonValue::Number(n.to_string()),
        serde_json::Value::String(s) => JsonValue::String(s),
        serde_json::Value::Array(items) => JsonValue::Array(items.into_iter().map(json_value_of).collect()),
        serde_json::Value::Object(m) => JsonValue::Object(m.into_iter().map(|(k, v)| (k, json_value_of(v))).collect()),
    }
}

/// `serde_yaml::from_str` of a text, as the library's YAML value: exactly
/// `yaml_text_tree` of the text.
#[verifier::external_body]
fn read_yaml_tree(raw: &str) -> (r: Option<YamlValue>)
    ensures
        r == yaml_text_tree(raw@),
{
    serde_yaml::from_str::<serde_yaml::Value>(raw).ok().map(|document| yaml_value_of(&document))
}

/// `serde_json::to_value` of the document that `serde_yaml::from_str` reads
/// from a text, as the library's JSON value: exactly `yaml_text_json` of the
/// text.
#[verifier::external_body]
fn read_yaml_json(raw: &str) -> (r: Option<JsonValue>)
    ensures
        r == yaml_text_json(raw@),
{
    let document = serde_yaml::from_str::<serde_yaml::Value>(raw).ok()?;
    serde_json::to_value(&document).ok().map(json_value_of)
}

/// Whether a declaration's text passes every check of `parse_declaration`:
/// at most 1 MiB, no anchor, alias or tag in the raw bytes, well-formed
/// YAML whose tree keeps the budgets, a JSON form, and a known kind.
pub open spec fn declaration_readable(text: Seq<char>) -> bool {
    &&& encode_utf8(text).len() <= MAX_YAML_FILE_BYTES
    &&& first_injection(encode_utf8(text), 0, ScanMode::Plain) is None
    &&& yaml_text_tree(text) is Some
    &&& yaml_within_budget(yaml_text_tree(text)->0, 0)
    &&& yaml_text_json(text) is Some
    &&& kind_text_of(yaml_text_json(text)->0) is Some
    &&& kind_named(kind_text_of(yaml_text_json(text)->0)->0) is Some
}

/// Parses and checks a declaration's text, in this order: the 1 MiB limit,
/// the raw scan for anchors, aliases and tags, YAML well-formedness, the
/// tree budgets, the JSON form and the entity kind. The first check that
/// fails gives the error; a text that passes them all gives its kind and
/// JSON value.
pub fn parse_declaration(raw: &str, file: &str) -> (r: Result<ParsedDeclaration, AppError>)
    ensures
        ({
            let bytes = encode_utf8(raw@);
            let tree = yaml_text_tree(raw@);
            let json = yaml_text_json(raw@);
            &&& bytes.len() > MAX_YAML_FILE_BYTES ==> (r is Err && r->Err_0 is YamlParse)
            &&& (bytes.len() <= MAX_YAML_FILE_BYTES && first_injection(bytes, 0, ScanMode::Plain) is Some) ==> (
            r is Err && r->Err_0 is YamlParse && r->Err_0->YamlParse_0@ == file_message(
                file@,
                injection_detail(first_injection(bytes, 0, ScanMode::Plain)->0),
            ))
            &&& (bytes.len() <= MAX_YAML_FILE_BYTES && first_injection(bytes, 0, ScanMode::Plain) is None
                && tree is None) ==> (r is Err && r->Err_0 is ParseLayer && r->Err_0->ParseLayer_0 is Yaml
                && r->Err_0->ParseLayer_0->Yaml_path@ == file@)
            &&& (bytes.len() <= MAX_YAML_FILE_BYTES && first_injection(bytes, 0, ScanMode::Plain) is None
                && tree is Some && yaml_breach(tree->0, 0) is Some) ==> (r is Err && r->Err_0 is YamlParse
                && r->Err_0->YamlParse_0@ == file_message(file@, yaml_breach(tree->0, 0)->0))
            &&& (bytes.len() <= MAX_YAML_FILE_BYTES && first_injection(bytes, 0, ScanMode::Plain) is None
                && tree is Some && yaml_within_budget(tree->0, 0) && json is None) ==> (r is Err
                && r->Err_0 is ParseLayer && r->Err_0->ParseLayer_0 is JsonConversion
                && r->Err_0->ParseLayer_0->JsonConversion_path@ == file@)
            &&& (bytes.len() <= MAX_YAML_FILE_BYTES && first_injection(bytes, 0, ScanMode::Plain) is None
                && tree is Some && yaml_within_budget(tree->0, 0) && json is Some && (kind_text_of(json->0) is None
                || kind_named(kind_text_of(json->0)->0) is None)) ==> (r is Err && r->Err_0 is Schema)
            &&& r is Ok <==> declaration_readable(raw@)
            &&& r is Ok ==> (r->Ok_0.kind == kind_named(kind_text_of(json->0)->0)->0 && r->Ok_0.value == json->0
                && r->Ok_0.source_path@ == file@)
        }),
{
    let length = raw.as_bytes().len();
    check_file_size(length, file)?;
    scan_for_injections(raw, file)?;
    let tree = match read_yaml_tree(raw) {
        Some(t) => t,
        None => {
            return Err(AppError::ParseLayer(ParseError::Yaml { path: String::from_str(file) }));
        },
    };
    check_yaml_tree(&tree, 0, file)?;
    let value = match read_yaml_json(raw) {
        Some(v) => v,
        None => {
            return Err(AppError::ParseLayer(ParseError::JsonConversion { path: String::from_str(file) }));
        },
    };
    let kind = extract_entity_kind(&value, file)?;
    Ok(ParsedDeclaration { kind, value, source_path: String::from_str(file) })
}

} // verus!
