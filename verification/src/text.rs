use vstd::prelude::*;

use crate::json::{decimal_digit, nat_decimal};

verus! {

/// C0 controls, DEL and the C1 controls (Unicode general category Cc).
pub open spec fn is_control_char(c: char) -> bool {
    (c as u32) <= 0x1f || (0x7f <= (c as u32) && (c as u32) <= 0x9f)
}

/// Whether some character of `s` satisfies the control predicate.
pub open spec fn has_control(s: Seq<char>) -> bool {
    exists|i: int| 0 <= i < s.len() && is_control_char(#[trigger] s[i])
}

/// Whether `s` holds a C0/C1 control character.
pub fn contains_control(s: &str) -> (r: bool)
    ensures
        r == has_control(s@),
{
    let mut found = false;
    for c in it: s.chars()
        invariant
            it.seq() == s@,
            found == (exists|i: int| 0 <= i < it.index() && is_control_char(#[trigger] s@[i])),
    {
        let code = c as u32;
        if code <= 0x1f || (0x7f <= code && code <= 0x9f) {
            found = true;
        }
    }
    found
}

/// Whether two texts are equal.
pub fn same_text(a: &str, b: &str) -> (r: bool)
    ensures
        r == (a@ == b@),
{
    let left = a.to_owned();
    let right = b.to_owned();
    left == right
}

/// Number of bytes of the UTF-8 encoding of `c`.
pub open spec fn char_width(c: char) -> nat {
    let code = c as u32;
    if code < 0x80 {
        1
    } else if code < 0x800 {
        2
    } else if code < 0x10000 {
        3
    } else {
        4
    }
}

/// Number of bytes of the UTF-8 encoding of `s`.
pub open spec fn utf8_len(s: Seq<char>) -> nat
    decreases s.len(),
{
    if s.len() == 0 {
        0
    } else {
        utf8_len(s.drop_last()) + char_width(s.last())
    }
}

/// A text takes at most four bytes per character.
pub proof fn lemma_utf8_len_bound(s: Seq<char>)
    ensures
        utf8_len(s) <= 4 * s.len(),
    decreases s.len(),
{
    if s.len() > 0 {
        lemma_utf8_len_bound(s.drop_last());
    }
}

/// Whether the UTF-8 encoding of `s` takes at most `limit` bytes.
pub fn utf8_len_at_most(s: &str, limit: usize) -> (r: bool)
    ensures
        r == (utf8_len(s@) <= limit),
{
    let mut total: usize = 0;
    let mut within = true;
    for c in it: s.chars()
        invariant
            it.seq() == s@,
            0 <= it.index() <= s@.len(),
            within ==> total == utf8_len(s@.take(it.index() as int)),
            within ==> total <= limit,
            !within ==> utf8_len(s@.take(it.index() as int)) > limit,
    {
        proof {
            let prefix = s@.take(it.index() as int);
            let next = s@.take(it.index() + 1);
            assert(next.drop_last() =~= prefix);
            assert(next.last() == c);
        }
        let code = c as u32;
        let width: usize = if code < 0x80 {
            1
        } else if code < 0x800 {
            2
        } else if code < 0x10000 {
            3
        } else {
            4
        };
        if within {
            if width > limit - total {
                within = false;
            } else {
                total = total + width;
            }
        }
    }
    proof {
        assert(s@.take(s@.len() as int) =~= s@);
    }
    within
}

/// The one-character text of a decimal digit.
fn digit_text(d: u64) -> (text: &'static str)
    requires
        d < 10,
    ensures
        text@ == seq![decimal_digit(d as int)],
{
    if d == 0 {
        proof { reveal_strlit("0"); }
        "0"
    } else if d == 1 {
        proof { reveal_strlit("1"); }
        "1"
    } else if d == 2 {
        proof { reveal_strlit("2"); }
        "2"
    } else if d == 3 {
        proof { reveal_strlit("3"); }
        "3"
    } else if d == 4 {
        proof { reveal_strlit("4"); }
        "4"
    } else if d == 5 {
        proof { reveal_strlit("5"); }
        "5"
    } else if d == 6 {
        proof { reveal_strlit("6"); }
        "6"
    } else if d == 7 {
        proof { reveal_strlit("7"); }
        "7"
    } else if d == 8 {
        proof { reveal_strlit("8"); }
        "8"
    } else {
        proof { reveal_strlit("9"); }
        "9"
    }
}

/// Decimal spelling of `n`, without leading zeros.
pub fn decimal_text(n: u64) -> (text: String)
    ensures
        text@ == nat_decimal(n as nat),
    decreases n,
{
    if n < 10 {
        String::from_str(digit_text(n))
    } else {
        let mut text = decimal_text(n / 10);
        text.append(digit_text(n % 10));
        text
    }
}

// ---------------------------------------------------------------------------
// Text order
// ---------------------------------------------------------------------------

/// Lexicographic order of texts by code point (the byte order of their UTF-8
/// spellings).
pub open spec fn text_less(a: Seq<char>, b: Seq<char>) -> bool
    decreases a.len(),
{
    if a.len() == 0 {
        b.len() > 0
    } else if b.len() == 0 {
        false
    } else if a[0] != b[0] {
        (a[0] as u32) < (b[0] as u32)
    } else {
        text_less(a.drop_first(), b.drop_first())
    }
}

/// No text is below itself.
pub proof fn lemma_text_less_irreflexive(a: Seq<char>)
    ensures
        !text_less(a, a),
    decreases a.len(),
{
    if a.len() > 0 {
        lemma_text_less_irreflexive(a.drop_first());
    }
}

/// The order is transitive.
pub proof fn lemma_text_less_transitive(a: Seq<char>, b: Seq<char>, c: Seq<char>)
    requires
        text_less(a, b),
        text_less(b, c),
    ensures
        text_less(a, c),
    decreases a.len(),
{
    if a.len() > 0 && b.len() > 0 && c.len() > 0 {
        if a[0] == b[0] && b[0] == c[0] {
            lemma_text_less_transitive(a.drop_first(), b.drop_first(), c.drop_first());
        }
    }
}

/// Two different texts are ordered one way or the other.
pub proof fn lemma_text_less_total(a: Seq<char>, b: Seq<char>)
    requires
        a != b,
    ensures
        text_less(a, b) || text_less(b, a),
    decreases a.len(),
{
    if a.len() > 0 && b.len() > 0 {
        if a[0] == b[0] {
            if a.drop_first() == b.drop_first() {
                assert(a =~= seq![a[0]] + a.drop_first());
                assert(b =~= seq![b[0]] + b.drop_first());
            }
            lemma_text_less_total(a.drop_first(), b.drop_first());
        } else {
            vstd::utf8::char_u32_cast(a[0], a[0] as u32);
            vstd::utf8::char_u32_cast(b[0], b[0] as u32);
        }
    } else if a.len() == 0 && b.len() == 0 {
        assert(a =~= b);
    }
}

/// The characters of a text.
pub fn text_chars(s: &str) -> (v: Vec<char>)
    ensures
        v@ == s@,
{
    let mut v: Vec<char> = Vec::new();
    for c in it: s.chars()
        invariant
            it.seq() == s@,
            v@ == s@.take(it.index() as int),
    {
        v.push(c);
        proof {
            assert(v@ =~= s@.take(it.index() + 1));
        }
    }
    proof {
        assert(s@.take(s@.len() as int) =~= s@);
    }
    v
}

/// Whether `a` sorts strictly before `b`.
pub fn is_text_less(a: &str, b: &str) -> (r: bool)
    ensures
        r == text_less(a@, b@),
{
    let x = text_chars(a);
    let y = text_chars(b);
    let mut i: usize = 0;
    while i < x.len() && i < y.len() && x[i] == y[i]
        invariant
            0 <= i <= x@.len(),
            i <= y@.len(),
            x@ == a@,
            y@ == b@,
            forall|j: int| 0 <= j < i ==> x@[j] == y@[j],
        decreases x.len() - i,
    {
        i = i + 1;
    }
    proof {
        lemma_text_less_common_prefix(a@, b@, i as int);
    }
    if i == x.len() {
        i < y.len()
    } else if i == y.len() {
        false
    } else {
        (x[i] as u32) < (y[i] as u32)
    }
}

/// The order of two texts is decided after their common prefix.
proof fn lemma_text_less_common_prefix(a: Seq<char>, b: Seq<char>, n: int)
    requires
        0 <= n <= a.len(),
        n <= b.len(),
        forall|j: int| 0 <= j < n ==> a[j] == b[j],
    ensures
        text_less(a, b) == text_less(a.subrange(n, a.len() as int), b.subrange(n, b.len() as int)),
    decreases n,
{
    if n > 0 {
        lemma_text_less_common_prefix(a.drop_first(), b.drop_first(), n - 1);
        assert(a.drop_first().subrange(n - 1, a.len() - 1) =~= a.subrange(n, a.len() as int));
        assert(b.drop_first().subrange(n - 1, b.len() - 1) =~= b.subrange(n, b.len() as int));
    } else {
        assert(a.subrange(0, a.len() as int) =~= a);
        assert(b.subrange(0, b.len() as int) =~= b);
    }
}

/// The texts of a list of strings.
pub open spec fn texts_of(v: Seq<String>) -> Seq<Seq<char>> {
    v.map_values(|t: String| t@)
}

/// Strictly increasing texts: sorted, without repetition.
pub open spec fn sorted_texts(s: Seq<Seq<char>>) -> bool {
    forall|i: int, j: int| 0 <= i < j < s.len() ==> text_less(s[i], s[j])
}

/// Adds a text to a strictly increasing list of texts, keeping it so.
pub fn insert_sorted(set: &mut Vec<String>, item: String)
    requires
        sorted_texts(texts_of(old(set)@)),
    ensures
        sorted_texts(texts_of(final(set)@)),
        texts_of(final(set)@).to_set() == texts_of(old(set)@).to_set().insert(item@),
{
    let ghost before = texts_of(set@);
    let mut index: usize = 0;
    while index < set.len() && is_text_less(set[index].as_str(), item.as_str())
        invariant
            0 <= index <= set@.len(),
            texts_of(set@) == before,
            sorted_texts(before),
            forall|j: int| 0 <= j < index ==> text_less(before[j], item@),
        decreases set.len() - index,
    {
        index = index + 1;
    }
    if index < set.len() && same_text(set[index].as_str(), item.as_str()) {
        proof {
            assert(before.to_set().insert(item@) =~= before.to_set()) by {
                assert(before[index as int] == item@);
                assert(before.contains(item@));
            }
        }
        return;
    }
    proof {
        if index < before.len() {
            lemma_text_less_total(before[index as int], item@);
        }
    }
    let ghost copy = item@;
    set.insert(index, item);
    proof {
        let after = texts_of(set@);
        assert(after =~= before.insert(index as int, copy));
        assert forall|i: int, j: int| 0 <= i < j < after.len() implies text_less(after[i], after[j]) by {
            if j < index {
            } else if j == index {
            } else if i < index {
                if i < index && j > index {
                    assert(text_less(before[i], copy));
                    assert(text_less(copy, before[j - 1])) by {
                        if j - 1 == index {
                        } else {
                            lemma_text_less_transitive(copy, before[index as int], before[j - 1]);
                        }
                    }
                    lemma_text_less_transitive(before[i], copy, before[j - 1]);
                }
            } else if i == index {
                if j - 1 == index {
                } else {
                    lemma_text_less_transitive(copy, before[index as int], before[j - 1]);
                }
            } else {
            }
        }
        assert(after.to_set() =~= before.to_set().insert(copy)) by {
            assert forall|x: Seq<char>| after.to_set().contains(x) <==> before.to_set().insert(copy).contains(x) by {
                if after.contains(x) {
                    let k = choose|k: int| 0 <= k < after.len() && after[k] == x;
                    if k < index {
                        assert(before.contains(x));
                    } else if k > index {
                        assert(before[k - 1] == x);
                        assert(before.contains(x));
                    }
                }
                if before.contains(x) {
                    let k = choose|k: int| 0 <= k < before.len() && before[k] == x;
                    if k < index {
                        assert(after[k] == x);
                    } else {
                        assert(after[k + 1] == x);
                    }
                }
                if x == copy {
                    assert(after[index as int] == x);
                }
            }
        }
    }
}

// ---------------------------------------------------------------------------
// Pairs of texts
// ---------------------------------------------------------------------------

/// Lexicographic order of pairs of texts: by the first text, then the second.
pub open spec fn pair_less(a: (Seq<char>, Seq<char>), b: (Seq<char>, Seq<char>)) -> bool {
    text_less(a.0, b.0) || (a.0 == b.0 && text_less(a.1, b.1))
}

/// The texts of a list of pairs of strings.
pub open spec fn pairs_of(v: Seq<(String, String)>) -> Seq<(Seq<char>, Seq<char>)> {
    v.map_values(|p: (String, String)| (p.0@, p.1@))
}

/// Strictly increasing pairs: sorted, without repetition.
pub open spec fn sorted_pairs(s: Seq<(Seq<char>, Seq<char>)>) -> bool {
    forall|i: int, j: int| 0 <= i < j < s.len() ==> pair_less(s[i], s[j])
}

/// The pair order is transitive.
pub proof fn lemma_pair_less_transitive(
    a: (Seq<char>, Seq<char>),
    b: (Seq<char>, Seq<char>),
    c: (Seq<char>, Seq<char>),
)
    requires
        pair_less(a, b),
        pair_less(b, c),
    ensures
        pair_less(a, c),
{
    if text_less(a.0, b.0) && text_less(b.0, c.0) {
        lemma_text_less_transitive(a.0, b.0, c.0);
    } else if text_less(a.0, b.0) {
    } else if text_less(b.0, c.0) {
    } else {
        lemma_text_less_transitive(a.1, b.1, c.1);
    }
}

/// Two different pairs are ordered one way or the other.
pub proof fn lemma_pair_less_total(a: (Seq<char>, Seq<char>), b: (Seq<char>, Seq<char>))
    requires
        a != b,
    ensures
        pair_less(a, b) || pair_less(b, a),
{
    if a.0 != b.0 {
        lemma_text_less_total(a.0, b.0);
    } else {
        lemma_text_less_total(a.1, b.1);
    }
}

/// Whether the pair `(a0, a1)` sorts strictly before `(b0, b1)`.
pub fn is_pair_less(a0: &str, a1: &str, b0: &str, b1: &str) -> (r: bool)
    ensures
        r == pair_less((a0@, a1@), (b0@, b1@)),
{
    if is_text_less(a0, b0) {
        true
    } else if same_text(a0, b0) {
        is_text_less(a1, b1)
    } else {
        false
    }
}

/// Adds a pair to a strictly increasing list of pairs, keeping it so.
pub fn insert_sorted_pair(set: &mut Vec<(String, String)>, item: (String, String))
    requires
        sorted_pairs(pairs_of(old(set)@)),
    ensures
        sorted_pairs(pairs_of(final(set)@)),
        pairs_of(final(set)@).to_set() == pairs_of(old(set)@).to_set().insert((item.0@, item.1@)),
{
    let ghost before = pairs_of(set@);
    let ghost copy = (item.0@, item.1@);
    let mut index: usize = 0;
    while index < set.len() && is_pair_less(set[index].0.as_str(), set[index].1.as_str(), item.0.as_str(), item.1.as_str())
        invariant
            0 <= index <= set@.len(),
            pairs_of(set@) == before,
            copy == (item.0@, item.1@),
            sorted_pairs(before),
            forall|j: int| 0 <= j < index ==> pair_less(before[j], copy),
        decreases set.len() - index,
    {
        index = index + 1;
    }
    if index < set.len() && same_text(set[index].0.as_str(), item.0.as_str()) && same_text(set[index].1.as_str(), item.1.as_str()) {
        proof {
            assert(before.to_set().insert(copy) =~= before.to_set()) by {
                assert(before[index as int] == copy);
                assert(before.contains(copy));
            }
        }
        return;
    }
    proof {
        if index < before.len() {
            assert(before[index as int] != copy);
            lemma_pair_less_total(before[index as int], copy);
        }
    }
    set.insert(index, item);
    proof {
        let after = pairs_of(set@);
        assert(after =~= before.insert(index as int, copy));
        assert forall|i: int, j: int| 0 <= i < j < after.len() implies pair_less(after[i], after[j]) by {
            if j < index {
            } else if j == index {
            } else if i < index {
                assert(pair_less(before[i], copy));
                assert(pair_less(copy, before[j - 1])) by {
                    if j - 1 != index {
                        lemma_pair_less_transitive(copy, before[index as int], before[j - 1]);
                    }
                }
                lemma_pair_less_transitive(before[i], copy, before[j - 1]);
            } else if i == index {
                if j - 1 != index {
                    lemma_pair_less_transitive(copy, before[index as int], before[j - 1]);
                }
            } else {
            }
        }
        assert(after.to_set() =~= before.to_set().insert(copy)) by {
            assert forall|x: (Seq<char>, Seq<char>)| after.to_set().contains(x) <==> before.to_set().insert(copy).contains(x) by {
                if after.contains(x) {
                    let k = choose|k: int| 0 <= k < after.len() && after[k] == x;
                    if k < index {
                        assert(before.contains(x));
                    } else if k > index {
                        assert(before[k - 1] == x);
                        assert(before.contains(x));
                    }
                }
                if before.contains(x) {
                    let k = choose|k: int| 0 <= k < before.len() && before[k] == x;
                    if k < index {
                        assert(after[k] == x);
                    } else {
                        assert(after[k + 1] == x);
                    }
                }
                if x == copy {
                    assert(after[index as int] == x);
                }
            }
        }
    }
}

} // verus!
