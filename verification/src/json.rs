use vstd::prelude::*;

verus! {

/// Lower-case hexadecimal digit of `n` (`0 <= n < 16`).
pub open spec fn hex_digit(n: int) -> char {
    seq!['0', '1', '2', '3', '4', '5', '6', '7', '8', '9', 'a', 'b', 'c', 'd', 'e', 'f'][n]
}

/// How a JSON string literal spells one character: the two-character escapes
/// for quote, backslash, backspace, tab, line feed, form feed and carriage
/// return, `\u00XX` for the other characters below U+0020, and the character
/// itself otherwise.
pub open spec fn json_char_escape(c: char) -> Seq<char> {
    let code = c as u32;
    if c == '"' {
        seq!['\\', '"']
    } else if c == '\\' {
        seq!['\\', '\\']
    } else if code == 8 {
        seq!['\\', 'b']
    } else if code == 9 {
        seq!['\\', 't']
    } else if code == 10 {
        seq!['\\', 'n']
    } else if code == 12 {
        seq!['\\', 'f']
    } else if code == 13 {
        seq!['\\', 'r']
    } else if code < 0x20 {
        seq!['\\', 'u', '0', '0', hex_digit(code as int / 16), hex_digit(code as int % 16)]
    } else {
        seq![c]
    }
}

/// The escaped body of a JSON string literal.
pub open spec fn json_escaped(s: Seq<char>) -> Seq<char>
    decreases s.len(),
{
    if s.len() == 0 {
        Seq::empty()
    } else {
        json_escaped(s.drop_last()) + json_char_escape(s.last())
    }
}

/// The compact JSON string literal of `s`.
pub open spec fn json_quoted(s: Seq<char>) -> Seq<char> {
    seq!['"'] + json_escaped(s) + seq!['"']
}

/// The decimal digit character of `d` (`0 <= d < 10`).
pub open spec fn decimal_digit(d: int) -> char {
    seq!['0', '1', '2', '3', '4', '5', '6', '7', '8', '9'][d]
}

/// Decimal spelling of a natural number, without leading zeros.
pub open spec fn nat_decimal(n: nat) -> Seq<char>
    decreases n,
{
    if n < 10 {
        seq![decimal_digit(n as int)]
    } else {
        nat_decimal(n / 10) + seq![decimal_digit((n % 10) as int)]
    }
}

/// Decimal spelling of an integer, with a leading `-` when negative.
pub open spec fn int_decimal(n: int) -> Seq<char> {
    if n < 0 {
        seq!['-'] + nat_decimal((-n) as nat)
    } else {
        nat_decimal(n as nat)
    }
}

/// Whether `c` occurs in `s`.
pub open spec fn holds_char(s: Seq<char>, c: char) -> bool {
    exists|i: int| 0 <= i < s.len() && s[i] == c
}

/// `serde_json::to_string` on a string slice: the string literal that the
/// serializer writes, with the escapes of `json_char_escape` (serde_json's
/// `ESCAPE` table and `CharEscape`), between double quotes. Serializing a
/// `str` never fails, so the error arm is never taken.
#[verifier::external_body]
pub fn json_string(s: &str) -> (r: String)
    ensures
        r@ == json_quoted(s@),
{
    match serde_json::to_string(s) {
        Ok(text) => text,
        Err(_) => String::new(),
    }
}

/// `serde_json::to_string` on an `i64`: its decimal spelling as written by
/// `itoa`, without leading zeros and with `-` before a negative value.
/// Serializing an integer never fails, so the error arm is never taken.
#[verifier::external_body]
pub fn json_integer(n: i64) -> (r: String)
    ensures
        r@ == int_decimal(n as int),
{
    match serde_json::to_string(&n) {
        Ok(text) => text,
        Err(_) => String::new(),
    }
}

/// A character occurs in a concatenation exactly when it occurs in one of its parts.
pub broadcast proof fn lemma_holds_char_concat(a: Seq<char>, b: Seq<char>, c: char)
    ensures
        #[trigger] holds_char(a + b, c) == (holds_char(a, c) || holds_char(b, c)),
{
    if holds_char(a + b, c) {
        let i = choose|i: int| 0 <= i < (a + b).len() && (a + b)[i] == c;
        if i < a.len() {
            assert(a[i] == c);
        } else {
            assert(b[i - a.len()] == c);
        }
    }
    if holds_char(a, c) {
        let i = choose|i: int| 0 <= i < a.len() && a[i] == c;
        assert((a + b)[i] == c);
    }
    if holds_char(b, c) {
        let i = choose|i: int| 0 <= i < b.len() && b[i] == c;
        assert((a + b)[i + a.len()] == c);
    }
}

/// No escape sequence holds a line feed.
proof fn lemma_char_escape_no_newline(c: char)
    ensures
        !holds_char(json_char_escape(c), '\n'),
{
    let e = json_char_escape(c);
    if (c as u32) < 0x20 && c != '"' && c != '\\' && (c as u32) != 8 && (c as u32) != 9
        && (c as u32) != 10 && (c as u32) != 12 && (c as u32) != 13 {
        let hi = (c as u32) as int / 16;
        let lo = (c as u32) as int % 16;
        assert(0 <= hi < 16 && 0 <= lo < 16);
        assert(hex_digit(hi) != '\n');
        assert(hex_digit(lo) != '\n');
    }
    if c == '\n' {
        assert((c as u32) == 10);
    }
    assert(forall|i: int| 0 <= i < e.len() ==> e[i] != '\n');
}

/// The escaped body of a JSON string never holds a line feed.
pub proof fn lemma_escaped_no_newline(s: Seq<char>)
    ensures
        !holds_char(json_escaped(s), '\n'),
    decreases s.len(),
{
    if s.len() > 0 {
        lemma_escaped_no_newline(s.drop_last());
        lemma_char_escape_no_newline(s.last());
        let a = json_escaped(s.drop_last());
        let b = json_char_escape(s.last());
        assert(json_escaped(s) == a + b);
        assert forall|i: int| 0 <= i < (a + b).len() implies (a + b)[i] != '\n' by {
            if i < a.len() {
                assert((a + b)[i] == a[i]);
            } else {
                assert((a + b)[i] == b[i - a.len()]);
            }
        }
    }
}

/// A JSON string literal never holds a line feed.
pub broadcast proof fn lemma_quoted_no_newline(s: Seq<char>)
    ensures
        !holds_char(#[trigger] json_quoted(s), '\n'),
{
    lemma_escaped_no_newline(s);
    let e = json_escaped(s);
    let q = json_quoted(s);
    assert(q == seq!['"'] + e + seq!['"']);
    assert forall|i: int| 0 <= i < q.len() implies q[i] != '\n' by {
        if i == 0 {
        } else if i <= e.len() {
            assert(q[i] == e[i - 1]);
        } else {
            assert(q[i] == '"');
        }
    }
}

/// A decimal spelling never holds a line feed.
pub proof fn lemma_nat_decimal_no_newline(n: nat)
    ensures
        !holds_char(nat_decimal(n), '\n'),
    decreases n,
{
    if n >= 10 {
        lemma_nat_decimal_no_newline(n / 10);
        let a = nat_decimal(n / 10);
        let b = seq![decimal_digit((n % 10) as int)];
        assert(nat_decimal(n) == a + b);
        assert forall|i: int| 0 <= i < (a + b).len() implies (a + b)[i] != '\n' by {
            if i < a.len() {
                assert((a + b)[i] == a[i]);
            }
        }
    }
}

/// A signed decimal spelling never holds a line feed.
pub broadcast proof fn lemma_int_decimal_no_newline(n: int)
    ensures
        !holds_char(#[trigger] int_decimal(n), '\n'),
{
    if n < 0 {
        lemma_nat_decimal_no_newline((-n) as nat);
        let a = nat_decimal((-n) as nat);
        let s = seq!['-'] + a;
        assert forall|i: int| 0 <= i < s.len() implies s[i] != '\n' by {
            if i > 0 {
                assert(s[i] == a[i - 1]);
            }
        }
    } else {
        lemma_nat_decimal_no_newline(n as nat);
    }
}

} // verus!
