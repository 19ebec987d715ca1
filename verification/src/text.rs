//! Character-level text facts used by the catalog: equality, whitespace, ASCII case,
//! prefixes and suffixes, decimal rendering and quoting.

use vstd::prelude::*;

verus! {

/// The Unicode `White_Space` property.
pub open spec fn is_white_space(c: char) -> bool {
    ||| ('\u{9}' <= c && c <= '\u{d}')
    ||| c == ' '
    ||| c == '\u{85}'
    ||| c == '\u{a0}'
    ||| c == '\u{1680}'
    ||| ('\u{2000}' <= c && c <= '\u{200a}')
    ||| c == '\u{2028}'
    ||| c == '\u{2029}'
    ||| c == '\u{202f}'
    ||| c == '\u{205f}'
    ||| c == '\u{3000}'
}

/// Whether the character has the Unicode `White_Space` property.
pub fn char_is_whitespace(c: char) -> (r: bool)
    ensures
        r == is_white_space(c),
{
    let v = c as u32;
    (0x9 <= v && v <= 0xd) || v == 0x20 || v == 0x85 || v == 0xa0 || v == 0x1680 || (0x2000 <= v
        && v <= 0x200a) || v == 0x2028 || v == 0x2029 || v == 0x202f || v == 0x205f || v == 0x3000
}

/// Whether two string slices hold the same characters.
pub fn str_eq(a: &str, b: &str) -> (r: bool)
    ensures
        r == (a@ == b@),
{
    let x = str_chars(a);
    let y = str_chars(b);
    chars_eq(&x, &y)
}

/// `<String as FromIterator<&char>>::from_iter`: the string holds the characters in order.
#[verifier::external_body]
pub(crate) fn chars_to_string(v: &Vec<char>) -> (s: String)
    ensures
        s@ == v@,
{
    v.iter().collect()
}

/// The characters of a string slice, in order.
pub fn str_chars(s: &str) -> (v: Vec<char>)
    ensures
        v@ == s@,
{
    broadcast use vstd::string::group_string_axioms;

    let mut v: Vec<char> = Vec::new();
    for c in it: s.chars()
        invariant
            it.seq() == s@,
            v@ == it.seq().take(it.index() as int),
    {
        v.push(c);
    }
    v
}

/// Appends the characters of `s` to `out`.
pub fn push_str(out: &mut Vec<char>, s: &str)
    ensures
        final(out)@ == old(out)@ + s@,
{
    let chars = str_chars(s);
    push_chars(out, &chars);
}

/// Appends `chars` to `out`.
pub fn push_chars(out: &mut Vec<char>, chars: &Vec<char>)
    ensures
        final(out)@ == old(out)@ + chars@,
{
    let ghost start = out@;
    let n = chars.len();
    for i in 0..n
        invariant
            n == chars@.len(),
            out@ == start + chars@.take(i as int),
    {
        out.push(chars[i]);
        assert(chars@.take(i + 1) =~= chars@.take(i as int).push(chars@[i as int]));
    }
    assert(chars@.take(n as int) =~= chars@);
}

/// Every character is white space (the trimmed text is empty).
pub open spec fn is_blank(s: Seq<char>) -> bool {
    forall|i: int| 0 <= i < s.len() ==> is_white_space(#[trigger] s[i])
}

/// The text begins or ends with white space (trimming would change it).
pub open spec fn has_surrounding_white_space(s: Seq<char>) -> bool {
    s.len() > 0 && (is_white_space(s[0]) || is_white_space(s[s.len() - 1]))
}

/// Whether every character of `s` is white space.
pub fn is_blank_str(s: &str) -> (r: bool)
    ensures
        r == is_blank(s@),
{
    let chars = str_chars(s);
    let n = chars.len();
    for i in 0..n
        invariant
            n == chars@.len(),
            chars@ == s@,
            forall|j: int| 0 <= j < i ==> is_white_space(#[trigger] s@[j]),
    {
        if !char_is_whitespace(chars[i]) {
            return false;
        }
    }
    true
}

/// Whether `s` begins or ends with white space.
pub fn has_surrounding_white_space_str(s: &str) -> (r: bool)
    ensures
        r == has_surrounding_white_space(s@),
{
    let chars = str_chars(s);
    let n = chars.len();
    if n == 0 {
        return false;
    }
    char_is_whitespace(chars[0]) || char_is_whitespace(chars[n - 1])
}

/// ASCII upper-case letters mapped to lower case; every other character kept.
pub open spec fn ascii_lower_char(c: char) -> char {
    if 'A' <= c && c <= 'Z' {
        ((c as u32) + 32) as char
    } else {
        c
    }
}

/// `ascii_lower_char` applied to every character.
pub open spec fn ascii_lower(s: Seq<char>) -> Seq<char> {
    s.map_values(|c: char| ascii_lower_char(c))
}

/// ASCII lower-casing keeps the length, leaves every character that is not an upper-case
/// ASCII letter as it is, and leaves no upper-case ASCII letter behind.
pub proof fn lemma_ascii_lower_shape(s: Seq<char>)
    ensures
        ascii_lower(s).len() == s.len(),
        forall|i: int| 0 <= i < s.len() && !('A' <= s[i] && s[i] <= 'Z') ==> (#[trigger] ascii_lower(s)[i]) == s[i],
        forall|i: int| 0 <= i < s.len() ==> !('A' <= #[trigger] ascii_lower(s)[i] && ascii_lower(s)[i] <= 'Z'),
{
}

/// Two names that differ only in the case of ASCII letters lower-case to the same text.
pub proof fn lemma_ascii_lower_ignores_case(s: Seq<char>, t: Seq<char>)
    requires
        s.len() == t.len(),
        forall|i: int|
            0 <= i < s.len() ==> #[trigger] s[i] == t[i] || ('A' <= s[i] && s[i] <= 'Z' && (s[i] as u32) + 32 == (
            t[i] as u32)) || ('A' <= t[i] && t[i] <= 'Z' && (t[i] as u32) + 32 == (s[i] as u32)),
    ensures
        ascii_lower(s) == ascii_lower(t),
{
    assert forall|i: int| 0 <= i < s.len() implies ascii_lower(s)[i] == ascii_lower(t)[i] by {
        assert(s[i] == t[i] || ('A' <= s[i] && s[i] <= 'Z' && (s[i] as u32) + 32 == (t[i] as u32)) || ('A' <= t[i]
            && t[i] <= 'Z' && (t[i] as u32) + 32 == (s[i] as u32)));
    }
    assert(ascii_lower(s) =~= ascii_lower(t));
}

/// The ASCII lower-case form of `s`.
pub fn ascii_lower_str(s: &str) -> (r: Vec<char>)
    ensures
        r@ == ascii_lower(s@),
{
    let chars = str_chars(s);
    let n = chars.len();
    let mut out: Vec<char> = Vec::new();
    for i in 0..n
        invariant
            n == chars@.len(),
            chars@ == s@,
            out@ == ascii_lower(s@.take(i as int)),
    {
        let c = chars[i];
        let l = if 'A' <= c && c <= 'Z' {
            let code: u32 = (c as u32) + 32;
            assert(('a' as u32) <= code <= ('z' as u32));
            char_from_ascii(code)
        } else {
            c
        };
        out.push(l);
        assert(ascii_lower(s@.take(i + 1)) =~= ascii_lower(s@.take(i as int)).push(
            ascii_lower_char(s@[i as int]),
        ));
    }
    assert(s@.take(n as int) =~= s@);
    out
}

/// The character with an ASCII lower-case letter code.
fn char_from_ascii(code: u32) -> (c: char)
    requires
        ('a' as u32) <= code <= ('z' as u32),
    ensures
        c == code as char,
{
    let b: u8 = code as u8;
    b as char
}

/// `p` is a prefix of `s`.
pub open spec fn starts_with(s: Seq<char>, p: Seq<char>) -> bool {
    p.len() <= s.len() && s.subrange(0, p.len() as int) == p
}

/// `p` is a suffix of `s`.
pub open spec fn ends_with(s: Seq<char>, p: Seq<char>) -> bool {
    p.len() <= s.len() && s.subrange(s.len() - p.len(), s.len() as int) == p
}

/// `p` occurs in `s` at position `i`.
pub open spec fn occurs_at(s: Seq<char>, p: Seq<char>, i: int) -> bool {
    0 <= i && i + p.len() <= s.len() && s.subrange(i, i + p.len()) == p
}

/// `p` occurs somewhere in `s`.
pub open spec fn contains(s: Seq<char>, p: Seq<char>) -> bool {
    exists|i: int| occurs_at(s, p, i)
}

/// Whether `p` occurs in `s` at position `at`.
fn matches_at(s: &Vec<char>, p: &Vec<char>, at: usize) -> (r: bool)
    requires
        at + p@.len() <= s@.len(),
    ensures
        r == (s@.subrange(at as int, at + p@.len()) == p@),
{
    let n = p.len();
    let slen = s.len();
    for k in 0..n
        invariant
            n == p@.len(),
            slen == s@.len(),
            at + n <= s@.len(),
            forall|j: int| 0 <= j < k ==> s@[at + j] == #[trigger] p@[j],
    {
        if s[at + k] != p[k] {
            assert(s@.subrange(at as int, at + p@.len())[k as int] != p@[k as int]);
            return false;
        }
    }
    assert(s@.subrange(at as int, at + p@.len()) =~= p@);
    true
}

/// Whether `s` starts with `p`.
pub fn chars_starts_with(s: &Vec<char>, p: &str) -> (r: bool)
    ensures
        r == starts_with(s@, p@),
{
    let pc = str_chars(p);
    if pc.len() > s.len() {
        return false;
    }
    matches_at(s, &pc, 0)
}

/// Whether `s` ends with `p`.
pub fn chars_ends_with(s: &Vec<char>, p: &str) -> (r: bool)
    ensures
        r == ends_with(s@, p@),
{
    let pc = str_chars(p);
    if pc.len() > s.len() {
        return false;
    }
    matches_at(s, &pc, s.len() - pc.len())
}

/// Whether `p` occurs in `s`.
pub fn chars_contains(s: &Vec<char>, p: &str) -> (r: bool)
    ensures
        r == contains(s@, p@),
{
    let pc = str_chars(p);
    if pc.len() > s.len() {
        assert forall|i: int| !occurs_at(s@, p@, i) by {}
        return false;
    }
    let last = s.len() - pc.len();
    let mut at: usize = 0;
    while at < last
        invariant
            at <= last,
            last + pc@.len() == s@.len(),
            pc@ == p@,
            forall|i: int| 0 <= i < at ==> !occurs_at(s@, p@, i),
        decreases last - at,
    {
        if matches_at(s, &pc, at) {
            assert(occurs_at(s@, p@, at as int));
            return true;
        }
        at = at + 1;
    }
    if matches_at(s, &pc, last) {
        assert(occurs_at(s@, p@, last as int));
        return true;
    }
    assert forall|i: int| !occurs_at(s@, p@, i) by {
        if 0 <= i < at {
        }
    }
    false
}

/// Whether two character sequences are equal.
pub fn chars_eq(a: &Vec<char>, b: &Vec<char>) -> (r: bool)
    ensures
        r == (a@ == b@),
{
    if a.len() != b.len() {
        return false;
    }
    assert(a@.subrange(0, b@.len() as int) =~= a@);
    matches_at(a, b, 0)
}

/// The decimal digit character for `d < 10`.
pub open spec fn digit_char(d: nat) -> char {
    (('0' as u32) + d) as char
}

/// Decimal rendering of a natural number, most significant digit first.
pub open spec fn decimal(n: nat) -> Seq<char>
    decreases n,
{
    if n < 10 {
        seq![digit_char(n)]
    } else {
        decimal(n / 10).push(digit_char(n % 10))
    }
}

/// Appends the decimal rendering of `n`.
pub fn push_decimal(out: &mut Vec<char>, n: usize)
    ensures
        final(out)@ == old(out)@ + decimal(n as nat),
    decreases n,
{
    if n >= 10 {
        push_decimal(out, n / 10);
    }
    let d: u32 = (n % 10) as u32;
    let code: u32 = 48 + d;
    let c = char_from_digit(code);
    let ghost before = out@;
    out.push(c);
    assert(out@ =~= old(out)@ + decimal(n as nat)) by {
        if n >= 10 {
            assert(decimal(n as nat) == decimal((n / 10) as nat).push(digit_char((n % 10) as nat)));
        }
    }
}

fn char_from_digit(code: u32) -> (c: char)
    requires
        48 <= code <= 57,
    ensures
        c == code as char,
{
    let b: u8 = code as u8;
    b as char
}

/// A string in its debug form: between double quotes, each character escaped.
pub open spec fn quoted(s: Seq<char>) -> Seq<char> {
    seq!['"'] + escaped(s) + seq!['"']
}

/// The characters that `char::escape_debug` yields for `c`.
pub uninterp spec fn char_debug_escape(c: char) -> Seq<char>;

/// `char::escape_debug`: the escape sequence of a character in a debug string. Which
/// characters it escapes, and how, follows std's Unicode printability and grapheme tables,
/// which this contract names but does not state.
#[verifier::external_body]
fn escape_debug_chars(c: char) -> (r: Vec<char>)
    ensures
        r@ == char_debug_escape(c),
{
    c.escape_debug().collect()
}

/// The debug form of one character inside a string: a single quote stands as it is, every
/// other character as `char::escape_debug` writes it.
pub open spec fn escape_char(c: char) -> Seq<char> {
    if c == '\'' {
        seq!['\'']
    } else {
        char_debug_escape(c)
    }
}

/// Every character of `s` escaped.
pub open spec fn escaped(s: Seq<char>) -> Seq<char>
    decreases s.len(),
{
    if s.len() == 0 {
        Seq::empty()
    } else {
        escaped(s.drop_last()) + escape_char(s.last())
    }
}

fn push_escaped_char(out: &mut Vec<char>, c: char)
    ensures
        final(out)@ == old(out)@ + escape_char(c),
{
    if c == '\'' {
        out.push(c);
    } else {
        let escape = escape_debug_chars(c);
        push_chars(out, &escape);
    }
    assert(out@ =~= old(out)@ + escape_char(c));
}

/// Appends `s` between double quotes, escaped.
pub fn push_quoted(out: &mut Vec<char>, s: &Vec<char>)
    ensures
        final(out)@ == old(out)@ + quoted(s@),
{
    let ghost start = out@;
    out.push('"');
    let n = s.len();
    for i in 0..n
        invariant
            n == s@.len(),
            out@ == start + seq!['"'] + escaped(s@.take(i as int)),
    {
        push_escaped_char(out, s[i]);
        assert(s@.take(i + 1).drop_last() =~= s@.take(i as int));
    }
    assert(s@.take(n as int) =~= s@);
    out.push('"');
    assert(out@ =~= start + quoted(s@));
}

} // verus!
