//! Text helpers shared by the rest of the library, each proved against a
//! specification over the characters of the strings involved.

use vstd::prelude::*;

verus! {

/// Appends one character to a string (`String::push`).
#[verifier::external_body]
pub(crate) fn push_char(s: &mut String, c: char)
    ensures
        final(s)@ == old(s)@.push(c),
{
    s.push(c);
}

/// The lowercase hexadecimal digit for a value below sixteen.
pub open spec fn nibble_char(n: int) -> char {
    if n < 10 {
        (n + 48) as char
    } else {
        (n + 87) as char
    }
}

/// Lowercase hexadecimal text of a byte sequence: two digits per byte, the
/// high nibble first.
pub open spec fn hex_lower(bytes: Seq<u8>) -> Seq<char> {
    Seq::new(
        2 * bytes.len(),
        |i: int| nibble_char(if i % 2 == 0 { (bytes[i / 2] / 16) as int } else { (bytes[i / 2] % 16) as int }),
    )
}

fn nibble_to_char(n: u8) -> (c: char)
    requires
        n < 16,
    ensures
        c == nibble_char(n as int),
{
    if n < 10 {
        (n + 48) as char
    } else {
        (n + 87) as char
    }
}

/// Renders bytes as lowercase hexadecimal text.
pub fn hex_id(bytes: &[u8]) -> (res: String)
    ensures
        res@ == hex_lower(bytes@),
{
    let mut res = String::new();
    let mut i: usize = 0;
    while i < bytes.len()
        invariant
            i <= bytes@.len(),
            res@ =~= hex_lower(bytes@.take(i as int)),
        decreases bytes@.len() - i,
    {
        let b = bytes[i];
        push_char(&mut res, nibble_to_char(b / 16));
        push_char(&mut res, nibble_to_char(b % 16));
        i = i + 1;
        assert(res@ =~= hex_lower(bytes@.take(i as int)));
    }
    assert(bytes@.take(i as int) =~= bytes@);
    res
}


/// ASCII uppercase of one character; every other character is kept.
pub open spec fn upper_ascii(c: char) -> char {
    if 'a' <= c && c <= 'z' {
        ((c as int) - 32) as char
    } else {
        c
    }
}

/// Maps the ASCII lowercase letters of `s` to uppercase and keeps every
/// other character as it is.
pub fn ascii_uppercase(s: &str) -> (res: String)
    ensures
        res@ == s@.map_values(|c: char| upper_ascii(c)),
{
    let n = s.unicode_len();
    let mut res = String::new();
    let mut i: usize = 0;
    while i < n
        invariant
            n == s@.len(),
            i <= n,
            res@ =~= s@.take(i as int).map_values(|c: char| upper_ascii(c)),
        decreases n - i,
    {
        let c = s.get_char(i);
        let u = if 'a' <= c && c <= 'z' {
            ((c as u8) - 32) as char
        } else {
            c
        };
        push_char(&mut res, u);
        i = i + 1;
        assert(res@ =~= s@.take(i as int).map_values(|c: char| upper_ascii(c)));
    }
    assert(s@.take(n as int) =~= s@);
    res
}

/// `needle` occurs in `hay` as a contiguous run of characters.
pub open spec fn occurs_in(hay: Seq<char>, needle: Seq<char>) -> bool {
    exists|k: int| 0 <= k && k + needle.len() <= hay.len() && #[trigger] hay.subrange(k, k + needle.len()) == needle
}

fn occurs_at(hay: &str, n: usize, needle: &str, m: usize, k: usize) -> (res: bool)
    requires
        n == hay@.len(),
        m == needle@.len(),
        k + m <= n,
    ensures
        res == (hay@.subrange(k as int, k + m) == needle@),
{
    let mut j: usize = 0;
    while j < m
        invariant
            n == hay@.len(),
            m == needle@.len(),
            k + m <= n,
            j <= m,
            forall|t: int| 0 <= t < j ==> hay@[k + t] == needle@[t],
        decreases m - j,
    {
        if hay.get_char(k + j) != needle.get_char(j) {
            assert(hay@.subrange(k as int, k + m)[j as int] != needle@[j as int]);
            return false;
        }
        j = j + 1;
    }
    assert(hay@.subrange(k as int, k + m) =~= needle@);
    true
}

/// Whether `needle` occurs in `hay` (`str::contains` with a string pattern).
pub fn contains(hay: &str, needle: &str) -> (res: bool)
    ensures
        res == occurs_in(hay@, needle@),
{
    let n = hay.unicode_len();
    let m = needle.unicode_len();
    if m > n {
        assert forall|k: int| 0 <= k && k + needle@.len() <= hay@.len() implies
            #[trigger] hay@.subrange(k, k + needle@.len()) != needle@ by {}
        return false;
    }
    let mut k: usize = 0;
    loop
        invariant
            n == hay@.len(),
            m == needle@.len(),
            m <= n,
            k <= n - m,
            forall|t: int| 0 <= t < k ==> #[trigger] hay@.subrange(t, t + m) != needle@,
        decreases n - m - k,
    {
        if occurs_at(hay, n, needle, m, k) {
            return true;
        }
        if k == n - m {
            return false;
        }
        k = k + 1;
    }
}

/// The concatenation of two strings.
pub fn joined(a: &str, b: &str) -> (res: String)
    ensures
        res@ == a@ + b@,
{
    let mut res = String::from_str(a);
    res.append(b);
    res
}

/// Character-wise equality of two strings.
pub fn same_text(a: &str, b: &str) -> (res: bool)
    ensures
        res == (a@ == b@),
{
    let x = String::from_str(a);
    let y = String::from_str(b);
    x == y
}

/// The characters that `char::is_whitespace` accepts: those with the Unicode
/// `White_Space` property.
pub open spec fn is_white_space(c: char) -> bool {
    let v = c as u32;
    ||| 0x09 <= v && v <= 0x0d
    ||| v == 0x20
    ||| v == 0x85
    ||| v == 0xa0
    ||| v == 0x1680
    ||| 0x2000 <= v && v <= 0x200a
    ||| v == 0x2028
    ||| v == 0x2029
    ||| v == 0x202f
    ||| v == 0x205f
    ||| v == 0x3000
}

/// Whether a character has the Unicode `White_Space` property.
pub fn is_white_space_char(c: char) -> (res: bool)
    ensures
        res == is_white_space(c),
{
    let v = c as u32;
    (0x09 <= v && v <= 0x0d) || v == 0x20 || v == 0x85 || v == 0xa0 || v == 0x1680 || (0x2000
        <= v && v <= 0x200a) || v == 0x2028 || v == 0x2029 || v == 0x202f || v == 0x205f || v
        == 0x3000
}

/// Whether nothing but white space is left once `s` is trimmed
/// (`s.trim().is_empty()`).
pub fn is_blank(s: &str) -> (res: bool)
    ensures
        res == (forall|i: int| 0 <= i < s@.len() ==> is_white_space(#[trigger] s@[i])),
{
    let n = s.unicode_len();
    let mut i: usize = 0;
    while i < n
        invariant
            n == s@.len(),
            i <= n,
            forall|t: int| 0 <= t < i ==> is_white_space(#[trigger] s@[t]),
        decreases n - i,
    {
        if !is_white_space_char(s.get_char(i)) {
            return false;
        }
        i = i + 1;
    }
    true
}

} // verus!
