//! Small text operations on character sequences.
use vstd::prelude::*;

verus! {

/// Unicode `White_Space`, the set of characters that `str::trim` removes.
pub open spec fn is_white_space(c: char) -> bool {
    let u = c as u32;
    (0x09 <= u <= 0x0D) || u == 0x20 || u == 0x85 || u == 0xA0 || u == 0x1680 || (0x2000 <= u
        <= 0x200A) || u == 0x2028 || u == 0x2029 || u == 0x202F || u == 0x205F || u == 0x3000
}

/// `t` is `s` with its leading and trailing white space removed.
pub open spec fn is_trim_of(s: Seq<char>, t: Seq<char>) -> bool {
    exists|i: int, j: int|
        0 <= i <= j <= s.len() && t == s.subrange(i, j) && (forall|k: int|
            0 <= k < i ==> is_white_space(#[trigger] s[k])) && (forall|k: int|
            j <= k < s.len() ==> is_white_space(#[trigger] s[k])) && (i < j ==> !is_white_space(s[i])
            && !is_white_space(s[j - 1]))
}

/// `s` with its leading and trailing white space removed.
pub open spec fn trimmed(s: Seq<char>) -> Seq<char> {
    choose|t: Seq<char>| is_trim_of(s, t)
}

/// A text has one trimmed form.
pub proof fn lemma_trimmed(s: Seq<char>, t: Seq<char>)
    requires
        is_trim_of(s, t),
    ensures
        trimmed(s) == t,
{
    let u = choose|u: Seq<char>| is_trim_of(s, u);
    let (i, j) = choose|i: int, j: int|
        0 <= i <= j <= s.len() && t == s.subrange(i, j) && (forall|k: int|
            0 <= k < i ==> is_white_space(#[trigger] s[k])) && (forall|k: int|
            j <= k < s.len() ==> is_white_space(#[trigger] s[k])) && (i < j
            ==> !is_white_space(s[i]) && !is_white_space(s[j - 1]));
    let (a, b) = choose|a: int, b: int|
        0 <= a <= b <= s.len() && u == s.subrange(a, b) && (forall|k: int|
            0 <= k < a ==> is_white_space(#[trigger] s[k])) && (forall|k: int|
            b <= k < s.len() ==> is_white_space(#[trigger] s[k])) && (a < b
            ==> !is_white_space(s[a]) && !is_white_space(s[b - 1]));
    if i < j && a < b {
        assert(i == a);
        assert(j == b);
    } else if i < j {
        assert(!is_white_space(s[i]));
        assert(false);
    } else if a < b {
        assert(!is_white_space(s[a]));
        assert(false);
    } else {
        assert(t =~= u);
    }
}

/// Relies on `str::trim`: it removes the leading and trailing characters of
/// the Unicode `White_Space` property and keeps the rest as it stands.
#[verifier::external_body]
pub(crate) fn trim(s: &str) -> (r: String)
    ensures
        is_trim_of(s@, r@),
{
    s.trim().to_string()
}

/// Whether two texts hold the same characters.
pub fn same_text(a: &str, b: &str) -> (r: bool)
    ensures
        r == (a@ == b@),
{
    let n = a.unicode_len();
    if n != b.unicode_len() {
        return false;
    }
    let mut i: usize = 0;
    while i < n
        invariant
            n == a@.len(),
            n == b@.len(),
            i <= n,
            a@.subrange(0, i as int) == b@.subrange(0, i as int),
        decreases n - i,
    {
        if a.get_char(i) != b.get_char(i) {
            return false;
        }
        assert(a@.subrange(0, i + 1) == a@.subrange(0, i as int).push(a@[i as int]));
        assert(b@.subrange(0, i + 1) == b@.subrange(0, i as int).push(b@[i as int]));
        i += 1;
    }
    assert(a@ == a@.subrange(0, n as int));
    assert(b@ == b@.subrange(0, n as int));
    true
}

/// The rest of `s` after `prefix`, where `s` starts with it.
pub fn strip_prefix(s: &str, prefix: &str) -> (r: Option<String>)
    ensures
        r is Some <==> s@.len() >= prefix@.len() && s@.subrange(0, prefix@.len() as int) == prefix@,
        r is Some ==> r->0@ == s@.subrange(prefix@.len() as int, s@.len() as int),
{
    let n = s.unicode_len();
    let p = prefix.unicode_len();
    if n < p {
        return None;
    }
    let head = s.substring_char(0, p);
    if !same_text(head, prefix) {
        return None;
    }
    Some(s.substring_char(p, n).to_string())
}

/// Position of the first `c` in `s`.
pub fn find_char(s: &str, c: char) -> (r: Option<usize>)
    ensures
        r is Some <==> s@.contains(c),
        r is Some ==> r->0 < s@.len() && s@[r->0 as int] == c && !s@.subrange(0, r->0 as int).contains(c),
{
    let n = s.unicode_len();
    let mut i: usize = 0;
    while i < n
        invariant
            n == s@.len(),
            i <= n,
            !s@.subrange(0, i as int).contains(c),
        decreases n - i,
    {
        if s.get_char(i) == c {
            return Some(i);
        }
        assert(s@.subrange(0, i + 1) == s@.subrange(0, i as int).push(s@[i as int]));
        i += 1;
    }
    assert(s@ == s@.subrange(0, n as int));
    None
}

} // verus!
