//! Character-level helpers shared by the lexicons.
use vstd::prelude::*;

verus! {

/// The character in lower case with an acute or grave accent on a vowel
/// taken off.
pub open spec fn fold_char(c: char) -> char {
    if c == 'á' || c == 'à' || c == 'Á' || c == 'À' {
        'a'
    } else if c == 'é' || c == 'è' || c == 'É' || c == 'È' {
        'e'
    } else if c == 'í' || c == 'ì' || c == 'Í' || c == 'Ì' {
        'i'
    } else if c == 'ó' || c == 'ò' || c == 'Ó' || c == 'Ò' {
        'o'
    } else if c == 'ú' || c == 'ù' || c == 'Ú' || c == 'Ù' {
        'u'
    } else if 'A' <= c <= 'Z' {
        ((c as u8) + 32u8) as char
    } else {
        c
    }
}

/// A word in lower case with every accent folded: the key under which the
/// lexicons look it up.
pub open spec fn folded(s: Seq<char>) -> Seq<char> {
    s.map_values(|c: char| fold_char(c))
}

pub fn fold_char_exec(c: char) -> (r: char)
    ensures
        r == fold_char(c),
{
    if c == 'á' || c == 'à' || c == 'Á' || c == 'À' {
        'a'
    } else if c == 'é' || c == 'è' || c == 'É' || c == 'È' {
        'e'
    } else if c == 'í' || c == 'ì' || c == 'Í' || c == 'Ì' {
        'i'
    } else if c == 'ó' || c == 'ò' || c == 'Ó' || c == 'Ò' {
        'o'
    } else if c == 'ú' || c == 'ù' || c == 'Ú' || c == 'Ù' {
        'u'
    } else if 'A' <= c && c <= 'Z' {
        ((c as u8) + 32u8) as char
    } else {
        c
    }
}

/// The characters of `s` with their accents folded.
pub fn fold(s: &str) -> (r: Vec<char>)
    ensures
        r@ == folded(s@),
{
    let n = s.unicode_len();
    let mut r: Vec<char> = Vec::new();
    let mut i: usize = 0;
    while i < n
        invariant
            n == s@.len(),
            i <= n,
            r@ == folded(s@.subrange(0, i as int)),
        decreases n - i,
    {
        let c = s.get_char(i);
        r.push(fold_char_exec(c));
        proof {
            assert(folded(s@.subrange(0, i + 1)) =~= folded(s@.subrange(0, i as int)).push(fold_char(c)));
        }
        i = i + 1;
    }
    assert(s@.subrange(0, n as int) =~= s@);
    r
}

/// Whether the characters in `v` spell `s`.
pub fn chars_eq_str(v: &Vec<char>, s: &str) -> (r: bool)
    ensures
        r == (v@ == s@),
{
    let n = s.unicode_len();
    if v.len() != n {
        return false;
    }
    let mut i: usize = 0;
    while i < n
        invariant
            n == s@.len(),
            v@.len() == n,
            i <= n,
            forall|k: int| 0 <= k < i ==> v@[k] == s@[k],
        decreases n - i,
    {
        if v[i] != s.get_char(i) {
            return false;
        }
        i = i + 1;
    }
    assert(v@ =~= s@);
    true
}

/// Whether two strings hold the same characters.
pub fn str_eq(a: &str, b: &str) -> (r: bool)
    ensures
        r == (a@ == b@),
{
    let n = a.unicode_len();
    if b.unicode_len() != n {
        return false;
    }
    let mut i: usize = 0;
    while i < n
        invariant
            n == a@.len(),
            b@.len() == n,
            i <= n,
            forall|k: int| 0 <= k < i ==> a@[k] == b@[k],
        decreases n - i,
    {
        if a.get_char(i) != b.get_char(i) {
            return false;
        }
        i = i + 1;
    }
    assert(a@ =~= b@);
    true
}

} // verus!
