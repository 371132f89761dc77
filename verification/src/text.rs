//! ASCII case folding over the characters of a string, as `str::to_ascii_lowercase`
//! and `str::to_ascii_uppercase` do it: only `A`..=`Z` and `a`..=`z` change.

use vstd::prelude::*;

verus! {

/// `c` with an ASCII upper-case letter mapped to its lower-case letter.
pub open spec fn ascii_lower(c: char) -> char {
    if 'A' <= c && c <= 'Z' {
        ((c as u32) + 32) as char
    } else {
        c
    }
}

/// `c` with an ASCII lower-case letter mapped to its upper-case letter.
pub open spec fn ascii_upper(c: char) -> char {
    if 'a' <= c && c <= 'z' {
        ((c as u32) - 32) as char
    } else {
        c
    }
}

/// The characters of `s` after `to_ascii_lowercase`.
pub open spec fn to_ascii_lowercase(s: Seq<char>) -> Seq<char> {
    s.map_values(|c: char| ascii_lower(c))
}

/// The characters of `s` after `to_ascii_uppercase`.
pub open spec fn to_ascii_uppercase(s: Seq<char>) -> Seq<char> {
    s.map_values(|c: char| ascii_upper(c))
}

fn lower_char(c: char) -> (r: char)
    ensures
        r == ascii_lower(c),
{
    if 'A' <= c && c <= 'Z' {
        ((c as u8) + 32) as char
    } else {
        c
    }
}

fn upper_char(c: char) -> (r: char)
    ensures
        r == ascii_upper(c),
{
    if 'a' <= c && c <= 'z' {
        ((c as u8) - 32) as char
    } else {
        c
    }
}

/// Whether `s`, folded to ASCII lower case, is exactly `t`.
pub fn lowercase_equals(s: &str, t: &str) -> (r: bool)
    ensures
        r == (to_ascii_lowercase(s@) == t@),
{
    let n = s.unicode_len();
    let m = t.unicode_len();
    if n != m {
        return false;
    }
    let mut i: usize = 0;
    while i < n
        invariant
            n == s@.len(),
            m == t@.len(),
            n == m,
            i <= n,
            forall|k: int| 0 <= k < i ==> ascii_lower(#[trigger] s@[k]) == t@[k],
        decreases n - i,
    {
        let c = lower_char(s.get_char(i));
        let d = t.get_char(i);
        if c != d {
            assert(to_ascii_lowercase(s@)[i as int] != t@[i as int]);
            return false;
        }
        i = i + 1;
    }
    assert(to_ascii_lowercase(s@) =~= t@);
    true
}

/// Whether `s`, folded to ASCII upper case, is exactly `t`.
pub fn uppercase_equals(s: &str, t: &str) -> (r: bool)
    ensures
        r == (to_ascii_uppercase(s@) == t@),
{
    let n = s.unicode_len();
    let m = t.unicode_len();
    if n != m {
        return false;
    }
    let mut i: usize = 0;
    while i < n
        invariant
            n == s@.len(),
            m == t@.len(),
            n == m,
            i <= n,
            forall|k: int| 0 <= k < i ==> ascii_upper(#[trigger] s@[k]) == t@[k],
        decreases n - i,
    {
        let c = upper_char(s.get_char(i));
        let d = t.get_char(i);
        if c != d {
            assert(to_ascii_uppercase(s@)[i as int] != t@[i as int]);
            return false;
        }
        i = i + 1;
    }
    assert(to_ascii_uppercase(s@) =~= t@);
    true
}

/// Folding to lower case twice is folding once.
pub proof fn lemma_lowercase_idempotent(s: Seq<char>)
    ensures
        to_ascii_lowercase(to_ascii_lowercase(s)) == to_ascii_lowercase(s),
{
    assert forall|i: int| 0 <= i < s.len() implies ascii_lower(ascii_lower(#[trigger] s[i]))
        == ascii_lower(s[i]) by {
        let c = s[i];
        if 'A' <= c && c <= 'Z' {
            assert(('a' as u32) <= (c as u32) + 32 <= ('z' as u32));
        }
    }
    assert(to_ascii_lowercase(to_ascii_lowercase(s)) =~= to_ascii_lowercase(s));
}

/// Folding to upper case twice is folding once.
pub proof fn lemma_uppercase_idempotent(s: Seq<char>)
    ensures
        to_ascii_uppercase(to_ascii_uppercase(s)) == to_ascii_uppercase(s),
{
    assert forall|i: int| 0 <= i < s.len() implies ascii_upper(ascii_upper(#[trigger] s[i]))
        == ascii_upper(s[i]) by {
        let c = s[i];
        if 'a' <= c && c <= 'z' {
            assert(('A' as u32) <= (c as u32) - 32 <= ('Z' as u32));
        }
    }
    assert(to_ascii_uppercase(to_ascii_uppercase(s)) =~= to_ascii_uppercase(s));
}

} // verus!
