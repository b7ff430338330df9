//! Small verified text utilities: string equality, character search and
//! ASCII lowercasing over character sequences.

use vstd::prelude::*;

verus! {

/// Whether two strings hold the same characters.
pub fn str_eq(a: &str, b: &str) -> (r: bool)
    ensures
        r == (a@ == b@),
{
    let n = a.unicode_len();
    if n != b.unicode_len() {
        return false;
    }
    let mut i: usize = 0;
    while i < n
        invariant
            n == a@.len(),
            n == b@.len(),
            i <= n,
            forall|j: int| 0 <= j < i ==> a@[j] == b@[j],
        decreases n - i,
    {
        if a.get_char(i) != b.get_char(i) {
            return false;
        }
        i += 1;
    }
    proof {
        assert(a@ =~= b@);
    }
    true
}

/// The position of the first occurrence of `c`, scanning left to right.
pub open spec fn spec_find_char(s: Seq<char>, c: char) -> Option<int>
    decreases s.len(),
{
    if s.len() == 0 {
        None
    } else if s[0] == c {
        Some(0int)
    } else {
        match spec_find_char(s.drop_first(), c) {
            Some(i) => Some(i + 1),
            None => None,
        }
    }
}

/// A position that holds `c` after a `c`-free prefix is the one
/// `spec_find_char` yields.
pub proof fn lemma_find_char_first(s: Seq<char>, c: char, i: int)
    requires
        0 <= i < s.len(),
        s[i] == c,
        forall|j: int| 0 <= j < i ==> s[j] != c,
    ensures
        spec_find_char(s, c) == Some(i),
    decreases i,
{
    if i > 0 {
        assert(forall|j: int| 0 <= j < i - 1 ==> s.drop_first()[j] != c);
        lemma_find_char_first(s.drop_first(), c, i - 1);
    }
}

/// A sequence without `c` has no first occurrence of it.
pub proof fn lemma_find_char_none(s: Seq<char>, c: char)
    requires
        forall|j: int| 0 <= j < s.len() ==> s[j] != c,
    ensures
        spec_find_char(s, c) is None,
    decreases s.len(),
{
    if s.len() > 0 {
        assert(forall|j: int| 0 <= j < s.drop_first().len() ==> s.drop_first()[j] != c);
        lemma_find_char_none(s.drop_first(), c);
    }
}

/// What a found first occurrence means: the position is in range, holds
/// `c`, and nothing before it does.
pub proof fn lemma_find_char_sound(s: Seq<char>, c: char)
    ensures
        spec_find_char(s, c) matches Some(i) ==> 0 <= i < s.len() && s[i] == c && forall|j: int|
            0 <= j < i ==> s[j] != c,
    decreases s.len(),
{
    if s.len() > 0 && s[0] != c {
        lemma_find_char_sound(s.drop_first(), c);
        match spec_find_char(s.drop_first(), c) {
            Some(k) => {
                assert(spec_find_char(s, c) == Some(k + 1));
                assert forall|j: int| 0 <= j < k + 1 implies s[j] != c by {
                    if j > 0 {
                        assert(s.drop_first()[j - 1] != c);
                    }
                }
            },
            None => {},
        }
    }
}

/// Finds the first occurrence of a character in a string.
pub fn find_char(s: &str, c: char) -> (r: Option<usize>)
    ensures
        match r {
            Some(i) => spec_find_char(s@, c) == Some(i as int),
            None => spec_find_char(s@, c) is None,
        },
{
    let n = s.unicode_len();
    let mut i: usize = 0;
    while i < n
        invariant
            n == s@.len(),
            i <= n,
            forall|j: int| 0 <= j < i ==> s@[j] != c,
        decreases n - i,
    {
        if s.get_char(i) == c {
            proof {
                lemma_find_char_first(s@, c, i as int);
            }
            return Some(i);
        }
        i += 1;
    }
    proof {
        lemma_find_char_none(s@, c);
    }
    None
}

/// The position of the last occurrence of `c`, scanning right to left.
pub open spec fn spec_rfind_char(s: Seq<char>, c: char) -> Option<int>
    decreases s.len(),
{
    if s.len() == 0 {
        None
    } else if s[s.len() - 1] == c {
        Some(s.len() - 1)
    } else {
        spec_rfind_char(s.drop_last(), c)
    }
}

/// A position that holds `c` with nothing after it doing so is the one
/// `spec_rfind_char` yields.
pub proof fn lemma_rfind_char_last(s: Seq<char>, c: char, i: int)
    requires
        0 <= i < s.len(),
        s[i] == c,
        forall|j: int| i < j < s.len() ==> s[j] != c,
    ensures
        spec_rfind_char(s, c) == Some(i),
    decreases s.len(),
{
    if i < s.len() - 1 {
        assert(s[s.len() - 1] != c);
        assert(forall|j: int| i < j < s.drop_last().len() ==> s.drop_last()[j] != c);
        lemma_rfind_char_last(s.drop_last(), c, i);
    }
}

/// A sequence without `c` has no last occurrence of it.
pub proof fn lemma_rfind_char_none(s: Seq<char>, c: char)
    requires
        forall|j: int| 0 <= j < s.len() ==> s[j] != c,
    ensures
        spec_rfind_char(s, c) is None,
    decreases s.len(),
{
    if s.len() > 0 {
        assert(forall|j: int| 0 <= j < s.drop_last().len() ==> s.drop_last()[j] != c);
        lemma_rfind_char_none(s.drop_last(), c);
    }
}

/// Finds the last occurrence of a character in a string.
pub fn rfind_char(s: &str, c: char) -> (r: Option<usize>)
    ensures
        match r {
            Some(i) => spec_rfind_char(s@, c) == Some(i as int) && i < s@.len(),
            None => spec_rfind_char(s@, c) is None,
        },
{
    let n = s.unicode_len();
    let mut j: usize = n;
    while j > 0
        invariant
            n == s@.len(),
            j <= n,
            forall|m: int| j <= m < n ==> s@[m] != c,
        decreases j,
    {
        j -= 1;
        if s.get_char(j) == c {
            proof {
                lemma_rfind_char_last(s@, c, j as int);
            }
            return Some(j);
        }
    }
    proof {
        lemma_rfind_char_none(s@, c);
    }
    None
}

/// The ASCII lowercase counterpart of a character: letters `A` to `Z` gain
/// the case bit, everything else is unchanged.
pub open spec fn spec_lower_char(c: char) -> char {
    if 'A' <= c <= 'Z' {
        ((c as u8) + 32) as char
    } else {
        c
    }
}

/// A sequence of characters, each ASCII-lowercased.
pub open spec fn spec_lower(s: Seq<char>) -> Seq<char> {
    s.map_values(|c: char| spec_lower_char(c))
}

/// ASCII-lowercases one character.
pub fn lower_char(c: char) -> (r: char)
    ensures
        r == spec_lower_char(c),
{
    if 'A' <= c && c <= 'Z' {
        ((c as u8) + 32) as char
    } else {
        c
    }
}

/// Whether `a`, ASCII-lowercased, equals `b` as given.
pub fn str_eq_lower(a: &str, b: &str) -> (r: bool)
    ensures
        r == (spec_lower(a@) == b@),
{
    let n = a.unicode_len();
    if n != b.unicode_len() {
        proof {
            assert(spec_lower(a@).len() == a@.len());
        }
        return false;
    }
    let mut i: usize = 0;
    while i < n
        invariant
            n == a@.len(),
            n == b@.len(),
            i <= n,
            forall|j: int| 0 <= j < i ==> spec_lower_char(a@[j]) == b@[j],
        decreases n - i,
    {
        if lower_char(a.get_char(i)) != b.get_char(i) {
            proof {
                assert(spec_lower(a@)[i as int] != b@[i as int]);
            }
            return false;
        }
        i += 1;
    }
    proof {
        assert(spec_lower(a@) =~= b@);
    }
    true
}

} // verus!
