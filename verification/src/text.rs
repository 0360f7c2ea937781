//! Character-level helpers: string comparison, identifier shape, and
//! searching, all verified against `Seq<char>` views.

use vstd::prelude::*;
use vstd::string::StrSliceExecFns;
use vstd::string::StringExecFns;

verus! {

/// Compare two string slices character by character.
pub fn str_eq(a: &str, b: &str) -> (r: bool)
    ensures
        r == (a@ == b@),
{
    let n = a.unicode_len();
    if n != b.unicode_len() {
        return false;
    }
    let mut i: usize = 0;
    while i < n
        invariant
            i <= n,
            n == a@.len(),
            n == b@.len(),
            forall|j: int| 0 <= j < i ==> a@[j] == b@[j],
        decreases n - i,
    {
        if a.get_char(i) != b.get_char(i) {
            return false;
        }
        i = i + 1;
    }
    proof {
        assert(a@ =~= b@);
    }
    true
}

/// Characters that may begin an identifier: ASCII letters and `_`.
pub open spec fn spec_ident_start(c: char) -> bool {
    (97 <= c as u32 && c as u32 <= 122) || (65 <= c as u32 && c as u32 <= 90) || c as u32 == 95
}

/// Characters that may continue an identifier: starters and ASCII digits.
pub open spec fn spec_ident_continue(c: char) -> bool {
    spec_ident_start(c) || (48 <= c as u32 && c as u32 <= 57)
}

/// The shape of an identifier (or of a path keyword such as `super`):
/// nonempty, a letter or underscore first, letters, digits and
/// underscores after.
pub open spec fn spec_is_ident(s: Seq<char>) -> bool {
    &&& s.len() > 0
    &&& spec_ident_start(s[0])
    &&& forall|i: int| 1 <= i < s.len() ==> spec_ident_continue(#[trigger] s[i])
}

fn ident_start(c: char) -> (r: bool)
    ensures
        r == spec_ident_start(c),
{
    let n = c as u32;
    (97 <= n && n <= 122) || (65 <= n && n <= 90) || n == 95
}

fn ident_continue(c: char) -> (r: bool)
    ensures
        r == spec_ident_continue(c),
{
    let n = c as u32;
    ident_start(c) || (48 <= n && n <= 57)
}

/// Decide whether a string has identifier shape.
pub fn is_ident(s: &str) -> (r: bool)
    ensures
        r == spec_is_ident(s@),
{
    let n = s.unicode_len();
    if n == 0 {
        return false;
    }
    if !ident_start(s.get_char(0)) {
        return false;
    }
    let mut i: usize = 1;
    while i < n
        invariant
            1 <= i <= n,
            n == s@.len(),
            spec_ident_start(s@[0]),
            forall|j: int| 1 <= j < i ==> spec_ident_continue(#[trigger] s@[j]),
        decreases n - i,
    {
        if !ident_continue(s.get_char(i)) {
            return false;
        }
        i = i + 1;
    }
    true
}

/// Append a suffix to an identifier, as in deriving the default
/// namespace name from the enum name.
pub fn ident_append(ident: &String, suffix: &str) -> (r: String)
    ensures
        r@ == ident@ + suffix@,
{
    let mut r = ident.clone();
    r.append(suffix);
    r
}

/// The index of the last occurrence of `c`.
pub open spec fn spec_rfind(s: Seq<char>, c: char) -> Option<int>
    decreases s.len(),
{
    if s.len() == 0 {
        None
    } else if s[s.len() - 1] == c {
        Some(s.len() - 1)
    } else {
        spec_rfind(s.drop_last(), c)
    }
}

proof fn lemma_rfind_above(s: Seq<char>, c: char, i: int)
    requires
        0 <= i <= s.len(),
        forall|j: int| i <= j < s.len() ==> s[j] != c,
    ensures
        spec_rfind(s, c) == spec_rfind(s.take(i), c),
    decreases s.len() - i,
{
    if i == s.len() {
        assert(s.take(i) =~= s);
    } else {
        assert(s[s.len() - 1] != c);
        assert(s.drop_last() =~= s.take(s.len() - 1));
        lemma_rfind_above(s.take(s.len() - 1), c, i);
        assert(s.take(s.len() - 1).take(i) =~= s.take(i));
    }
}

proof fn lemma_rfind_found(s: Seq<char>, c: char, i: int)
    requires
        0 <= i < s.len(),
        s[i] == c,
        forall|j: int| i < j < s.len() ==> s[j] != c,
    ensures
        spec_rfind(s, c) == Some(i),
    decreases s.len(),
{
    if i == s.len() - 1 {
    } else {
        assert(s.drop_last() =~= s.take(s.len() - 1));
        lemma_rfind_found(s.take(s.len() - 1), c, i);
    }
}

/// Find the last occurrence of `c` in `s`, if any.
pub fn rfind_char(s: &str, c: char) -> (r: Option<usize>)
    ensures
        match r {
            Some(i) => i < s@.len() && spec_rfind(s@, c) == Some(i as int),
            None => spec_rfind(s@, c) is None,
        },
{
    let n = s.unicode_len();
    let mut i: usize = n;
    while i > 0
        invariant
            i <= n,
            n == s@.len(),
            forall|j: int| i <= j < s@.len() ==> s@[j] != c,
        decreases i,
    {
        i = i - 1;
        if s.get_char(i) == c {
            proof {
                lemma_rfind_found(s@, c, i as int);
            }
            return Some(i);
        }
    }
    proof {
        lemma_rfind_above(s@, c, 0);
        assert(s@.take(0) =~= Seq::<char>::empty());
    }
    None
}

} // verus!
