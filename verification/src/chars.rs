//! Character classes and first-match search over the characters of a string.

use vstd::prelude::*;
use vstd::std_specs::iter::IteratorSpec;

verus! {

/// The first character of `s` that satisfies `p`, if any (what
/// `s.chars().find(p)` yields).
pub open spec fn find_first(s: Seq<char>, p: spec_fn(char) -> bool) -> Option<char>
    decreases s.len(),
{
    if s.len() == 0 {
        None
    } else if p(s[0]) {
        Some(s[0])
    } else {
        find_first(s.drop_first(), p)
    }
}

/// `find_first` finds nothing exactly when no character satisfies `p`, and
/// what it finds is the earliest character that does.
pub proof fn lemma_find_first(s: Seq<char>, p: spec_fn(char) -> bool)
    ensures
        find_first(s, p) is None <==> (forall|i: int| 0 <= i < s.len() ==> !p(#[trigger] s[i])),
        find_first(s, p) matches Some(c) ==> exists|i: int|
            0 <= i < s.len() && #[trigger] s[i] == c && p(c) && (forall|j: int|
                0 <= j < i ==> !p(#[trigger] s[j])),
    decreases s.len(),
{
    if s.len() > 0 {
        let t = s.drop_first();
        lemma_find_first(t, p);
        assert forall|i: int| 0 < i < s.len() implies s[i] == #[trigger] t[i - 1] by {}
        if !p(s[0]) {
            if let Some(c) = find_first(t, p) {
                let k = choose|k: int|
                    0 <= k < t.len() && #[trigger] t[k] == c && p(c) && (forall|j: int|
                        0 <= j < k ==> !p(#[trigger] t[j]));
                assert(s[k + 1] == c);
                assert forall|j: int| 0 <= j < k + 1 implies !p(#[trigger] s[j]) by {
                    if j > 0 {
                        assert(s[j] == t[j - 1]);
                    }
                }
            } else {
                assert forall|i: int| 0 <= i < s.len() implies !p(#[trigger] s[i]) by {
                    if i > 0 {
                        assert(s[i] == t[i - 1]);
                    }
                }
            }
        }
    }
}

/// Scans the characters of `s` in order and returns the first one for which
/// `f` holds; `f` computes the predicate `p`.
pub(crate) fn find_char<F: Fn(char) -> bool>(s: &str, f: F, Ghost(p): Ghost<spec_fn(char) -> bool>) -> (r:
    Option<char>)
    requires
        forall|c: char| #[trigger] f.requires((c,)),
        forall|c: char, b: bool| f.ensures((c,), b) ==> b == p(c),
    ensures
        r == find_first(s@, p),
{
    broadcast use vstd::string::group_string_axioms;

    assert(s@.skip(0) =~= s@);
    for c in it: s.chars()
        invariant
            it.seq() == s@,
            forall|c: char| #[trigger] f.requires((c,)),
            forall|c: char, b: bool| f.ensures((c,), b) ==> b == p(c),
            find_first(s@, p) == find_first(s@.skip(it.index() as int), p),
    {
        assert(s@.skip(it.index() as int)[0] == c);
        assert(s@.skip(it.index() as int).drop_first() =~= s@.skip(it.index() + 1));
        if f(c) {
            return Some(c);
        }
    }
    None
}

/// Unicode's `White_Space` property (what `char::is_whitespace` tests).
pub open spec fn is_unicode_whitespace(c: char) -> bool {
    let v = c as u32;
    ||| 0x09 <= v <= 0x0D
    ||| v == 0x20
    ||| v == 0x85
    ||| v == 0xA0
    ||| v == 0x1680
    ||| 0x2000 <= v <= 0x200A
    ||| v == 0x2028
    ||| v == 0x2029
    ||| v == 0x202F
    ||| v == 0x205F
    ||| v == 0x3000
}

/// Whether `c` is Unicode white space.
pub fn is_whitespace(c: char) -> (b: bool)
    ensures
        b == is_unicode_whitespace(c),
{
    let v: u32 = c as u32;
    (0x09 <= v && v <= 0x0D) || v == 0x20 || v == 0x85 || v == 0xA0 || v == 0x1680 || (0x2000 <= v
        && v <= 0x200A) || v == 0x2028 || v == 0x2029 || v == 0x202F || v == 0x205F || v == 0x3000
}

/// An ASCII letter or digit: `[A-Za-z0-9]`.
pub open spec fn is_ascii_alnum(c: char) -> bool {
    ||| 'a' <= c <= 'z'
    ||| 'A' <= c <= 'Z'
    ||| '0' <= c <= '9'
}

/// Whether `c` is an ASCII letter or digit.
pub fn is_ascii_alphanumeric(c: char) -> (b: bool)
    ensures
        b == is_ascii_alnum(c),
{
    ('a' <= c && c <= 'z') || ('A' <= c && c <= 'Z') || ('0' <= c && c <= '9')
}

} // verus!
