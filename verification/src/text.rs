//! Character-sequence utilities: the code-point order used to sort projects
//! by name, plain string equality and containment, and the case folding the
//! search overlay applies to names and queries.

use vstd::prelude::*;

verus! {

use vstd::string::StrSliceExecFns;

/// Lexicographic order on character sequences by code point: `a` comes no
/// later than `b`. This is the order `str` comparison gives in Rust, since
/// UTF-8 byte order agrees with code-point order.
pub open spec fn lex_le(a: Seq<char>, b: Seq<char>) -> bool
    decreases a.len(),
{
    if a.len() == 0 {
        true
    } else if b.len() == 0 {
        false
    } else if a[0] == b[0] {
        lex_le(a.drop_first(), b.drop_first())
    } else {
        (a[0] as int) < (b[0] as int)
    }
}

/// Any two character sequences are comparable under `lex_le`.
pub proof fn lemma_lex_le_total(a: Seq<char>, b: Seq<char>)
    ensures
        lex_le(a, b) || lex_le(b, a),
    decreases a.len(),
{
    if a.len() != 0 && b.len() != 0 {
        if a[0] == b[0] {
            lemma_lex_le_total(a.drop_first(), b.drop_first());
        } else {
            assert((a[0] as int) != (b[0] as int));
        }
    }
}

/// `lex_le` is transitive.
pub proof fn lemma_lex_le_trans(a: Seq<char>, b: Seq<char>, c: Seq<char>)
    requires
        lex_le(a, b),
        lex_le(b, c),
    ensures
        lex_le(a, c),
    decreases a.len(),
{
    if a.len() == 0 || b.len() == 0 || c.len() == 0 {
    } else if a[0] == b[0] && b[0] == c[0] {
        lemma_lex_le_trans(a.drop_first(), b.drop_first(), c.drop_first());
    }
}

/// `lex_le` restricted to the suffixes from `i` on decides `lex_le` of the
/// whole sequences whenever the first `i` characters agree.
proof fn lemma_lex_le_skip(a: Seq<char>, b: Seq<char>, i: int)
    requires
        0 <= i <= a.len(),
        i <= b.len(),
        forall|k: int| 0 <= k < i ==> a[k] == b[k],
    ensures
        lex_le(a, b) == lex_le(a.skip(i), b.skip(i)),
    decreases i,
{
    if i > 0 {
        assert(a[0] == b[0]);
        lemma_lex_le_skip(a.drop_first(), b.drop_first(), i - 1);
        assert(a.drop_first().skip(i - 1) =~= a.skip(i));
        assert(b.drop_first().skip(i - 1) =~= b.skip(i));
    } else {
        assert(a.skip(0) =~= a);
        assert(b.skip(0) =~= b);
    }
}

/// Equality of two strings as character sequences.
pub fn str_eq(a: &str, b: &str) -> (r: bool)
    ensures
        r == (a@ == b@),
{
    let alen = a.unicode_len();
    let blen = b.unicode_len();
    if alen != blen {
        return false;
    }
    let mut i: usize = 0;
    while i < alen
        invariant
            alen == a@.len(),
            alen == b@.len(),
            i <= alen,
            forall|k: int| 0 <= k < i ==> a@[k] == b@[k],
        decreases alen - i,
    {
        if a.get_char(i) != b.get_char(i) {
            return false;
        }
        i += 1;
    }
    proof {
        assert(a@ =~= b@);
    }
    true
}

/// `a` comes no later than `b` in code-point order; agrees with Rust's own
/// ordering on `str`.
pub fn str_le(a: &str, b: &str) -> (r: bool)
    ensures
        r == lex_le(a@, b@),
{
    let alen = a.unicode_len();
    let blen = b.unicode_len();
    let mut i: usize = 0;
    loop
        invariant
            alen == a@.len(),
            blen == b@.len(),
            i <= alen,
            i <= blen,
            forall|k: int| 0 <= k < i ==> a@[k] == b@[k],
        decreases alen - i,
    {
        if i == alen || i == blen {
            proof {
                lemma_lex_le_skip(a@, b@, i as int);
            }
            return alen <= blen;
        }
        let ca = a.get_char(i);
        let cb = b.get_char(i);
        if ca != cb {
            proof {
                lemma_lex_le_skip(a@, b@, i as int);
                assert(a@.skip(i as int)[0] == ca);
                assert(b@.skip(i as int)[0] == cb);
            }
            return (ca as u32) < (cb as u32);
        }
        i += 1;
    }
}

/// `needle` occurs as a contiguous run inside `haystack` starting at `at`.
pub open spec fn matches_at(haystack: Seq<char>, needle: Seq<char>, at: int) -> bool {
    &&& 0 <= at
    &&& at + needle.len() <= haystack.len()
    &&& haystack.subrange(at, at + needle.len() as int) == needle
}

/// `needle` occurs somewhere inside `haystack`. The empty sequence occurs
/// in every string, at position zero.
pub open spec fn contains_seq(haystack: Seq<char>, needle: Seq<char>) -> bool {
    exists|at: int| matches_at(haystack, needle, at)
}

/// An empty needle is contained in everything.
pub proof fn lemma_contains_empty(haystack: Seq<char>, needle: Seq<char>)
    requires
        needle.len() == 0,
    ensures
        contains_seq(haystack, needle),
{
    assert(haystack.subrange(0, 0) =~= needle);
    assert(matches_at(haystack, needle, 0));
}

/// Substring test over character sequences.
pub fn str_contains(haystack: &str, needle: &str) -> (r: bool)
    ensures
        r == contains_seq(haystack@, needle@),
{
    let hlen = haystack.unicode_len();
    let nlen = needle.unicode_len();
    if nlen == 0 {
        proof {
            lemma_contains_empty(haystack@, needle@);
        }
        return true;
    }
    if nlen > hlen {
        proof {
            assert forall|at: int| !matches_at(haystack@, needle@, at) by {}
        }
        return false;
    }
    let mut at: usize = 0;
    loop
        invariant
            hlen == haystack@.len(),
            nlen == needle@.len(),
            1 <= nlen <= hlen,
            at <= hlen - nlen + 1,
            forall|k: int| 0 <= k < at ==> !matches_at(haystack@, needle@, k),
        decreases hlen - nlen - at + 1,
    {
        if at > hlen - nlen {
            proof {
                assert forall|k: int| !matches_at(haystack@, needle@, k) by {
                    if 0 <= k && k + needle@.len() <= haystack@.len() {
                        assert(k < at);
                    }
                }
            }
            return false;
        }
        let mut j: usize = 0;
        let mut matched = true;
        while j < nlen
            invariant
                hlen == haystack@.len(),
                nlen == needle@.len(),
                at + nlen <= hlen,
                j <= nlen,
                matched ==> forall|k: int| 0 <= k < j ==> haystack@[at + k] == needle@[k],
                !matched ==> !matches_at(haystack@, needle@, at as int),
            decreases nlen - j,
        {
            if haystack.get_char(at + j) != needle.get_char(j) {
                proof {
                    let ghost h = haystack@;
                    let ghost n = needle@;
                    let ghost a = at as int;
                    assert(!matches_at(h, n, a)) by {
                        if matches_at(h, n, a) {
                            assert(h.subrange(a, a + n.len() as int)[j as int] == n[j as int]);
                        }
                    }
                }
                matched = false;
                j = nlen;
            } else {
                j += 1;
            }
        }
        if matched {
            proof {
                assert(haystack@.subrange(at as int, at + nlen) =~= needle@);
                assert(matches_at(haystack@, needle@, at as int));
            }
            return true;
        }
        at += 1;
    }
}

/// Mapping a function over a sequence commutes with appending one element.
pub(crate) proof fn lemma_map_push<A, B>(s: Seq<A>, x: A, f: spec_fn(A) -> B)
    ensures
        s.push(x).map_values(f) == s.map_values(f).push(f(x)),
{
    assert(s.push(x).map_values(f) =~= s.map_values(f).push(f(x)));
}

/// The character sequences of a sequence of strings.
pub open spec fn views_of_strings(v: Seq<String>) -> Seq<Seq<char>> {
    v.map_values(|s: String| s@)
}

/// Clone a vector of strings, keeping every character sequence.
pub(crate) fn clone_strings(v: &Vec<String>) -> (r: Vec<String>)
    ensures
        views_of_strings(r@) == views_of_strings(v@),
{
    let mut r: Vec<String> = Vec::new();
    let mut i: usize = 0;
    while i < v.len()
        invariant
            i <= v.len(),
            views_of_strings(r@) =~= views_of_strings(v@.take(i as int)),
        decreases v.len() - i,
    {
        let s = v[i].clone();
        let ghost old_r = r@;
        r.push(s);
        proof {
            assert(v@.take(i + 1) =~= v@.take(i as int).push(v@[i as int]));
            lemma_map_push(old_r, s, |t: String| t@);
            lemma_map_push(v@.take(i as int), v@[i as int], |t: String| t@);
            assert(views_of_strings(r@) =~= views_of_strings(v@.take(i + 1)));
        }
        i += 1;
    }
    proof {
        assert(v@.take(v@.len() as int) =~= v@);
    }
    r
}

/// What `str::to_lowercase` returns for a given character sequence. The
/// Unicode folding table is not restated here; the name only records that
/// the result is a function of the input characters.
pub uninterp spec fn lowered(s: Seq<char>) -> Seq<char>;

/// Relies on `str::to_lowercase` (std): the result depends on the input
/// characters alone, and lowercasing an empty string yields an empty string.
#[verifier::external_body]
pub(crate) fn to_lower(s: &str) -> (r: String)
    ensures
        r@ == lowered(s@),
        s@.len() == 0 ==> r@.len() == 0,
{
    s.to_lowercase()
}

} // verus!
