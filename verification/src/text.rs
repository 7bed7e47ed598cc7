//! Substring replacement over sequences of characters.
//!
//! Strings are modelled by their view, a `Seq<char>`, and worked on as
//! vectors of characters. The one operation that the shortcut code needs is
//! the replacement of every occurrence of a pattern, found by a
//! left-to-right scan that skips past each match.

use vstd::prelude::*;
use vstd::std_specs::iter::IteratorSpec;

verus! {

/// `pat` stands in `s` at position `i`.
pub open spec fn occurs_at(s: Seq<char>, pat: Seq<char>, i: int) -> bool {
    &&& 0 <= i
    &&& i + pat.len() <= s.len()
    &&& forall|j: int| 0 <= j < pat.len() ==> s[i + j] == #[trigger] pat[j]
}

/// `pat` stands nowhere in `s`.
pub open spec fn free_of(s: Seq<char>, pat: Seq<char>) -> bool {
    forall|i: int| !occurs_at(s, pat, i)
}

/// `s` with every match of `pat` replaced by `with`. Matches are found from
/// the left, and the scan resumes behind each match, so matches never
/// overlap. An empty pattern matches nothing.
pub open spec fn replaced(s: Seq<char>, pat: Seq<char>, with: Seq<char>) -> Seq<char>
    decreases s.len(),
{
    if pat.len() == 0 || s.len() == 0 {
        s
    } else if occurs_at(s, pat, 0) {
        with + replaced(s.skip(pat.len() as int), pat, with)
    } else {
        seq![s[0]] + replaced(s.skip(1), pat, with)
    }
}

/// The characters of `s`, in order.
pub fn chars_of(s: &str) -> (out: Vec<char>)
    ensures
        out@ == s@,
{
    let mut out: Vec<char> = Vec::new();
    for c in it: s.chars()
        invariant
            out@ == it.seq().take(it.index() as int),
            it.seq() == s@,
    {
        out.push(c);
    }
    out
}

/// `String::push` of std appends one character at the end of the string.
pub assume_specification[ String::push ](s: &mut String, c: char)
    ensures
        final(s)@ == old(s)@.push(c),
;

/// The string made of `chars`, in order.
pub fn string_of(chars: &Vec<char>) -> (out: String)
    ensures
        out@ == chars@,
{
    let mut out = String::new();
    let mut i: usize = 0;
    while i < chars.len()
        invariant
            i <= chars@.len(),
            out@ == chars@.take(i as int),
        decreases chars@.len() - i,
    {
        out.push(chars[i]);
        i += 1;
    }
    proof {
        assert(chars@.take(chars@.len() as int) == chars@);
    }
    out
}

/// Whether `pat` stands in `s` at position `i`.
pub fn matches_at(s: &Vec<char>, pat: &Vec<char>, i: usize) -> (found: bool)
    ensures
        found == occurs_at(s@, pat@, i as int),
{
    if i > s.len() || pat.len() > s.len() - i {
        return false;
    }
    let mut j: usize = 0;
    while j < pat.len()
        invariant
            i + pat@.len() <= s@.len() <= usize::MAX,
            j <= pat@.len(),
            forall|k: int| 0 <= k < j ==> s@[i + k] == #[trigger] pat@[k],
        decreases pat@.len() - j,
    {
        if s[i + j] != pat[j] {
            return false;
        }
        j += 1;
    }
    true
}

/// Replaces every match of `pat` in `s` by `with`. With an empty pattern
/// the result is a copy of `s`.
pub fn replace_all(s: &Vec<char>, pat: &Vec<char>, with: &Vec<char>) -> (out: Vec<char>)
    ensures
        out@ == replaced(s@, pat@, with@),
{
    let mut out: Vec<char> = Vec::new();
    let mut i: usize = 0;
    proof {
        assert(s@.skip(0) == s@);
        assert(out@ + replaced(s@, pat@, with@) == replaced(s@, pat@, with@));
    }
    while i < s.len()
        invariant
            i <= s@.len(),
            replaced(s@, pat@, with@) == out@ + replaced(s@.skip(i as int), pat@, with@),
        decreases s@.len() - i,
    {
        let ghost rest = s@.skip(i as int);
        let ghost before = out@;
        proof {
            lemma_occurs_shift(s@, pat@, i as int, 0);
        }
        if pat.len() > 0 && matches_at(s, pat, i) {
            let mut k: usize = 0;
            while k < with.len()
                invariant
                    k <= with@.len(),
                    out@ == before + with@.take(k as int),
                decreases with@.len() - k,
            {
                out.push(with[k]);
                k += 1;
            }
            i += pat.len();
            proof {
                assert(with@.take(with@.len() as int) == with@);
                assert(rest.skip(pat@.len() as int) == s@.skip(i as int));
                assert(before + (with@ + replaced(s@.skip(i as int), pat@, with@)) == (before
                    + with@) + replaced(s@.skip(i as int), pat@, with@));
            }
        } else {
            out.push(s[i]);
            i += 1;
            proof {
                assert(rest.skip(1) == s@.skip(i as int));
                if pat@.len() == 0 {
                    assert(seq![rest[0]] + rest.skip(1) == rest);
                }
                assert(before + (seq![rest[0]] + replaced(s@.skip(i as int), pat@, with@)) == (
                before + seq![rest[0]]) + replaced(s@.skip(i as int), pat@, with@));
            }
        }
    }
    proof {
        assert(s@.skip(i as int).len() == 0);
    }
    out
}

/// An occurrence in a suffix of `s` is an occurrence in `s`, moved by the
/// length of what was skipped.
pub proof fn lemma_occurs_shift(s: Seq<char>, pat: Seq<char>, n: int, i: int)
    requires
        0 <= n <= s.len(),
        0 <= i,
    ensures
        occurs_at(s.skip(n), pat, i) == occurs_at(s, pat, n + i),
{
    if occurs_at(s.skip(n), pat, i) {
        assert forall|j: int| 0 <= j < pat.len() implies s[n + i + j] == #[trigger] pat[j] by {
            assert(s.skip(n)[i + j] == pat[j]);
        }
    }
    if occurs_at(s, pat, n + i) {
        assert forall|j: int| 0 <= j < pat.len() implies s.skip(n)[i + j] == #[trigger] pat[j] by {
            assert(s[n + i + j] == pat[j]);
        }
    }
}

/// Laid `d` places to the right of the start of `with`, `pat` differs from
/// `with` at place `j` of `with`.
pub open spec fn clash_at(pat: Seq<char>, with: Seq<char>, d: int, j: int) -> bool {
    &&& 0 <= j < with.len()
    &&& 0 <= j - d < pat.len()
    &&& with[j] != pat[j - d]
}

/// Laid `d` places to the right of the start of `with`, `pat` differs from
/// `with` somewhere on the stretch that the two share.
pub open spec fn clashes(pat: Seq<char>, with: Seq<char>, d: int) -> bool {
    exists|j: int| clash_at(pat, with, d, j)
}

/// However `pat` is laid over `with`, the two differ on the stretch they
/// share: an occurrence of `pat` in a text never touches a copy of `with`
/// in that text.
pub open spec fn never_overlaps(pat: Seq<char>, with: Seq<char>) -> bool {
    forall|d: int| -pat.len() < d < with.len() ==> #[trigger] clashes(pat, with, d)
}

/// A text free of the pattern is left as it is.
pub proof fn lemma_replaced_identity(s: Seq<char>, pat: Seq<char>, with: Seq<char>)
    requires
        free_of(s, pat),
    ensures
        replaced(s, pat, with) == s,
    decreases s.len(),
{
    if pat.len() != 0 && s.len() != 0 {
        assert(!occurs_at(s, pat, 0));
        assert forall|i: int| !occurs_at(s.skip(1), pat, i) by {
            if 0 <= i {
                lemma_occurs_shift(s, pat, 1, i);
                assert(!occurs_at(s, pat, 1 + i));
            }
        }
        lemma_replaced_identity(s.skip(1), pat, with);
        assert(seq![s[0]] + s.skip(1) == s);
    }
}

/// Where the tail of `q` from place `m` on opens the replaced text, and `q`
/// never overlaps the replacement, that tail was copied from `s`: it opens
/// `s` too, and the pattern stands at none of its places.
proof fn lemma_copied_prefix(s: Seq<char>, pat: Seq<char>, with: Seq<char>, q: Seq<char>, m: int)
    requires
        pat.len() > 0,
        with.len() > 0,
        never_overlaps(q, with),
        0 <= m <= q.len(),
        q.len() - m <= replaced(s, pat, with).len(),
        forall|j: int| m <= j < q.len() ==> replaced(s, pat, with)[j - m] == #[trigger] q[j],
    ensures
        q.len() - m <= s.len(),
        forall|j: int| m <= j < q.len() ==> s[j - m] == #[trigger] q[j],
        forall|i: int| 0 <= i < q.len() - m ==> !occurs_at(s, pat, i),
    decreases s.len(),
{
    let t = replaced(s, pat, with);
    if m < q.len() {
        assert(s.len() > 0);
        if occurs_at(s, pat, 0) {
            let d = -m;
            assert(clashes(q, with, d));
            let j = choose|j: int| clash_at(q, with, d, j);
            assert(t[j] == with[j]);
            assert(t[(j + m) - m] == q[j + m]);
            assert(false);
        } else {
            let rest = s.skip(1);
            let tr = replaced(rest, pat, with);
            assert(t == seq![s[0]] + tr);
            assert forall|j: int| m + 1 <= j < q.len() implies tr[j - (m + 1)] == #[trigger] q[j] by {
                assert(t[j - m] == q[j]);
                assert(t[j - m] == tr[j - m - 1]);
            }
            lemma_copied_prefix(rest, pat, with, q, m + 1);
            assert forall|j: int| m <= j < q.len() implies s[j - m] == #[trigger] q[j] by {
                if j == m {
                    assert(t[j - m] == q[j]);
                } else {
                    assert(rest[j - (m + 1)] == q[j]);
                }
            }
            assert forall|i: int| 0 <= i < q.len() - m implies !occurs_at(s, pat, i) by {
                if i > 0 {
                    lemma_occurs_shift(s, pat, 1, i - 1);
                    assert(!occurs_at(rest, pat, i - 1));
                }
            }
        }
    }
}

/// Replacement leaves no `q` behind, where `q` never overlaps the
/// replacement and either is the pattern itself or was absent before.
pub proof fn lemma_replaced_free(s: Seq<char>, pat: Seq<char>, with: Seq<char>, q: Seq<char>)
    requires
        pat.len() > 0,
        with.len() > 0,
        q.len() > 0,
        never_overlaps(q, with),
        q == pat || free_of(s, q),
    ensures
        free_of(replaced(s, pat, with), q),
    decreases s.len(),
{
    let t = replaced(s, pat, with);
    if s.len() == 0 {
        assert forall|k: int| !occurs_at(t, q, k) by {}
    } else if occurs_at(s, pat, 0) {
        let rest = s.skip(pat.len() as int);
        let tr = replaced(rest, pat, with);
        assert(t == with + tr);
        if q != pat {
            assert forall|i: int| !occurs_at(rest, q, i) by {
                if 0 <= i {
                    lemma_occurs_shift(s, q, pat.len() as int, i);
                    assert(!occurs_at(s, q, pat.len() + i));
                }
            }
        }
        lemma_replaced_free(rest, pat, with, q);
        assert forall|k: int| !occurs_at(t, q, k) by {
            if occurs_at(t, q, k) {
                if k >= with.len() {
                    lemma_occurs_shift(t, q, with.len() as int, k - with.len());
                    assert(t.skip(with.len() as int) == tr);
                    assert(!occurs_at(tr, q, k - with.len()));
                } else {
                    assert(clashes(q, with, k));
                    let j = choose|j: int| clash_at(q, with, k, j);
                    assert(t[j] == with[j]);
                    assert(t[k + (j - k)] == q[j - k]);
                }
                assert(false);
            }
        }
    } else {
        let rest = s.skip(1);
        let tr = replaced(rest, pat, with);
        assert(t == seq![s[0]] + tr);
        if q != pat {
            assert forall|i: int| !occurs_at(rest, q, i) by {
                if 0 <= i {
                    lemma_occurs_shift(s, q, 1, i);
                    assert(!occurs_at(s, q, 1 + i));
                }
            }
        }
        lemma_replaced_free(rest, pat, with, q);
        assert forall|k: int| !occurs_at(t, q, k) by {
            if occurs_at(t, q, k) {
                if k >= 1 {
                    lemma_occurs_shift(t, q, 1, k - 1);
                    assert(t.skip(1) == tr);
                    assert(!occurs_at(tr, q, k - 1));
                } else {
                    assert forall|j: int| 1 <= j < q.len() implies tr[j - 1] == #[trigger] q[j] by {
                        assert(t[0 + j] == q[j]);
                    }
                    lemma_copied_prefix(rest, pat, with, q, 1);
                    assert forall|j: int| 0 <= j < q.len() implies s[0 + j] == #[trigger] q[j] by {
                        if j == 0 {
                            assert(t[0 + j] == q[j]);
                        } else {
                            assert(rest[j - 1] == q[j]);
                        }
                    }
                    assert(occurs_at(s, q, 0));
                }
                assert(false);
            }
        }
    }
}

} // verus!
