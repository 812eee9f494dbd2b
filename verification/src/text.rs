//! Character-level text operations: prefixes and `str::replace` with an empty
//! replacement.
use vstd::prelude::*;

verus! {

/// The text `s` with every occurrence of `pat` removed, found left to right
/// without overlap, as `s.replace(pat, "")` gives it.
pub open spec fn remove_all(s: Seq<char>, pat: Seq<char>) -> Seq<char>
    decreases s.len(),
{
    if s.len() == 0 {
        s
    } else if pat.len() > 0 && pat.is_prefix_of(s) {
        remove_all(s.skip(pat.len() as int), pat)
    } else {
        seq![s[0]] + remove_all(s.drop_first(), pat)
    }
}

/// The characters of `s`, in order.
pub fn chars_of(s: &str) -> (v: Vec<char>)
    ensures
        v@ == s@,
{
    let n = s.unicode_len();
    let mut v: Vec<char> = Vec::new();
    let mut i: usize = 0;
    while i < n
        invariant
            n == s@.len(),
            i <= n,
            v@ == s@.subrange(0, i as int),
        decreases n - i,
    {
        v.push(s.get_char(i));
        i = i + 1;
        assert(v@ =~= s@.subrange(0, i as int));
    }
    assert(s@.subrange(0, n as int) =~= s@);
    v
}

/// Whether `pat` occurs in `s` at position `at`.
pub fn occurs_at(s: &Vec<char>, pat: &Vec<char>, at: usize) -> (b: bool)
    requires
        at <= s@.len(),
    ensures
        b == pat@.is_prefix_of(s@.skip(at as int)),
{
    let n = s.len();
    let m = pat.len();
    if m > n - at {
        return false;
    }
    let mut j: usize = 0;
    while j < m
        invariant
            n == s@.len(),
            m == pat@.len(),
            at + m <= n,
            j <= m,
            forall|k: int| 0 <= k < j ==> pat@[k] == s@[at + k],
        decreases m - j,
    {
        if pat[j] != s[at + j] {
            assert(pat@[j as int] != s@.skip(at as int)[j as int]);
            return false;
        }
        j = j + 1;
    }
    assert(pat@ =~= s@.skip(at as int).subrange(0, m as int));
    true
}

/// Whether the text `s` begins with `prefix`, as `s.starts_with(prefix)`.
pub fn starts_with(s: &str, prefix: &str) -> (b: bool)
    ensures
        b == prefix@.is_prefix_of(s@),
{
    let sv = chars_of(s);
    let pv = chars_of(prefix);
    assert(sv@.skip(0) =~= sv@);
    occurs_at(&sv, &pv, 0)
}

/// The characters `s` with every occurrence of `pat` removed.
pub fn remove_all_chars(s: &Vec<char>, pat: &Vec<char>) -> (r: Vec<char>)
    ensures
        r@ == remove_all(s@, pat@),
{
    let n = s.len();
    let m = pat.len();
    let mut out: Vec<char> = Vec::new();
    let mut i: usize = 0;
    assert(s@.skip(0) =~= s@);
    while i < n
        invariant
            n == s@.len(),
            m == pat@.len(),
            i <= n,
            out@ + remove_all(s@.skip(i as int), pat@) == remove_all(s@, pat@),
        decreases n - i,
    {
        let rest = Ghost(s@.skip(i as int));
        if m > 0 && occurs_at(s, pat, i) {
            assert(rest@.skip(m as int) =~= s@.skip(i + m));
            i = i + m;
        } else {
            assert(rest@[0] == s@[i as int]);
            assert(rest@.drop_first() =~= s@.skip(i + 1));
            out.push(s[i]);
            i = i + 1;
        }
    }
    assert(s@.skip(n as int).len() == 0);
    assert(out@ + remove_all(s@.skip(n as int), pat@) =~= out@);
    out
}


/// Removing `pat` takes out every occurrence, left to right: an occurrence at
/// the front goes and removal goes on after it; a first character that does
/// not start an occurrence stays; a text in which `pat` occurs nowhere is left
/// as it is; and removal never makes a text longer.
pub proof fn lemma_remove_all_laws(c: char, s: Seq<char>, pat: Seq<char>)
    requires
        pat.len() > 0,
    ensures
        remove_all(pat + s, pat) == remove_all(s, pat),
        !pat.is_prefix_of(seq![c] + s) ==> remove_all(seq![c] + s, pat) == seq![c] + remove_all(
            s,
            pat,
        ),
        (forall|i: int| 0 <= i < s.len() ==> !pat.is_prefix_of(#[trigger] s.skip(i)))
            ==> remove_all(s, pat) == s,
        remove_all(s, pat).len() <= s.len(),
{
    let t = pat + s;
    assert(t.subrange(0, pat.len() as int) =~= pat);
    assert(t.skip(pat.len() as int) =~= s);
    assert((seq![c] + s).drop_first() =~= s);
    lemma_remove_nowhere_text(s, pat);
    lemma_remove_shrinks(s, pat);
}

/// Removing a pattern that occurs nowhere leaves the text as it is.
pub proof fn lemma_remove_nowhere_text(s: Seq<char>, pat: Seq<char>)
    ensures
        (forall|i: int| 0 <= i < s.len() ==> !pat.is_prefix_of(#[trigger] s.skip(i)))
            ==> remove_all(s, pat) == s,
    decreases s.len(),
{
    if s.len() > 0 && (forall|i: int| 0 <= i < s.len() ==> !pat.is_prefix_of(#[trigger] s.skip(i))) {
        assert(s.skip(0) =~= s);
        assert forall|i: int| 0 <= i < s.drop_first().len() implies !pat.is_prefix_of(
            #[trigger] s.drop_first().skip(i),
        ) by {
            assert(s.drop_first().skip(i) =~= s.skip(i + 1));
        }
        lemma_remove_nowhere_text(s.drop_first(), pat);
        assert(seq![s[0]] + s.drop_first() =~= s);
    }
}

proof fn lemma_remove_shrinks(s: Seq<char>, pat: Seq<char>)
    ensures
        remove_all(s, pat).len() <= s.len(),
    decreases s.len(),
{
    if s.len() > 0 {
        if pat.len() > 0 && pat.is_prefix_of(s) {
            lemma_remove_shrinks(s.skip(pat.len() as int), pat);
        } else {
            lemma_remove_shrinks(s.drop_first(), pat);
        }
    }
}

} // verus!
