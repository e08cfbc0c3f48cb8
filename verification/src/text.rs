//! Normalisation of a clipboard snapshot: trimming leading and trailing
//! whitespace, with the laws the capture flow relies on.

use vstd::prelude::*;
use vstd::string::StrSliceExecFns;

verus! {

/// The characters treated as whitespace when a snapshot is trimmed: the
/// Unicode `White_Space` code points, the same set `char::is_whitespace`
/// recognises and `str::trim` removes.
pub open spec fn is_capture_space(c: char) -> bool {
    c == ' ' || c == '\t' || c == '\n' || c == '\u{b}' || c == '\u{c}' || c == '\r' || c
        == '\u{85}' || c == '\u{a0}' || c == '\u{1680}' || c == '\u{2000}' || c == '\u{2001}' || c
        == '\u{2002}' || c == '\u{2003}' || c == '\u{2004}' || c == '\u{2005}' || c == '\u{2006}'
        || c == '\u{2007}' || c == '\u{2008}' || c == '\u{2009}' || c == '\u{200a}' || c
        == '\u{2028}' || c == '\u{2029}' || c == '\u{202f}' || c == '\u{205f}' || c == '\u{3000}'
}

/// Executable test for `is_capture_space`.
pub fn is_space(c: char) -> (r: bool)
    ensures
        r == is_capture_space(c),
{
    c == ' ' || c == '\t' || c == '\n' || c == '\u{b}' || c == '\u{c}' || c == '\r' || c
        == '\u{85}' || c == '\u{a0}' || c == '\u{1680}' || c == '\u{2000}' || c == '\u{2001}' || c
        == '\u{2002}' || c == '\u{2003}' || c == '\u{2004}' || c == '\u{2005}' || c == '\u{2006}'
        || c == '\u{2007}' || c == '\u{2008}' || c == '\u{2009}' || c == '\u{200a}' || c
        == '\u{2028}' || c == '\u{2029}' || c == '\u{202f}' || c == '\u{205f}' || c == '\u{3000}'
}

/// The text with its leading whitespace removed.
pub open spec fn trim_front(s: Seq<char>) -> Seq<char>
    decreases s.len(),
{
    if s.len() > 0 && is_capture_space(s[0]) {
        trim_front(s.subrange(1, s.len() as int))
    } else {
        s
    }
}

/// The text with its trailing whitespace removed.
pub open spec fn trim_back(s: Seq<char>) -> Seq<char>
    decreases s.len(),
{
    if s.len() > 0 && is_capture_space(s[s.len() - 1]) {
        trim_back(s.subrange(0, s.len() - 1))
    } else {
        s
    }
}

/// The normalised form of a clipboard snapshot: leading and trailing
/// whitespace removed, everything between kept as it was.
pub open spec fn trim_spec(s: Seq<char>) -> Seq<char> {
    trim_back(trim_front(s))
}

proof fn lemma_trim_front_at(s: Seq<char>, i: int)
    requires
        0 <= i <= s.len(),
        forall|j: int| 0 <= j < i ==> is_capture_space(s[j]),
        i == s.len() || !is_capture_space(s[i]),
    ensures
        trim_front(s) == s.subrange(i, s.len() as int),
    decreases i,
{
    if i == 0 {
        assert(s.subrange(0, s.len() as int) =~= s);
    } else {
        let t = s.subrange(1, s.len() as int);
        lemma_trim_front_at(t, i - 1);
        assert(t.subrange(i - 1, t.len() as int) =~= s.subrange(i, s.len() as int));
    }
}

proof fn lemma_trim_back_at(s: Seq<char>, i: int)
    requires
        0 <= i <= s.len(),
        forall|j: int| i <= j < s.len() ==> is_capture_space(s[j]),
        i == 0 || !is_capture_space(s[i - 1]),
    ensures
        trim_back(s) == s.subrange(0, i),
    decreases s.len() - i,
{
    if i == s.len() {
        assert(s.subrange(0, s.len() as int) =~= s);
    } else {
        let t = s.subrange(0, s.len() - 1);
        lemma_trim_back_at(t, i);
        assert(t.subrange(0, i) =~= s.subrange(0, i));
    }
}

/// Trim leading and trailing whitespace from a snapshot.
pub fn trim_text(s: &str) -> (r: String)
    ensures
        r@ == trim_spec(s@),
{
    let n = s.unicode_len();
    let mut start: usize = 0;
    while start < n && is_space(s.get_char(start))
        invariant
            0 <= start <= n,
            n == s@.len(),
            forall|j: int| 0 <= j < start ==> is_capture_space(s@[j]),
        decreases n - start,
    {
        start = start + 1;
    }
    let mut end: usize = n;
    while end > start && is_space(s.get_char(end - 1))
        invariant
            start <= end <= n,
            n == s@.len(),
            forall|j: int| 0 <= j < start ==> is_capture_space(s@[j]),
            start == n || !is_capture_space(s@[start as int]),
            forall|j: int| end <= j < n ==> is_capture_space(s@[j]),
        decreases end,
    {
        end = end - 1;
    }
    proof {
        lemma_trim_front_at(s@, start as int);
        let t = s@.subrange(start as int, n as int);
        lemma_trim_back_at(t, end - start);
        assert(t.subrange(0, end - start) =~= s@.subrange(start as int, end as int));
    }
    let kept = s.substring_char(start, end);
    kept.to_owned()
}

/// Every character of the text is whitespace.
pub open spec fn all_space(s: Seq<char>) -> bool {
    forall|j: int| 0 <= j < s.len() ==> is_capture_space(s[j])
}

/// Law: a snapshot made of whitespace alone trims to the empty text, so the
/// emptiness gate rejects it and nothing is dispatched.
pub proof fn lemma_whitespace_only_trims_empty(s: Seq<char>)
    requires
        all_space(s),
    ensures
        trim_spec(s) == Seq::<char>::empty(),
    decreases s.len(),
{
    if s.len() == 0 {
        assert(s =~= Seq::<char>::empty());
    } else {
        let t = s.subrange(1, s.len() as int);
        assert(all_space(t));
        lemma_whitespace_only_trims_empty(t);
    }
}

proof fn lemma_trim_front_no_leading(s: Seq<char>)
    ensures
        trim_front(s).len() == 0 || !is_capture_space(trim_front(s)[0]),
    decreases s.len(),
{
    if s.len() > 0 && is_capture_space(s[0]) {
        lemma_trim_front_no_leading(s.subrange(1, s.len() as int));
    }
}

proof fn lemma_trim_back_no_trailing(s: Seq<char>)
    ensures
        trim_back(s).len() == 0 || !is_capture_space(trim_back(s)[trim_back(s).len() - 1]),
    decreases s.len(),
{
    if s.len() > 0 && is_capture_space(s[s.len() - 1]) {
        lemma_trim_back_no_trailing(s.subrange(0, s.len() - 1));
    }
}

proof fn lemma_trim_back_is_prefix(s: Seq<char>)
    ensures
        trim_back(s).len() <= s.len(),
        forall|j: int| 0 <= j < trim_back(s).len() ==> trim_back(s)[j] == s[j],
    decreases s.len(),
{
    if s.len() > 0 && is_capture_space(s[s.len() - 1]) {
        let t = s.subrange(0, s.len() - 1);
        lemma_trim_back_is_prefix(t);
        assert forall|j: int| 0 <= j < trim_back(s).len() implies trim_back(s)[j] == s[j] by {
            assert(trim_back(s) == trim_back(t));
            assert(trim_back(t)[j] == t[j]);
            assert(t[j] == s[j]);
        }
    }
}

/// Law: trimming is idempotent — trimming an already-trimmed text yields
/// the same text, so the dispatched payload is stable under normalisation.
pub proof fn lemma_trim_idempotent(s: Seq<char>)
    ensures
        trim_spec(trim_spec(s)) == trim_spec(s),
{
    let f = trim_front(s);
    let t = trim_back(f);
    lemma_trim_front_no_leading(s);
    lemma_trim_back_no_trailing(f);
    lemma_trim_back_is_prefix(f);
    if t.len() == 0 {
        assert(trim_front(t) == t);
        assert(trim_back(t) == t);
    } else {
        assert(t[0] == f[0]);
        assert(!is_capture_space(t[0]));
        assert(trim_front(t) == t);
        assert(!is_capture_space(t[t.len() - 1]));
        assert(trim_back(t) == t);
    }
}

} // verus!
