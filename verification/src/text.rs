//! Text predicates and helpers used when validating class declarations:
//! suffix tests, ASCII case folding, whitespace trimming and splitting of
//! configuration-option lists.

use vstd::prelude::*;

verus! {

use vstd::string::StrSliceExecFns;
use vstd::string::StringExecFns;

/// `s` ends with `suffix`.
pub open spec fn spec_ends_with(s: Seq<char>, suffix: Seq<char>) -> bool {
    suffix.len() <= s.len() && s.subrange(
        s.len() - suffix.len(),
        s.len() as int,
    ) == suffix
}

/// Reports whether `s` ends with `suffix`, comparing whole characters.
pub fn str_ends_with(s: &str, suffix: &str) -> (r: bool)
    ensures
        r == spec_ends_with(s@, suffix@),
{
    let n = s.unicode_len();
    let m = suffix.unicode_len();
    if m > n {
        return false;
    }
    let mut i: usize = 0;
    while i < m
        invariant
            i <= m <= n,
            n == s@.len(),
            m == suffix@.len(),
            forall|j: int| 0 <= j < i ==> s@[n - m + j] == suffix@[j],
        decreases m - i,
    {
        if s.get_char(n - m + i) != suffix.get_char(i) {
            proof {
                assert(s@.subrange(n - m, n as int)[i as int] != suffix@[i as int]);
            }
            return false;
        }
        i = i + 1;
    }
    proof {
        assert(s@.subrange(n - m, n as int) =~= suffix@);
    }
    true
}

/// The Unicode code point of `c` with an ASCII capital letter folded to its
/// small counterpart.
pub open spec fn spec_lower_code(c: char) -> int {
    if 65 <= c as u32 <= 90 {
        c as u32 + 32
    } else {
        c as u32 as int
    }
}

/// Folds an ASCII capital letter to its small counterpart, as a code point.
pub fn lower_code(c: char) -> (r: u32)
    ensures
        r == spec_lower_code(c),
{
    let u = c as u32;
    if 65 <= u && u <= 90 {
        u + 32
    } else {
        u
    }
}

/// `a` and `b` are equal once ASCII letters are folded to one case.
pub open spec fn spec_eq_ignore_ascii_case(a: Seq<char>, b: Seq<char>) -> bool {
    a.len() == b.len() && forall|i: int|
        0 <= i < a.len() ==> spec_lower_code(a[i]) == spec_lower_code(#[trigger] b[i])
}

/// Compares two strings, folding ASCII letters to one case.
pub fn str_eq_ignore_ascii_case(a: &str, b: &str) -> (r: bool)
    ensures
        r == spec_eq_ignore_ascii_case(a@, b@),
{
    let n = a.unicode_len();
    if n != b.unicode_len() {
        return false;
    }
    let mut i: usize = 0;
    while i < n
        invariant
            i <= n,
            n == a@.len(),
            n == b@.len(),
            forall|j: int| 0 <= j < i ==> spec_lower_code(a@[j]) == spec_lower_code(#[trigger] b@[j]),
        decreases n - i,
    {
        if lower_code(a.get_char(i)) != lower_code(b.get_char(i)) {
            return false;
        }
        i = i + 1;
    }
    true
}

/// Compares two strings character by character.
pub fn str_eq(a: &str, b: &str) -> (r: bool)
    ensures
        r == (a@ == b@),
{
    let n = a.unicode_len();
    if n != b.unicode_len() {
        return false;
    }
    let mut i: usize = 0;
    while i < n
        invariant
            i <= n,
            n == a@.len(),
            n == b@.len(),
            forall|j: int| 0 <= j < i ==> a@[j] == #[trigger] b@[j],
        decreases n - i,
    {
        if a.get_char(i) != b.get_char(i) {
            return false;
        }
        i = i + 1;
    }
    proof {
        assert(a@ =~= b@);
    }
    true
}

/// ASCII whitespace, as trimmed around option names and values.
pub open spec fn spec_is_ws(c: char) -> bool {
    c == ' ' || c == '\t' || c == '\n' || c == '\r'
}

/// Reports whether `c` is ASCII whitespace.
pub fn is_ws(c: char) -> (r: bool)
    ensures
        r == spec_is_ws(c),
{
    c == ' ' || c == '\t' || c == '\n' || c == '\r'
}

/// `s` with leading and trailing ASCII whitespace removed.
pub open spec fn spec_trim(s: Seq<char>) -> Seq<char>
    decreases s.len(),
{
    if s.len() == 0 {
        s
    } else if spec_is_ws(s[0]) {
        spec_trim(s.drop_first())
    } else if spec_is_ws(s.last()) {
        spec_trim(s.drop_last())
    } else {
        s
    }
}

/// A string of nothing but whitespace trims to nothing.
proof fn lemma_trim_all_ws(s: Seq<char>)
    requires
        forall|i: int| 0 <= i < s.len() ==> spec_is_ws(#[trigger] s[i]),
    ensures
        spec_trim(s) == Seq::<char>::empty(),
    decreases s.len(),
{
    if s.len() == 0 {
        assert(s =~= Seq::<char>::empty());
    } else {
        lemma_trim_all_ws(s.drop_first());
    }
}

/// Removes leading and trailing ASCII whitespace.
pub fn str_trim(s: &str) -> (r: String)
    ensures
        r@ == spec_trim(s@),
{
    let n = s.unicode_len();
    proof {
        assert(s@.skip(0) =~= s@);
    }
    let mut lo: usize = 0;
    while lo < n && is_ws(s.get_char(lo))
        invariant
            lo <= n,
            n == s@.len(),
            spec_trim(s@) == spec_trim(s@.skip(lo as int)),
            forall|j: int| 0 <= j < lo ==> spec_is_ws(#[trigger] s@[j]),
        decreases n - lo,
    {
        proof {
            assert(s@.skip(lo as int).drop_first() =~= s@.skip(lo as int + 1));
        }
        lo = lo + 1;
    }
    if lo == n {
        proof {
            lemma_trim_all_ws(s@);
        }
        return String::new();
    }
    let mut hi: usize = n;
    proof {
        assert(s@.skip(lo as int) =~= s@.subrange(lo as int, n as int));
    }
    while hi > lo + 1 && is_ws(s.get_char(hi - 1))
        invariant
            lo < hi <= n,
            n == s@.len(),
            !spec_is_ws(s@[lo as int]),
            spec_trim(s@) == spec_trim(s@.subrange(lo as int, hi as int)),
        decreases hi,
    {
        proof {
            let t = s@.subrange(lo as int, hi as int);
            assert(t[0] == s@[lo as int]);
            assert(t.last() == s@[hi - 1]);
            assert(t.drop_last() =~= s@.subrange(lo as int, hi as int - 1));
        }
        hi = hi - 1;
    }
    proof {
        let t = s@.subrange(lo as int, hi as int);
        assert(t[0] == s@[lo as int]);
        if spec_is_ws(t.last()) {
            assert(hi == lo + 1);
            assert(t.last() == t[0]);
            assert(false);
        }
        assert(spec_trim(t) == t);
    }
    let out = s.substring_char(lo, hi);
    out.to_owned()
}

/// Index of the first occurrence of `sep`, or a negative value when there
/// is none.
pub open spec fn spec_find(s: Seq<char>, sep: char) -> int
    decreases s.len(),
{
    if s.len() == 0 {
        -1
    } else if s[0] == sep {
        0
    } else {
        let r = spec_find(s.drop_first(), sep);
        if r < 0 {
            -1
        } else {
            1 + r
        }
    }
}

/// What `spec_find` finds: a negative result means no occurrence at all, a
/// non-negative one points at the first occurrence.
pub proof fn lemma_find(s: Seq<char>, sep: char)
    ensures
        spec_find(s, sep) < 0 ==> forall|i: int| 0 <= i < s.len() ==> (#[trigger] s[i]) != sep,
        spec_find(s, sep) >= 0 ==> {
            &&& spec_find(s, sep) < s.len()
            &&& s[spec_find(s, sep)] == sep
            &&& forall|i: int| 0 <= i < spec_find(s, sep) ==> (#[trigger] s[i]) != sep
        },
    decreases s.len(),
{
    if s.len() > 0 && s[0] != sep {
        let rest = s.drop_first();
        lemma_find(rest, sep);
        assert(forall|i: int| 1 <= i < s.len() ==> s[i] == #[trigger] rest[i - 1]);
        let f = spec_find(s, sep);
        if spec_find(rest, sep) < 0 {
            assert(f == -1);
            assert forall|i: int| 0 <= i < s.len() implies (#[trigger] s[i]) != sep by {
                if i >= 1 {
                    assert(s[i] == rest[i - 1]);
                    assert(rest[i - 1] != sep);
                }
            }
        } else {
            assert(f == 1 + spec_find(rest, sep));
            assert(s[f] == rest[f - 1]);
            assert forall|i: int| 0 <= i < f implies (#[trigger] s[i]) != sep by {
                if i >= 1 {
                    assert(s[i] == rest[i - 1]);
                    assert(rest[i - 1] != sep);
                }
            }
        }
    }
}

/// If nothing before `k` is `sep` and `k` is, then `k` is the first
/// occurrence.
pub proof fn lemma_find_at(s: Seq<char>, sep: char, k: int)
    requires
        0 <= k < s.len(),
        s[k] == sep,
        forall|j: int| 0 <= j < k ==> (#[trigger] s[j]) != sep,
    ensures
        spec_find(s, sep) == k,
    decreases k,
{
    if k > 0 {
        let rest = s.drop_first();
        lemma_find_at(rest, sep, k - 1);
        assert(forall|j: int| 1 <= j < s.len() ==> s[j] == #[trigger] rest[j - 1]);
    }
}

/// If `sep` occurs nowhere, `spec_find` reports none.
pub proof fn lemma_find_none(s: Seq<char>, sep: char)
    requires
        forall|j: int| 0 <= j < s.len() ==> (#[trigger] s[j]) != sep,
    ensures
        spec_find(s, sep) == -1,
    decreases s.len(),
{
    if s.len() > 0 {
        let rest = s.drop_first();
        assert(forall|j: int| 1 <= j < s.len() ==> s[j] == #[trigger] rest[j - 1]);
        lemma_find_none(rest, sep);
    }
}

/// First occurrence of `sep` at or after `from` and before `to`, searching
/// the character range `[from, to)`.
pub fn find_char_range(s: &str, from: usize, to: usize, sep: char) -> (r: Option<usize>)
    requires
        from <= to <= s@.len(),
    ensures
        r matches Option::Some(i) ==> {
            &&& from <= i < to
            &&& s@[i as int] == sep
            &&& forall|j: int| from <= j < i ==> (#[trigger] s@[j]) != sep
            &&& spec_find(s@.subrange(from as int, to as int), sep) == i - from
        },
        r is None ==> {
            &&& forall|j: int| from <= j < to ==> (#[trigger] s@[j]) != sep
            &&& spec_find(s@.subrange(from as int, to as int), sep) == -1
        },
{
    let mut i: usize = from;
    while i < to
        invariant
            from <= i <= to <= s@.len(),
            forall|j: int| from <= j < i ==> (#[trigger] s@[j]) != sep,
        decreases to - i,
    {
        if s.get_char(i) == sep {
            proof {
                let t = s@.subrange(from as int, to as int);
                assert(t[i - from] == s@[i as int]);
                assert(forall|j: int| 0 <= j < i - from ==> #[trigger] t[j] == s@[j + from]);
                lemma_find_at(t, sep, i - from);
            }
            return Some(i);
        }
        i = i + 1;
    }
    proof {
        let t = s@.subrange(from as int, to as int);
        assert(forall|j: int| 0 <= j < t.len() ==> #[trigger] t[j] == s@[j + from]);
        lemma_find_none(t, sep);
    }
    None
}

/// The segments of `s` between occurrences of `sep`: always one segment
/// more than there are separators, so the empty string has one empty
/// segment.
pub open spec fn spec_split(s: Seq<char>, sep: char) -> Seq<Seq<char>>
    decreases s.len(),
{
    if s.len() == 0 {
        seq![Seq::<char>::empty()]
    } else if s[0] == sep {
        seq![Seq::<char>::empty()] + spec_split(s.drop_first(), sep)
    } else {
        let rest = spec_split(s.drop_first(), sep);
        rest.update(0, seq![s[0]] + rest[0])
    }
}

/// Splitting yields at least one segment.
pub proof fn lemma_split_len(s: Seq<char>, sep: char)
    ensures
        spec_split(s, sep).len() >= 1,
    decreases s.len(),
{
    if s.len() > 0 {
        lemma_split_len(s.drop_first(), sep);
    }
}

/// Splitting steps over the first separator: everything before it is the
/// first segment, and the rest splits on its own. With no separator, the
/// whole string is the one segment.
pub proof fn lemma_split_step(s: Seq<char>, sep: char)
    ensures
        spec_find(s, sep) < 0 ==> spec_split(s, sep) == seq![s],
        spec_find(s, sep) >= 0 ==> spec_split(s, sep) == seq![
            s.subrange(0, spec_find(s, sep)),
        ] + spec_split(s.subrange(spec_find(s, sep) + 1, s.len() as int), sep),
    decreases s.len(),
{
    lemma_find(s, sep);
    if s.len() == 0 {
        assert(spec_split(s, sep) =~~= seq![s]);
    } else if s[0] == sep {
        assert(s.subrange(0, 0) =~= Seq::<char>::empty());
        assert(s.subrange(1, s.len() as int) =~= s.drop_first());
        assert(spec_split(s, sep) =~~= seq![s.subrange(0, 0)] + spec_split(
            s.subrange(1, s.len() as int),
            sep,
        ));
    } else {
        let rest = s.drop_first();
        lemma_split_step(rest, sep);
        lemma_split_len(rest, sep);
        let f = spec_find(s, sep);
        if f < 0 {
            assert(spec_find(rest, sep) < 0);
            assert(spec_split(rest, sep) == seq![rest]);
            assert(seq![s[0]] + rest =~= s);
            assert(spec_split(s, sep) =~~= seq![s]);
        } else {
            assert(spec_find(rest, sep) == f - 1);
            assert(spec_split(rest, sep) == seq![rest.subrange(0, f - 1)] + spec_split(
                rest.subrange(f - 1 + 1, rest.len() as int),
                sep,
            ));
            assert(seq![s[0]] + rest.subrange(0, f - 1) =~= s.subrange(0, f));
            assert(rest.subrange(f - 1 + 1, rest.len() as int) =~= s.subrange(
                f + 1,
                s.len() as int,
            ));
            assert(spec_split(s, sep) =~~= seq![s.subrange(0, f)] + spec_split(
                s.subrange(f + 1, s.len() as int),
                sep,
            ));
        }
    }
}

/// Concatenates two strings.
pub fn concat2(a: &str, b: &str) -> (r: String)
    ensures
        r@ == a@ + b@,
{
    let mut s = a.to_owned();
    s.append(b);
    s
}

/// Concatenates three strings.
pub fn concat3(a: &str, b: &str, c: &str) -> (r: String)
    ensures
        r@ == a@ + b@ + c@,
{
    let mut s = a.to_owned();
    s.append(b);
    s.append(c);
    s
}

} // verus!
