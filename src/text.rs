use vstd::prelude::*;
use vstd::string::*;

verus! {

/// `needle` occurs in `hay` at position `i`.
pub open spec fn occurs_at(needle: Seq<char>, hay: Seq<char>, i: int) -> bool {
    0 <= i && i + needle.len() <= hay.len() && hay.subrange(i, i + needle.len()) == needle
}

/// `needle` occurs somewhere in `hay` as a contiguous run of characters.
pub open spec fn is_substring(needle: Seq<char>, hay: Seq<char>) -> bool {
    exists|i: int| occurs_at(needle, hay, i)
}

/// Position of the first `c` in `s`, or `s.len()` when there is none.
pub open spec fn index_of(s: Seq<char>, c: char) -> nat
    decreases s.len(),
{
    if s.len() == 0 {
        0
    } else if s[0] == c {
        0
    } else {
        1 + index_of(s.drop_first(), c)
    }
}

/// The `k`-th piece of `s` split on every `sep` (as `str::split` cuts it), if there is one.
pub open spec fn field(s: Seq<char>, sep: char, k: nat) -> Option<Seq<char>>
    decreases s.len(), k,
{
    let cut = index_of(s, sep);
    if k == 0 {
        Some(s.take(cut as int))
    } else if cut < s.len() {
        field(s.skip((cut + 1) as int), sep, (k - 1) as nat)
    } else {
        None
    }
}

/// The `k`-th piece of `s` split on `sep`, with a missing piece read as empty.
pub open spec fn field_or_empty(s: Seq<char>, sep: char, k: nat) -> Seq<char> {
    match field(s, sep, k) {
        Some(f) => f,
        None => Seq::empty(),
    }
}

/// What `str::to_lowercase` makes of a string.
pub uninterp spec fn lower_of(s: Seq<char>) -> Seq<char>;

/// Relies on `str::to_lowercase`: its result depends on the characters alone.
#[verifier::external_body]
pub(crate) fn lowercase(s: &str) -> (r: String)
    ensures
        r@ == lower_of(s@),
{
    s.to_lowercase()
}

proof fn lemma_index_of_first(s: Seq<char>, c: char, j: int)
    requires
        0 <= j <= s.len(),
        forall|k: int| 0 <= k < j ==> s[k] != c,
        j == s.len() || s[j] == c,
    ensures
        index_of(s, c) == j,
    decreases s.len(),
{
    if s.len() > 0 && j > 0 {
        lemma_index_of_first(s.drop_first(), c, j - 1);
    }
}

/// Position of the first `c` in `s` at or after `from`, or the length of `s`.
fn find_from(s: &str, from: usize, c: char) -> (r: usize)
    requires
        from <= s@.len(),
    ensures
        r == from + index_of(s@.skip(from as int), c),
        from <= r <= s@.len(),
{
    let n = s.unicode_len();
    let mut i: usize = from;
    while i < n && s.get_char(i) != c
        invariant
            n == s@.len(),
            from <= i <= n,
            forall|k: int| from <= k < i ==> s@[k] != c,
        decreases n - i,
    {
        i = i + 1;
    }
    proof {
        let t = s@.skip(from as int);
        lemma_index_of_first(t, c, i - from);
    }
    i
}

/// Whether `needle` occurs in `hay`.
pub fn contains(hay: &str, needle: &str) -> (r: bool)
    ensures
        r == is_substring(needle@, hay@),
{
    let n = hay.unicode_len();
    let m = needle.unicode_len();
    if m > n {
        return false;
    }
    if m == 0 {
        proof {
            assert(hay@.subrange(0, 0) =~= needle@);
            assert(occurs_at(needle@, hay@, 0));
        }
        return true;
    }
    let mut i: usize = 0;
    while i <= n - m
        invariant
            n == hay@.len(),
            m == needle@.len(),
            1 <= m <= n,
            i <= n - m + 1,
            forall|p: int| 0 <= p < i ==> !occurs_at(needle@, hay@, p),
        decreases n - m + 1 - i,
    {
        let mut j: usize = 0;
        let mut same = true;
        while same && j < m
            invariant
                n == hay@.len(),
                m == needle@.len(),
                i + m <= n,
                j <= m,
                !same ==> j == m,
                same ==> forall|k: int| 0 <= k < j ==> hay@[i + k] == needle@[k],
                !same ==> !occurs_at(needle@, hay@, i as int),
            decreases m - j,
        {
            if hay.get_char(i + j) != needle.get_char(j) {
                same = false;
                proof {
                    assert(hay@.subrange(i as int, i + m)[j as int] != needle@[j as int]);
                }
                j = m;
            } else {
                j = j + 1;
            }
        }
        if same {
            proof {
                assert(hay@.subrange(i as int, i + m) =~= needle@);
                assert(occurs_at(needle@, hay@, i as int));
            }
            return true;
        }
        i = i + 1;
    }
    proof {
        assert forall|p: int| !occurs_at(needle@, hay@, p) by {
            if 0 <= p < i {
            }
        }
    }
    false
}

/// Whether `needle` occurs in `hay` once both are lowercased.
pub fn contains_ignore_case(hay: &str, needle: &str) -> (r: bool)
    ensures
        r == is_substring(lower_of(needle@), lower_of(hay@)),
{
    let h = lowercase(hay);
    let n = lowercase(needle);
    contains(h.as_str(), n.as_str())
}

/// The `k`-th `sep`-separated piece of `s` for `k` in {0, 1}, empty where `s` has no such piece.
pub fn field_of(s: &str, sep: char, k: usize) -> (r: String)
    requires
        k <= 1,
    ensures
        r@ == field_or_empty(s@, sep, k as nat),
{
    let n = s.unicode_len();
    let first = find_from(s, 0, sep);
    proof {
        assert(s@.skip(0) =~= s@);
    }
    if k == 0 {
        return String::from_str(s.substring_char(0, first));
    }
    if first == n {
        return String::new();
    }
    let start = first + 1;
    let second = find_from(s, start, sep);
    proof {
        let t = s@.skip((first + 1) as int);
        assert(field(t, sep, 0) == Some(t.take(index_of(t, sep) as int)));
        assert(t.take(index_of(t, sep) as int) =~= s@.subrange(start as int, second as int));
    }
    String::from_str(s.substring_char(start, second))
}

} // verus!
