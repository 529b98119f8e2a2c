use vstd::prelude::*;
use vstd::string::StrSliceExecFns;

verus! {

/// The sequence of character views of a sequence of owned strings.
pub open spec fn strs_view(v: Seq<String>) -> Seq<Seq<char>> {
    Seq::new(v.len(), |i: int| v[i]@)
}

/// The sequence of character views of a sequence of string slices.
pub open spec fn str_refs_view(v: Seq<&str>) -> Seq<Seq<char>> {
    Seq::new(v.len(), |i: int| v[i]@)
}

/// Lexicographic strict order on character sequences, comparing
/// characters by code point. This is the order Rust's own byte-wise
/// comparison of UTF-8 strings induces on their characters.
pub open spec fn str_lt(a: Seq<char>, b: Seq<char>) -> bool
    decreases a.len(),
{
    if b.len() == 0 {
        false
    } else if a.len() == 0 {
        true
    } else if a[0] != b[0] {
        a[0] < b[0]
    } else {
        str_lt(a.drop_first(), b.drop_first())
    }
}

/// Lexicographic order, allowing equality.
pub open spec fn str_le(a: Seq<char>, b: Seq<char>) -> bool {
    a == b || str_lt(a, b)
}

/// The lexicographic order is total: two character sequences are equal
/// or one is strictly below the other.
pub proof fn lemma_str_lt_total(a: Seq<char>, b: Seq<char>)
    ensures
        str_lt(a, b) || str_lt(b, a) || a == b,
    decreases a.len(),
{
    if b.len() == 0 {
        if a.len() == 0 {
            assert(a =~= b);
        } else {
            assert(str_lt(b, a));
        }
    } else if a.len() == 0 {
        assert(str_lt(a, b));
    } else if a[0] != b[0] {
        assert(str_lt(a, b) || str_lt(b, a));
    } else {
        lemma_str_lt_total(a.drop_first(), b.drop_first());
        if str_lt(a.drop_first(), b.drop_first()) {
            assert(str_lt(a, b));
        } else if str_lt(b.drop_first(), a.drop_first()) {
            assert(str_lt(b, a));
        } else {
            assert(a.len() == b.len());
            assert forall|i: int| 0 <= i < a.len() implies a[i] == b[i] by {
                if i > 0 {
                    assert(a[i] == a.drop_first()[i - 1]);
                    assert(b[i] == b.drop_first()[i - 1]);
                }
            }
            assert(a =~= b);
        }
    }
}

/// Discarding an equal prefix of both sequences does not change their order.
pub proof fn lemma_str_lt_skip(a: Seq<char>, b: Seq<char>, i: int)
    requires
        0 <= i <= a.len(),
        i <= b.len(),
        forall|j: int| 0 <= j < i ==> a[j] == b[j],
    ensures
        str_lt(a, b) == str_lt(a.skip(i), b.skip(i)),
    decreases i,
{
    if i == 0 {
        assert(a.skip(0) =~= a);
        assert(b.skip(0) =~= b);
    } else {
        assert(a[0] == b[0]);
        assert(a.drop_first() =~= a.skip(1));
        assert(b.drop_first() =~= b.skip(1));
        lemma_str_lt_skip(a.skip(1), b.skip(1), i - 1);
        assert(a.skip(1).skip(i - 1) =~= a.skip(i));
        assert(b.skip(1).skip(i - 1) =~= b.skip(i));
    }
}

/// Character-for-character equality test on string slices.
pub(crate) fn str_eq(a: &str, b: &str) -> (r: bool)
    ensures
        r == (a@ == b@),
{
    let la = a.unicode_len();
    let lb = b.unicode_len();
    if la != lb {
        return false;
    }
    let mut i: usize = 0;
    while i < la
        invariant
            i <= la,
            la == a@.len(),
            la == b@.len(),
            forall|j: int| 0 <= j < i ==> a@[j] == b@[j],
        decreases la - i,
    {
        if a.get_char(i) != b.get_char(i) {
            return false;
        }
        i += 1;
    }
    proof {
        assert(a@ =~= b@);
    }
    true
}

/// Executable decision procedure for `str_lt`.
pub(crate) fn str_lt_exec(a: &str, b: &str) -> (r: bool)
    ensures
        r == str_lt(a@, b@),
{
    let la = a.unicode_len();
    let lb = b.unicode_len();
    let n = if la < lb { la } else { lb };
    let mut i: usize = 0;
    while i < n
        invariant
            i <= n,
            n <= la,
            n <= lb,
            n == if la < lb { la } else { lb },
            la == a@.len(),
            lb == b@.len(),
            forall|j: int| 0 <= j < i ==> a@[j] == b@[j],
        decreases n - i,
    {
        let ca = a.get_char(i);
        let cb = b.get_char(i);
        if ca != cb {
            proof {
                lemma_str_lt_skip(a@, b@, i as int);
                assert(a@.skip(i as int)[0] == a@[i as int]);
                assert(b@.skip(i as int)[0] == b@[i as int]);
            }
            return ca < cb;
        }
        i += 1;
    }
    proof {
        lemma_str_lt_skip(a@, b@, n as int);
    }
    la < lb
}

/// Whether a vector of owned strings holds one whose characters are `x`'s.
pub(crate) fn strings_contain(v: &Vec<String>, x: &str) -> (r: bool)
    ensures
        r == strs_view(v@).contains(x@),
{
    let mut i: usize = 0;
    while i < v.len()
        invariant
            i <= v@.len(),
            forall|j: int| 0 <= j < i ==> strs_view(v@)[j] != x@,
        decreases v@.len() - i,
    {
        if str_eq(v[i].as_str(), x) {
            proof {
                assert(strs_view(v@)[i as int] == x@);
            }
            return true;
        }
        i += 1;
    }
    false
}

/// Whether a slice of string slices holds one whose characters are `x`'s.
pub(crate) fn str_slice_contains(v: &[&str], x: &str) -> (r: bool)
    ensures
        r == str_refs_view(v@).contains(x@),
{
    let mut i: usize = 0;
    while i < v.len()
        invariant
            i <= v@.len(),
            forall|j: int| 0 <= j < i ==> str_refs_view(v@)[j] != x@,
        decreases v@.len() - i,
    {
        if str_eq(v[i], x) {
            proof {
                assert(str_refs_view(v@)[i as int] == x@);
            }
            return true;
        }
        i += 1;
    }
    false
}

} // verus!
