use vstd::prelude::*;
use vstd::string::StrSliceExecFns;
use crate::strcmp::{str_le, str_lt, str_lt_exec, strs_view, lemma_str_lt_total};

verus! {

/// Adjacent pairs are in lexicographic order.
pub open spec fn strs_sorted(s: Seq<Seq<char>>) -> bool {
    forall|i: int| 0 <= i && i + 1 < s.len() ==> str_le(#[trigger] s[i], s[i + 1])
}

/// Adjacent pairs are in strictly increasing lexicographic order.
pub open spec fn strs_strictly_sorted(s: Seq<Seq<char>>) -> bool {
    forall|i: int| 0 <= i && i + 1 < s.len() ==> str_lt(#[trigger] s[i], s[i + 1])
}

/// `x` placed before the first element of `s` that is strictly above it.
pub open spec fn insert_sorted_str(x: Seq<char>, s: Seq<Seq<char>>) -> Seq<Seq<char>>
    decreases s.len(),
{
    if s.len() == 0 {
        seq![x]
    } else if str_lt(x, s[0]) {
        seq![x] + s
    } else {
        seq![s[0]] + insert_sorted_str(x, s.drop_first())
    }
}

/// Insertion sort of a sequence of character sequences.
pub open spec fn sort_strs(s: Seq<Seq<char>>) -> Seq<Seq<char>>
    decreases s.len(),
{
    if s.len() == 0 {
        Seq::empty()
    } else {
        insert_sorted_str(s[0], sort_strs(s.drop_first()))
    }
}

/// Where insertion lands when the first strictly greater element has
/// index `i` (or `i` is the length, when none is).
proof fn lemma_insert_sorted_at(x: Seq<char>, s: Seq<Seq<char>>, i: int)
    requires
        0 <= i <= s.len(),
        forall|k: int| 0 <= k < i ==> !str_lt(x, #[trigger] s[k]),
        i < s.len() ==> str_lt(x, s[i]),
    ensures
        insert_sorted_str(x, s) == s.insert(i, x),
    decreases i,
{
    if s.len() == 0 {
        assert(insert_sorted_str(x, s) =~= s.insert(0, x));
    } else if i == 0 {
        assert(insert_sorted_str(x, s) =~= s.insert(0, x));
    } else {
        assert(!str_lt(x, s[0]));
        let rest = s.drop_first();
        assert(forall|k: int| 0 <= k < i - 1 ==> rest[k] == s[k + 1] && !str_lt(x, #[trigger] rest[k]));
        if i - 1 < rest.len() {
            assert(rest[i - 1] == s[i]);
        }
        lemma_insert_sorted_at(x, rest, i - 1);
        assert(seq![s[0]] + rest.insert(i - 1, x) =~= s.insert(i, x));
    }
}

/// Insertion adds exactly one occurrence of the inserted element.
pub proof fn lemma_insert_sorted_multiset(x: Seq<char>, s: Seq<Seq<char>>)
    ensures
        insert_sorted_str(x, s).to_multiset() =~= s.to_multiset().insert(x),
        insert_sorted_str(x, s).len() == s.len() + 1,
    decreases s.len(),
{
    broadcast use vstd::multiset::group_multiset_axioms;

    if s.len() == 0 {
        assert(insert_sorted_str(x, s) =~= s.insert(0, x));
        vstd::seq_lib::to_multiset_insert(s, 0, x);
    } else if str_lt(x, s[0]) {
        assert(insert_sorted_str(x, s) =~= s.insert(0, x));
        vstd::seq_lib::to_multiset_insert(s, 0, x);
    } else {
        let rest = s.drop_first();
        lemma_insert_sorted_multiset(x, rest);
        let inner = insert_sorted_str(x, rest);
        let r = seq![s[0]] + inner;
        assert(r =~= inner.insert(0, s[0]));
        vstd::seq_lib::to_multiset_insert(inner, 0, s[0]);
        assert(s =~= rest.insert(0, s[0]));
        vstd::seq_lib::to_multiset_insert(rest, 0, s[0]);
        assert(r.to_multiset() =~= s.to_multiset().insert(x));
    }
}

/// Inserting into a sorted sequence keeps it sorted.
pub proof fn lemma_insert_sorted_sorted(x: Seq<char>, s: Seq<Seq<char>>)
    requires
        strs_sorted(s),
    ensures
        strs_sorted(insert_sorted_str(x, s)),
    decreases s.len(),
{
    if s.len() == 0 {
    } else if str_lt(x, s[0]) {
        let r = seq![x] + s;
        assert forall|i: int| 0 <= i && i + 1 < r.len() implies str_le(#[trigger] r[i], r[i + 1]) by {
            if i == 0 {
                assert(r[0] == x && r[1] == s[0]);
            } else {
                assert(r[i] == s[i - 1] && r[i + 1] == s[i]);
            }
        }
    } else {
        let rest = s.drop_first();
        assert forall|i: int| 0 <= i && i + 1 < rest.len() implies str_le(
            #[trigger] rest[i],
            rest[i + 1],
        ) by {
            assert(rest[i] == s[i + 1] && rest[i + 1] == s[i + 2]);
            assert(str_le(s[i + 1], s[i + 2]));
        }
        lemma_insert_sorted_sorted(x, rest);
        lemma_str_lt_total(x, s[0]);
        let inner = insert_sorted_str(x, rest);
        let r = seq![s[0]] + inner;
        assert forall|i: int| 0 <= i && i + 1 < r.len() implies str_le(#[trigger] r[i], r[i + 1]) by {
            if i == 0 {
                assert(r[0] == s[0] && r[1] == inner[0]);
                if rest.len() == 0 {
                    assert(inner[0] == x);
                    assert(str_le(s[0], x));
                } else if str_lt(x, rest[0]) {
                    assert(inner[0] == x);
                    assert(str_le(s[0], x));
                } else {
                    assert(inner[0] == rest[0]);
                    assert(rest[0] == s[1]);
                    assert(str_le(s[0], s[1]));
                }
            } else {
                assert(r[i] == inner[i - 1] && r[i + 1] == inner[i]);
                assert(str_le(inner[i - 1], inner[i]));
            }
        }
    }
}

/// Sorting permutes the sequence.
pub proof fn lemma_sort_strs_multiset(s: Seq<Seq<char>>)
    ensures
        sort_strs(s).to_multiset() =~= s.to_multiset(),
        sort_strs(s).len() == s.len(),
    decreases s.len(),
{
    broadcast use vstd::multiset::group_multiset_axioms;

    if s.len() == 0 {
        assert(s =~= Seq::<Seq<char>>::empty());
    } else {
        let rest = s.drop_first();
        lemma_sort_strs_multiset(rest);
        lemma_insert_sorted_multiset(s[0], sort_strs(rest));
        assert(s =~= rest.insert(0, s[0]));
        vstd::seq_lib::to_multiset_insert(rest, 0, s[0]);
    }
}

/// Sorting sorts.
pub proof fn lemma_sort_strs_sorted(s: Seq<Seq<char>>)
    ensures
        strs_sorted(sort_strs(s)),
    decreases s.len(),
{
    if s.len() > 0 {
        lemma_sort_strs_sorted(s.drop_first());
        lemma_insert_sorted_sorted(s[0], sort_strs(s.drop_first()));
    }
}

/// Places `x` into an already built vector as `insert_sorted_str` does.
fn insert_string(v: Vec<String>, x: String) -> (r: Vec<String>)
    ensures
        strs_view(r@) == insert_sorted_str(x@, strs_view(v@)),
{
    let ghost sv = strs_view(v@);
    let mut v = v;
    let mut i: usize = 0;
    let mut found = false;
    while i < v.len() && !found
        invariant
            i <= v@.len(),
            v@.len() == sv.len(),
            sv == strs_view(v@),
            forall|k: int| 0 <= k < i ==> !str_lt(x@, #[trigger] sv[k]),
            found ==> i < v@.len() && str_lt(x@, sv[i as int]),
        decreases v@.len() - i - (if found { 1int } else { 0int }),
    {
        if str_lt_exec(x.as_str(), v[i].as_str()) {
            found = true;
        } else {
            i += 1;
        }
    }
    proof {
        lemma_insert_sorted_at(x@, sv, i as int);
    }
    v.insert(i, x);
    proof {
        assert(strs_view(v@) =~= sv.insert(i as int, x@));
    }
    v
}

/// Sorts the vector's strings into lexicographic order, exactly as
/// `sort_strs` orders their views.
pub(crate) fn sort_strings(v: Vec<String>) -> (r: Vec<String>)
    ensures
        strs_view(r@) == sort_strs(strs_view(v@)),
{
    let ghost orig = strs_view(v@);
    let mut v = v;
    let mut out: Vec<String> = Vec::new();
    proof {
        assert(strs_view(out@) =~= Seq::<Seq<char>>::empty());
        assert(orig.skip(orig.len() as int) =~= Seq::<Seq<char>>::empty());
    }
    while v.len() > 0
        invariant
            v@.len() <= orig.len(),
            strs_view(v@) =~= orig.take(v@.len() as int),
            strs_view(out@) == sort_strs(orig.skip(v@.len() as int)),
        decreases v@.len(),
    {
        let ghost n = v@.len() as int;
        let ghost prevv = v@;
        let x = match v.pop() {
            Some(x) => x,
            None => {
                proof {
                    assert(false);
                }
                String::new()
            },
        };
        proof {
            assert(v@ =~= prevv.drop_last());
            assert(strs_view(prevv)[n - 1] == orig.take(n)[n - 1]);
            assert(x@ == orig[n - 1]);
            assert forall|k: int| 0 <= k < v@.len() implies strs_view(v@)[k] == orig.take(n - 1)[k] by {
                assert(strs_view(prevv)[k] == orig.take(n)[k]);
            }
            assert(strs_view(v@) =~= orig.take(n - 1));
            let tail = orig.skip(n - 1);
            assert(tail[0] == orig[n - 1]);
            assert(tail.drop_first() =~= orig.skip(n));
        }
        out = insert_string(out, x);
    }
    proof {
        assert(orig.skip(0) =~= orig);
    }
    out
}

} // verus!
