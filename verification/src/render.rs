use vstd::prelude::*;
use vstd::string::StringExecFns;
use crate::strcmp::{str_refs_view, strs_view};

verus! {

/// The characters of `s` wrapped in double quotes.
pub open spec fn quoted(s: Seq<char>) -> Seq<char> {
    "\""@ + s + "\""@
}

/// The items, each quoted, joined by a comma and a space.
pub open spec fn comma_separated(items: Seq<Seq<char>>) -> Seq<char>
    decreases items.len(),
{
    if items.len() == 0 {
        Seq::empty()
    } else if items.len() == 1 {
        quoted(items[0])
    } else {
        comma_separated(items.drop_last()) + ", "@ + quoted(items.last())
    }
}

/// The quoted items, comma-separated, between square brackets.
pub open spec fn bracketed_strs(items: Seq<Seq<char>>) -> Seq<char> {
    "["@ + comma_separated(items) + "]"@
}

/// The quoted items, comma-separated, between curly braces.
pub open spec fn braced_strs(items: Seq<Seq<char>>) -> Seq<char> {
    "{"@ + comma_separated(items) + "}"@
}

/// Extending a comma-separated rendering by one more item.
proof fn lemma_comma_separated_take_succ(items: Seq<Seq<char>>, i: int)
    requires
        0 <= i < items.len(),
    ensures
        comma_separated(items.take(i + 1)) == if i == 0 {
            quoted(items[0])
        } else {
            comma_separated(items.take(i)) + ", "@ + quoted(items[i])
        },
{
    let t = items.take(i + 1);
    assert(t.len() == i + 1);
    if i == 0 {
        assert(t[0] == items[0]);
    } else {
        assert(t.drop_last() =~= items.take(i));
        assert(t.last() == items[i]);
    }
}

/// Appends `s` between double quotes.
fn append_quoted(out: &mut String, s: &str)
    ensures
        final(out)@ == old(out)@ + quoted(s@),
{
    out.append("\"");
    out.append(s);
    out.append("\"");
    proof {
        assert(out@ =~= old(out)@ + quoted(s@));
    }
}

/// Renders the slice's strings as a quoted, comma-separated list in
/// square brackets.
pub(crate) fn render_bracketed(items: &[&str]) -> (r: String)
    ensures
        r@ == bracketed_strs(str_refs_view(items@)),
{
    let ghost iv = str_refs_view(items@);
    let mut out = String::from_str("[");
    let mut i: usize = 0;
    while i < items.len()
        invariant
            i <= items@.len(),
            iv == str_refs_view(items@),
            iv.len() == items@.len(),
            out@ == "["@ + comma_separated(iv.take(i as int)),
        decreases items@.len() - i,
    {
        if i > 0 {
            out.append(", ");
        }
        append_quoted(&mut out, items[i]);
        proof {
            lemma_comma_separated_take_succ(iv, i as int);
            assert(iv[i as int] == items@[i as int]@);
            assert(out@ =~= "["@ + comma_separated(iv.take(i as int + 1)));
        }
        i += 1;
    }
    out.append("]");
    proof {
        assert(iv.take(iv.len() as int) =~= iv);
        assert(out@ =~= bracketed_strs(iv));
    }
    out
}

/// Renders the vector's strings as a quoted, comma-separated list in
/// curly braces.
pub(crate) fn render_braced(items: &Vec<String>) -> (r: String)
    ensures
        r@ == braced_strs(strs_view(items@)),
{
    let ghost iv = strs_view(items@);
    let mut out = String::from_str("{");
    let mut i: usize = 0;
    while i < items.len()
        invariant
            i <= items@.len(),
            iv == strs_view(items@),
            iv.len() == items@.len(),
            out@ == "{"@ + comma_separated(iv.take(i as int)),
        decreases items@.len() - i,
    {
        if i > 0 {
            out.append(", ");
        }
        append_quoted(&mut out, items[i].as_str());
        proof {
            lemma_comma_separated_take_succ(iv, i as int);
            assert(iv[i as int] == items@[i as int]@);
            assert(out@ =~= "{"@ + comma_separated(iv.take(i as int + 1)));
        }
        i += 1;
    }
    out.append("}");
    proof {
        assert(iv.take(iv.len() as int) =~= iv);
        assert(out@ =~= braced_strs(iv));
    }
    out
}

} // verus!
