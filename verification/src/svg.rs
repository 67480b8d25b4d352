use vstd::prelude::*;
use vstd::string::StringExecFns;

verus! {

/// Path fragments joined with a single space between consecutive fragments,
/// as the traced outlines are concatenated into one SVG path attribute.
pub open spec fn joined(frags: Seq<Seq<char>>) -> Seq<char>
    decreases frags.len(),
{
    if frags.len() == 0 {
        Seq::empty()
    } else if frags.len() == 1 {
        frags[0]
    } else {
        joined(frags.drop_last()) + seq![' '] + frags.last()
    }
}

/// Concatenate the traced path fragments, space-separated, into the single
/// path string handed back to the caller.
pub fn join_fragments(frags: &Vec<String>) -> (res: String)
    ensures
        res@ == joined(frags@.map_values(|f: String| f@)),
{
    let ghost m = frags@.map_values(|f: String| f@);
    let mut res = String::new();
    let mut i: usize = 0;
    while i < frags.len()
        invariant
            i <= frags@.len(),
            m == frags@.map_values(|f: String| f@),
            res@ == joined(m.take(i as int)),
        decreases frags@.len() - i,
    {
        if i > 0 {
            res.append(" ");
        }
        res.append(frags[i].as_str());
        proof {
            reveal_strlit(" ");
            assert(" "@ =~= seq![' ']);
            assert(m.take(i + 1).drop_last() =~= m.take(i as int));
            assert(m.take(i + 1).last() == frags@[i as int]@);
            assert(res@ =~= joined(m.take(i + 1)));
        }
        i += 1;
    }
    proof {
        assert(m.take(frags@.len() as int) =~= m);
    }
    res
}

} // verus!
