use vstd::prelude::*;

verus! {

/// The text obtained by writing every item in order, with `sep` between
/// neighbours.
pub open spec fn join_sep(sep: Seq<char>, items: Seq<Seq<char>>) -> Seq<char>
    decreases items.len(),
{
    if items.len() == 0 {
        Seq::empty()
    } else if items.len() == 1 {
        items[0]
    } else {
        join_sep(sep, items.drop_last()) + sep + items.last()
    }
}

/// Join the items with the given separator.
pub fn separated(s: &str, items: &Vec<String>) -> (r: String)
    ensures
        r@ == join_sep(s@, items.deep_view()),
{
    if items.len() == 0 {
        return String::new();
    }
    let mut r: String = items[0].clone();
    let mut i: usize = 1;
    while i < items.len()
        invariant
            1 <= i <= items.len(),
            r@ == join_sep(s@, items.deep_view().take(i as int)),
        decreases items.len() - i,
    {
        r.append(s);
        r.append(items[i].as_str());
        i += 1;
        proof {
            let vs = items.deep_view();
            assert(vs.take(i as int).drop_last() =~= vs.take(i - 1));
            assert(vs.take(i as int).last() == vs[i - 1]);
        }
    }
    proof {
        assert(items.deep_view().take(items.len() as int) =~= items.deep_view());
    }
    r
}

/// Join the items with `", "`.
pub fn comma_separated(items: &Vec<String>) -> (r: String)
    ensures
        r@ == join_sep(", "@, items.deep_view()),
{
    separated(", ", items)
}

} // verus!
