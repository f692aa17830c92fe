//! Small string helpers shared by the rest of the library.

use vstd::prelude::*;

verus! {

/// The character sequences of a sequence of strings.
pub open spec fn views_of(ss: Seq<String>) -> Seq<Seq<char>> {
    ss.map_values(|s: String| s@)
}

/// The character-sequence view of an optional string.
pub open spec fn opt_view(o: Option<String>) -> Option<Seq<char>> {
    match o {
        Some(s) => Some(s@),
        None => None,
    }
}

/// Compare two string slices by their characters.
pub fn str_eq(a: &str, b: &str) -> (r: bool)
    ensures
        r == (a@ == b@),
{
    let sa = a.to_owned();
    let sb = b.to_owned();
    sa == sb
}

/// Mapping the view over a pushed sequence pushes the view.
pub proof fn lemma_views_push(s: Seq<String>, x: String)
    ensures
        views_of(s.push(x)) =~= views_of(s).push(x@),
{
    assert forall|i: int| 0 <= i < s.len() + 1 implies views_of(s.push(x))[i] == views_of(
        s,
    ).push(x@)[i] by {
        assert(views_of(s.push(x))[i] == s.push(x)[i]@);
    }
}

/// Append one borrowed token to a token list.
pub fn push_token(args: &mut Vec<String>, t: &str)
    ensures
        views_of(final(args)@) == views_of(old(args)@).push(t@),
{
    let s = t.to_owned();
    let ghost sg = s;
    args.push(s);
    proof {
        lemma_views_push(old(args)@, sg);
        assert(views_of(args@) =~= views_of(old(args)@).push(t@));
    }
}

/// Append one owned token to a token list.
pub fn push_string(args: &mut Vec<String>, t: String)
    ensures
        views_of(final(args)@) == views_of(old(args)@).push(t@),
{
    let ghost tg = t;
    args.push(t);
    proof {
        lemma_views_push(old(args)@, tg);
        assert(views_of(args@) =~= views_of(old(args)@).push(tg@));
    }
}

/// Whether one of the strings of `list` has the characters of `s`.
pub fn contains_str(list: &Vec<String>, s: &str) -> (r: bool)
    ensures
        r == views_of(list@).contains(s@),
{
    let mut i: usize = 0;
    while i < list.len()
        invariant
            i <= list@.len(),
            forall|j: int| 0 <= j < i ==> list@[j]@ != s@,
        decreases list@.len() - i,
    {
        if str_eq(list[i].as_str(), s) {
            proof {
                assert(views_of(list@)[i as int] == s@);
            }
            return true;
        }
        i += 1;
    }
    proof {
        assert(forall|j: int| 0 <= j < list@.len() ==> views_of(list@)[j] == list@[j]@);
    }
    false
}

} // verus!
