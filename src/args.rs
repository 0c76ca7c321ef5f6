use vstd::prelude::*;
use vstd::string::StringExecFns;

verus! {

/// The texts of a list of strings.
pub open spec fn views(v: Seq<String>) -> Seq<Seq<char>> {
    v.map_values(|s: String| s@)
}

/// An owned copy of a string slice.
pub fn owned(s: &str) -> (r: String)
    ensures
        r@ == s@,
{
    String::from_str(s)
}

/// Appends an owned copy of `s` to an argument list.
pub fn push_str_arg(v: &mut Vec<String>, s: &str)
    ensures
        views(final(v)@) == views(old(v)@).push(s@),
{
    v.push(String::from_str(s));
    assert(views(final(v)@) =~= views(old(v)@).push(s@));
}

/// Appends `s` to an argument list.
pub fn push_arg(v: &mut Vec<String>, s: String)
    ensures
        views(final(v)@) == views(old(v)@).push(s@),
{
    let ghost t = s@;
    v.push(s);
    assert(views(final(v)@) =~= views(old(v)@).push(t));
}

} // verus!
