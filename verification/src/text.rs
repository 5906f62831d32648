//! Small string-list helpers shared by the markdown and suggestion
//! logic.

use vstd::prelude::*;
use vstd::string::StringExecFns;

verus! {

/// Whether some string in the list reads like the needle.
pub open spec fn spec_contains_string(list: Seq<String>, needle: Seq<char>) -> bool {
    exists|i: int| 0 <= i < list.len() && list[i]@ == needle
}

/// Whether the list holds a string that reads like the needle.
pub fn contains_string(list: &Vec<String>, needle: &str) -> (r: bool)
    ensures
        r == spec_contains_string(list@, needle@),
{
    let owned = needle.to_owned();
    let mut i: usize = 0;
    while i < list.len()
        invariant
            i <= list@.len(),
            owned@ == needle@,
            forall|j: int| 0 <= j < i ==> list@[j]@ != needle@,
        decreases list@.len() - i,
    {
        if list[i] == owned {
            return true;
        }
        i = i + 1;
    }
    false
}

/// The parts joined with the separator between each two.
pub open spec fn spec_join(parts: Seq<Seq<char>>, sep: Seq<char>) -> Seq<char>
    decreases parts.len(),
{
    if parts.len() == 0 {
        Seq::empty()
    } else if parts.len() == 1 {
        parts[0]
    } else {
        spec_join(parts.drop_last(), sep) + sep + parts.last()
    }
}

/// Joins the strings with the separator between each two.
pub fn join_strings(parts: &Vec<String>, sep: &str) -> (r: String)
    ensures
        r@ == spec_join(parts@.map_values(|p: String| p@), sep@),
{
    let ghost views = parts@.map_values(|p: String| p@);
    let mut s = String::new();
    let mut i: usize = 0;
    proof {
        assert(views.take(0) =~= Seq::<Seq<char>>::empty());
    }
    while i < parts.len()
        invariant
            i <= parts@.len(),
            views == parts@.map_values(|p: String| p@),
            s@ == spec_join(views.take(i as int), sep@),
        decreases parts@.len() - i,
    {
        if i > 0 {
            s.append(sep);
        }
        s.append(parts[i].as_str());
        proof {
            let prefix = views.take(i as int + 1);
            assert(prefix.drop_last() =~= views.take(i as int));
            assert(prefix.last() == views[i as int]);
            if i == 0 {
                assert(s@ =~= spec_join(prefix, sep@));
            } else {
                assert(s@ =~= spec_join(prefix, sep@));
            }
        }
        i = i + 1;
    }
    proof {
        assert(views.take(parts@.len() as int) =~= views);
    }
    s
}

} // verus!
