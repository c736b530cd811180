//! Joining the process's arguments into the single string handed to the
//! shell-open call: single-space separators, original order, empty string for
//! an empty argument list.

use vstd::prelude::*;
use vstd::string::StringExecFns;

verus! {

/// The elements of `parts` joined with single spaces, order kept; the empty
/// sequence when there are no parts.
pub open spec fn space_joined(parts: Seq<Seq<char>>) -> Seq<char>
    decreases parts.len(),
{
    if parts.len() == 0 {
        Seq::empty()
    } else if parts.len() == 1 {
        parts[0]
    } else {
        space_joined(parts.drop_last()) + seq![' '] + parts.last()
    }
}

/// The views of the strings in `args`.
pub open spec fn views_of(args: Seq<String>) -> Seq<Seq<char>> {
    args.map_values(|a: String| a@)
}

/// Joins the received arguments with single spaces, keeping their order.
pub fn join_args(args: &Vec<String>) -> (joined: String)
    ensures
        joined@ == space_joined(views_of(args@)),
{
    let mut out = String::new();
    let mut i: usize = 0;
    while i < args.len()
        invariant
            i <= args.len(),
            out@ == space_joined(views_of(args@).take(i as int)),
        decreases args.len() - i,
    {
        if i > 0 {
            out.append(" ");
        }
        out.append(args[i].as_str());
        proof {
            reveal_strlit(" ");
            let parts = views_of(args@);
            assert(parts.take(i as int + 1).drop_last() =~= parts.take(i as int));
            assert(parts.take(i as int + 1).last() == parts[i as int]);
            assert(out@ =~= space_joined(parts.take(i as int + 1)));
        }
        i += 1;
    }
    proof {
        assert(views_of(args@).take(args@.len() as int) =~= views_of(args@));
    }
    out
}

} // verus!
