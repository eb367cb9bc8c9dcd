//! Paths inside a pack. They are kept as texts, with `/` between the parts.

use vstd::prelude::*;
use vstd::string::StringExecFns;

verus! {

/// The path of `rel` below `base`.
pub open spec fn joined(base: Seq<char>, rel: Seq<char>) -> Seq<char> {
    base + seq!['/'] + rel
}

/// The path of `rel` below `base`.
pub fn join(base: &str, rel: &str) -> (path: String)
    ensures
        path@ == joined(base@, rel@),
{
    let mut path = base.to_owned();
    proof {
        reveal_strlit("/");
        assert("/"@ =~= seq!['/']);
    }
    path.append("/");
    path.append(rel);
    path
}

} // verus!
