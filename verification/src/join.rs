//! Joining a sequence of strings with a separator, used by the textual
//! rendering of column paths and of composite expression nodes.

use vstd::prelude::*;
use itertools::Itertools;

verus! {

/// The string obtained by writing each part in order with `sep` between
/// consecutive parts: empty for no parts, and no trailing separator.
pub open spec fn spec_join(parts: Seq<Seq<char>>, sep: Seq<char>) -> Seq<char>
    decreases parts.len(),
{
    if parts.len() == 0 {
        Seq::empty()
    } else if parts.len() == 1 {
        parts[0]
    } else {
        parts[0] + sep + spec_join(parts.drop_first(), sep)
    }
}

/// Relies on `itertools::Itertools::join`: it writes every element in
/// order via its `Display` form (the identity on strings), inserting the
/// separator between consecutive elements and nowhere else.
#[verifier::external_body]
pub(crate) fn join_with(parts: &Vec<String>, sep: &str) -> (r: String)
    ensures
        r@ == spec_join(parts@.map_values(|s: String| s@), sep@),
{
    parts.iter().join(sep)
}

} // verus!
