//! Column identifiers: an ordered sequence of path segments naming a
//! (possibly nested) field, with equality over the full path and a
//! dotted textual rendering.

use vstd::prelude::*;

use crate::join::join_with;
use crate::join::spec_join;

verus! {

/// A column name: an ordered sequence of field-path segments. Its view
/// is the sequence of the segments' character sequences.
#[derive(Debug, Clone)]
pub struct ColumnName {
    path: Vec<String>,
}

impl View for ColumnName {
    type V = Seq<Seq<char>>;

    closed spec fn view(&self) -> Seq<Seq<char>> {
        self.path@.map_values(|s: String| s@)
    }
}

impl ColumnName {
    /// Builds a column name from its path segments, in order.
    pub fn new(path: Vec<String>) -> (r: ColumnName)
        ensures
            r@ == path@.map_values(|s: String| s@),
    {
        ColumnName { path }
    }

    /// Equality over the full path: true exactly when the two names have
    /// the same segments in the same order.
    pub fn path_eq(&self, other: &ColumnName) -> (r: bool)
        ensures
            r == (self@ == other@),
    {
        if self.path.len() != other.path.len() {
            assert(self@.len() != other@.len());
            return false;
        }
        let n = self.path.len();
        let mut i: usize = 0;
        while i < n
            invariant
                n == self.path.len() == other.path.len(),
                i <= n,
                forall|k: int| 0 <= k < i ==> self@[k] == other@[k],
            decreases n - i,
        {
            if !(self.path[i] == other.path[i]) {
                assert(self@[i as int] != other@[i as int]);
                return false;
            }
            i += 1;
        }
        assert(self@ =~~= other@);
        true
    }

    /// Renders the path with `.` between consecutive segments.
    pub fn render(&self) -> (r: String)
        ensures
            r@ == spec_join(self@, "."@),
    {
        join_with(&self.path, ".")
    }
}

} // verus!
