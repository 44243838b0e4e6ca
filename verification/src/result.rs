//! The tabular result of one query: ordered rows of ordered display-string
//! cells.

use vstd::prelude::*;

verus! {

/// The mathematical content of one row: the sequence of its cells' texts.
pub open spec fn row_view(r: Seq<String>) -> Seq<Seq<char>> {
    r.map_values(|s: String| s@)
}

/// The mathematical content of a grid: the sequence of its rows' contents.
pub open spec fn grid_view(g: Seq<Vec<String>>) -> Seq<Seq<Seq<char>>> {
    g.map_values(|r: Vec<String>| row_view(r@))
}

/// An ordered sequence of rows, each an ordered sequence of display-string
/// cells. Column count is not separately tracked: rows may differ in
/// length if the underlying row shapes differ. A result is rebuilt from
/// scratch on every execution; it is never appended to across calls.
pub struct QueryResult {
    pub rows: Vec<Vec<String>>,
}

impl View for QueryResult {
    type V = Seq<Seq<Seq<char>>>;

    open spec fn view(&self) -> Seq<Seq<Seq<char>>> {
        grid_view(self.rows@)
    }
}

impl QueryResult {
    /// A result with no rows at all.
    pub fn empty() -> (r: QueryResult)
        ensures
            r@ == Seq::<Seq<Seq<char>>>::empty(),
    {
        let r = QueryResult { rows: Vec::new() };
        proof {
            assert(r@ =~= Seq::<Seq<Seq<char>>>::empty());
        }
        r
    }

    /// How many rows the result holds.
    pub fn row_count(&self) -> (n: usize)
        ensures
            n == self@.len(),
    {
        self.rows.len()
    }
}

} // verus!
