//! The owned state a caller threads through the core's entry points: the
//! credentials being edited, the query text, the last tabular result, and
//! the table listing. The presentation layer owns its lifecycle; the core
//! only returns values that the caller stores here.

use crate::config::ConnectionConfig;
use crate::result::QueryResult;
use vstd::prelude::*;

verus! {

/// Everything the viewer holds between user actions.
pub struct ViewerState {
    /// The credentials as currently edited.
    pub config: ConnectionConfig,
    /// The query text as currently typed.
    pub current_query: String,
    /// The result of the last execution.
    pub query_result: QueryResult,
    /// The table names on display; populated by an external collaborator.
    pub table_list: Vec<String>,
}

impl Default for ViewerState {
    /// The state at startup: empty credentials, no query text, no rows,
    /// no table names.
    fn default() -> (s: ViewerState)
        ensures
            s.config.host@ == Seq::<char>::empty(),
            s.config.username@ == Seq::<char>::empty(),
            s.config.password@ == Seq::<char>::empty(),
            s.config.database@ == Seq::<char>::empty(),
            s.current_query@ == Seq::<char>::empty(),
            s.query_result@ == Seq::<Seq<Seq<char>>>::empty(),
            s.table_list@ == Seq::<String>::empty(),
    {
        ViewerState {
            config: ConnectionConfig::default(),
            current_query: String::new(),
            query_result: QueryResult::empty(),
            table_list: Vec::new(),
        }
    }
}

impl ViewerState {
    /// Stores the result of an execution. The stored result is exactly
    /// the incoming one — nothing of the previously stored result
    /// survives into it — and the other fields are untouched. This is
    /// the full replacement the core promises across successive
    /// executions.
    pub fn store_result(&mut self, r: QueryResult)
        ensures
            final(self).query_result@ == r@,
            final(self).config == old(self).config,
            final(self).current_query == old(self).current_query,
            final(self).table_list == old(self).table_list,
    {
        self.query_result = r;
    }
}

} // verus!
