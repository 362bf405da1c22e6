//! Query results and the history log's entries.
//!
//! Every executable type here has a mathematical view, written with `@`,
//! over which the contracts of the session store and of the execution
//! coordinator are stated.

use vstd::prelude::*;

verus! {

/// One column of a result set.
#[derive(Debug, Clone, PartialEq, Eq)]
pub struct QueryColumn {
    pub name: String,
    pub data_type: String,
    pub nullable: bool,
}

/// What a [`QueryColumn`] stands for in contracts.
pub struct QueryColumnView {
    pub name: Seq<char>,
    pub data_type: Seq<char>,
    pub nullable: bool,
}

impl View for QueryColumn {
    type V = QueryColumnView;

    open spec fn view(&self) -> QueryColumnView {
        QueryColumnView { name: self.name@, data_type: self.data_type@, nullable: self.nullable }
    }
}

/// One cell of a result row. A number is kept as its decimal text, so that
/// no rounding ever happens between the backend and the screen.
#[derive(Debug, Clone, PartialEq, Eq)]
pub enum Scalar {
    Null,
    Text(String),
    Number(String),
    Bool(bool),
}

/// What a [`Scalar`] stands for in contracts.
pub enum ScalarView {
    Null,
    Text(Seq<char>),
    Number(Seq<char>),
    Bool(bool),
}

impl View for Scalar {
    type V = ScalarView;

    open spec fn view(&self) -> ScalarView {
        match self {
            Scalar::Null => ScalarView::Null,
            Scalar::Text(s) => ScalarView::Text(s@),
            Scalar::Number(n) => ScalarView::Number(n@),
            Scalar::Bool(b) => ScalarView::Bool(*b),
        }
    }
}

/// The views of a row's cells, in order.
pub open spec fn row_view(row: Seq<Scalar>) -> Seq<ScalarView> {
    Seq::new(row.len(), |j: int| row[j]@)
}

/// The views of a result's rows, in order.
pub open spec fn rows_view(rows: Seq<Vec<Scalar>>) -> Seq<Seq<ScalarView>> {
    Seq::new(rows.len(), |i: int| row_view(rows[i]@))
}

/// The views of a result's columns, in order.
pub open spec fn columns_view(columns: Seq<QueryColumn>) -> Seq<QueryColumnView> {
    Seq::new(columns.len(), |i: int| columns[i]@)
}

/// What the backend hands back for one execution, or what the coordinator
/// puts in its place when the execution failed.
#[derive(Debug, Clone, PartialEq, Eq)]
pub struct QueryResult {
    pub columns: Vec<QueryColumn>,
    pub rows: Vec<Vec<Scalar>>,
    pub row_count: u64,
    pub execution_time_ms: u64,
    pub error: Option<String>,
}

/// What a [`QueryResult`] stands for in contracts.
pub struct QueryResultView {
    pub columns: Seq<QueryColumnView>,
    pub rows: Seq<Seq<ScalarView>>,
    pub row_count: nat,
    pub execution_time_ms: nat,
    pub error: Option<Seq<char>>,
}

impl QueryResultView {
    /// The result that stands for a failed execution: nothing but the message.
    pub open spec fn failure(message: Seq<char>) -> QueryResultView {
        QueryResultView {
            columns: Seq::empty(),
            rows: Seq::empty(),
            row_count: 0,
            execution_time_ms: 0,
            error: Some(message),
        }
    }

    /// A result carries no error.
    pub open spec fn is_ok(self) -> bool {
        self.error is None
    }

    /// A result that carries an error carries no data.
    pub open spec fn well_formed(self) -> bool {
        self.error is Some ==> self.columns.len() == 0 && self.rows.len() == 0
    }
}

impl View for QueryResult {
    type V = QueryResultView;

    open spec fn view(&self) -> QueryResultView {
        QueryResultView {
            columns: columns_view(self.columns@),
            rows: rows_view(self.rows@),
            row_count: self.row_count as nat,
            execution_time_ms: self.execution_time_ms as nat,
            error: match self.error {
                Some(message) => Some(message@),
                None => None,
            },
        }
    }
}

/// The view of a result that may not be there yet.
pub open spec fn result_view(result: Option<QueryResult>) -> Option<QueryResultView> {
    match result {
        Some(r) => Some(r@),
        None => None,
    }
}

/// The message shown when blank SQL is submitted.
pub const EMPTY_QUERY: &'static str = "Empty query";

impl QueryResult {
    /// True iff the result carries no error.
    pub fn is_ok(&self) -> (ok: bool)
        ensures
            ok == self@.is_ok(),
    {
        self.error.is_none()
    }

    /// True iff the result keeps the rule that an error comes without data.
    pub fn is_well_formed(&self) -> (ok: bool)
        ensures
            ok == self@.well_formed(),
    {
        self.error.is_none() || (self.columns.len() == 0 && self.rows.len() == 0)
    }

    /// The result shown for a failed execution: the message, no columns, no
    /// rows, and zero for both counts.
    pub fn failure(message: String) -> (result: QueryResult)
        ensures
            result@ == QueryResultView::failure(message@),
    {
        let result = QueryResult {
            columns: Vec::new(),
            rows: Vec::new(),
            row_count: 0,
            execution_time_ms: 0,
            error: Some(message),
        };
        assert(result@.columns =~= Seq::empty());
        assert(result@.rows =~= Seq::empty());
        result
    }

    /// The result shown for blank SQL, which never reaches the backend.
    pub fn empty_query() -> (result: QueryResult)
        ensures
            result@ == QueryResultView::failure(EMPTY_QUERY@),
    {
        QueryResult::failure(EMPTY_QUERY.to_string())
    }
}

/// One line of the history log: a record of one execution that has resolved.
#[derive(Debug, Clone, PartialEq, Eq)]
pub struct QueryHistoryEntry {
    pub id: u128,
    pub sql: String,
    pub database: String,
    pub execution_time_ms: u64,
    pub row_count: u64,
    /// Milliseconds since the Unix epoch, UTC.
    pub executed_at: i64,
    pub success: bool,
}

/// What a [`QueryHistoryEntry`] stands for in contracts.
pub struct QueryHistoryEntryView {
    pub id: u128,
    pub sql: Seq<char>,
    pub database: Seq<char>,
    pub execution_time_ms: nat,
    pub row_count: nat,
    pub executed_at: int,
    pub success: bool,
}

impl View for QueryHistoryEntry {
    type V = QueryHistoryEntryView;

    open spec fn view(&self) -> QueryHistoryEntryView {
        QueryHistoryEntryView {
            id: self.id,
            sql: self.sql@,
            database: self.database@,
            execution_time_ms: self.execution_time_ms as nat,
            row_count: self.row_count as nat,
            executed_at: self.executed_at as int,
            success: self.success,
        }
    }
}

/// The views of the log's entries, oldest first.
pub open spec fn history_view(history: Seq<QueryHistoryEntry>) -> Seq<QueryHistoryEntryView> {
    Seq::new(history.len(), |i: int| history[i]@)
}

} // verus!
