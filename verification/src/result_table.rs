//! What the result table shows of a tab's result: which of its three faces,
//! how many rows, and each cell as text.

use crate::query::{QueryResult, QueryResultView, Scalar, ScalarView};
use crate::text::{decimal, decimal_string};
use vstd::prelude::*;
use vstd::string::*;

verus! {

/// The table draws no more rows than this, however many the result holds.
pub const MAX_VISIBLE_ROWS: usize = 1000;

/// What is written after the number of rows.
pub const ROWS_SUFFIX: &'static str = " rows";

/// What is written after the execution time.
pub const MILLIS_SUFFIX: &'static str = "ms";

/// What a null cell shows.
pub const NULL_TEXT: &'static str = "NULL";

/// The style class of the rows at even indices.
pub const ROW_EVEN: &'static str = "row-even";

/// The style class of the rows at odd indices.
pub const ROW_ODD: &'static str = "row-odd";

/// The three faces of the result table.
#[derive(Debug, Clone, PartialEq, Eq)]
pub enum ResultPanel {
    /// No query has resolved in this tab yet.
    Empty,
    /// The last execution failed.
    Error { message: String },
    /// The last execution gave a result set.
    Table { row_count_label: String, time_label: String, visible_rows: usize },
}

/// What a [`ResultPanel`] stands for in contracts.
pub enum ResultPanelView {
    Empty,
    Error { message: Seq<char> },
    Table { row_count_label: Seq<char>, time_label: Seq<char>, visible_rows: nat },
}

impl View for ResultPanel {
    type V = ResultPanelView;

    open spec fn view(&self) -> ResultPanelView {
        match self {
            ResultPanel::Empty => ResultPanelView::Empty,
            ResultPanel::Error { message } => ResultPanelView::Error { message: message@ },
            ResultPanel::Table { row_count_label, time_label, visible_rows } => {
                ResultPanelView::Table {
                    row_count_label: row_count_label@,
                    time_label: time_label@,
                    visible_rows: *visible_rows as nat,
                }
            },
        }
    }
}

/// The number of rows drawn of `rows` that there are.
pub open spec fn visible_rows(rows: nat) -> nat {
    if rows <= MAX_VISIBLE_ROWS {
        rows
    } else {
        MAX_VISIBLE_ROWS as nat
    }
}

/// The face that the table shows for a tab's result: empty before the first
/// result, the message of a failure, and else the table with its two labels
/// and as many rows as are drawn.
pub open spec fn panel_of(result: Option<QueryResultView>) -> ResultPanelView {
    match result {
        None => ResultPanelView::Empty,
        Some(r) => match r.error {
            Some(message) => ResultPanelView::Error { message },
            None => ResultPanelView::Table {
                row_count_label: decimal(r.row_count) + ROWS_SUFFIX@,
                time_label: decimal(r.execution_time_ms) + MILLIS_SUFFIX@,
                visible_rows: visible_rows(r.rows.len()),
            },
        },
    }
}

/// The text that a cell shows: `NULL` for null, a text or a number as it is
/// written, and `true` or `false` for a boolean.
pub open spec fn cell_text(value: ScalarView) -> Seq<char> {
    match value {
        ScalarView::Null => NULL_TEXT@,
        ScalarView::Text(s) => s,
        ScalarView::Number(n) => n,
        ScalarView::Bool(b) => if b {
            "true"@
        } else {
            "false"@
        },
    }
}

/// The face of the result table for a tab's result.
pub fn result_panel(result: &Option<QueryResult>) -> (panel: ResultPanel)
    ensures
        panel@ == panel_of(
            match *result {
                Some(r) => Some(r@),
                None => None,
            },
        ),
{
    match result {
        None => ResultPanel::Empty,
        Some(r) => match &r.error {
            Some(message) => ResultPanel::Error { message: message.clone() },
            None => {
                let shown = if r.rows.len() <= MAX_VISIBLE_ROWS {
                    r.rows.len()
                } else {
                    MAX_VISIBLE_ROWS
                };
                ResultPanel::Table {
                    row_count_label: decimal_string(r.row_count as u128).concat(ROWS_SUFFIX),
                    time_label: decimal_string(r.execution_time_ms as u128).concat(MILLIS_SUFFIX),
                    visible_rows: shown,
                }
            },
        },
    }
}

/// The style class of the row at `index`, counted from zero.
pub fn row_class(index: usize) -> (class: &'static str)
    ensures
        class@ == if index % 2 == 0 {
            ROW_EVEN@
        } else {
            ROW_ODD@
        },
{
    if index % 2 == 0 {
        ROW_EVEN
    } else {
        ROW_ODD
    }
}

/// The text that a cell shows.
pub fn format_value(val: &Scalar) -> (text: String)
    ensures
        text@ == cell_text(val@),
{
    match val {
        Scalar::Null => NULL_TEXT.to_string(),
        Scalar::Text(s) => s.clone(),
        Scalar::Number(n) => n.clone(),
        Scalar::Bool(b) => if *b {
            "true".to_string()
        } else {
            "false".to_string()
        },
    }
}

} // verus!
