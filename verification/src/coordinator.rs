//! The execution coordinator: what happens to a session when a query is sent
//! to the backend and when its answer comes back.
//!
//! The backend call itself is made by the caller. The coordinator decides
//! what to do before it ([`QueryState::execute`]) and what to make of its
//! outcome ([`QueryState::resolve`]). Between the two the caller holds a
//! [`PendingQuery`], which remembers the tab that asked by its identifier, so
//! that the answer finds that tab again whatever was selected, added or
//! closed in the meantime.

use crate::clock::now_millis;
use crate::ids::{fresh_id, is_random_uuid};
use crate::query::{
    QueryHistoryEntry, QueryHistoryEntryView, QueryResult, QueryResultView, EMPTY_QUERY,
};
use crate::session::{QueryState, QueryStateView, QueryTabView};
use crate::text::{is_blank, str_is_blank};
use vstd::prelude::*;
use vstd::string::*;

verus! {

/// The database that every execution runs against.
pub const DEFAULT_DATABASE: &'static str = "megadb";

/// One execution that has been sent to the backend and has not resolved:
/// the tab that asked, and what was sent.
#[derive(Debug, Clone, PartialEq, Eq)]
pub struct PendingQuery {
    pub tab_id: u128,
    pub sql: String,
    pub database: String,
}

/// What a [`PendingQuery`] stands for in contracts.
pub struct PendingQueryView {
    pub tab_id: u128,
    pub sql: Seq<char>,
    pub database: Seq<char>,
}

impl View for PendingQuery {
    type V = PendingQueryView;

    open spec fn view(&self) -> PendingQueryView {
        PendingQueryView { tab_id: self.tab_id, sql: self.sql@, database: self.database@ }
    }
}

impl PendingQueryView {
    /// The execution of `sql` that the tab `tab_id` asks for.
    pub open spec fn of(tab_id: u128, sql: Seq<char>) -> PendingQueryView {
        PendingQueryView { tab_id, sql, database: DEFAULT_DATABASE@ }
    }
}

/// How an execution ended, in contracts: the backend's result, or the
/// message of the error that kept it from answering.
pub type OutcomeView = Result<QueryResultView, Seq<char>>;

/// The view of an execution's outcome.
pub open spec fn outcome_view(outcome: Result<QueryResult, String>) -> OutcomeView {
    match outcome {
        Ok(r) => Ok(r@),
        Err(message) => Err(message@),
    }
}

/// The result that a tab shows for an outcome: the backend's result where it
/// carries no error, and otherwise a failure that holds the message alone.
pub open spec fn shown(outcome: OutcomeView) -> QueryResultView {
    match outcome {
        Ok(r) => match r.error {
            None => r,
            Some(message) => QueryResultView::failure(message),
        },
        Err(message) => QueryResultView::failure(message),
    }
}

/// An outcome counts as a success when the backend answered and its result
/// carries no error.
pub open spec fn succeeded(outcome: OutcomeView) -> bool {
    outcome matches Ok(r) && r.error is None
}

/// The history entry that records an outcome. It takes the counts from the
/// backend's result, and zero for both where the backend did not answer.
pub open spec fn recorded(
    pending: PendingQueryView,
    outcome: OutcomeView,
    entry_id: u128,
    executed_at: int,
) -> QueryHistoryEntryView {
    QueryHistoryEntryView {
        id: entry_id,
        sql: pending.sql,
        database: pending.database,
        execution_time_ms: match outcome {
            Ok(r) => r.execution_time_ms,
            Err(_) => 0,
        },
        row_count: match outcome {
            Ok(r) => r.row_count,
            Err(_) => 0,
        },
        executed_at,
        success: succeeded(outcome),
    }
}

impl QueryStateView {
    /// The tab that `tab_id` names is marked as running and takes `sql` as
    /// its text; nothing changes when `tab_id` names no tab.
    pub open spec fn dispatch(self, tab_id: u128, sql: Seq<char>) -> QueryStateView {
        match self.position(tab_id) {
            Some(i) => self.with_tab(i, QueryTabView { sql, is_running: true, ..self.tabs[i] }),
            None => self,
        }
    }

    /// The outcome of `pending` is applied: the tab that asked, if it is
    /// still there, shows the result and runs no more, and in every case
    /// one entry is appended to the log.
    pub open spec fn resolve(
        self,
        pending: PendingQueryView,
        outcome: OutcomeView,
        entry_id: u128,
        executed_at: int,
    ) -> QueryStateView {
        let tabs = match self.position(pending.tab_id) {
            Some(i) => self.tabs.update(
                i,
                QueryTabView { result: Some(shown(outcome)), is_running: false, ..self.tabs[i] },
            ),
            None => self.tabs,
        };
        QueryStateView {
            tabs,
            active_tab_index: self.active_tab_index,
            history: self.history.push(recorded(pending, outcome, entry_id, executed_at)),
        }
    }

    /// Blank SQL is answered on the spot: the tab takes the text and shows
    /// the "Empty query" failure, and the log gets a failed entry, as if the
    /// execution had been sent and had come back with that failure.
    pub open spec fn reject_blank(
        self,
        tab_id: u128,
        sql: Seq<char>,
        entry_id: u128,
        executed_at: int,
    ) -> QueryStateView {
        self.dispatch(tab_id, sql).resolve(
            PendingQueryView::of(tab_id, sql),
            Ok(QueryResultView::failure(EMPTY_QUERY@)),
            entry_id,
            executed_at,
        )
    }

    /// Marking a tab or giving it text moves no tab and changes no
    /// identifier, so every identifier names the same tab before and after.
    pub proof fn lemma_dispatch_keeps_positions(self, tab_id: u128, sql: Seq<char>, id: u128)
        ensures
            self.dispatch(tab_id, sql).position(id) == self.position(id),
            self.dispatch(tab_id, sql).tabs.len() == self.tabs.len(),
    {
        let after = self.dispatch(tab_id, sql);
        self.lemma_position_is_first(tab_id);
        assert(forall|i: int| 0 <= i < self.tabs.len() ==> after.tabs[i].id == self.tabs[i].id);
        self.lemma_position_is_first(id);
        match self.position(id) {
            Some(i) => {
                assert(after.is_first_match(id, i)) by {
                    assert(forall|j: int| 0 <= j < i ==> (#[trigger] after.tabs[j]).id != id) by {
                        assert(forall|j: int|
                            0 <= j < i ==> (#[trigger] after.tabs[j]).id == self.tabs[j].id);
                    }
                }
                after.lemma_position_first(id, i);
            },
            None => {
                after.lemma_position_is_first(id);
                if after.has_tab(id) {
                    let w = choose|i: int|
                        0 <= i < after.tabs.len() && (#[trigger] after.tabs[i]).id == id;
                    assert(self.tabs[w].id == id);
                }
            },
        }
    }
}

impl QueryState {
    /// Marks the tab that `tab_id` names as running, gives it `sql` as its
    /// text, and hands out the record of the execution to send. Where no tab
    /// has that identifier the session stays as it is, and the execution is
    /// sent all the same.
    pub fn dispatch(&mut self, tab_id: u128, sql: String) -> (pending: PendingQuery)
        ensures
            final(self)@ == old(self)@.dispatch(tab_id, sql@),
            pending@ == PendingQueryView::of(tab_id, sql@),
            old(self)@.inv() ==> final(self)@.inv(),
    {
        let pending = PendingQuery {
            tab_id,
            sql: sql.clone(),
            database: DEFAULT_DATABASE.to_string(),
        };
        match self.tab_position(tab_id) {
            Some(i) => {
                let tab = &mut self.tabs[i];
                tab.sql = sql;
                tab.is_running = true;
                assert(self@.tabs =~= old(self)@.dispatch(tab_id, sql@).tabs);
            },
            None => {},
        }
        pending
    }

    /// Applies the outcome of `pending` with the given identifier and time
    /// for the history entry.
    ///
    /// The tab that asked is found by its identifier. If it is still open it
    /// shows the result, or for a failed execution the error message alone,
    /// and runs no more. Whether or not it is, the log gets one entry.
    pub fn resolve_at(
        &mut self,
        pending: PendingQuery,
        outcome: Result<QueryResult, String>,
        entry_id: u128,
        executed_at: i64,
    )
        ensures
            final(self)@ == old(self)@.resolve(
                pending@,
                outcome_view(outcome),
                entry_id,
                executed_at as int,
            ),
            old(self)@.inv() ==> final(self)@.inv(),
    {
        let ghost model = old(self)@.resolve(
            pending@,
            outcome_view(outcome),
            entry_id,
            executed_at as int,
        );
        let (result, execution_time_ms, row_count, success) = match outcome {
            Ok(r) => {
                let time = r.execution_time_ms;
                let rows = r.row_count;
                if r.is_ok() {
                    (r, time, rows, true)
                } else {
                    (QueryResult::failure(r.error.unwrap()), time, rows, false)
                }
            },
            Err(message) => (QueryResult::failure(message), 0, 0, false),
        };
        assert(result@ == shown(outcome_view(outcome)));
        assert(result@.well_formed());
        let entry = QueryHistoryEntry {
            id: entry_id,
            sql: pending.sql,
            database: pending.database,
            execution_time_ms,
            row_count,
            executed_at,
            success,
        };
        assert(entry@ == recorded(pending@, outcome_view(outcome), entry_id, executed_at as int));
        match self.tab_position(pending.tab_id) {
            Some(i) => {
                let tab = &mut self.tabs[i];
                tab.result = Some(result);
                tab.is_running = false;
            },
            None => {},
        }
        self.history.push(entry);
        assert(self@.tabs =~= model.tabs);
        assert(self@.history =~= model.history);
    }

    /// Applies the outcome of `pending`, under a freshly drawn identifier
    /// and the current time for the history entry.
    pub fn resolve(&mut self, pending: PendingQuery, outcome: Result<QueryResult, String>)
        ensures
            final(self)@ == old(self)@.resolve(
                pending@,
                outcome_view(outcome),
                final(self)@.history.last().id,
                final(self)@.history.last().executed_at,
            ),
            is_random_uuid(final(self)@.history.last().id),
            old(self)@.inv() ==> final(self)@.inv(),
    {
        let entry_id = fresh_id();
        let executed_at = now_millis();
        self.resolve_at(pending, outcome, entry_id, executed_at);
    }

    /// Answers blank SQL without the backend, with the given identifier and
    /// time for the history entry.
    pub fn reject_blank_at(&mut self, tab_id: u128, sql: String, entry_id: u128, executed_at: i64)
        ensures
            final(self)@ == old(self)@.reject_blank(tab_id, sql@, entry_id, executed_at as int),
            old(self)@.inv() ==> final(self)@.inv(),
    {
        let pending = self.dispatch(tab_id, sql);
        self.resolve_at(pending, Ok(QueryResult::empty_query()), entry_id, executed_at);
    }

    /// Takes an execute request for the tab that `tab_id` names.
    ///
    /// For SQL that is not blank the tab is marked as running and the
    /// execution to send is handed out: the caller invokes the backend with
    /// it and brings the outcome to [`QueryState::resolve`]. Blank SQL is
    /// answered at once with the "Empty query" failure, and nothing is
    /// handed out, so the backend is not invoked.
    pub fn execute(&mut self, tab_id: u128, sql: String) -> (pending: Option<PendingQuery>)
        ensures
            pending is None <==> is_blank(sql@),
            pending matches Some(p) ==> {
                &&& p@ == PendingQueryView::of(tab_id, sql@)
                &&& final(self)@ == old(self)@.dispatch(tab_id, sql@)
            },
            pending is None ==> {
                &&& final(self)@ == old(self)@.reject_blank(
                    tab_id,
                    sql@,
                    final(self)@.history.last().id,
                    final(self)@.history.last().executed_at,
                )
                &&& is_random_uuid(final(self)@.history.last().id)
            },
            old(self)@.inv() ==> final(self)@.inv(),
    {
        if str_is_blank(sql.as_str()) {
            let entry_id = fresh_id();
            let executed_at = now_millis();
            self.reject_blank_at(tab_id, sql, entry_id, executed_at);
            None
        } else {
            Some(self.dispatch(tab_id, sql))
        }
    }
}

} // verus!
