use megaweb_app::coordinator::{PendingQuery, DEFAULT_DATABASE};
use megaweb_app::query::{QueryColumn, QueryHistoryEntry, QueryResult, Scalar, EMPTY_QUERY};
use megaweb_app::session::QueryState;

const T1: u128 = 0x00000000_0000_4000_8000_000000000001;
const T2: u128 = 0x00000000_0000_4000_8000_000000000002;
const E1: u128 = 0x00000000_0000_4000_8000_0000000000e1;
const E2: u128 = 0x00000000_0000_4000_8000_0000000000e2;
const NOON: i64 = 1_700_000_000_000;

fn one_row(row_count: u64) -> QueryResult {
    QueryResult {
        columns: vec![QueryColumn {
            name: "n".to_string(),
            data_type: "INT".to_string(),
            nullable: false,
        }],
        rows: vec![vec![Scalar::Number("1".to_string())]],
        row_count,
        execution_time_ms: 23,
        error: None,
    }
}

fn failure(message: &str) -> QueryResult {
    QueryResult {
        columns: vec![],
        rows: vec![],
        row_count: 0,
        execution_time_ms: 0,
        error: Some(message.to_string()),
    }
}

#[test]
fn execute_then_success_updates_tab_and_history() {
    let mut state = QueryState::with_first_tab(T1);
    let pending = state.execute(T1, "SELECT 1".to_string()).unwrap();
    assert!(state.tabs[0].is_running);
    assert_eq!(state.tabs[0].sql, "SELECT 1");
    assert_eq!(pending.tab_id, T1);
    assert_eq!(pending.sql, "SELECT 1");
    assert_eq!(pending.database, "megadb");
    assert!(state.history.is_empty());

    state.resolve_at(pending, Ok(one_row(1)), E1, NOON);
    assert!(!state.tabs[0].is_running);
    assert_eq!(state.tabs[0].result.as_ref().unwrap().row_count, 1);
    assert_eq!(state.tabs[0].result, Some(one_row(1)));
    assert_eq!(
        state.history,
        vec![QueryHistoryEntry {
            id: E1,
            sql: "SELECT 1".to_string(),
            database: "megadb".to_string(),
            execution_time_ms: 23,
            row_count: 1,
            executed_at: NOON,
            success: true,
        }]
    );
    assert!(state.is_valid());
}

#[test]
fn resolution_after_the_tab_was_closed_only_writes_history() {
    let mut state = QueryState::with_first_tab(T1);
    state.add_tab_with_id(T2);
    let pending = state.execute(T1, "SELECT 1".to_string()).unwrap();
    state.close_tab(0);
    let before = state.clone();

    state.resolve_at(pending, Ok(one_row(1)), E1, NOON);
    assert_eq!(state.tabs, before.tabs);
    assert_eq!(state.active_tab_index, before.active_tab_index);
    assert_eq!(state.history.len(), 1);
    assert!(state.history[0].success);
    assert_eq!(state.history[0].sql, "SELECT 1");
    assert!(state.is_valid());
}

#[test]
fn results_do_not_cross_between_tabs() {
    let mut state = QueryState::with_first_tab(T1);
    state.add_tab_with_id(T2);
    let a = state.execute(T1, "SELECT x".to_string()).unwrap();
    let b = state.execute(T2, "SELECT y".to_string()).unwrap();
    assert!(state.tabs[0].is_running && state.tabs[1].is_running);

    state.resolve_at(b, Ok(one_row(7)), E2, NOON);
    assert_eq!(state.tabs[0].result, None);
    assert!(state.tabs[0].is_running);
    assert_eq!(state.tabs[1].result, Some(one_row(7)));
    assert!(!state.tabs[1].is_running);

    state.resolve_at(a, Err("timeout".to_string()), E1, NOON + 5);
    assert_eq!(state.tabs[0].result, Some(failure("timeout")));
    assert!(!state.tabs[0].is_running);
    assert_eq!(state.tabs[1].result, Some(one_row(7)));

    let order: Vec<u128> = state.history.iter().map(|e| e.id).collect();
    assert_eq!(order, vec![E2, E1]);
    assert_eq!(state.history[0].sql, "SELECT y");
    assert_eq!(state.history[1].sql, "SELECT x");
}

#[test]
fn results_find_their_tab_after_the_active_tab_changed() {
    let mut state = QueryState::with_first_tab(T1);
    let pending = state.execute(T1, "SELECT 1".to_string()).unwrap();
    state.add_tab_with_id(T2);
    assert_eq!(state.active_tab_index, 1);
    state.resolve_at(pending, Ok(one_row(1)), E1, NOON);
    assert_eq!(state.tabs[0].result, Some(one_row(1)));
    assert_eq!(state.tabs[1].result, None);
    assert_eq!(state.active_tab_index, 1);
}

#[test]
fn history_grows_by_one_per_resolution_and_keeps_old_entries() {
    let mut state = QueryState::with_first_tab(T1);
    let mut seen: Vec<QueryHistoryEntry> = Vec::new();
    for k in 0..6u64 {
        let pending = state.execute(T1, format!("SELECT {}", k)).unwrap();
        let outcome = if k % 2 == 0 { Ok(one_row(k)) } else { Err(format!("e{}", k)) };
        state.resolve_at(pending, outcome, 1000 + k as u128, NOON + k as i64);
        assert_eq!(state.history.len() as u64, k + 1);
        assert_eq!(&state.history[..seen.len()], &seen[..]);
        let last = state.history.last().unwrap();
        assert_eq!(last.id, 1000 + k as u128);
        assert_eq!(last.success, k % 2 == 0);
        assert_eq!(last.executed_at, NOON + k as i64);
        seen = state.history.clone();
    }
}

#[test]
fn backend_error_becomes_a_failure_result() {
    let mut state = QueryState::with_first_tab(T1);
    let pending = state.execute(T1, "SELECT 1".to_string()).unwrap();
    state.resolve_at(pending, Err("connection refused".to_string()), E1, NOON);
    assert_eq!(state.tabs[0].result, Some(failure("connection refused")));
    assert!(!state.tabs[0].is_running);
    let entry = &state.history[0];
    assert!(!entry.success);
    assert_eq!(entry.execution_time_ms, 0);
    assert_eq!(entry.row_count, 0);
    assert_eq!(entry.database, DEFAULT_DATABASE);
}

#[test]
fn result_with_error_is_reduced_to_its_message() {
    let mut state = QueryState::with_first_tab(T1);
    let pending = state.execute(T1, "SELECT 1".to_string()).unwrap();
    let mut odd = one_row(9);
    odd.error = Some("syntax error".to_string());
    state.resolve_at(pending, Ok(odd), E1, NOON);
    assert_eq!(state.tabs[0].result, Some(failure("syntax error")));
    let entry = &state.history[0];
    assert!(!entry.success);
    assert_eq!(entry.row_count, 9);
    assert_eq!(entry.execution_time_ms, 23);
    assert!(state.is_valid());
}

#[test]
fn empty_sql_is_answered_without_the_backend() {
    let mut state = QueryState::with_first_tab(T1);
    assert_eq!(state.execute(T1, String::new()), None);
    let result = state.tabs[0].result.as_ref().unwrap();
    assert_eq!(result.error.as_deref(), Some("Empty query"));
    assert_eq!(result.row_count, 0);
    assert_eq!(result.execution_time_ms, 0);
    assert!(result.columns.is_empty() && result.rows.is_empty());
    assert!(!state.tabs[0].is_running);
    assert_eq!(state.history.len(), 1);
    assert!(!state.history[0].success);
    assert_eq!(state.history[0].sql, "");
    assert_eq!(uuid::Uuid::from_u128(state.history[0].id).get_version_num(), 4);
}

#[test]
fn whitespace_only_sql_is_answered_without_the_backend() {
    for sql in [" ", "\n", " \t\r\n ", "\u{a0}\u{2003}\u{3000}"] {
        let mut state = QueryState::with_first_tab(T1);
        assert_eq!(state.execute(T1, sql.to_string()), None);
        assert_eq!(state.tabs[0].result, Some(failure(EMPTY_QUERY)));
        assert_eq!(state.tabs[0].sql, sql);
        assert_eq!(state.history.len(), 1);
        assert!(!state.history[0].success);
        assert_eq!(state.history[0].row_count, 0);
    }
}

#[test]
fn reject_blank_at_records_the_given_id_and_time() {
    let mut state = QueryState::with_first_tab(T1);
    state.reject_blank_at(T1, "  ".to_string(), E1, NOON);
    assert_eq!(state.tabs[0].result, Some(QueryResult::empty_query()));
    assert_eq!(
        state.history,
        vec![QueryHistoryEntry {
            id: E1,
            sql: "  ".to_string(),
            database: "megadb".to_string(),
            execution_time_ms: 0,
            row_count: 0,
            executed_at: NOON,
            success: false,
        }]
    );
}

#[test]
fn sql_with_any_other_character_is_dispatched() {
    for sql in ["SELECT 1", " ;", "\u{200b}", "  x  "] {
        let mut state = QueryState::with_first_tab(T1);
        let pending = state.execute(T1, sql.to_string());
        assert_eq!(
            pending,
            Some(PendingQuery {
                tab_id: T1,
                sql: sql.to_string(),
                database: "megadb".to_string(),
            })
        );
        assert!(state.tabs[0].is_running);
        assert!(state.history.is_empty());
        assert_eq!(state.tabs[0].result, None);
    }
}

#[test]
fn dispatch_for_an_unknown_tab_leaves_the_session_alone() {
    let mut state = QueryState::with_first_tab(T1);
    let before = state.clone();
    let pending = state.dispatch(T2, "SELECT 1".to_string());
    assert_eq!(state, before);
    assert_eq!(pending.tab_id, T2);
    state.resolve_at(pending, Ok(one_row(1)), E1, NOON);
    assert_eq!(state.tabs, before.tabs);
    assert_eq!(state.history.len(), 1);
}

#[test]
fn overlapping_executions_of_one_tab_let_the_last_resolution_win() {
    let mut state = QueryState::with_first_tab(T1);
    let first = state.execute(T1, "SELECT a".to_string()).unwrap();
    let second = state.execute(T1, "SELECT b".to_string()).unwrap();
    assert_eq!(state.tabs[0].sql, "SELECT b");

    state.resolve_at(second, Ok(one_row(2)), E2, NOON);
    assert_eq!(state.tabs[0].result, Some(one_row(2)));
    assert!(!state.tabs[0].is_running);

    state.resolve_at(first, Ok(one_row(1)), E1, NOON + 1);
    assert_eq!(state.tabs[0].result, Some(one_row(1)));
    assert_eq!(state.history.len(), 2);
    assert_eq!(state.history[0].sql, "SELECT b");
    assert_eq!(state.history[1].sql, "SELECT a");
}

#[test]
fn resolve_stamps_a_fresh_id_and_the_current_time() {
    let mut state = QueryState::with_first_tab(T1);
    let before = chrono::Utc::now().timestamp_millis();
    let a = state.execute(T1, "SELECT 1".to_string()).unwrap();
    state.resolve(a, Ok(one_row(1)));
    let b = state.execute(T1, "SELECT 2".to_string()).unwrap();
    state.resolve(b, Err("late".to_string()));
    let after = chrono::Utc::now().timestamp_millis();

    assert_eq!(state.history.len(), 2);
    assert_ne!(state.history[0].id, state.history[1].id);
    for entry in &state.history {
        assert_eq!(uuid::Uuid::from_u128(entry.id).get_version_num(), 4);
        assert!(before <= entry.executed_at && entry.executed_at <= after);
    }
    assert!(state.history[0].success);
    assert!(!state.history[1].success);
    assert_eq!(state.tabs[0].result, Some(failure("late")));
}

#[test]
fn failure_and_is_ok_agree() {
    let bad = QueryResult::failure("boom".to_string());
    assert_eq!(bad, failure("boom"));
    assert!(!bad.is_ok());
    assert!(bad.is_well_formed());
    assert!(one_row(1).is_ok());
    assert!(one_row(1).is_well_formed());
    let mut mixed = one_row(1);
    mixed.error = Some("x".to_string());
    assert!(!mixed.is_ok());
    assert!(!mixed.is_well_formed());
    assert_eq!(QueryResult::empty_query(), failure("Empty query"));
}
