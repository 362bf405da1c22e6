use megaweb_app::editor::{is_execute_shortcut, run_button_label, HistoryPanel};
use megaweb_app::labels::{chart_style, endpoint_label};
use megaweb_app::query::{QueryResult, Scalar};
use megaweb_app::result_table::{format_value, result_panel, row_class, ResultPanel};
use megaweb_app::session::QueryState;
use megaweb_app::settings::{clamp_font_size, clamp_row_limit, Settings};
use megaweb_app::sidebar::icon_svg;
use megaweb_app::text::{char_is_whitespace, decimal_string, str_eq, str_is_blank};
use megaweb_app::toast::{Toast, ToastLevel};

#[test]
fn whitespace_is_what_std_calls_whitespace() {
    for code in 0u32..=0x10ffff {
        if let Some(c) = char::from_u32(code) {
            assert_eq!(char_is_whitespace(c), c.is_whitespace(), "U+{:04X}", code);
        }
    }
}

#[test]
fn blank_is_what_trims_to_nothing() {
    for s in ["", " ", "\t\n", "a", " a ", "\u{85}", "\u{200b}", "\u{2028}\u{2029}", "SELECT 1"] {
        assert_eq!(str_is_blank(s), s.trim().is_empty(), "{:?}", s);
    }
}

#[test]
fn decimal_string_writes_numbers_as_std_does() {
    for n in [0u128, 1, 9, 10, 11, 99, 100, 1000, 65535, 1_000_000_007, u64::MAX as u128, u128::MAX] {
        assert_eq!(decimal_string(n), n.to_string());
    }
    assert_eq!(decimal_string(2026), "2026");
}

#[test]
fn str_eq_compares_texts() {
    assert!(str_eq("", ""));
    assert!(str_eq("Enter", "Enter"));
    assert!(!str_eq("Enter", "enter"));
    assert!(!str_eq("Enter", "Enter "));
    assert!(!str_eq("é", "e"));
    assert!(str_eq("日本語", "日本語"));
}

#[test]
fn execute_shortcut_is_enter_with_ctrl_or_cmd() {
    assert!(is_execute_shortcut(true, false, "Enter"));
    assert!(is_execute_shortcut(false, true, "Enter"));
    assert!(is_execute_shortcut(true, true, "Enter"));
    assert!(!is_execute_shortcut(false, false, "Enter"));
    assert!(!is_execute_shortcut(true, false, "a"));
    assert!(!is_execute_shortcut(true, false, "enter"));
}

#[test]
fn button_labels_follow_the_state() {
    assert_eq!(run_button_label(true), "Running...");
    assert_eq!(run_button_label(false), "Run (Ctrl+Enter)");
    let mut panel = HistoryPanel::new();
    assert!(!panel.visible);
    assert_eq!(panel.button_label(), "History");
    panel.toggle();
    assert!(panel.visible);
    assert_eq!(panel.button_label(), "Hide History");
    panel.toggle();
    assert!(!panel.visible);
    panel.toggle();
    panel.close();
    assert!(!panel.visible);
}

#[test]
fn restoring_from_history_fills_the_active_tab_and_closes_the_panel() {
    let mut state = QueryState::with_first_tab(1);
    state.add_tab_with_id(2);
    let mut panel = HistoryPanel { visible: true };
    panel.restore(&mut state, "SELECT 42".to_string());
    assert!(!panel.visible);
    assert_eq!(state.tabs[1].sql, "SELECT 42");
    assert_eq!(state.tabs[0].sql, "");
    assert!(!state.tabs[1].is_running);
    assert!(state.history.is_empty());
}

#[test]
fn result_panel_has_three_faces() {
    assert_eq!(result_panel(&None), ResultPanel::Empty);
    assert_eq!(
        result_panel(&Some(QueryResult::failure("boom".to_string()))),
        ResultPanel::Error { message: "boom".to_string() }
    );
    let result = QueryResult {
        columns: vec![],
        rows: vec![vec![Scalar::Null]; 25],
        row_count: 25,
        execution_time_ms: 23,
        error: None,
    };
    assert_eq!(
        result_panel(&Some(result)),
        ResultPanel::Table {
            row_count_label: "25 rows".to_string(),
            time_label: "23ms".to_string(),
            visible_rows: 25,
        }
    );
}

#[test]
fn result_panel_draws_at_most_a_thousand_rows() {
    for (rows, shown) in [(0usize, 0usize), (999, 999), (1000, 1000), (1001, 1000), (1500, 1000)] {
        let result = QueryResult {
            columns: vec![],
            rows: vec![vec![]; rows],
            row_count: rows as u64,
            execution_time_ms: 0,
            error: None,
        };
        match result_panel(&Some(result)) {
            ResultPanel::Table { visible_rows, row_count_label, time_label } => {
                assert_eq!(visible_rows, shown);
                assert_eq!(row_count_label, format!("{} rows", rows));
                assert_eq!(time_label, "0ms");
            }
            other => panic!("unexpected face {:?}", other),
        }
    }
}

#[test]
fn rows_alternate_their_class() {
    assert_eq!(row_class(0), "row-even");
    assert_eq!(row_class(1), "row-odd");
    assert_eq!(row_class(2), "row-even");
    assert_eq!(row_class(999), "row-odd");
}

#[test]
fn cells_are_written_as_text() {
    assert_eq!(format_value(&Scalar::Null), "NULL");
    assert_eq!(format_value(&Scalar::Text("us-east-1".to_string())), "us-east-1");
    assert_eq!(format_value(&Scalar::Text(String::new())), "");
    assert_eq!(format_value(&Scalar::Number("12.50".to_string())), "12.50");
    assert_eq!(format_value(&Scalar::Bool(true)), "true");
    assert_eq!(format_value(&Scalar::Bool(false)), "false");
}

#[test]
fn toast_levels_have_their_classes() {
    assert_eq!(ToastLevel::Info.class(), "toast toast--info");
    assert_eq!(ToastLevel::Success.class(), "toast toast--success");
    assert_eq!(ToastLevel::Warning.class(), "toast toast--warning");
    assert_eq!(ToastLevel::Error.class(), "toast toast--error");
    let toast = Toast { id: 7, message: "saved".to_string(), level: ToastLevel::Success };
    assert_eq!(toast.level.class(), "toast toast--success");
}

#[test]
fn sidebar_icons_by_name() {
    assert_eq!(icon_svg("terminal"), ">_");
    assert_eq!(icon_svg("database"), "DB");
    assert_eq!(icon_svg("server"), "K8");
    assert_eq!(icon_svg("activity"), "PM");
    assert_eq!(icon_svg("plug"), "CN");
    assert_eq!(icon_svg("settings"), "ST");
    assert_eq!(icon_svg("rocket"), "??");
    assert_eq!(icon_svg(""), "??");
    assert_eq!(icon_svg("Terminal"), "??");
}

#[test]
fn settings_are_held_to_their_limits() {
    assert_eq!(clamp_font_size(0), 10);
    assert_eq!(clamp_font_size(9), 10);
    assert_eq!(clamp_font_size(10), 10);
    assert_eq!(clamp_font_size(14), 14);
    assert_eq!(clamp_font_size(24), 24);
    assert_eq!(clamp_font_size(25), 24);
    assert_eq!(clamp_font_size(u32::MAX), 24);
    assert_eq!(clamp_row_limit(0), 100);
    assert_eq!(clamp_row_limit(100), 100);
    assert_eq!(clamp_row_limit(5000), 5000);
    assert_eq!(clamp_row_limit(100_000), 100_000);
    assert_eq!(clamp_row_limit(100_001), 100_000);
    for v in [0u32, 7, 10, 17, 24, 90] {
        assert_eq!(clamp_font_size(v), v.clamp(10, 24));
    }
    for v in [0u64, 99, 100, 4321, 100_000, u64::MAX] {
        assert_eq!(clamp_row_limit(v), v.clamp(100, 100_000));
    }
}

#[test]
fn labels_are_put_together_from_their_parts() {
    assert_eq!(chart_style(300), "height:300px");
    assert_eq!(chart_style(0), "height:0px");
    assert_eq!(endpoint_label("localhost", 8080), "localhost:8080");
    assert_eq!(endpoint_label("db.internal", 65535), "db.internal:65535");
}

#[test]
fn settings_keep_their_numbers_within_limits() {
    let mut settings = Settings::new("dark".to_string(), 3, 5_000_000, true);
    assert_eq!(
        settings,
        Settings { theme: "dark".to_string(), font_size: 10, row_limit: 100_000, autocomplete: true }
    );
    assert!(settings.is_within_limits());
    settings.set_font_size(18);
    assert_eq!(settings.font_size, 18);
    settings.set_font_size(99);
    assert_eq!(settings.font_size, 24);
    settings.set_row_limit(7);
    assert_eq!(settings.row_limit, 100);
    settings.set_row_limit(2500);
    assert_eq!(settings.row_limit, 2500);
    settings.set_theme("light".to_string());
    assert_eq!(settings.theme, "light");
    settings.toggle_autocomplete();
    assert!(!settings.autocomplete);
    settings.toggle_autocomplete();
    assert!(settings.autocomplete);
    assert!(settings.is_within_limits());
    assert_eq!(settings.font_size, 24);
    let odd = Settings { theme: String::new(), font_size: 9, row_limit: 100, autocomplete: false };
    assert!(!odd.is_within_limits());
}
