//! The rules of the SQL editor page that are no part of the session: the
//! history panel, the labels of its buttons, and the key stroke that runs a
//! query.

use crate::session::QueryState;
use crate::text::str_eq;
use vstd::prelude::*;

verus! {

/// The name of the key that, held with Ctrl or Cmd, runs the query.
pub const EXECUTE_KEY: &'static str = "Enter";

/// The run button while nothing runs.
pub const RUN_LABEL: &'static str = "Run (Ctrl+Enter)";

/// The run button while the active tab's query runs.
pub const RUNNING_LABEL: &'static str = "Running...";

/// The history button while the panel is hidden.
pub const SHOW_HISTORY_LABEL: &'static str = "History";

/// The history button while the panel is shown.
pub const HIDE_HISTORY_LABEL: &'static str = "Hide History";

/// Tells whether a key stroke asks to run the query: Enter, with Ctrl or
/// Cmd held.
pub fn is_execute_shortcut(ctrl_key: bool, meta_key: bool, key: &str) -> (run: bool)
    ensures
        run == ((ctrl_key || meta_key) && key@ == EXECUTE_KEY@),
{
    (ctrl_key || meta_key) && str_eq(key, EXECUTE_KEY)
}

/// The label of the run button.
pub fn run_button_label(is_running: bool) -> (label: &'static str)
    ensures
        label@ == if is_running {
            RUNNING_LABEL@
        } else {
            RUN_LABEL@
        },
{
    if is_running {
        RUNNING_LABEL
    } else {
        RUN_LABEL
    }
}

/// The panel that lists the history log.
#[derive(Debug, Clone, Copy, PartialEq, Eq)]
pub struct HistoryPanel {
    pub visible: bool,
}

impl HistoryPanel {
    /// The panel as the page opens: hidden.
    pub fn new() -> (panel: HistoryPanel)
        ensures
            !panel.visible,
    {
        HistoryPanel { visible: false }
    }

    /// Shows the panel if it is hidden and hides it if it is shown.
    pub fn toggle(&mut self)
        ensures
            final(self).visible == !old(self).visible,
    {
        self.visible = !self.visible;
    }

    /// Hides the panel.
    pub fn close(&mut self)
        ensures
            !final(self).visible,
    {
        self.visible = false;
    }

    /// The label of the button that toggles the panel.
    pub fn button_label(&self) -> (label: &'static str)
        ensures
            label@ == if self.visible {
                HIDE_HISTORY_LABEL@
            } else {
                SHOW_HISTORY_LABEL@
            },
    {
        if self.visible {
            HIDE_HISTORY_LABEL
        } else {
            SHOW_HISTORY_LABEL
        }
    }

    /// Restores `sql` from the log: it becomes the active tab's text, and the
    /// panel closes. Nothing is executed.
    pub fn restore(&mut self, state: &mut QueryState, sql: String)
        requires
            old(state)@.has_active_tab(),
        ensures
            final(state)@ == old(state)@.restore(sql@),
            old(state)@.inv() ==> final(state)@.inv(),
            !final(self).visible,
    {
        state.restore(sql);
        self.visible = false;
    }
}

} // verus!
