//! What holds of every session, proved over the model of `session` and
//! `coordinator`.
//!
//! The executable operations are proved to do what the model says, so each
//! law here holds of every run of the library.

use crate::coordinator::{recorded, shown, succeeded, OutcomeView, PendingQueryView};
use crate::query::{QueryHistoryEntryView, QueryResultView, EMPTY_QUERY};
use crate::session::{QueryStateView, QueryTabView};
use vstd::prelude::*;

verus! {

/// One operation on a session, with everything that it takes from outside:
/// the identifiers drawn, the time read, and the backend's outcome.
pub enum Op {
    AddTab { id: u128 },
    CloseTab { index: int },
    SelectTab { index: int },
    SetTabSql { tab_id: u128, text: Seq<char> },
    PushHistory { entry: QueryHistoryEntryView },
    Restore { sql: Seq<char> },
    EditActive { tab: QueryTabView },
    Dispatch { tab_id: u128, sql: Seq<char> },
    Resolve { pending: PendingQueryView, outcome: OutcomeView, entry_id: u128, executed_at: int },
    RejectBlank { tab_id: u128, sql: Seq<char>, entry_id: u128, executed_at: int },
}

impl Op {
    /// The operation adds or closes a tab.
    pub open spec fn is_tab_op(self) -> bool {
        self is AddTab || self is CloseTab
    }

    /// The operation puts no result into a tab that shows an error together
    /// with data. Only a caller who writes the active tab by hand can do
    /// that; every other operation is sound.
    pub open spec fn is_sound(self) -> bool {
        self matches Op::EditActive { tab } ==> tab.result_well_formed()
    }

    /// The operation appends an entry to the log.
    pub open spec fn appends(self) -> bool {
        self is PushHistory || self is Resolve || self is RejectBlank
    }
}

impl QueryStateView {
    /// The session after one operation.
    pub open spec fn step(self, op: Op) -> QueryStateView {
        match op {
            Op::AddTab { id } => self.add_tab(id),
            Op::CloseTab { index } => self.close_tab(index),
            Op::SelectTab { index } => self.select_tab(index),
            Op::SetTabSql { tab_id, text } => self.set_tab_sql(tab_id, text),
            Op::PushHistory { entry } => self.push_history(entry),
            Op::Restore { sql } => self.restore(sql),
            Op::EditActive { tab } => self.edit_active(tab),
            Op::Dispatch { tab_id, sql } => self.dispatch(tab_id, sql),
            Op::Resolve { pending, outcome, entry_id, executed_at } => self.resolve(
                pending,
                outcome,
                entry_id,
                executed_at,
            ),
            Op::RejectBlank { tab_id, sql, entry_id, executed_at } => self.reject_blank(
                tab_id,
                sql,
                entry_id,
                executed_at,
            ),
        }
    }

    /// The session after the operations `ops`, in order.
    pub open spec fn run(self, ops: Seq<Op>) -> QueryStateView
        decreases ops.len(),
    {
        if ops.len() == 0 {
            self
        } else {
            self.run(ops.drop_last()).step(ops.last())
        }
    }

    /// The session can come about: it is what some operations make of a
    /// session at start.
    pub open spec fn reachable(self) -> bool {
        exists|id: u128, ops: Seq<Op>| self == #[trigger] QueryStateView::initial(id).run(ops)
    }
}

/// The number of operations among `ops` that append to the log.
pub open spec fn appended(ops: Seq<Op>) -> nat
    decreases ops.len(),
{
    if ops.len() == 0 {
        0
    } else {
        appended(ops.drop_last()) + if ops.last().appends() {
            1nat
        } else {
            0nat
        }
    }
}

/// No operation leaves a session without an active tab.
pub proof fn lemma_step_keeps_active_tab(s: QueryStateView, op: Op)
    requires
        s.has_active_tab(),
    ensures
        s.step(op).has_active_tab(),
{
    match op {
        Op::SetTabSql { tab_id, text } => {
            s.lemma_position_is_first(tab_id);
        },
        Op::Dispatch { tab_id, sql } => {
            s.lemma_position_is_first(tab_id);
        },
        Op::Resolve { pending, outcome, entry_id, executed_at } => {
            s.lemma_position_is_first(pending.tab_id);
        },
        Op::RejectBlank { tab_id, sql, entry_id, executed_at } => {
            s.lemma_position_is_first(tab_id);
            s.dispatch(tab_id, sql).lemma_position_is_first(tab_id);
        },
        _ => {},
    }
}

/// No sound operation takes the invariant from a session that has it.
pub proof fn lemma_step_keeps_invariant(s: QueryStateView, op: Op)
    requires
        s.inv(),
        op.is_sound(),
    ensures
        s.step(op).inv(),
{
    match op {
        Op::SetTabSql { tab_id, text } => {
            s.lemma_position_is_first(tab_id);
        },
        Op::Dispatch { tab_id, sql } => {
            s.lemma_position_is_first(tab_id);
        },
        Op::Resolve { pending, outcome, entry_id, executed_at } => {
            s.lemma_position_is_first(pending.tab_id);
        },
        Op::RejectBlank { tab_id, sql, entry_id, executed_at } => {
            s.lemma_position_is_first(tab_id);
            s.dispatch(tab_id, sql).lemma_position_is_first(tab_id);
        },
        _ => {},
    }
}

/// Adding and closing tabs leaves at least one tab open.
pub proof fn lemma_tab_ops_keep_a_tab(s: QueryStateView, ops: Seq<Op>)
    requires
        s.tabs.len() >= 1,
        forall|k: int| 0 <= k < ops.len() ==> (#[trigger] ops[k]).is_tab_op(),
    ensures
        s.run(ops).tabs.len() >= 1,
    decreases ops.len(),
{
    if ops.len() > 0 {
        lemma_tab_ops_keep_a_tab(s, ops.drop_last());
        assert(ops.last().is_tab_op());
    }
}

/// A session is never without a tab: after each of any operations that add
/// and close tabs, at least one tab is open.
pub proof fn lemma_tabs_never_empty(s: QueryStateView, ops: Seq<Op>)
    requires
        s.tabs.len() >= 1,
        forall|k: int| 0 <= k < ops.len() ==> (#[trigger] ops[k]).is_tab_op(),
    ensures
        forall|k: int| 0 <= k <= ops.len() ==> (#[trigger] s.run(ops.take(k))).tabs.len() >= 1,
{
    assert forall|k: int| 0 <= k <= ops.len() implies (#[trigger] s.run(ops.take(k))).tabs.len()
        >= 1 by {
        lemma_tab_ops_keep_a_tab(s, ops.take(k));
    }
}

/// In every session that can come about, the active index names a tab:
/// it is at least zero and less than the number of tabs.
pub proof fn lemma_reachable_has_active_tab(s: QueryStateView)
    requires
        s.reachable(),
    ensures
        s.tabs.len() >= 1,
        0 <= s.active_tab_index < s.tabs.len(),
{
    let (id, ops) = choose|id: u128, ops: Seq<Op>|
        s == #[trigger] QueryStateView::initial(id).run(ops);
    lemma_run_keeps_active_tab(QueryStateView::initial(id), ops);
}

/// No run of operations leaves a session without an active tab.
pub proof fn lemma_run_keeps_active_tab(s: QueryStateView, ops: Seq<Op>)
    requires
        s.has_active_tab(),
    ensures
        s.run(ops).has_active_tab(),
    decreases ops.len(),
{
    if ops.len() > 0 {
        lemma_run_keeps_active_tab(s, ops.drop_last());
        lemma_step_keeps_active_tab(s.run(ops.drop_last()), ops.last());
    }
}

/// A session at start has the invariant.
pub proof fn lemma_initial_is_valid(id: u128)
    ensures
        QueryStateView::initial(id).inv(),
{
}

/// No run of sound operations takes the invariant from a session that has
/// it.
pub proof fn lemma_run_keeps_invariant(s: QueryStateView, ops: Seq<Op>)
    requires
        s.inv(),
        forall|k: int| 0 <= k < ops.len() ==> (#[trigger] ops[k]).is_sound(),
    ensures
        s.run(ops).inv(),
    decreases ops.len(),
{
    if ops.len() > 0 {
        lemma_run_keeps_invariant(s, ops.drop_last());
        assert(ops.last().is_sound());
        lemma_step_keeps_invariant(s.run(ops.drop_last()), ops.last());
    }
}

/// With one tab open, closing changes nothing, however often and at
/// whatever index it is tried.
pub proof fn lemma_close_at_floor(s: QueryStateView, ops: Seq<Op>)
    requires
        s.tabs.len() == 1,
        forall|k: int| 0 <= k < ops.len() ==> (#[trigger] ops[k]) is CloseTab,
    ensures
        s.run(ops) == s,
    decreases ops.len(),
{
    if ops.len() > 0 {
        lemma_close_at_floor(s, ops.drop_last());
        assert(ops.last() is CloseTab);
    }
}

/// What a resolution leaves alone: the number and order of the tabs, the
/// active index, and every tab but the one that its identifier names.
pub proof fn lemma_resolve_touches_one_tab(
    s: QueryStateView,
    pending: PendingQueryView,
    outcome: OutcomeView,
    entry_id: u128,
    executed_at: int,
)
    ensures
        ({
            let after = s.resolve(pending, outcome, entry_id, executed_at);
            &&& after.tabs.len() == s.tabs.len()
            &&& after.active_tab_index == s.active_tab_index
            &&& forall|i: int|
                0 <= i < s.tabs.len() && s.position(pending.tab_id) != Some(i) ==> (
                #[trigger] after.tabs[i]) == s.tabs[i]
            &&& forall|i: int|
                0 <= i < s.tabs.len() && s.tabs[i].id != pending.tab_id ==> (
                #[trigger] after.tabs[i]) == s.tabs[i]
            &&& forall|i: int|
                0 <= i < s.tabs.len() ==> (#[trigger] after.tabs[i]).id == s.tabs[i].id
            &&& s.position(pending.tab_id) matches Some(i) ==> after.tabs[i].result == Some(
                shown(outcome),
            ) && !after.tabs[i].is_running
        }),
{
    s.lemma_position_is_first(pending.tab_id);
}

/// A resolution moves no tab and changes no identifier, so every
/// identifier names the same tab before and after.
pub proof fn lemma_resolve_keeps_positions(
    s: QueryStateView,
    pending: PendingQueryView,
    outcome: OutcomeView,
    entry_id: u128,
    executed_at: int,
    id: u128,
)
    ensures
        s.resolve(pending, outcome, entry_id, executed_at).position(id) == s.position(id),
{
    let after = s.resolve(pending, outcome, entry_id, executed_at);
    lemma_resolve_touches_one_tab(s, pending, outcome, entry_id, executed_at);
    s.lemma_position_is_first(id);
    match s.position(id) {
        Some(i) => {
            assert(after.is_first_match(id, i)) by {
                assert(forall|j: int| 0 <= j < i ==> (#[trigger] after.tabs[j]).id != id) by {
                    assert(forall|j: int|
                        0 <= j < i ==> (#[trigger] after.tabs[j]).id == s.tabs[j].id);
                }
            }
            after.lemma_position_first(id, i);
        },
        None => {
            after.lemma_position_is_first(id);
            if after.has_tab(id) {
                let w = choose|i: int|
                    0 <= i < after.tabs.len() && (#[trigger] after.tabs[i]).id == id;
                assert(s.tabs[w].id == id);
            }
        },
    }
}

/// Two executions on two tabs do not cross. Let tab `a` send `x` and tab
/// `b` send `y`, and let `b`'s answer come first. Then `b`'s answer leaves
/// tab `a` as its own dispatch left it, still running and with the result it
/// had before; and `a`'s answer, when it comes, leaves tab `b` showing
/// `b`'s outcome.
pub proof fn lemma_results_do_not_cross(
    s: QueryStateView,
    a: u128,
    x: Seq<char>,
    b: u128,
    y: Seq<char>,
    outcome_a: OutcomeView,
    outcome_b: OutcomeView,
    entry_a: u128,
    entry_b: u128,
    time_a: int,
    time_b: int,
)
    requires
        a != b,
    ensures
        ({
            let sent = s.dispatch(a, x).dispatch(b, y);
            let b_done = sent.resolve(PendingQueryView::of(b, y), outcome_b, entry_b, time_b);
            let a_done = b_done.resolve(PendingQueryView::of(a, x), outcome_a, entry_a, time_a);
            &&& s.position(a) matches Some(i) ==> {
                &&& b_done.tabs[i].result == s.tabs[i].result
                &&& b_done.tabs[i].is_running
                &&& b_done.tabs[i].sql == x
                &&& a_done.tabs[i].result == Some(shown(outcome_a))
                &&& !a_done.tabs[i].is_running
            }
            &&& s.position(b) matches Some(j) ==> {
                &&& b_done.tabs[j].result == Some(shown(outcome_b))
                &&& !b_done.tabs[j].is_running
                &&& a_done.tabs[j] == b_done.tabs[j]
            }
        }),
{
    let s1 = s.dispatch(a, x);
    let sent = s1.dispatch(b, y);
    let b_done = sent.resolve(PendingQueryView::of(b, y), outcome_b, entry_b, time_b);
    let a_done = b_done.resolve(PendingQueryView::of(a, x), outcome_a, entry_a, time_a);
    s.lemma_position_is_first(a);
    s.lemma_position_is_first(b);
    s.lemma_dispatch_keeps_positions(a, x, a);
    s.lemma_dispatch_keeps_positions(a, x, b);
    s1.lemma_dispatch_keeps_positions(b, y, a);
    s1.lemma_dispatch_keeps_positions(b, y, b);
    lemma_resolve_touches_one_tab(sent, PendingQueryView::of(b, y), outcome_b, entry_b, time_b);
    lemma_resolve_keeps_positions(sent, PendingQueryView::of(b, y), outcome_b, entry_b, time_b, a);
    lemma_resolve_keeps_positions(sent, PendingQueryView::of(b, y), outcome_b, entry_b, time_b, b);
    lemma_resolve_touches_one_tab(b_done, PendingQueryView::of(a, x), outcome_a, entry_a, time_a);
}

/// The log only grows, and only at its end: whatever operations run, the log
/// from before is the beginning of the log after, entry for entry, and the
/// log is longer by the number of operations that append.
pub proof fn lemma_history_append_only(s: QueryStateView, ops: Seq<Op>)
    ensures
        s.run(ops).history.len() == s.history.len() + appended(ops),
        forall|k: int| 0 <= k < s.history.len() ==> s.run(ops).history[k] == s.history[k],
    decreases ops.len(),
{
    if ops.len() > 0 {
        lemma_history_append_only(s, ops.drop_last());
    }
}

/// After `n` resolutions on a session with an empty log, the log holds `n`
/// entries: the `k`-th records the `k`-th resolution, and is a success just
/// when that execution's outcome was.
pub proof fn lemma_history_counts_resolutions(s: QueryStateView, ops: Seq<Op>)
    requires
        s.history.len() == 0,
        forall|k: int| 0 <= k < ops.len() ==> (#[trigger] ops[k]) is Resolve,
    ensures
        s.run(ops).history.len() == ops.len(),
        forall|k: int|
            0 <= k < ops.len() ==> (#[trigger] s.run(ops).history[k]) == recorded(
                ops[k]->Resolve_pending,
                ops[k]->Resolve_outcome,
                ops[k]->Resolve_entry_id,
                ops[k]->Resolve_executed_at,
            ),
        forall|k: int|
            0 <= k < ops.len() ==> (#[trigger] s.run(ops).history[k]).success == succeeded(
                ops[k]->Resolve_outcome,
            ),
    decreases ops.len(),
{
    if ops.len() > 0 {
        lemma_history_counts_resolutions(s, ops.drop_last());
        assert(ops.last() is Resolve);
    }
}

/// Blank SQL is answered with the "Empty query" failure: the tab that asked
/// shows that message with no rows and runs no more, and the log ends with a
/// failed entry for the text that was submitted.
pub proof fn lemma_blank_shows_empty_query(
    s: QueryStateView,
    tab_id: u128,
    sql: Seq<char>,
    entry_id: u128,
    executed_at: int,
)
    ensures
        ({
            let after = s.reject_blank(tab_id, sql, entry_id, executed_at);
            &&& after.tabs.len() == s.tabs.len()
            &&& after.active_tab_index == s.active_tab_index
            &&& s.position(tab_id) matches Some(i) ==> {
                &&& after.tabs[i].result == Some(QueryResultView::failure(EMPTY_QUERY@))
                &&& after.tabs[i].result->0.error == Some(EMPTY_QUERY@)
                &&& after.tabs[i].result->0.row_count == 0
                &&& !after.tabs[i].is_running
                &&& after.tabs[i].sql == sql
            }
            &&& after.history.len() == s.history.len() + 1
            &&& after.history.last().sql == sql
            &&& after.history.last().row_count == 0
            &&& !after.history.last().success
        }),
{
    s.lemma_position_is_first(tab_id);
    s.lemma_dispatch_keeps_positions(tab_id, sql, tab_id);
    lemma_resolve_touches_one_tab(
        s.dispatch(tab_id, sql),
        PendingQueryView::of(tab_id, sql),
        Ok(QueryResultView::failure(EMPTY_QUERY@)),
        entry_id,
        executed_at,
    );
}

/// A tab keeps its identifier for as long as it is open. Adding a tab
/// appends its identifier to those of the open tabs, closing a tab takes
/// that tab's identifier out, and no other operation changes the
/// identifiers or their order, as long as a caller who writes the active
/// tab by hand leaves its identifier alone.
pub proof fn lemma_tab_ids_are_kept(s: QueryStateView, op: Op)
    requires
        op matches Op::EditActive { tab } ==> tab.id == s.active_tab().id,
    ensures
        s.step(op).tab_ids() == match op {
            Op::AddTab { id } => s.tab_ids().push(id),
            Op::CloseTab { index } => if s.tabs.len() > 1 && 0 <= index < s.tabs.len() {
                s.tab_ids().remove(index)
            } else {
                s.tab_ids()
            },
            _ => s.tab_ids(),
        },
{
    let after = s.step(op);
    match op {
        Op::AddTab { id } => {
            assert(after.tab_ids() =~= s.tab_ids().push(id));
        },
        Op::CloseTab { index } => {
            if s.tabs.len() > 1 && 0 <= index < s.tabs.len() {
                assert(after.tab_ids() =~= s.tab_ids().remove(index));
            }
        },
        Op::SetTabSql { tab_id, text } => {
            s.lemma_position_is_first(tab_id);
            assert(after.tab_ids() =~= s.tab_ids());
        },
        Op::Dispatch { tab_id, sql } => {
            s.lemma_position_is_first(tab_id);
            assert(after.tab_ids() =~= s.tab_ids());
        },
        Op::Resolve { pending, outcome, entry_id, executed_at } => {
            s.lemma_position_is_first(pending.tab_id);
            assert(after.tab_ids() =~= s.tab_ids());
        },
        Op::RejectBlank { tab_id, sql, entry_id, executed_at } => {
            let sent = s.dispatch(tab_id, sql);
            s.lemma_position_is_first(tab_id);
            sent.lemma_position_is_first(tab_id);
            assert(sent.tab_ids() =~= s.tab_ids());
            assert(after.tab_ids() =~= sent.tab_ids());
        },
        Op::Restore { sql } => {
            assert(after.tab_ids() =~= s.tab_ids());
        },
        Op::EditActive { tab } => {
            assert(after.tab_ids() =~= s.tab_ids());
        },
        _ => {
            assert(after.tab_ids() =~= s.tab_ids());
        },
    }
}

/// Where no two tabs share an identifier, each tab is the one that its
/// identifier names.
pub proof fn lemma_unique_id_names_its_tab(s: QueryStateView, i: int)
    requires
        s.ids_unique(),
        0 <= i < s.tabs.len(),
    ensures
        s.position(s.tabs[i].id) == Some(i),
{
    s.lemma_position_first(s.tabs[i].id, i);
}

/// Identifiers stay unique: no operation makes two tabs share one, as long
/// as each added tab comes with an identifier that no open tab has, and a
/// caller who writes the active tab by hand leaves its identifier alone.
pub proof fn lemma_step_keeps_ids_unique(s: QueryStateView, op: Op)
    requires
        s.ids_unique(),
        op matches Op::AddTab { id } ==> !s.has_tab(id),
        op matches Op::EditActive { tab } ==> tab.id == s.active_tab().id,
    ensures
        s.step(op).ids_unique(),
{
    let after = s.step(op);
    match op {
        Op::AddTab { id } => {
            assert forall|i: int, j: int| 0 <= i < j < after.tabs.len() implies (
            #[trigger] after.tabs[i]).id != (#[trigger] after.tabs[j]).id by {
                if j == s.tabs.len() {
                    assert(s.tabs[i].id != id);
                } else {
                    assert(s.tabs[i].id != s.tabs[j].id);
                }
            }
        },
        Op::CloseTab { index } => {
            if s.tabs.len() > 1 && 0 <= index < s.tabs.len() {
                assert forall|i: int, j: int| 0 <= i < j < after.tabs.len() implies (
                #[trigger] after.tabs[i]).id != (#[trigger] after.tabs[j]).id by {
                    let from_i = if i < index {
                        i
                    } else {
                        i + 1
                    };
                    let from_j = if j < index {
                        j
                    } else {
                        j + 1
                    };
                    assert(after.tabs[i] == s.tabs[from_i]);
                    assert(after.tabs[j] == s.tabs[from_j]);
                    assert(s.tabs[from_i].id != s.tabs[from_j].id);
                }
            }
        },
        Op::SetTabSql { tab_id, text } => {
            s.lemma_position_is_first(tab_id);
            lemma_same_ids_stay_unique(s, after);
        },
        Op::Restore { sql } => {
            lemma_same_ids_stay_unique(s, after);
        },
        Op::EditActive { tab } => {
            lemma_same_ids_stay_unique(s, after);
        },
        Op::Dispatch { tab_id, sql } => {
            s.lemma_position_is_first(tab_id);
            lemma_same_ids_stay_unique(s, after);
        },
        Op::Resolve { pending, outcome, entry_id, executed_at } => {
            s.lemma_position_is_first(pending.tab_id);
            lemma_same_ids_stay_unique(s, after);
        },
        Op::RejectBlank { tab_id, sql, entry_id, executed_at } => {
            let sent = s.dispatch(tab_id, sql);
            s.lemma_position_is_first(tab_id);
            sent.lemma_position_is_first(tab_id);
            lemma_same_ids_stay_unique(s, sent);
            lemma_same_ids_stay_unique(sent, after);
        },
        _ => {},
    }
}

/// A session whose tabs carry, place by place, the identifiers of a session
/// with unique identifiers has unique identifiers too.
proof fn lemma_same_ids_stay_unique(before: QueryStateView, after: QueryStateView)
    requires
        before.ids_unique(),
        after.tabs.len() == before.tabs.len(),
        forall|i: int| 0 <= i < before.tabs.len() ==> (#[trigger] after.tabs[i]).id == before.tabs[i].id,
    ensures
        after.ids_unique(),
{
    assert forall|i: int, j: int| 0 <= i < j < after.tabs.len() implies (#[trigger] after.tabs[i]).id
        != (#[trigger] after.tabs[j]).id by {
        assert(before.tabs[i].id != before.tabs[j].id);
    }
}

} // verus!
