//! The session store: the open query tabs, which of them is active, and the
//! history log.
//!
//! [`QueryStateView`] is the mathematical model of a session. Each of its
//! `spec` functions says what one operation makes of a session, and the
//! executable operations on [`QueryState`] are proved to do exactly that.

use crate::ids::{fresh_id, is_random_uuid};
use crate::query::{
    history_view, result_view, QueryHistoryEntry, QueryHistoryEntryView, QueryResult,
    QueryResultView,
};
use crate::text::{decimal, decimal_string};
use vstd::prelude::*;
use vstd::string::*;

verus! {

/// What every default tab title begins with.
pub const TITLE_PREFIX: &'static str = "Query ";

/// The title that a tab gets when it is made as the `n`-th of its session.
pub open spec fn default_title(n: nat) -> Seq<char> {
    TITLE_PREFIX@ + decimal(n)
}

/// One editing tab: its text, its last result, and whether an execution of
/// it is under way.
#[derive(Debug, Clone, PartialEq, Eq)]
pub struct QueryTab {
    pub id: u128,
    pub title: String,
    pub sql: String,
    pub result: Option<QueryResult>,
    pub is_running: bool,
}

/// What a [`QueryTab`] stands for in contracts.
pub struct QueryTabView {
    pub id: u128,
    pub title: Seq<char>,
    pub sql: Seq<char>,
    pub result: Option<QueryResultView>,
    pub is_running: bool,
}

impl QueryTabView {
    /// A tab as it is when made: the default title for place `n`, no text,
    /// no result, nothing running.
    pub open spec fn fresh(id: u128, n: nat) -> QueryTabView {
        QueryTabView {
            id,
            title: default_title(n),
            sql: Seq::empty(),
            result: None,
            is_running: false,
        }
    }

    /// The tab's result, if it has one, keeps the rule that an error comes
    /// without data.
    pub open spec fn result_well_formed(self) -> bool {
        match self.result {
            Some(r) => r.well_formed(),
            None => true,
        }
    }
}

impl View for QueryTab {
    type V = QueryTabView;

    open spec fn view(&self) -> QueryTabView {
        QueryTabView {
            id: self.id,
            title: self.title@,
            sql: self.sql@,
            result: result_view(self.result),
            is_running: self.is_running,
        }
    }
}

impl QueryTab {
    /// A tab with a freshly drawn identifier, titled as the first of a
    /// session.
    pub fn new() -> (tab: QueryTab)
        ensures
            tab@ == QueryTabView::fresh(tab.id, 1),
            is_random_uuid(tab.id),
    {
        QueryTab::numbered(fresh_id(), 1)
    }

    /// A tab with the given identifier, titled as the `n`-th of a session.
    pub fn numbered(id: u128, n: u128) -> (tab: QueryTab)
        ensures
            tab@ == QueryTabView::fresh(id, n as nat),
    {
        let title = TITLE_PREFIX.to_string().concat(decimal_string(n).as_str());
        let tab = QueryTab { id, title, sql: String::new(), result: None, is_running: false };
        assert(tab@.title =~= default_title(n as nat));
        tab
    }

    /// True iff the tab's result, if any, is well formed.
    pub fn is_well_formed(&self) -> (ok: bool)
        ensures
            ok == self@.result_well_formed(),
    {
        match &self.result {
            Some(r) => r.is_well_formed(),
            None => true,
        }
    }
}

impl Default for QueryTab {
    fn default() -> (tab: QueryTab)
        ensures
            tab@ == QueryTabView::fresh(tab.id, 1),
    {
        QueryTab::new()
    }
}

/// The views of a session's tabs, in order.
pub open spec fn tabs_view(tabs: Seq<QueryTab>) -> Seq<QueryTabView> {
    Seq::new(tabs.len(), |i: int| tabs[i]@)
}

/// The whole query session: tabs, the active tab's index, and the history
/// log with the oldest entry first.
#[derive(Debug, Clone, PartialEq, Eq)]
pub struct QueryState {
    pub tabs: Vec<QueryTab>,
    pub active_tab_index: usize,
    pub history: Vec<QueryHistoryEntry>,
}

/// The model of a session.
#[verifier::ext_equal]
pub struct QueryStateView {
    pub tabs: Seq<QueryTabView>,
    pub active_tab_index: int,
    pub history: Seq<QueryHistoryEntryView>,
}

impl View for QueryState {
    type V = QueryStateView;

    open spec fn view(&self) -> QueryStateView {
        QueryStateView {
            tabs: tabs_view(self.tabs@),
            active_tab_index: self.active_tab_index as int,
            history: history_view(self.history@),
        }
    }
}

/// An index that names no tab.
#[derive(Debug, Clone, Copy, PartialEq, Eq)]
pub struct IndexError {
    /// The index that was asked for.
    pub index: usize,
    /// The number of tabs there were.
    pub len: usize,
}

impl QueryStateView {
    /// The active index names a tab; so there is at least one tab.
    pub open spec fn has_active_tab(self) -> bool {
        0 <= self.active_tab_index < self.tabs.len()
    }

    /// What holds of every session: there is a tab, the active index names
    /// one, and no tab shows an error together with data.
    pub open spec fn inv(self) -> bool {
        &&& self.tabs.len() >= 1
        &&& self.has_active_tab()
        &&& forall|i: int|
            0 <= i < self.tabs.len() ==> (#[trigger] self.tabs[i]).result_well_formed()
    }

    /// The session at start: one fresh tab, active, and an empty log.
    pub open spec fn initial(id: u128) -> QueryStateView {
        QueryStateView {
            tabs: seq![QueryTabView::fresh(id, 1)],
            active_tab_index: 0,
            history: Seq::empty(),
        }
    }

    /// The active tab.
    pub open spec fn active_tab(self) -> QueryTabView
        recommends
            self.has_active_tab(),
    {
        self.tabs[self.active_tab_index]
    }

    /// A fresh tab is appended and becomes the active one.
    pub open spec fn add_tab(self, id: u128) -> QueryStateView {
        QueryStateView {
            tabs: self.tabs.push(QueryTabView::fresh(id, self.tabs.len() + 1)),
            active_tab_index: self.tabs.len() as int,
            history: self.history,
        }
    }

    /// The tab at `index` is removed, unless it is the only one or `index`
    /// names none; an active index left beyond the end moves to the last tab.
    pub open spec fn close_tab(self, index: int) -> QueryStateView {
        if self.tabs.len() <= 1 || !(0 <= index < self.tabs.len()) {
            self
        } else {
            let tabs = self.tabs.remove(index);
            QueryStateView {
                tabs,
                active_tab_index: if self.active_tab_index >= tabs.len() {
                    tabs.len() - 1
                } else {
                    self.active_tab_index
                },
                history: self.history,
            }
        }
    }

    /// The tab at `index` becomes the active one, if there is such a tab.
    pub open spec fn select_tab(self, index: int) -> QueryStateView {
        if 0 <= index < self.tabs.len() {
            QueryStateView { active_tab_index: index, ..self }
        } else {
            self
        }
    }

    /// Some tab has the identifier `id`.
    pub open spec fn has_tab(self, id: u128) -> bool {
        exists|i: int| 0 <= i < self.tabs.len() && (#[trigger] self.tabs[i]).id == id
    }

    /// `i` is the index of the first tab with the identifier `id`.
    pub open spec fn is_first_match(self, id: u128, i: int) -> bool {
        &&& 0 <= i < self.tabs.len()
        &&& self.tabs[i].id == id
        &&& forall|j: int| 0 <= j < i ==> (#[trigger] self.tabs[j]).id != id
    }

    /// The index of the tab that `id` names: the first with that identifier,
    /// or none when no tab has it.
    pub open spec fn position(self, id: u128) -> Option<int> {
        if exists|i: int| self.is_first_match(id, i) {
            Some(choose|i: int| self.is_first_match(id, i))
        } else {
            None
        }
    }

    /// The identifiers of the tabs, in the tabs' order.
    pub open spec fn tab_ids(self) -> Seq<u128> {
        Seq::new(self.tabs.len(), |i: int| self.tabs[i].id)
    }

    /// No two tabs share an identifier.
    pub open spec fn ids_unique(self) -> bool {
        forall|i: int, j: int|
            0 <= i < j < self.tabs.len() ==> (#[trigger] self.tabs[i]).id != (
            #[trigger] self.tabs[j]).id
    }

    /// The session with the tab at `i` replaced by `tab`.
    pub open spec fn with_tab(self, i: int, tab: QueryTabView) -> QueryStateView {
        QueryStateView { tabs: self.tabs.update(i, tab), ..self }
    }

    /// The active tab is replaced by `tab`, as a caller may do who holds the
    /// active tab for writing. A session without an active tab, which no
    /// operation brings about, stays as it is.
    pub open spec fn edit_active(self, tab: QueryTabView) -> QueryStateView {
        if self.has_active_tab() {
            self.with_tab(self.active_tab_index, tab)
        } else {
            self
        }
    }

    /// The text of the tab that `id` names becomes `text`; nothing changes
    /// when `id` names no tab.
    pub open spec fn set_tab_sql(self, id: u128, text: Seq<char>) -> QueryStateView {
        match self.position(id) {
            Some(i) => self.with_tab(i, QueryTabView { sql: text, ..self.tabs[i] }),
            None => self,
        }
    }

    /// `entry` is appended to the log.
    pub open spec fn push_history(self, entry: QueryHistoryEntryView) -> QueryStateView {
        QueryStateView { history: self.history.push(entry), ..self }
    }

    /// The text of the active tab becomes `sql`. A session without an active
    /// tab, which no operation brings about, stays as it is.
    pub open spec fn restore(self, sql: Seq<char>) -> QueryStateView {
        if self.has_active_tab() {
            self.with_tab(
                self.active_tab_index,
                QueryTabView { sql, ..self.tabs[self.active_tab_index] },
            )
        } else {
            self
        }
    }

    /// `i` is the first index at which `id` occurs, so `id` names the tab
    /// there.
    pub proof fn lemma_position_first(self, id: u128, i: int)
        requires
            self.is_first_match(id, i),
        ensures
            self.position(id) == Some(i),
    {
        let k = choose|k: int| self.is_first_match(id, k);
        assert(self.is_first_match(id, k));
        if k < i {
            assert(self.tabs[k].id != id);
        } else if i < k {
            assert(self.tabs[i].id != id);
        }
    }

    /// An identifier names a tab exactly when some tab has it, and the tab
    /// that it names is the first that has it.
    pub proof fn lemma_position_is_first(self, id: u128)
        ensures
            self.position(id) is None <==> !self.has_tab(id),
            self.position(id) matches Some(i) ==> self.is_first_match(id, i),
    {
        if self.has_tab(id) {
            let w = choose|i: int| 0 <= i < self.tabs.len() && (#[trigger] self.tabs[i]).id == id;
            self.lemma_first_match_exists(id, w);
        } else {
            if exists|i: int| self.is_first_match(id, i) {
                let k = choose|i: int| self.is_first_match(id, i);
                assert(self.tabs[k].id == id);
            }
        }
    }

    /// Where some tab up to `bound` has the identifier, there is a first one.
    proof fn lemma_first_match_exists(self, id: u128, bound: int)
        requires
            0 <= bound < self.tabs.len(),
            self.tabs[bound].id == id,
        ensures
            exists|i: int| self.is_first_match(id, i),
        decreases bound,
    {
        if forall|j: int| 0 <= j < bound ==> (#[trigger] self.tabs[j]).id != id {
            assert(self.is_first_match(id, bound));
        } else {
            let j = choose|j: int| 0 <= j < bound && (#[trigger] self.tabs[j]).id == id;
            self.lemma_first_match_exists(id, j);
        }
    }
}

impl QueryState {
    /// A session with one fresh tab, whose identifier is `id`.
    pub fn with_first_tab(id: u128) -> (state: QueryState)
        ensures
            state@ == QueryStateView::initial(id),
            state@.inv(),
    {
        let mut tabs: Vec<QueryTab> = Vec::new();
        tabs.push(QueryTab::numbered(id, 1));
        let state = QueryState { tabs, active_tab_index: 0, history: Vec::new() };
        assert(state@.tabs =~= seq![QueryTabView::fresh(id, 1)]);
        assert(state@.history =~= Seq::empty());
        state
    }

    /// True iff the session keeps its invariant. A session that was built
    /// by this library's operations always does; one that was put together
    /// field by field may not.
    pub fn is_valid(&self) -> (ok: bool)
        ensures
            ok == self@.inv(),
    {
        if self.tabs.len() == 0 || self.active_tab_index >= self.tabs.len() {
            return false;
        }
        let mut i: usize = 0;
        while i < self.tabs.len()
            invariant
                i <= self.tabs.len(),
                forall|k: int| 0 <= k < i ==> (#[trigger] self@.tabs[k]).result_well_formed(),
            decreases self.tabs.len() - i,
        {
            if !self.tabs[i].is_well_formed() {
                assert(!self@.tabs[i as int].result_well_formed());
                return false;
            }
            i += 1;
        }
        true
    }

    /// True iff the active index names a tab.
    pub fn has_active_tab(&self) -> (ok: bool)
        ensures
            ok == self@.has_active_tab(),
    {
        self.active_tab_index < self.tabs.len()
    }

    /// The active tab.
    pub fn active_tab(&self) -> (tab: &QueryTab)
        requires
            self@.has_active_tab(),
        ensures
            *tab == self.tabs[self.active_tab_index as int],
            tab@ == self@.active_tab(),
    {
        &self.tabs[self.active_tab_index]
    }

    /// The active tab, to be changed in place. Whatever the caller writes
    /// into it is the tab at the active index afterwards; no other tab, nor
    /// the index, nor the log changes.
    pub fn active_tab_mut(&mut self) -> (tab: &mut QueryTab)
        requires
            old(self)@.has_active_tab(),
        ensures
            *tab == old(self).tabs[old(self).active_tab_index as int],
            final(self).tabs@ == old(self).tabs@.update(
                old(self).active_tab_index as int,
                *final(tab),
            ),
            final(self).active_tab_index == old(self).active_tab_index,
            final(self).history == old(self).history,
            final(self)@ =~= old(self)@.edit_active(final(tab)@),
            final(self)@.has_active_tab(),
    {
        let i = self.active_tab_index;
        &mut self.tabs[i]
    }

    /// Appends a tab with a freshly drawn identifier and makes it active.
    pub fn add_tab(&mut self)
        ensures
            final(self)@ == old(self)@.add_tab(final(self)@.tabs.last().id),
            is_random_uuid(final(self)@.tabs.last().id),
            old(self)@.inv() ==> final(self)@.inv(),
    {
        self.add_tab_with_id(fresh_id());
    }

    /// Appends a fresh tab with the identifier `id` and makes it active.
    pub fn add_tab_with_id(&mut self, id: u128)
        ensures
            final(self)@ == old(self)@.add_tab(id),
            old(self)@.inv() ==> final(self)@.inv(),
    {
        let n: u128 = self.tabs.len() as u128 + 1;
        self.tabs.push(QueryTab::numbered(id, n));
        self.active_tab_index = self.tabs.len() - 1;
        assert(self@.tabs =~= old(self)@.add_tab(id).tabs);
    }

    /// Closes the tab at `index`. The last remaining tab is never closed,
    /// and an index that names no tab closes none.
    pub fn close_tab(&mut self, index: usize)
        ensures
            final(self)@ == old(self)@.close_tab(index as int),
            old(self)@.inv() ==> final(self)@.inv(),
    {
        if self.tabs.len() <= 1 || index >= self.tabs.len() {
            return ;
        }
        self.tabs.remove(index);
        if self.active_tab_index >= self.tabs.len() {
            self.active_tab_index = self.tabs.len() - 1;
        }
        assert(self@.tabs =~= old(self)@.tabs.remove(index as int));
    }

    /// Makes the tab at `index` the active one, or reports that there is no
    /// such tab and changes nothing.
    pub fn select_tab(&mut self, index: usize) -> (outcome: Result<(), IndexError>)
        ensures
            final(self)@ == old(self)@.select_tab(index as int),
            old(self)@.inv() ==> final(self)@.inv(),
            outcome is Ok <==> index < old(self).tabs.len(),
            outcome matches Err(e) ==> e.index == index && e.len == old(self).tabs.len(),
            outcome is Err ==> *final(self) == *old(self),
    {
        if index < self.tabs.len() {
            self.active_tab_index = index;
            Ok(())
        } else {
            Err(IndexError { index, len: self.tabs.len() })
        }
    }

    /// Finds the tab that `id` names: the first with that identifier.
    pub fn tab_position(&self, id: u128) -> (found: Option<usize>)
        ensures
            match found {
                Some(i) => self@.position(id) == Some(i as int),
                None => self@.position(id) is None,
            },
    {
        let mut i: usize = 0;
        while i < self.tabs.len()
            invariant
                i <= self.tabs.len(),
                forall|j: int| 0 <= j < i ==> (#[trigger] self@.tabs[j]).id != id,
            decreases self.tabs.len() - i,
        {
            if self.tabs[i].id == id {
                proof {
                    assert(self@.tabs[i as int].id == id);
                    self@.lemma_position_first(id, i as int);
                }
                return Some(i);
            }
            i += 1;
        }
        proof {
            self@.lemma_position_is_first(id);
        }
        None
    }

    /// Replaces the text of the tab that `tab_id` names. Where that tab has
    /// been closed in the meantime, nothing changes.
    pub fn set_tab_sql(&mut self, tab_id: u128, text: String)
        ensures
            final(self)@ == old(self)@.set_tab_sql(tab_id, text@),
            old(self)@.inv() ==> final(self)@.inv(),
    {
        match self.tab_position(tab_id) {
            Some(i) => {
                self.tabs[i].sql = text;
                assert(self@.tabs =~= old(self)@.set_tab_sql(tab_id, text@).tabs);
            },
            None => {},
        }
    }

    /// Puts `sql`, taken from a history entry, into the active tab as its
    /// text. Nothing is executed: the tab's result and running flag stay as
    /// they are, and so does the log.
    pub fn restore(&mut self, sql: String)
        requires
            old(self)@.has_active_tab(),
        ensures
            final(self)@ == old(self)@.restore(sql@),
            old(self)@.inv() ==> final(self)@.inv(),
    {
        let i = self.active_tab_index;
        self.tabs[i].sql = sql;
        assert(self@.tabs =~= old(self)@.restore(sql@).tabs);
    }

    /// Appends `entry` to the history log.
    pub fn push_history(&mut self, entry: QueryHistoryEntry)
        ensures
            final(self)@ == old(self)@.push_history(entry@),
            old(self)@.inv() ==> final(self)@.inv(),
    {
        self.history.push(entry);
        assert(self@.history =~= old(self)@.history.push(entry@));
    }
}

impl Default for QueryState {
    /// A session with one fresh tab under a freshly drawn identifier.
    fn default() -> (state: QueryState)
        ensures
            state@ == QueryStateView::initial(state@.tabs[0].id),
            state@.inv(),
    {
        QueryState::with_first_tab(fresh_id())
    }
}

} // verus!
