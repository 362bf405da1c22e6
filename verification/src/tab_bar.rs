//! The tab bar: what the view shows of each tab. The list is computed from
//! the session each time it is asked for and is never kept.

use crate::ids::{hyphenated, id_text};
use crate::session::{QueryState, QueryStateView, QueryTab};
use vstd::prelude::*;

verus! {

/// One entry of the tab bar.
#[derive(Debug, Clone, PartialEq, Eq)]
pub struct Tab {
    /// The tab's identifier, written as a hyphenated UUID.
    pub id: String,
    pub title: String,
    /// Whether the tab offers a close button.
    pub closeable: bool,
}

/// What a [`Tab`] stands for in contracts.
pub struct TabView {
    pub id: Seq<char>,
    pub title: Seq<char>,
    pub closeable: bool,
}

impl View for Tab {
    type V = TabView;

    open spec fn view(&self) -> TabView {
        TabView { id: self.id@, title: self.title@, closeable: self.closeable }
    }
}

impl Tab {
    /// The entry that shows `tab`, given the text of its identifier and
    /// whether tabs can be closed.
    pub fn for_tab(tab: &QueryTab, id: String, closeable: bool) -> (entry: Tab)
        ensures
            entry@ == (TabView { id: id@, title: tab@.title, closeable }),
    {
        Tab { id, title: tab.title.clone(), closeable }
    }
}

/// The views of a tab bar's entries, in order.
pub open spec fn tab_list_view(list: Seq<Tab>) -> Seq<TabView> {
    Seq::new(list.len(), |i: int| list[i]@)
}

impl QueryStateView {
    /// The tab bar of a session: one entry for each tab, in the tabs' order,
    /// and all of them closeable exactly when there is more than one.
    pub open spec fn tab_list(self) -> Seq<TabView> {
        Seq::new(
            self.tabs.len(),
            |i: int|
                TabView {
                    id: hyphenated(self.tabs[i].id),
                    title: self.tabs[i].title,
                    closeable: self.tabs.len() > 1,
                },
        )
    }
}

impl QueryState {
    /// The entries of the tab bar for the session as it is now.
    pub fn tab_list(&self) -> (list: Vec<Tab>)
        ensures
            tab_list_view(list@) == self@.tab_list(),
    {
        let closeable = self.tabs.len() > 1;
        let mut list: Vec<Tab> = Vec::new();
        let mut i: usize = 0;
        while i < self.tabs.len()
            invariant
                i <= self.tabs.len(),
                closeable == (self.tabs.len() > 1),
                list.len() == i,
                forall|k: int| 0 <= k < i ==> (#[trigger] list@[k])@ == self@.tab_list()[k],
            decreases self.tabs.len() - i,
        {
            let tab = &self.tabs[i];
            list.push(Tab::for_tab(tab, id_text(tab.id), closeable));
            i += 1;
        }
        assert(tab_list_view(list@) =~= self@.tab_list());
        list
    }
}

} // verus!
