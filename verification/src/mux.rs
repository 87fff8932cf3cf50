//! The multiplexer's registry of windows, tabs and panes, as the bridge
//! reads it.
//!
//! The registry is an explicit value handed to the bridge. Pane identifiers
//! act as weak references into it: a pane that has gone is simply not found.

use crate::pane::{PaneHandle, PaneId, WindowId};
use std::collections::{HashMap, HashSet};
use vstd::prelude::*;

verus! {

broadcast use vstd::std_specs::hash::group_hash_axioms;

/// One tab: its panes, in the order the tab enumerates them.
pub struct Tab {
    pub panes: Vec<PaneId>,
}

impl View for Tab {
    type V = Seq<PaneId>;

    open spec fn view(&self) -> Seq<PaneId> {
        self.panes@
    }
}

/// One window of the multiplexer: its tabs, in order.
pub struct MuxWindow {
    pub tabs: Vec<Tab>,
}

impl View for MuxWindow {
    type V = Seq<Seq<PaneId>>;

    open spec fn view(&self) -> Seq<Seq<PaneId>> {
        self.tabs@.map_values(|tab: Tab| tab@)
    }
}

/// Every pane of a window, tab after tab.
pub open spec fn window_panes(tabs: Seq<Seq<PaneId>>) -> Seq<PaneId> {
    tabs.flatten()
}

/// The number of panes in a window, summed over its tabs.
pub open spec fn pane_count(tabs: Seq<Seq<PaneId>>) -> nat
    decreases tabs.len(),
{
    if tabs.len() == 0 {
        0
    } else {
        tabs.first().len() + pane_count(tabs.drop_first())
    }
}

/// A window's panes are as many as its tabs hold together.
pub proof fn lemma_window_panes_len(tabs: Seq<Seq<PaneId>>)
    ensures
        window_panes(tabs).len() == pane_count(tabs),
    decreases tabs.len(),
{
    if tabs.len() > 0 {
        lemma_window_panes_len(tabs.drop_first());
    }
}

/// What the registry knows: its windows by identifier, and the identifiers
/// of the panes that are alive.
pub ghost struct MuxView {
    pub windows: Map<WindowId, Seq<Seq<PaneId>>>,
    pub panes: Set<PaneId>,
}

/// The registry of windows and live panes.
pub struct Mux {
    windows: HashMap<WindowId, MuxWindow>,
    panes: HashSet<PaneId>,
}

impl View for Mux {
    type V = MuxView;

    closed spec fn view(&self) -> MuxView {
        MuxView {
            windows: self.windows@.map_values(|window: MuxWindow| window@),
            panes: self.panes@,
        }
    }
}

impl Mux {
    /// A registry that knows no window and no pane.
    pub fn new() -> (mux: Mux)
        ensures
            mux@.windows == Map::<WindowId, Seq<Seq<PaneId>>>::empty(),
            mux@.panes == Set::<PaneId>::empty(),
    {
        let mux = Mux { windows: HashMap::new(), panes: HashSet::new() };
        assert(mux@.windows =~= Map::<WindowId, Seq<Seq<PaneId>>>::empty());
        mux
    }

    /// Records `window` under `window_id`, in place of any window recorded
    /// under that identifier before.
    pub fn add_window(&mut self, window_id: WindowId, window: MuxWindow)
        ensures
            final(self)@.windows == old(self)@.windows.insert(window_id, window@),
            final(self)@.panes == old(self)@.panes,
    {
        let ghost tabs = window@;
        self.windows.insert(window_id, window);
        assert(self@.windows =~= old(self)@.windows.insert(window_id, tabs));
    }

    /// Records the pane `pane_id` as alive.
    pub fn add_pane(&mut self, pane_id: PaneId)
        ensures
            final(self)@.panes == old(self)@.panes.insert(pane_id),
            final(self)@.windows == old(self)@.windows,
    {
        self.panes.insert(pane_id);
    }

    /// Forgets the pane `pane_id`: later lookups by it find nothing.
    pub fn remove_pane(&mut self, pane_id: PaneId)
        ensures
            final(self)@.panes == old(self)@.panes.remove(pane_id),
            final(self)@.windows == old(self)@.windows,
    {
        self.panes.remove(&pane_id);
    }

    /// Looks a window up by its identifier.
    pub fn get_window(&self, window_id: WindowId) -> (found: Option<&MuxWindow>)
        ensures
            found is Some <==> self@.windows.contains_key(window_id),
            found matches Some(window) ==> window@ == self@.windows[window_id],
    {
        self.windows.get(&window_id)
    }

    /// Looks a live pane up by its identifier.
    pub fn get_pane(&self, pane_id: PaneId) -> (found: Option<PaneHandle>)
        ensures
            found == if self@.panes.contains(pane_id) {
                Some(PaneHandle::Registered(pane_id))
            } else {
                None
            },
    {
        if self.panes.contains(&pane_id) {
            Some(PaneHandle::Registered(pane_id))
        } else {
            None
        }
    }
}

} // verus!
