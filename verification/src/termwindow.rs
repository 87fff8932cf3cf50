//! The per-window state the bridge reads and updates, and the resolution of
//! a pane identifier to the pane that is live for the user.

use crate::mux::{Mux, MuxView};
use crate::pane::{PaneHandle, PaneId, WindowId};
use std::collections::HashMap;
use vstd::prelude::*;

verus! {

broadcast use vstd::std_specs::hash::group_hash_axioms;

/// What a window's state says, pane by pane.
pub ghost struct TermWindowView {
    /// The multiplexer window this terminal window shows.
    pub mux_window_id: WindowId,
    /// For each shadowed pane, the identifier of the overlay that shadows it.
    pub overlays: Map<PaneId, PaneId>,
    /// For each pane scrolled back, the row its viewport is pinned to.
    /// A pane without an entry follows the bottom of its output.
    pub viewports: Map<PaneId, isize>,
}

impl TermWindowView {
    /// The pane that is live for `pane_id`: its overlay if the window holds
    /// one, else the pane the registry has on record, else nothing.
    pub open spec fn resolve(self, mux: MuxView, pane_id: PaneId) -> Option<PaneHandle> {
        if self.overlays.contains_key(pane_id) {
            Some(PaneHandle::Overlay(self.overlays[pane_id]))
        } else if mux.panes.contains(pane_id) {
            Some(PaneHandle::Registered(pane_id))
        } else {
            None
        }
    }
}

/// The state of one terminal window.
pub struct TermWindow {
    mux_window_id: WindowId,
    overlays: HashMap<PaneId, PaneId>,
    viewports: HashMap<PaneId, isize>,
}

impl View for TermWindow {
    type V = TermWindowView;

    closed spec fn view(&self) -> TermWindowView {
        TermWindowView {
            mux_window_id: self.mux_window_id,
            overlays: self.overlays@,
            viewports: self.viewports@,
        }
    }
}

impl TermWindow {
    /// The state of a fresh window on `mux_window_id`: no overlay, and every
    /// pane following the bottom.
    pub fn new(mux_window_id: WindowId) -> (window: TermWindow)
        ensures
            window@.mux_window_id == mux_window_id,
            window@.overlays == Map::<PaneId, PaneId>::empty(),
            window@.viewports == Map::<PaneId, isize>::empty(),
    {
        TermWindow { mux_window_id, overlays: HashMap::new(), viewports: HashMap::new() }
    }

    /// The multiplexer window this terminal window shows.
    pub fn mux_window_id(&self) -> (id: WindowId)
        ensures
            id == self@.mux_window_id,
    {
        self.mux_window_id
    }

    /// Lets the pane `overlay` shadow `pane_id`, in place of any overlay
    /// that shadowed it before.
    pub fn assign_overlay_for_pane(&mut self, pane_id: PaneId, overlay: PaneId)
        ensures
            final(self)@ == (TermWindowView {
                overlays: old(self)@.overlays.insert(pane_id, overlay),
                ..old(self)@
            }),
    {
        self.overlays.insert(pane_id, overlay);
    }

    /// Removes the overlay of `pane_id`, if it has one.
    pub fn cancel_overlay_for_pane(&mut self, pane_id: PaneId)
        ensures
            final(self)@ == (TermWindowView {
                overlays: old(self)@.overlays.remove(pane_id),
                ..old(self)@
            }),
    {
        self.overlays.remove(&pane_id);
    }

    /// The row the viewport of `pane_id` is pinned to, or `None` where the
    /// pane follows the bottom.
    pub fn get_viewport(&self, pane_id: PaneId) -> (position: Option<isize>)
        ensures
            position == if self@.viewports.contains_key(pane_id) {
                Some(self@.viewports[pane_id])
            } else {
                None
            },
    {
        match self.viewports.get(&pane_id) {
            Some(row) => Some(*row),
            None => None,
        }
    }

    /// Pins the viewport of `pane_id` to a row, or with `None` lets it
    /// follow the bottom.
    pub fn set_viewport(&mut self, pane_id: PaneId, position: Option<isize>)
        ensures
            final(self)@ == (TermWindowView {
                viewports: match position {
                    Some(row) => old(self)@.viewports.insert(pane_id, row),
                    None => old(self)@.viewports.remove(pane_id),
                },
                ..old(self)@
            }),
    {
        match position {
            Some(row) => {
                self.viewports.insert(pane_id, row);
            },
            None => {
                self.viewports.remove(&pane_id);
            },
        }
    }

    /// Lets `pane_id` follow the bottom of its output again.
    pub fn scroll_to_bottom(&mut self, pane_id: PaneId)
        ensures
            final(self)@ == (TermWindowView {
                viewports: old(self)@.viewports.remove(pane_id),
                ..old(self)@
            }),
    {
        self.viewports.remove(&pane_id);
    }

    /// Finds the pane that is to take input for `pane_id` right now.
    ///
    /// The window's overlay for `pane_id` wins over the registry's pane.
    /// `None` means the pane is gone; it is not an error.
    pub fn resolve_pane(&self, mux: &Mux, pane_id: PaneId) -> (found: Option<PaneHandle>)
        ensures
            found == self@.resolve(mux@, pane_id),
    {
        match self.overlays.get(&pane_id) {
            Some(overlay) => Some(PaneHandle::Overlay(*overlay)),
            None => mux.get_pane(pane_id),
        }
    }
}

/// An overlay wins: where the window holds an overlay for an identifier,
/// resolution gives that overlay, whether or not the registry has a pane
/// under the same identifier.
pub proof fn lemma_overlay_takes_precedence(
    window: TermWindowView,
    mux: MuxView,
    pane_id: PaneId,
)
    requires
        window.overlays.contains_key(pane_id),
    ensures
        window.resolve(mux, pane_id) == Some(PaneHandle::Overlay(window.overlays[pane_id])),
        window.resolve(mux, pane_id) != Some(PaneHandle::Registered(pane_id)),
{
}

/// Resolution finds nothing exactly when the identifier has neither an
/// overlay in the window nor a pane in the registry.
pub proof fn lemma_resolves_to_none_iff_gone(
    window: TermWindowView,
    mux: MuxView,
    pane_id: PaneId,
)
    ensures
        window.resolve(mux, pane_id) is None <==> !window.overlays.contains_key(pane_id)
            && !mux.panes.contains(pane_id),
{
}

/// Resolution is decided by what is recorded for the identifier itself: two
/// states that agree on its overlay and on whether the registry has it
/// resolve it alike, whatever else they hold.
pub proof fn lemma_resolution_depends_on_the_pane_alone(
    window_a: TermWindowView,
    mux_a: MuxView,
    window_b: TermWindowView,
    mux_b: MuxView,
    pane_id: PaneId,
)
    requires
        window_a.overlays.contains_key(pane_id) == window_b.overlays.contains_key(pane_id),
        window_a.overlays.contains_key(pane_id) ==> window_a.overlays[pane_id]
            == window_b.overlays[pane_id],
        mux_a.panes.contains(pane_id) == mux_b.panes.contains(pane_id),
    ensures
        window_a.resolve(mux_a, pane_id) == window_b.resolve(mux_b, pane_id),
{
}

} // verus!
