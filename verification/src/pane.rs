//! Identifiers and handles for panes.

use vstd::prelude::*;

verus! {

/// Stable identifier of a pane. It stays meaningful after the pane is gone:
/// a lookup by it then finds nothing.
pub type PaneId = usize;

/// Identifier of a window in the multiplexer.
pub type WindowId = usize;

/// A live pane that can take input: either the overlay that currently
/// shadows a pane in a window, or the pane the multiplexer has on record.
///
/// In both cases the handle carries the identifier the pane itself reports.
/// Two handles of different variants are different panes even when they
/// report the same identifier.
#[derive(Clone, Copy, Debug, PartialEq, Eq, Hash, Structural)]
pub enum PaneHandle {
    /// A transient pane kept in a window's own state.
    Overlay(PaneId),
    /// A pane owned by the multiplexer.
    Registered(PaneId),
}

impl PaneHandle {
    /// The identifier the pane reports.
    pub open spec fn spec_pane_id(&self) -> PaneId {
        match *self {
            PaneHandle::Overlay(id) => id,
            PaneHandle::Registered(id) => id,
        }
    }

    /// The identifier the pane reports.
    #[verifier::when_used_as_spec(spec_pane_id)]
    pub fn pane_id(&self) -> (id: PaneId)
        ensures
            id == self.spec_pane_id(),
    {
        match self {
            PaneHandle::Overlay(id) => *id,
            PaneHandle::Registered(id) => *id,
        }
    }
}

} // verus!
