//! Pasting: from the user's request, through the clipboard read that
//! completes later, to the delivery of the text to a pane.
//!
//! The bridge decides; its caller acts. A request yields a [`PendingPaste`],
//! for which the caller starts a read of [`PendingPaste::clipboard`] without
//! waiting for it. When the read ends, [`PendingPaste::read_completed`] says
//! which notification, if any, to queue for the window. When the window runs
//! the notification, [`TermWindow::apply_paste`] says which pane, if any,
//! takes the text. Nothing of an outstanding paste is kept in the window:
//! any number of them may be pending, and they complete in any order.

use crate::mux::{Mux, MuxView};
use crate::pane::{PaneHandle, PaneId, WindowId};
use crate::selection::{Clipboard, ClipboardPasteSource};
use crate::termwindow::{TermWindow, TermWindowView};
use vstd::prelude::*;

verus! {

/// A paste that was asked for and whose clipboard read is outstanding.
///
/// It records the window and the pane identifier as they were when the user
/// asked, and no pane handle: the pane is looked up again on delivery.
#[derive(Clone, Copy, Debug, PartialEq, Eq, Structural)]
pub struct PendingPaste {
    pub window: WindowId,
    pub pane_id: PaneId,
    pub source: ClipboardPasteSource,
}

/// The unit of work queued for a window once a paste's text has been read.
#[derive(Clone, Debug, PartialEq, Eq)]
pub struct PasteNotification {
    pub window: WindowId,
    pub pane_id: PaneId,
    pub text: String,
}

pub ghost struct PasteNotificationView {
    pub window: WindowId,
    pub pane_id: PaneId,
    pub text: Seq<char>,
}

impl View for PasteNotification {
    type V = PasteNotificationView;

    open spec fn view(&self) -> PasteNotificationView {
        PasteNotificationView { window: self.window, pane_id: self.pane_id, text: self.text@ }
    }
}

/// Text to feed, piece by piece, to the input of one pane.
#[derive(Clone, Debug, PartialEq, Eq)]
pub struct PasteDelivery {
    pub pane: PaneHandle,
    pub text: String,
}

pub ghost struct PasteDeliveryView {
    pub pane: PaneHandle,
    pub text: Seq<char>,
}

impl View for PasteDelivery {
    type V = PasteDeliveryView;

    open spec fn view(&self) -> PasteDeliveryView {
        PasteDeliveryView { pane: self.pane, text: self.text@ }
    }
}

impl PendingPaste {
    /// The store to read for this paste.
    pub open spec fn spec_clipboard(&self) -> Clipboard {
        self.source.spec_store()
    }

    /// The store to read for this paste.
    #[verifier::when_used_as_spec(spec_clipboard)]
    pub fn clipboard(&self) -> (kind: Clipboard)
        ensures
            kind == self.spec_clipboard(),
    {
        self.source.store()
    }

    /// The notification that carries `text` to the window and pane recorded
    /// in this paste.
    pub open spec fn notification(self, text: Seq<char>) -> PasteNotificationView {
        PasteNotificationView { window: self.window, pane_id: self.pane_id, text }
    }

    /// Takes the outcome of the clipboard read.
    ///
    /// A read that gave text yields the notification to queue for the window
    /// recorded in the paste. A read that failed yields nothing: no work is
    /// queued and no pane is touched.
    pub fn read_completed<E>(self, outcome: Result<String, E>) -> (scheduled: Option<
        PasteNotification,
    >)
        ensures
            match outcome {
                Ok(text) => scheduled matches Some(notification) && notification@
                    == self.notification(text@),
                Err(_) => scheduled is None,
            },
    {
        match outcome {
            Ok(text) => Some(
                PasteNotification { window: self.window, pane_id: self.pane_id, text },
            ),
            Err(_) => None,
        }
    }
}

impl TermWindowView {
    /// The paste recorded when the user asks, in this window, to paste from
    /// `source` into `pane`.
    pub open spec fn pending_paste(
        self,
        pane: PaneHandle,
        source: ClipboardPasteSource,
    ) -> PendingPaste {
        PendingPaste { window: self.mux_window_id, pane_id: pane.spec_pane_id(), source }
    }

    /// The window's state once the user has asked to paste into `pane`: the
    /// pane follows the bottom, and nothing else has changed.
    pub open spec fn after_paste_request(self, pane: PaneHandle) -> TermWindowView {
        TermWindowView { viewports: self.viewports.remove(pane.spec_pane_id()), ..self }
    }

    /// What running `notification` in this window delivers, with the
    /// registry as it is at that moment.
    ///
    /// A notification queued for another window delivers nothing here. One
    /// for this window delivers its text to the pane that is live for its
    /// pane identifier now, and nothing if there is none.
    pub open spec fn delivery(
        self,
        mux: MuxView,
        notification: PasteNotificationView,
    ) -> Option<PasteDeliveryView> {
        if notification.window != self.mux_window_id {
            None
        } else {
            match self.resolve(mux, notification.pane_id) {
                Some(pane) => Some(PasteDeliveryView { pane, text: notification.text }),
                None => None,
            }
        }
    }
}

impl TermWindow {
    /// Starts a paste from `clipboard` into `pane`.
    ///
    /// Returns the pending paste, which records this window and the
    /// identifier of `pane`. The pane is scrolled to the bottom at once,
    /// whatever becomes of the read.
    pub fn paste_from_clipboard(
        &mut self,
        pane: &PaneHandle,
        clipboard: ClipboardPasteSource,
    ) -> (pending: PendingPaste)
        ensures
            pending == old(self)@.pending_paste(*pane, clipboard),
            final(self)@ == old(self)@.after_paste_request(*pane),
    {
        let pane_id = pane.pane_id();
        let pending = PendingPaste { window: self.mux_window_id(), pane_id, source: clipboard };
        self.scroll_to_bottom(pane_id);
        pending
    }

    /// Runs a paste notification in this window.
    ///
    /// The pane is resolved now, from the identifier in the notification.
    /// Returns the delivery to make, or `None` when the pane is gone or the
    /// notification belongs to another window.
    pub fn apply_paste(&self, mux: &Mux, notification: PasteNotification) -> (delivery: Option<
        PasteDelivery,
    >)
        ensures
            match self@.delivery(mux@, notification@) {
                Some(expected) => delivery matches Some(made) && made@ == expected,
                None => delivery is None,
            },
    {
        if notification.window != self.mux_window_id() {
            return None;
        }
        match self.resolve_pane(mux, notification.pane_id) {
            Some(pane) => Some(PasteDelivery { pane, text: notification.text }),
            None => None,
        }
    }
}

/// A paste is delivered by the state of the window and of the registry at
/// the time its notification runs. The state in which the user asked
/// contributes the window and the pane identifier, and nothing else: no
/// overlay or pane that was live then is remembered.
pub proof fn lemma_paste_resolves_on_delivery(
    asked: TermWindowView,
    now: TermWindowView,
    mux_now: MuxView,
    pane: PaneHandle,
    source: ClipboardPasteSource,
    text: Seq<char>,
)
    requires
        now.mux_window_id == asked.mux_window_id,
    ensures
        now.delivery(mux_now, asked.pending_paste(pane, source).notification(text)) == match now.resolve(
            mux_now,
            pane.spec_pane_id(),
        ) {
            Some(live) => Some(PasteDeliveryView { pane: live, text }),
            None => None,
        },
{
}

/// An overlay that came to shadow the pane after the user asked, in place
/// of whatever was live then, is the one that takes the text.
pub proof fn lemma_paste_reaches_later_overlay(
    asked: TermWindowView,
    now: TermWindowView,
    mux_now: MuxView,
    pane: PaneHandle,
    source: ClipboardPasteSource,
    text: Seq<char>,
)
    requires
        now.mux_window_id == asked.mux_window_id,
        now.overlays.contains_key(pane.spec_pane_id()),
    ensures
        now.delivery(mux_now, asked.pending_paste(pane, source).notification(text)) == Some(
            PasteDeliveryView { pane: PaneHandle::Overlay(now.overlays[pane.spec_pane_id()]), text },
        ),
{
}

/// A paste whose pane has neither an overlay nor an entry in the registry
/// when its notification runs is delivered nowhere.
pub proof fn lemma_paste_to_gone_pane_is_dropped(
    now: TermWindowView,
    mux_now: MuxView,
    notification: PasteNotificationView,
)
    requires
        !now.overlays.contains_key(notification.pane_id),
        !mux_now.panes.contains(notification.pane_id),
    ensures
        now.delivery(mux_now, notification) is None,
{
}

/// A paste is never delivered in a window other than the one it was asked
/// in, and never to a pane other than the one live for its identifier.
pub proof fn lemma_paste_stays_in_its_window(
    now: TermWindowView,
    mux_now: MuxView,
    notification: PasteNotificationView,
)
    ensures
        now.delivery(mux_now, notification) matches Some(made) ==> {
            &&& notification.window == now.mux_window_id
            &&& now.resolve(mux_now, notification.pane_id) == Some(made.pane)
            &&& made.text == notification.text
        },
{
}

} // verus!
