//! Setting a window up for in-band downloads: one handler, attached to
//! every pane the window holds at that time.

use crate::mux::{lemma_window_panes_len, pane_count, window_panes, Mux, MuxView};
use crate::pane::{PaneId, WindowId};
use crate::termwindow::TermWindow;
use vstd::prelude::*;

verus! {

/// The panes to attach one download handler to.
///
/// One value stands for one handler: whoever carries it out makes a single
/// handler and attaches that same handler to each pane listed, in order.
#[derive(Clone, Debug, PartialEq, Eq)]
pub struct DownloadHandlerInstall {
    pub panes: Vec<PaneId>,
}

impl View for DownloadHandlerInstall {
    type V = Seq<PaneId>;

    open spec fn view(&self) -> Seq<PaneId> {
        self.panes@
    }
}

/// Why a window could not be set up.
#[derive(Clone, Copy, Debug, PartialEq, Eq, Structural)]
pub enum SetupError {
    /// The registry does not know the window. Setup was attempted before the
    /// window was registered.
    WindowNotFound,
}

impl MuxView {
    /// What setting up `window_id` attaches the handler to: every pane of
    /// every tab the window holds, or an error if the window is unknown.
    pub open spec fn download_handler_install(self, window_id: WindowId) -> Result<
        Seq<PaneId>,
        SetupError,
    > {
        if self.windows.contains_key(window_id) {
            Ok(window_panes(self.windows[window_id]))
        } else {
            Err(SetupError::WindowNotFound)
        }
    }
}

impl TermWindow {
    /// Sets the window `mux_window_id` up for downloads.
    ///
    /// Fails if the registry does not know the window, and then names no
    /// pane. Otherwise returns the panes that get the handler: each pane of
    /// each tab the window holds now, once for each place it holds, tab
    /// after tab. Panes that join the window later are not among them, and a
    /// second call yields a second, separate install.
    pub fn setup_clipboard(mux: &Mux, mux_window_id: WindowId) -> (outcome: Result<
        DownloadHandlerInstall,
        SetupError,
    >)
        ensures
            match mux@.download_handler_install(mux_window_id) {
                Ok(panes) => outcome matches Ok(install) && install@ == panes,
                Err(error) => outcome matches Err(reported) && reported == error,
            },
    {
        let window = match mux.get_window(mux_window_id) {
            Some(window) => window,
            None => {
                return Err(SetupError::WindowNotFound);
            },
        };
        let mut panes: Vec<PaneId> = Vec::new();
        let mut t: usize = 0;
        while t < window.tabs.len()
            invariant
                t <= window.tabs.len(),
                panes@ == window_panes(window@.take(t as int)),
            decreases window.tabs.len() - t,
        {
            let tab = &window.tabs[t];
            let ghost before = panes@;
            let mut p: usize = 0;
            while p < tab.panes.len()
                invariant
                    p <= tab.panes.len(),
                    panes@ == before + tab@.take(p as int),
                decreases tab.panes.len() - p,
            {
                panes.push(tab.panes[p]);
                assert(tab@.take(p as int).push(tab@[p as int]) == tab@.take(p + 1));
                p += 1;
            }
            proof {
                assert(tab@.take(p as int) == tab@);
                assert(window@.take(t as int).push(tab@) == window@.take(t + 1));
                window@.take(t as int).lemma_flatten_push(tab@);
            }
            t += 1;
        }
        assert(window@.take(t as int) == window@);
        Ok(DownloadHandlerInstall { panes })
    }
}

/// Setting up a window that holds N panes across its tabs attaches the
/// handler N times; setting up an unknown window attaches it to nothing.
pub proof fn lemma_install_attaches_once_per_pane(mux: MuxView, window_id: WindowId)
    ensures
        match mux.download_handler_install(window_id) {
            Ok(panes) => mux.windows.contains_key(window_id) && panes.len() == pane_count(
                mux.windows[window_id],
            ),
            Err(_) => !mux.windows.contains_key(window_id),
        },
{
    if mux.windows.contains_key(window_id) {
        lemma_window_panes_len(mux.windows[window_id]);
    }
}

/// The pane in place `p` of tab `t` is among the panes that get the handler.
pub proof fn lemma_install_covers_every_pane(tabs: Seq<Seq<PaneId>>, t: int, p: int)
    requires
        0 <= t < tabs.len(),
        0 <= p < tabs[t].len(),
    ensures
        window_panes(tabs).contains(tabs[t][p]),
    decreases tabs.len(),
{
    let rest = tabs.drop_first();
    assert(window_panes(tabs) == tabs.first() + window_panes(rest));
    if t == 0 {
        assert(window_panes(tabs)[p] == tabs[t][p]);
    } else {
        lemma_install_covers_every_pane(rest, t - 1, p);
        let k = window_panes(rest).index_of(tabs[t][p]);
        assert(window_panes(tabs)[tabs.first().len() + k] == tabs[t][p]);
    }
}

} // verus!
