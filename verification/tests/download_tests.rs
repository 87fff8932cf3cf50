use clipboard_bridge::download::{DownloadHandlerInstall, SetupError};
use clipboard_bridge::mux::{Mux, MuxWindow, Tab};
use clipboard_bridge::termwindow::TermWindow;

fn window_of(tabs: Vec<Vec<usize>>) -> MuxWindow {
    let mut out = Vec::new();
    for panes in tabs {
        out.push(Tab { panes });
    }
    MuxWindow { tabs: out }
}

#[test]
fn setup_attaches_to_every_pane_of_every_tab() {
    let mut mux = Mux::new();
    mux.add_window(1, window_of(vec![vec![10, 11], vec![12], vec![13, 14, 15]]));
    assert_eq!(
        TermWindow::setup_clipboard(&mux, 1),
        Ok(DownloadHandlerInstall { panes: vec![10, 11, 12, 13, 14, 15] })
    );
}

#[test]
fn setup_counts_one_attachment_per_pane() {
    let mut mux = Mux::new();
    mux.add_window(1, window_of(vec![vec![1, 2, 3], vec![], vec![4], vec![5, 6]]));
    let install = TermWindow::setup_clipboard(&mux, 1).unwrap();
    assert_eq!(install.panes.len(), 6);
}

#[test]
fn setup_of_unknown_window_fails_and_attaches_nothing() {
    let mut mux = Mux::new();
    mux.add_window(1, window_of(vec![vec![10, 11]]));
    assert_eq!(TermWindow::setup_clipboard(&mux, 2), Err(SetupError::WindowNotFound));
}

#[test]
fn setup_on_empty_registry_fails() {
    let mux = Mux::new();
    assert_eq!(TermWindow::setup_clipboard(&mux, 0), Err(SetupError::WindowNotFound));
}

#[test]
fn setup_of_window_without_tabs_attaches_nothing() {
    let mut mux = Mux::new();
    mux.add_window(1, window_of(vec![]));
    assert_eq!(
        TermWindow::setup_clipboard(&mux, 1),
        Ok(DownloadHandlerInstall { panes: vec![] })
    );
}

#[test]
fn setup_of_window_with_only_empty_tabs_attaches_nothing() {
    let mut mux = Mux::new();
    mux.add_window(1, window_of(vec![vec![], vec![]]));
    assert_eq!(
        TermWindow::setup_clipboard(&mux, 1),
        Ok(DownloadHandlerInstall { panes: vec![] })
    );
}

#[test]
fn setup_reads_only_the_window_asked_for() {
    let mut mux = Mux::new();
    mux.add_window(1, window_of(vec![vec![10], vec![11]]));
    mux.add_window(2, window_of(vec![vec![20, 21]]));
    mux.add_pane(30);
    assert_eq!(
        TermWindow::setup_clipboard(&mux, 2),
        Ok(DownloadHandlerInstall { panes: vec![20, 21] })
    );
    assert_eq!(
        TermWindow::setup_clipboard(&mux, 1),
        Ok(DownloadHandlerInstall { panes: vec![10, 11] })
    );
}

#[test]
fn setup_does_not_need_panes_to_be_registered() {
    let mut mux = Mux::new();
    mux.add_window(1, window_of(vec![vec![10]]));
    assert_eq!(mux.get_pane(10), None);
    assert_eq!(
        TermWindow::setup_clipboard(&mux, 1),
        Ok(DownloadHandlerInstall { panes: vec![10] })
    );
}

#[test]
fn setup_twice_gives_two_separate_installs() {
    let mut mux = Mux::new();
    mux.add_window(1, window_of(vec![vec![10, 11]]));
    let first = TermWindow::setup_clipboard(&mux, 1).unwrap();
    let second = TermWindow::setup_clipboard(&mux, 1).unwrap();
    assert_eq!(first, second);
    assert_eq!(first.panes, vec![10, 11]);
}

#[test]
fn setup_sees_a_window_recorded_again() {
    let mut mux = Mux::new();
    mux.add_window(1, window_of(vec![vec![10]]));
    mux.add_window(1, window_of(vec![vec![10], vec![12]]));
    assert_eq!(
        TermWindow::setup_clipboard(&mux, 1),
        Ok(DownloadHandlerInstall { panes: vec![10, 12] })
    );
}

#[test]
fn registry_finds_windows_by_id() {
    let mut mux = Mux::new();
    assert!(mux.get_window(1).is_none());
    mux.add_window(1, window_of(vec![vec![10], vec![11, 12]]));
    let found = mux.get_window(1).unwrap();
    assert_eq!(found.tabs.len(), 2);
    assert_eq!(found.tabs[1].panes, vec![11, 12]);
    assert!(mux.get_window(2).is_none());
}
