use clipboard_bridge::mux::Mux;
use clipboard_bridge::pane::PaneHandle;
use clipboard_bridge::termwindow::TermWindow;

#[test]
fn overlay_wins_over_registry_pane() {
    let mut mux = Mux::new();
    mux.add_pane(7);
    let mut window = TermWindow::new(1);
    window.assign_overlay_for_pane(7, 40);
    assert_eq!(window.resolve_pane(&mux, 7), Some(PaneHandle::Overlay(40)));
}

#[test]
fn overlay_reporting_the_same_id_still_wins() {
    let mut mux = Mux::new();
    mux.add_pane(7);
    let mut window = TermWindow::new(1);
    window.assign_overlay_for_pane(7, 7);
    assert_eq!(window.resolve_pane(&mux, 7), Some(PaneHandle::Overlay(7)));
    assert_ne!(window.resolve_pane(&mux, 7), Some(PaneHandle::Registered(7)));
}

#[test]
fn overlay_alone_resolves() {
    let mux = Mux::new();
    let mut window = TermWindow::new(1);
    window.assign_overlay_for_pane(7, 40);
    assert_eq!(window.resolve_pane(&mux, 7), Some(PaneHandle::Overlay(40)));
}

#[test]
fn registry_pane_resolves_without_overlay() {
    let mut mux = Mux::new();
    mux.add_pane(7);
    let window = TermWindow::new(1);
    assert_eq!(window.resolve_pane(&mux, 7), Some(PaneHandle::Registered(7)));
}

#[test]
fn unknown_pane_resolves_to_none() {
    let mux = Mux::new();
    let window = TermWindow::new(1);
    assert_eq!(window.resolve_pane(&mux, 7), None);
}

#[test]
fn overlay_of_another_pane_does_not_resolve() {
    let mut mux = Mux::new();
    mux.add_pane(8);
    let mut window = TermWindow::new(1);
    window.assign_overlay_for_pane(9, 40);
    assert_eq!(window.resolve_pane(&mux, 7), None);
    assert_eq!(window.resolve_pane(&mux, 8), Some(PaneHandle::Registered(8)));
    assert_eq!(window.resolve_pane(&mux, 40), None);
}

#[test]
fn cancelled_overlay_uncovers_registry_pane() {
    let mut mux = Mux::new();
    mux.add_pane(7);
    let mut window = TermWindow::new(1);
    window.assign_overlay_for_pane(7, 40);
    window.cancel_overlay_for_pane(7);
    assert_eq!(window.resolve_pane(&mux, 7), Some(PaneHandle::Registered(7)));
}

#[test]
fn later_overlay_replaces_earlier_one() {
    let mux = Mux::new();
    let mut window = TermWindow::new(1);
    window.assign_overlay_for_pane(7, 40);
    window.assign_overlay_for_pane(7, 41);
    assert_eq!(window.resolve_pane(&mux, 7), Some(PaneHandle::Overlay(41)));
}

#[test]
fn removed_pane_is_not_found() {
    let mut mux = Mux::new();
    mux.add_pane(7);
    mux.add_pane(8);
    mux.remove_pane(7);
    assert_eq!(mux.get_pane(7), None);
    assert_eq!(mux.get_pane(8), Some(PaneHandle::Registered(8)));
    let window = TermWindow::new(1);
    assert_eq!(window.resolve_pane(&mux, 7), None);
}

#[test]
fn resolving_twice_gives_the_same_pane() {
    let mut mux = Mux::new();
    mux.add_pane(7);
    let mut window = TermWindow::new(1);
    window.assign_overlay_for_pane(7, 40);
    let first = window.resolve_pane(&mux, 7);
    let second = window.resolve_pane(&mux, 7);
    assert_eq!(first, second);
}

#[test]
fn handles_report_their_pane_id() {
    assert_eq!(PaneHandle::Overlay(40).pane_id(), 40);
    assert_eq!(PaneHandle::Registered(7).pane_id(), 7);
}

#[test]
fn window_remembers_its_mux_window() {
    assert_eq!(TermWindow::new(12).mux_window_id(), 12);
}
