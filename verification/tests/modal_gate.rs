use alacritree::modal_gate::{ModalGate, ModalKind};


/// The frame a modal opens on holds keys pressed against whatever was on
/// screen before it.
#[test]
fn a_modal_refuses_the_frame_it_opens_on() {
    let mut gate = ModalGate::new();
    assert!(!gate.accepts(ModalKind::Delete));
}

#[test]
fn a_modal_accepts_once_the_user_has_seen_it() {
    let mut gate = ModalGate::new();
    gate.accepts(ModalKind::Delete);
    gate.end_frame();
    assert!(gate.accepts(ModalKind::Delete));
}

/// The create dialog's screens replace each other without the modal ever
/// closing, so the arriving screen must refuse the departing one's keys.
#[test]
fn a_changed_screen_refuses_the_previous_screens_keys() {
    let mut gate = ModalGate::new();
    gate.accepts(ModalKind::CreateRunning);
    gate.end_frame();
    assert!(!gate.accepts(ModalKind::CreateDone));
    gate.end_frame();
    assert!(gate.accepts(ModalKind::CreateDone));
}

/// Closing one dialog and opening another in consecutive frames must not
/// let the second inherit the first's permission.
#[test]
fn a_replacing_modal_starts_from_refused() {
    let mut gate = ModalGate::new();
    gate.accepts(ModalKind::Delete);
    gate.end_frame();
    assert!(!gate.accepts(ModalKind::Quit));
}

/// A frame that paints no modal clears the permission, so a dialog
/// reopened later does not accept the keys that closed it.
#[test]
fn a_frame_without_a_modal_clears_the_gate() {
    let mut gate = ModalGate::new();
    gate.accepts(ModalKind::Delete);
    gate.end_frame();
    gate.end_frame();
    assert!(!gate.accepts(ModalKind::Delete));
}
