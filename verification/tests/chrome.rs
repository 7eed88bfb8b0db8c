use grove::ui::chrome::{dialog_key, frame_end, Detached, DialogKey};

#[derive(Debug)]
struct Form {
    id: String,
    typed: String,
}

fn form(id: &str) -> Form {
    Form { id: id.to_string(), typed: String::new() }
}

#[test]
fn a_fresh_window_is_closed_and_wants_no_focus() {
    let mut window: Detached<Form> = Detached::default();
    assert!(!window.is_open());
    assert!(window.get().is_none());
    assert!(!window.take_focus_request(), "nothing to raise");
    window.request_focus();
    assert!(!window.take_focus_request(), "a closed window is not raised");
}

#[test]
fn opening_asks_for_the_window_to_be_raised_exactly_once() {
    let mut window = Detached::default();
    window.open(form("p1"));
    assert!(window.is_open());
    assert!(window.take_focus_request());
    assert!(!window.take_focus_request(), "the request is consumed");
}

#[test]
fn re_opening_the_same_dialog_focuses_instead_of_duplicating() {
    let mut window = Detached::default();
    window.open(form("p1"));
    window.take_focus_request();
    if let Some(open) = window.get_mut() {
        open.typed = "feature/auth".into();
    }

    let installed = window.open_or_focus(form("p1"), |open: &Form| open.id == "p1");
    assert!(!installed, "the open window is the one that was asked for");
    assert!(window.take_focus_request(), "it is raised instead");
    assert_eq!(window.get().map(|f| f.typed.as_str()), Some("feature/auth"));
}

#[test]
fn asking_for_a_different_subject_replaces_the_content() {
    let mut window = Detached::default();
    window.open(form("p1"));
    window.take_focus_request();

    let installed = window.open_or_focus(form("p2"), |open: &Form| open.id == "p2");
    assert!(installed, "the caller must reload for the new subject");
    assert_eq!(window.get().map(|f| f.id.as_str()), Some("p2"));
    assert!(window.take_focus_request());
}

#[test]
fn opening_a_closed_window_through_open_or_focus_installs_the_form() {
    let mut window: Detached<Form> = Detached::default();
    assert!(window.open_or_focus(form("p1"), |_: &Form| true));
    assert!(window.is_open());
}

#[test]
fn closing_is_idempotent_and_drops_any_pending_focus() {
    let mut window = Detached::default();
    window.open(form("p1"));
    window.close();
    window.close();
    assert!(!window.is_open());
    assert!(!window.take_focus_request());
}

#[test]
fn esc_ctrl_w_and_the_compositor_all_close_the_dialog_window() {
    assert_eq!(dialog_key(true, false, false, false), Some(DialogKey::Close), "Esc");
    assert_eq!(dialog_key(false, true, false, false), Some(DialogKey::Close), "Ctrl+W");
    assert_eq!(
        dialog_key(false, false, false, true),
        Some(DialogKey::Close),
        "the compositor asked"
    );
}

#[test]
fn ctrl_q_quits_grove_from_a_dialog_window() {
    assert_eq!(dialog_key(false, false, true, false), Some(DialogKey::Quit));
}

#[test]
fn quitting_wins_over_closing_in_the_same_frame() {
    assert_eq!(dialog_key(true, true, true, true), Some(DialogKey::Quit));
}

#[test]
fn an_idle_frame_asks_for_nothing() {
    assert_eq!(dialog_key(false, false, false, false), None);
}

#[test]
fn a_frame_closes_its_window_or_grove() {
    assert_eq!(frame_end(false, None), (false, false));
    assert_eq!(frame_end(true, None), (true, false));
    assert_eq!(frame_end(false, Some(DialogKey::Close)), (true, false));
    assert_eq!(frame_end(false, Some(DialogKey::Quit)), (false, true));
    assert_eq!(frame_end(true, Some(DialogKey::Quit)), (true, true));
}

/// What one frame with these keys down comes to: whether the window closes, and
/// whether Grove does.
fn frame(esc: bool, ctrl_w: bool, ctrl_q: bool) -> (bool, bool) {
    frame_end(false, dialog_key(esc, ctrl_w, ctrl_q, false))
}

#[test]
fn a_quiet_frame_leaves_the_window_open() {
    let (close, _) = frame(false, false, false);
    assert!(!close);
}

#[test]
fn esc_reaches_the_window_through_its_panels() {
    let (close, _) = frame(true, false, false);
    assert!(close);
}

#[test]
fn ctrl_q_in_a_dialog_closes_the_main_viewport_and_not_the_dialog() {
    let (close, quit) = frame(false, false, true);
    assert!(!close, "the dialog does not tear itself down; Grove exits");
    assert!(quit, "Ctrl+Q must ask the root viewport to close");
}
