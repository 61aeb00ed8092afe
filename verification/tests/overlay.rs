use lisca::clipboard::selected_text;
use lisca::overlay::{
    menu_action, should_hide, should_show_on_add, shows_main_window, toggle_visibility, TrayAction,
    OVERLAY_HEIGHT, OVERLAY_LABEL, OVERLAY_WIDTH, TRAY_ID,
};

#[test]
fn overlay_constants_are_sane() {
    assert!(OVERLAY_WIDTH > 0);
    assert!(OVERLAY_HEIGHT > 0);
    assert_eq!(OVERLAY_LABEL, "overlay");
}

#[test]
fn overlay_visibility_decisions() {
    assert!(toggle_visibility(false));
    assert!(!toggle_visibility(true));
    assert!(should_hide(false, true));
    assert!(!should_hide(true, true));
    assert!(!should_hide(false, false));
    assert!(should_show_on_add(None));
    assert!(should_show_on_add(Some(false)));
    assert!(!should_show_on_add(Some(true)));
}

#[test]
fn tray_menu_actions() {
    assert_eq!(TRAY_ID, "main-tray");
    assert_eq!(menu_action("show"), Some(TrayAction::Show));
    assert_eq!(menu_action("toggle_overlay"), Some(TrayAction::ToggleOverlay));
    assert_eq!(menu_action("quit"), Some(TrayAction::Quit));
    assert_eq!(menu_action("other"), None);
    assert!(shows_main_window(true, true));
    assert!(!shows_main_window(false, true));
}

#[test]
fn clipboard_keeps_only_nonempty_selection() {
    assert_eq!(selected_text(Some("hi".to_string())), Some("hi".to_string()));
    assert_eq!(selected_text(Some(String::new())), None);
    assert_eq!(selected_text(None), None);
}
