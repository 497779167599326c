//! The focus-oracle text helpers: window-id extraction and WM_CLASS
//! matching.

use gesture_interpreter::focus::{extract_active_window_id, wm_class_reports_browser};

#[test]
fn extracts_the_active_window_id() {
    let report = "_NET_ACTIVE_WINDOW(WINDOW): window id # 0x3c00007\n";
    assert_eq!(extract_active_window_id(report), Some("0x3c00007".to_string()));
}

#[test]
fn extracts_the_first_id_and_the_whole_hex_run() {
    let report = "junk _NET_ACTIVE_WINDOW(WINDOW): window id # 0xABCdef12, more \
                  _NET_ACTIVE_WINDOW(WINDOW): window id # 0x1";
    assert_eq!(extract_active_window_id(report), Some("0xABCdef12".to_string()));
}

#[test]
fn reports_without_the_marker_yield_no_id() {
    assert_eq!(extract_active_window_id(""), None);
    assert_eq!(extract_active_window_id("_NET_ACTIVE_WINDOW(WINDOW): window id # 0x"), None);
    assert_eq!(extract_active_window_id("_NET_ACTIVE_WINDOW(WINDOW): window id # 0xg"), None);
    assert_eq!(extract_active_window_id("WM_NAME(STRING) = \"sometitle\""), None);
}

#[test]
fn browser_classes_match_case_insensitively() {
    assert!(wm_class_reports_browser(
        "WM_CLASS(STRING) = \"google-chrome\", \"Google-chrome\"\nWM_NAME(STRING) = \"tab\""
    ));
    assert!(wm_class_reports_browser("WM_CLASS(STRING) = \"Brave-browser\", \"Brave-browser\""));
    assert!(wm_class_reports_browser("WM_CLASS(STRING) = \"Navigator\", \"firefox\""));
    // The usual X11 class spelling carries an upper-case initial.
    assert!(wm_class_reports_browser("WM_CLASS(STRING) = \"Navigator\", \"Firefox\""));
    assert!(wm_class_reports_browser("WM_CLASS(STRING) = \"Navigator\", \"FIREFOX\""));
}

#[test]
fn non_browser_windows_do_not_match() {
    assert!(!wm_class_reports_browser("WM_CLASS(STRING) = \"kitty\", \"kitty\""));
    assert!(!wm_class_reports_browser(""));
    // The class must stand on a WM_CLASS line, not anywhere in the report.
    assert!(!wm_class_reports_browser("WM_NAME(STRING) = \"firefox\""));
}

#[test]
fn carriage_returns_are_tolerated() {
    assert!(wm_class_reports_browser(
        "WM_NAME(STRING) = \"x\"\r\nWM_CLASS(STRING) = \"Navigator\", \"firefox\"\r\n"
    ));
}
