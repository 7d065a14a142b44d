use phraser::frontmost::{bundle_id_to_save, is_phraser_bundle_id, FrontmostApp};

#[test]
fn new_phraser_bundle_id_recognized() {
    assert!(is_phraser_bundle_id("com.newblacc.phraser"));
}

#[test]
fn legacy_parler_bundle_ids_still_recognized() {
    assert!(is_phraser_bundle_id("com.newblacc.parler"));
    assert!(is_phraser_bundle_id("com.melvynx.parler"));
}

#[test]
fn handy_bundle_id_recognized() {
    assert!(is_phraser_bundle_id("computer.handy"));
}

#[test]
fn unrelated_bundle_id_rejected() {
    assert!(!is_phraser_bundle_id("com.apple.safari"));
    assert!(!is_phraser_bundle_id("com.newblacc.other"));
    assert!(!is_phraser_bundle_id(""));
}

#[test]
fn report_is_trimmed() {
    assert_eq!(bundle_id_to_save(" com.apple.safari\n"), Some("com.apple.safari".to_string()));
    assert_eq!(bundle_id_to_save(" \n"), None);
    assert_eq!(bundle_id_to_save("computer.handy\n"), None);
}

#[test]
fn saved_app_is_restored_once() {
    let mut app = FrontmostApp::new();
    assert_eq!(app.restore_frontmost_app(), None);
    app.save_frontmost_app(b"com.apple.safari\n");
    app.save_frontmost_app(b"com.newblacc.phraser\n");
    app.save_frontmost_app(b"\n");
    assert_eq!(
        app.restore_frontmost_app(),
        Some("tell application id \"com.apple.safari\" to activate".to_string())
    );
    assert_eq!(app.restore_frontmost_app(), None);
}

#[test]
fn later_app_replaces_earlier() {
    let mut app = FrontmostApp::new();
    app.save_frontmost_app(b"com.apple.safari");
    app.save_frontmost_app(b"com.apple.mail");
    assert_eq!(
        app.restore_frontmost_app(),
        Some("tell application id \"com.apple.mail\" to activate".to_string())
    );
}

#[test]
fn broken_report_is_read_with_replacements() {
    let mut app = FrontmostApp::new();
    app.save_frontmost_app(&[0x66, 0x6f, 0x80]);
    assert_eq!(
        app.restore_frontmost_app(),
        Some("tell application id \"fo\u{fffd}\" to activate".to_string())
    );
}
