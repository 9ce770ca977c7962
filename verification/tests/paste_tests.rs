use lightwhisper::download::{effective_total, DownloadProgress};
use lightwhisper::paste::{
    activate_pid, ensure_accessibility_permission, get_frontmost_pid, is_focus_target,
    paste_steps, PasteError, PasteStep, CLIPBOARD_READY_MS, PASTE_DONE_MS,
};

#[test]
fn host_without_focus_management() {
    assert_eq!(get_frontmost_pid(), -1);
    activate_pid(1234);
    assert!(ensure_accessibility_permission());
    assert!(!is_focus_target(get_frontmost_pid()));
}

#[test]
fn only_positive_identifiers_are_focus_targets() {
    assert!(is_focus_target(1));
    assert!(is_focus_target(i32::MAX));
    assert!(!is_focus_target(0));
    assert!(!is_focus_target(-1));
    assert!(!is_focus_target(i32::MIN));
}

#[test]
fn paste_restores_the_clipboard_it_found() {
    assert_eq!(
        paste_steps("hello world", Some("earlier".to_string())),
        vec![
            PasteStep::SetClipboard("hello world".to_string()),
            PasteStep::Wait(50),
            PasteStep::SendKeys,
            PasteStep::Wait(100),
            PasteStep::RestoreClipboard("earlier".to_string()),
        ]
    );
    assert_eq!(CLIPBOARD_READY_MS, 50);
    assert_eq!(PASTE_DONE_MS, 100);
}

#[test]
fn paste_restores_nothing_where_the_clipboard_held_no_text() {
    assert_eq!(
        paste_steps("hello", None),
        vec![
            PasteStep::SetClipboard("hello".to_string()),
            PasteStep::Wait(50),
            PasteStep::SendKeys,
            PasteStep::Wait(100),
        ]
    );
}

#[test]
fn paste_error_messages() {
    let e = || "denied".to_string();
    assert_eq!(PasteError::ClipboardInit(e()).message(), "Clipboard init error: denied");
    assert_eq!(PasteError::ClipboardSet(e()).message(), "Clipboard set error: denied");
    assert_eq!(PasteError::KeysInit(e()).message(), "Enigo init error: denied");
    assert_eq!(PasteError::KeyPress(e()).message(), "Key press error: denied");
    assert_eq!(PasteError::KeyClick(e()).message(), "Key click error: denied");
    assert_eq!(PasteError::KeyRelease(e()).message(), "Key release error: denied");
}

#[test]
fn progress_is_measured_against_the_known_total() {
    assert_eq!(effective_total(0, 500), 500);
    assert_eq!(effective_total(2000, 500), 2000);
    assert_eq!(effective_total(0, 0), 0);
}

#[test]
fn progress_counts_chunks() {
    let mut progress = DownloadProgress::start(1000, 0, 4000);
    assert_eq!(progress.total, 4000);
    assert_eq!(progress.basis_points(), 2500);
    assert_eq!(progress.advance(1000), Some(2000));
    assert_eq!(progress.advance(500), Some(2500));
    assert_eq!(progress.downloaded, 1500);
    assert_eq!(progress.basis_points(), 6250);
    let unknown = DownloadProgress::start(0, 0, 0);
    assert_eq!(unknown.basis_points(), 0);
}

#[test]
fn progress_does_not_leave_the_range() {
    let mut progress = DownloadProgress::start(u64::MAX - 10, 0, 0);
    assert_eq!(progress.advance(10), Some(u64::MAX));
    assert_eq!(progress.advance(1), None);
    assert_eq!(progress.downloaded, 10);
}
