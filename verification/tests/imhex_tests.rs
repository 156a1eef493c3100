use discord_imhex::imhex::{
    get_selected_bytes, opened_file, string_to_hex, title_matches, AuditEvent, WindowObserver,
};

#[test]
fn test_opened_file_after_first_separator() {
    assert_eq!(opened_file("ImHex - report.bin"), "report.bin");
    // only the first separator counts
    assert_eq!(opened_file("ImHex - a - b"), "a - b");
}

#[test]
fn test_opened_file_without_separator() {
    assert_eq!(opened_file("ImHex"), "ImHex");
    assert_eq!(opened_file("imhex-gui.exe"), "imhex-gui.exe");
    assert_eq!(opened_file(""), "");
}

#[test]
fn test_string_to_hex_sentinel() {
    assert_eq!(string_to_hex("ImHex"), "0");
}

#[test]
fn test_string_to_hex_bytes() {
    assert_eq!(string_to_hex("ab"), "6162");
    assert_eq!(string_to_hex(""), "");
    assert_eq!(string_to_hex("report.bin"), "7265706f72742e62696e");
}

#[test]
fn test_sentinel_fingerprint_fixed() {
    // single placeholder byte: min == max == 0
    assert_eq!(get_selected_bytes("ImHex"), Some("0x00-0x00".to_string()));
    // deterministic across calls
    assert_eq!(get_selected_bytes("ImHex"), Some("0x00-0x00".to_string()));
}

#[test]
fn test_fingerprint_boundary_lengths() {
    // a 1-character title
    assert_eq!(get_selected_bytes("A"), Some("0x41-0x41".to_string()));
    // an odd-length title
    assert_eq!(get_selected_bytes("abc"), Some("0x61-0x63".to_string()));
    // an empty title decodes to zero bytes: no fingerprint, not an error
    assert_eq!(get_selected_bytes(""), None);
}

#[test]
fn test_fingerprint_min_max() {
    assert_eq!(get_selected_bytes("report.bin"), Some("0x2E-0x74".to_string()));
}

#[test]
fn test_title_matches() {
    assert!(title_matches("ImHex"));
    assert!(title_matches("ImHex - report.bin"));
    assert!(title_matches("imhex-gui.exe"));
    assert!(!title_matches("Notepad - notes.txt"));
    assert!(!title_matches("imhex"));
}

#[test]
fn test_observer_logs_distinct_titles_once() {
    let mut obs = WindowObserver::new();
    let (file, ev) = obs.process_window_title("ImHex - report.bin");
    assert_eq!(file, "report.bin");
    match ev {
        Some(AuditEvent::OpenedFile(m)) => assert_eq!(m, "report.bin"),
        other => panic!("expected an opened-file entry, got {:?}", other),
    }
    // the same title on the next tick is not re-logged
    let (file2, ev2) = obs.process_window_title("ImHex - report.bin");
    assert_eq!(file2, "report.bin");
    assert!(ev2.is_none());
}

#[test]
fn test_observer_logs_hex_for_plain_title() {
    let mut obs = WindowObserver::new();
    let (file, ev) = obs.process_window_title("ImHex");
    assert_eq!(file, "ImHex");
    match ev {
        Some(AuditEvent::OpenedFile(m)) => assert_eq!(m, "0"),
        other => panic!("expected an opened-file entry, got {:?}", other),
    }
}

#[test]
fn test_observer_window_gone_once() {
    let mut obs = WindowObserver::new();
    let _ = obs.process_window_title("ImHex - a.bin");
    let ev = obs.handle_no_imhex_window();
    assert!(matches!(ev, Some(AuditEvent::WindowGone)));
    // a second tick without a window logs nothing more
    let ev2 = obs.handle_no_imhex_window();
    assert!(ev2.is_none());
}

#[test]
fn test_check_window_exists_scan() {
    let mut obs = WindowObserver::new();
    let titles = vec![
        "Notepad - notes.txt".to_string(),
        "ImHex - report.bin".to_string(),
        "Other".to_string(),
    ];
    let (found, events) = obs.check_if_imhex_window_exists(&titles);
    assert_eq!(found, Some("report.bin".to_string()));
    assert_eq!(events.len(), 1);
    assert!(matches!(&events[0], AuditEvent::OpenedFile(m) if m == "report.bin"));
}

#[test]
fn test_check_window_exists_no_match() {
    let mut obs = WindowObserver::new();
    let titles = vec!["Notepad".to_string()];
    let (found, events) = obs.check_if_imhex_window_exists(&titles);
    assert_eq!(found, None);
    assert!(events.is_empty());
}

#[test]
fn test_check_window_exists_empty_file_counts_as_gone() {
    let mut obs = WindowObserver::new();
    // the title ends in the separator: the opened-file text is empty
    let titles = vec!["ImHex - ".to_string()];
    let (found, events) = obs.check_if_imhex_window_exists(&titles);
    assert_eq!(found, None);
    assert_eq!(events.len(), 2);
    assert!(matches!(&events[0], AuditEvent::OpenedFile(m) if m.is_empty()));
    assert!(matches!(events[1], AuditEvent::WindowGone));
}

#[test]
fn test_window_reappearance_logs_again() {
    let mut obs = WindowObserver::new();
    let (_, ev1) = obs.process_window_title("ImHex - a.bin");
    assert!(ev1.is_some());
    let _ = obs.handle_no_imhex_window();
    // after the window was gone, the same title logs again
    let (_, ev2) = obs.process_window_title("ImHex - a.bin");
    assert!(ev2.is_some());
}

#[test]
fn test_update_running_state_transitions() {
    let mut obs = WindowObserver::new();
    assert!(matches!(obs.update_running_state(true), Some(AuditEvent::ProcessRunning)));
    assert!(obs.update_running_state(true).is_none());
    assert!(matches!(obs.update_running_state(false), Some(AuditEvent::ProcessStopped)));
    assert!(obs.update_running_state(false).is_none());
}

#[test]
fn test_is_imhex_running_reads_listing() {
    let mut obs = WindowObserver::new();
    let listing = "Image Name    PID\nimhex-gui.exe    4242";
    let (running, ev) = obs.is_imhex_running(listing);
    assert!(running);
    assert!(matches!(ev, Some(AuditEvent::ProcessRunning)));
    let (running2, ev2) = obs.is_imhex_running("INFO: No tasks are running.");
    assert!(!running2);
    assert!(matches!(ev2, Some(AuditEvent::ProcessStopped)));
}
