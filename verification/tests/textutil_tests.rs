use sidecar_supervisor::textutil::{cap_chars, format_log_tail, log_read_failed_message, tail_lines};

#[test]
fn tail_keeps_last_lines() {
    assert_eq!(tail_lines("a\nb\nc\nd", 2), "c\nd");
    assert_eq!(tail_lines("a\nb\nc\nd\n", 2), "c\nd");
    assert_eq!(tail_lines("a\nb", 80), "a\nb");
    assert_eq!(tail_lines("", 80), "");
    assert_eq!(tail_lines("a\nb\nc", 0), "");
}

#[test]
fn cap_keeps_last_characters() {
    assert_eq!(cap_chars("abcdef", 4), "cdef");
    assert_eq!(cap_chars("abc", 4), "abc");
    assert_eq!(cap_chars("héllo", 2), "lo");
}

#[test]
fn log_tail_report_format() {
    let bytes = b"line1\nline2\nline3\n".to_vec();
    let r = format_log_tail("/var/log/b.log", &bytes, 2);
    assert_eq!(
        r,
        "Backend log: /var/log/b.log\n--- log tail ---\nline2\nline3\n----------------"
    );
}

#[test]
fn log_tail_report_short_log() {
    let bytes = b"only line".to_vec();
    let r = format_log_tail("/l", &bytes, 80);
    assert_eq!(r, "Backend log: /l\n--- log tail ---\nonly line\n----------------");
}

#[test]
fn log_tail_caps_characters() {
    // One long line far over the cap: the tail keeps only its last 4000
    // characters, trimmed from the front.
    let bytes = vec![b'x'; 5000];
    let r = format_log_tail("/l", &bytes, 80);
    let head = "Backend log: /l\n--- log tail ---\n";
    let foot = "\n----------------";
    assert!(r.starts_with(head));
    assert!(r.ends_with(foot));
    let tail = &r[head.len()..r.len() - foot.len()];
    assert_eq!(tail.len(), 4000);
    assert!(tail.bytes().all(|b| b == b'x'));
}

#[test]
fn log_tail_decodes_invalid_bytes() {
    let bytes = vec![b'o', b'k', 0xff];
    let r = format_log_tail("/l", &bytes, 80);
    assert_eq!(r, "Backend log: /l\n--- log tail ---\nok\u{FFFD}\n----------------");
}

#[test]
fn log_read_failure_report() {
    assert_eq!(
        log_read_failed_message("No such file or directory (os error 2)", "/l"),
        "Backend log read failed: No such file or directory (os error 2) (/l)"
    );
}
