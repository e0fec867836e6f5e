use sidecar_supervisor::logstore::{empty_chunk, log_cursor, plan_chunk, read_chunk};

#[test]
fn cursor_zero_before_any_write() {
    // No log path yet: the cursor is zero; an empty file: zero too.
    assert_eq!(log_cursor(None), 0);
    assert_eq!(log_cursor(Some(0)), 0);
}

#[test]
fn cursor_never_moves_backwards() {
    // The log is append-only: its length only grows, and the cursor
    // follows it.
    let lengths = [0usize, 5, 5, 9, 140];
    let mut last = 0;
    for len in lengths {
        let c = log_cursor(Some(len));
        assert!(c >= last);
        last = c;
    }
}

#[test]
fn chunk_reads_whole_short_file() {
    let data = b"hello world".to_vec();
    let c = read_chunk(&data, 0, None);
    assert_eq!(c.next_offset, 11);
    assert_eq!(c.text, "hello world");
}

#[test]
fn chunk_offset_clamped_to_file() {
    let data = b"abc".to_vec();
    let c = read_chunk(&data, 100, None);
    assert_eq!(c.next_offset, 3);
    assert_eq!(c.text, "");
}

#[test]
fn chunk_budget_clamped_to_minimum() {
    // A budget below the floor is raised to it, so a short file is
    // never split smaller than necessary.
    let data = b"short".to_vec();
    let c = read_chunk(&data, 0, Some(1));
    assert_eq!(c.next_offset, 5);
    assert_eq!(c.text, "short");
}

#[test]
fn chunk_capped_by_budget() {
    let data = vec![b'a'; 3000];
    let c = read_chunk(&data, 0, Some(2048));
    assert_eq!(c.next_offset, 2048);
    assert_eq!(c.text.len(), 2048);
}

#[test]
fn chunk_plan_default_budget() {
    let p = plan_chunk(100_000, 10, None);
    assert_eq!(p.start, 10);
    assert_eq!(p.count, 65536);
    let p = plan_chunk(100_000, 10, Some(5_000_000));
    assert_eq!(p.count, 1_048_576.min(100_000 - 10));
}

#[test]
fn chunk_stream_reaches_end_and_stays() {
    // Streaming with each returned offset, against a file that stops
    // growing, walks the file without gaps or duplication and ends in a
    // stable empty chunk at the file length.
    let data: Vec<u8> = (0..3000u32).map(|i| b'a' + (i % 26) as u8).collect();
    let mut offset = 0usize;
    let mut gathered = String::new();
    let mut steps = 0;
    loop {
        let c = read_chunk(&data, offset, Some(1024));
        assert!(c.next_offset <= data.len());
        if c.text.is_empty() {
            assert_eq!(c.next_offset, offset);
            break;
        }
        assert!(c.next_offset > offset);
        gathered.push_str(&c.text);
        offset = c.next_offset;
        steps += 1;
        assert!(steps <= data.len());
    }
    assert_eq!(offset, data.len());
    assert_eq!(gathered.as_bytes(), &data[..]);
    let again = read_chunk(&data, offset, Some(1024));
    assert_eq!(again.next_offset, data.len());
    assert_eq!(again.text, "");
}

#[test]
fn chunk_decodes_with_replacement() {
    // Invalid bytes never fail a read: they decode to replacement
    // characters.
    let data = vec![0xff, b'a'];
    let c = read_chunk(&data, 0, None);
    assert_eq!(c.next_offset, 2);
    assert_eq!(c.text, "\u{FFFD}a");
}

#[test]
fn chunk_without_log_path() {
    let c = empty_chunk(17);
    assert_eq!(c.next_offset, 17);
    assert_eq!(c.text, "");
}
