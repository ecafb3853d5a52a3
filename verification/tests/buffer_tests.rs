use xoon::log_buffer::LogBuffer;

fn line(i: usize) -> String {
    format!("line {}", i)
}

#[test]
fn stays_within_capacity() {
    let mut buf = LogBuffer::with_capacity(3);
    for i in 0..50 {
        buf.push_line(line(i));
        assert!(buf.len() <= 3);
    }
}

#[test]
fn keeps_the_last_entries_in_order() {
    let capacity = 3;
    let total = 8;
    let mut buf = LogBuffer::with_capacity(capacity);
    for i in 0..total {
        buf.push_line(line(i));
    }
    assert_eq!(buf.len(), capacity);
    for k in 0..capacity {
        assert_eq!(buf.line_at(k), &line(total - capacity + k));
    }
}

#[test]
fn fewer_entries_than_capacity_all_stay() {
    let mut buf = LogBuffer::new();
    buf.push_line("a".to_string());
    buf.push_line("b".to_string());
    assert_eq!(buf.len(), 2);
    assert_eq!(buf.line_at(0), "a");
    assert_eq!(buf.line_at(1), "b");
}

#[test]
fn default_capacity_is_one_hundred() {
    let mut buf = LogBuffer::new();
    for i in 0..250 {
        buf.push_line(line(i));
    }
    assert_eq!(buf.len(), 100);
    assert_eq!(buf.line_at(0), &line(150));
    assert_eq!(buf.line_at(99), &line(249));
}

#[test]
fn batch_is_sanitized_and_split_into_lines() {
    let mut buf = LogBuffer::with_capacity(10);
    buf.append_batch("\u{1b}[32mok\u{1b}[0m\nsecond\r\nthird");
    assert_eq!(buf.len(), 3);
    assert_eq!(buf.line_at(0), "ok");
    assert_eq!(buf.line_at(1), "second");
    assert_eq!(buf.line_at(2), "third");
}

#[test]
fn batch_eviction_keeps_newest_lines() {
    let mut buf = LogBuffer::with_capacity(2);
    buf.append_batch("one\ntwo\nthree\nfour");
    assert_eq!(buf.len(), 2);
    assert_eq!(buf.line_at(0), "three");
    assert_eq!(buf.line_at(1), "four");
}

#[test]
fn rendered_joins_lines_with_newlines() {
    let mut buf = LogBuffer::with_capacity(5);
    assert_eq!(buf.rendered(), "");
    buf.push_line("a".to_string());
    assert_eq!(buf.rendered(), "a");
    buf.push_line("b".to_string());
    buf.push_line("c".to_string());
    assert_eq!(buf.rendered(), "a\nb\nc");
}
