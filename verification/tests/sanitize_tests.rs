use xoon::sanitize::clean_log_message;

#[test]
fn color_codes_are_removed() {
    assert_eq!(clean_log_message("\u{1b}[31mRED\u{1b}[0m text"), "RED text");
}

#[test]
fn csi_sequences_with_any_letter_terminator_are_removed() {
    assert_eq!(clean_log_message("a\u{1b}[2Jb\u{1b}[10;20Hc"), "abc");
}

#[test]
fn clean_text_is_unchanged() {
    assert_eq!(clean_log_message("plain log line 42"), "plain log line 42");
    assert_eq!(clean_log_message(""), "");
}

#[test]
fn sanitize_is_idempotent_on_samples() {
    let samples = [
        "\u{1b}[31mRED\u{1b}[0m",
        "no escapes here",
        "\u{1b}[",
        "\u{1b}[12 tail",
        "\u{1b}\u{1b}[1mX",
        "mixed \u{1b}[1;32mgreen\u{1b}[m end",
    ];
    for s in samples {
        let once = clean_log_message(s);
        let twice = clean_log_message(&once);
        assert_eq!(once, twice);
    }
}

#[test]
fn sanitized_text_has_no_escape_character() {
    let samples = ["\u{1b}[31mRED", "\u{1b}", "\u{1b}[", "\u{1b}x", "a\u{1b}[12"];
    for s in samples {
        let once = clean_log_message(s);
        assert!(!once.contains('\u{1b}'));
    }
}

#[test]
fn stray_introducer_is_dropped() {
    assert_eq!(clean_log_message("a\u{1b}b"), "ab");
}

#[test]
fn unterminated_sequence_is_dropped_up_to_the_offending_character() {
    assert_eq!(clean_log_message("a\u{1b}[12 x"), "a x");
    assert_eq!(clean_log_message("a\u{1b}[12"), "a");
}
