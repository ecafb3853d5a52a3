use xoon::catchup::{classify_catchup_output, CatchupStatus};

#[test]
fn behind_count_is_parsed() {
    let out = "fetching status\nvalidator is 3 slot(s) behind the tip\n";
    assert_eq!(classify_catchup_output(out), CatchupStatus::Behind(3));
}

#[test]
fn zero_slots_behind_means_caught_up() {
    let out = "0 slot(s) behind";
    assert_eq!(classify_catchup_output(out), CatchupStatus::CaughtUp);
}

#[test]
fn error_marker_wins_over_slot_information() {
    let out = "error: refused\n5 slot(s) behind";
    assert_eq!(classify_catchup_output(out), CatchupStatus::Unknown);
    let upper = "Error while connecting\n5 slot(s) behind";
    assert_eq!(classify_catchup_output(upper), CatchupStatus::Unknown);
}

#[test]
fn unrecognized_output_is_unknown() {
    assert_eq!(classify_catchup_output(""), CatchupStatus::Unknown);
    assert_eq!(classify_catchup_output("all good, no data"), CatchupStatus::Unknown);
}

#[test]
fn behind_line_without_a_numeric_token_is_unknown() {
    let out = "about N slot(s) behind";
    assert_eq!(classify_catchup_output(out), CatchupStatus::Unknown);
}

#[test]
fn first_line_with_the_marker_decides() {
    let out = "noise\n7 slot(s) behind\n1 slot(s) behind";
    assert_eq!(classify_catchup_output(out), CatchupStatus::Behind(7));
}

#[test]
fn first_numeric_token_in_the_line_decides() {
    let out = "node abc 12 slot(s) behind after 99 tries";
    assert_eq!(classify_catchup_output(out), CatchupStatus::Behind(12));
}

#[test]
fn a_count_too_large_for_the_slot_type_is_unknown() {
    let out = "99999999999999999999999999 slot(s) behind";
    assert_eq!(classify_catchup_output(out), CatchupStatus::Unknown);
}

#[test]
fn largest_representable_count_is_parsed() {
    let out = "18446744073709551615 slot(s) behind";
    assert_eq!(
        classify_catchup_output(out),
        CatchupStatus::Behind(u64::MAX)
    );
    let over = "18446744073709551616 slot(s) behind";
    assert_eq!(classify_catchup_output(over), CatchupStatus::Unknown);
}
