use plaintext_sports::utils::{
    calculate_average, determine_winner, format_game_time, format_player_name, format_record,
    format_score, parse_iso8601_date, parse_record, truncate_string,
};

#[test]
fn test_parse_iso8601_date() {
    let result = parse_iso8601_date("2024-03-28T19:05:00Z");
    assert!(result.is_ok());

    let error = parse_iso8601_date("invalid-date");
    assert!(error.is_err());
}

#[test]
fn test_format_score() {
    assert_eq!(format_score(Some(5)), "5");
    assert_eq!(format_score(None), "-");
}

#[test]
fn test_truncate_string() {
    assert_eq!(truncate_string("short", 10), "short");
    assert_eq!(truncate_string("very long string", 10), "very lo...");
}

#[test]
fn test_format_record() {
    assert_eq!(format_record(42, 34), "42-34");
    assert_eq!(format_record(0, 0), "0-0");
}

#[test]
fn test_parse_record() {
    assert_eq!(parse_record("42-34"), Ok((42, 34)));
    assert!(parse_record("42-").is_err());
    assert!(parse_record("invalid").is_err());
}

#[test]
fn test_determine_winner() {
    assert_eq!(determine_winner(Some(5), Some(3)), Some(0));
    assert_eq!(determine_winner(Some(3), Some(5)), Some(1));
    assert_eq!(determine_winner(Some(4), Some(4)), None);
    assert_eq!(determine_winner(None, Some(5)), None);
    assert_eq!(determine_winner(Some(5), None), None);
}

#[test]
fn test_format_player_name() {
    assert_eq!(format_player_name("Mike", "Trout"), "TROUT, Mike");
    assert_eq!(format_player_name("", ""), ", ");
}

#[test]
fn test_format_game_time() {
    assert!(format_game_time("2024-03-14T19:05:00Z").is_ok());
    assert!(format_game_time("invalid").is_err());
    assert_eq!(format_game_time("2024-03-14T19:05:00Z").unwrap(), "07:05 PM");
    assert_eq!(format_game_time("2024-03-14T00:30:00Z").unwrap(), "12:30 AM");
    assert_eq!(format_game_time("2024-03-14T12:00:00Z").unwrap(), "12:00 PM");
}

#[test]
fn test_calculate_average() {
    // hits=100 over at_bats=300 formats to ".333"; with no at-bat there is
    // no average, not a division by zero.
    assert_eq!(calculate_average(100, 300), Some(".333".to_string()));
    assert_eq!(calculate_average(0, 10), Some(".000".to_string()));
    assert_eq!(calculate_average(5, 0), None);
    assert_eq!(calculate_average(10, 10), Some(".1000".to_string()));
}

#[test]
fn test_date_validity() {
    assert!(parse_iso8601_date("1900-01-01T00:00:00Z").is_ok());
    assert!(parse_iso8601_date("2099-12-31T23:59:59Z").is_ok());
    assert!(parse_iso8601_date("2024-02-29T00:00:00Z").is_ok());
    assert!(parse_iso8601_date("2024-02-30T00:00:00Z").is_err());
    assert!(parse_iso8601_date("2023-02-29T00:00:00Z").is_err());
    assert!(parse_iso8601_date("2024-13-01T00:00:00Z").is_err());
    assert!(parse_iso8601_date("2024-01-01T24:00:00Z").is_err());
}
