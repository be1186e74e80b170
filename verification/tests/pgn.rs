use liglicko2::pgn::TagReader;
use liglicko2::text::strip_prefix_suffix;

fn rows(lines: &[&str]) -> Vec<String> {
    let mut reader = TagReader::new();
    lines.iter().filter_map(|line| reader.feed(line)).collect()
}

#[test]
fn strip_takes_both_ends() {
    assert_eq!(strip_prefix_suffix("[White \"Anna\"]", "[White \"", "\"]"), Some("Anna"));
    assert_eq!(strip_prefix_suffix("[White \"\"]", "[White \"", "\"]"), Some(""));
    assert_eq!(strip_prefix_suffix("abc", "", ""), Some("abc"));
    assert_eq!(strip_prefix_suffix("abc", "abc", ""), Some(""));
    assert_eq!(strip_prefix_suffix("abc", "", "abc"), Some(""));
    assert_eq!(strip_prefix_suffix("çé→ü", "ç", "ü"), Some("é→"));
}

#[test]
fn strip_needs_both_ends_apart() {
    assert_eq!(strip_prefix_suffix("[White \"]", "[White \"", "\"]"), None);
    assert_eq!(strip_prefix_suffix("aba", "ab", "ba"), None);
    assert_eq!(strip_prefix_suffix("abba", "ab", "ba"), Some(""));
    assert_eq!(strip_prefix_suffix("[White \"Anna\"] ", "[White \"", "\"]"), None);
    assert_eq!(strip_prefix_suffix(" [White \"Anna\"]", "[White \"", "\"]"), None);
    assert_eq!(strip_prefix_suffix("", "a", ""), None);
    assert_eq!(strip_prefix_suffix("", "", "a"), None);
    assert_eq!(strip_prefix_suffix("", "", ""), Some(""));
}

#[test]
fn a_game_becomes_one_line() {
    let written = rows(&[
        "[Event \"Rated Blitz game\"]\n",
        "[White \"Anna\"]\n",
        "[Black \"BORIS\"]\n",
        "[Result \"1-0\"]\n",
        "[UTCDate \"2013.01.02\"]\n",
        "[UTCTime \"12:34:56\"]\n",
        "[TimeControl \"300+3\"]\n",
        "\n",
        "1. e4 e5 1-0\n",
        "\n",
    ]);
    assert_eq!(written, ["anna,boris,1-0,2013-01-02 12:34:56,300+3"]);
}

#[test]
fn lines_may_come_without_line_feed() {
    let written = rows(&["[White \"a\"]", "[Black \"b\"]", ""]);
    assert_eq!(written, ["a,b,,1970-01-01 00:00:00,"]);
}

#[test]
fn only_one_line_feed_is_taken() {
    let written = rows(&["[White \"a\"]\n", "\n\n", "[Black \"b\"]\n", "\n"]);
    assert_eq!(written, ["a,b,,1970-01-01 00:00:00,"]);
    let written = rows(&["[White \"a\"]\r\n", "\n"]);
    assert!(written.is_empty());
}

#[test]
fn a_game_without_white_is_not_written() {
    let written = rows(&["[Black \"b\"]\n", "[Result \"0-1\"]\n", "\n"]);
    assert!(written.is_empty());
    let written = rows(&["[White \"\"]\n", "[Black \"b\"]\n", "\n"]);
    assert!(written.is_empty());
}

#[test]
fn an_empty_line_forgets_the_game() {
    let written = rows(&[
        "[White \"a\"]\n",
        "[Black \"b\"]\n",
        "[Result \"1/2-1/2\"]\n",
        "[UTCDate \"2020.02.29\"]\n",
        "[UTCTime \"01:02:03\"]\n",
        "[TimeControl \"-\"]\n",
        "\n",
        "\n",
        "[White \"c\"]\n",
        "\n",
    ]);
    assert_eq!(written, ["a,b,1/2-1/2,2020-02-29 01:02:03,-", "c,,,1970-01-01 00:00:00,"]);
}

#[test]
fn a_later_tag_replaces_an_earlier_one() {
    let written = rows(&["[White \"a\"]\n", "[White \"Z\"]\n", "[Result \"*\"]\n", "[Result \"0-1\"]\n", "\n"]);
    assert_eq!(written, ["z,,0-1,1970-01-01 00:00:00,"]);
}

#[test]
fn only_ascii_letters_of_a_name_are_lowered() {
    let written = rows(&["[White \"ÄNNA Z\"]\n", "[Black \"Éric_99\"]\n", "\n"]);
    assert_eq!(written, ["Änna z,Éric_99,,1970-01-01 00:00:00,"]);
}

#[test]
fn result_and_time_control_are_taken_as_written() {
    let written = rows(&["[White \"a\"]\n", "[Result \"Won, Lost\"]\n", "[TimeControl \"FAST\"]\n", "\n"]);
    assert_eq!(written, ["a,,Won, Lost,1970-01-01 00:00:00,FAST"]);
}

#[test]
fn a_date_that_cannot_be_read_is_the_start_of_1970() {
    let written = rows(&["[White \"a\"]\n", "[UTCDate \"2013.01.02\"]\n", "[UTCDate \"2013-01-02\"]\n", "\n"]);
    assert_eq!(written, ["a,,,1970-01-01 00:00:00,"]);
    let written = rows(&["[White \"a\"]\n", "[UTCDate \"2013.02.30\"]\n", "\n"]);
    assert_eq!(written, ["a,,,1970-01-01 00:00:00,"]);
    let written = rows(&["[White \"a\"]\n", "[UTCDate \"2013.1.2\"]\n", "\n"]);
    assert_eq!(written, ["a,,,2013-01-02 00:00:00,"]);
}

#[test]
fn a_time_that_cannot_be_read_is_midnight() {
    let written = rows(&["[White \"a\"]\n", "[UTCTime \"12:34:56\"]\n", "[UTCTime \"noon\"]\n", "\n"]);
    assert_eq!(written, ["a,,,1970-01-01 00:00:00,"]);
    let written = rows(&["[White \"a\"]\n", "[UTCTime \"25:00:00\"]\n", "\n"]);
    assert_eq!(written, ["a,,,1970-01-01 00:00:00,"]);
}

#[test]
fn a_time_is_written_as_the_calendar_displays_it() {
    let written = rows(&["[White \"a\"]\n", "[UTCTime \"12:34\"]\n", "\n"]);
    assert_eq!(written, ["a,,,1970-01-01 12:34:00,"]);
    let written = rows(&["[White \"a\"]\n", "[UTCTime \"1:2:3.5\"]\n", "\n"]);
    assert_eq!(written, ["a,,,1970-01-01 01:02:03.500,"]);
}

#[test]
fn other_lines_change_nothing() {
    let written = rows(&[
        "[White \"a\"]\n",
        "[white \"b\"]\n",
        "[White \"c\"\n",
        " [White \"d\"]\n",
        "[WhiteElo \"1500\"]\n",
        "[UTCDate 2013.01.02]\n",
        "1. e4 e5\n",
        "\n",
    ]);
    assert_eq!(written, ["a,,,1970-01-01 00:00:00,"]);
}

#[test]
fn a_game_that_is_not_closed_is_not_written() {
    let written = rows(&["[White \"a\"]\n", "[Black \"b\"]\n"]);
    assert!(written.is_empty());
}
