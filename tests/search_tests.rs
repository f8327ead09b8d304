use minigrep::config::{Config, ConfigError};
use minigrep::search::{search, search_case_insensitive, search_with_config};
use minigrep::text::{char_vec, contains};

fn args_of(items: &[&str]) -> Vec<String> {
    items.iter().map(|s| String::from(*s)).collect()
}

#[test]
fn test_config_args_bad() {
    let args = vec![String::from("main"), String::from("foo")];
    let config = Config::new(&args, true);
    assert_eq!(config.is_err(), true);
    assert_eq!(config.unwrap_err().message(), "Not enough arguments");
}

#[test]
fn test_config_args_good() {
    let args = vec![String::from("main"), String::from("foo"), String::from("bla")];
    let config = Config::new(&args, true);
    assert_eq!(config.is_ok(), true);
}

#[test]
fn case_sensitive() {
    let query = "duct";
    let contents = "\
Rust:
fast, safe, productive
pick three.
Duck tape.";
    assert_eq!(vec!["fast, safe, productive"], search(query, contents));
}

#[test]
fn case_insensitive() {
    let query = "rUsT";
    let contents = "\
Rust:
safe, fast, productive.
Pick tree.
Trust Me.";

    assert_eq!(vec!["Rust:", "Trust Me."], search_case_insensitive(query, contents));
}

#[test]
fn config_rejects_short_argument_lists() {
    for n in 0..3 {
        let all = args_of(&["main", "q", "f"]);
        let config = Config::new(&all[..n], false);
        assert_eq!(config.unwrap_err(), ConfigError::InvalidArguments);
    }
}

#[test]
fn config_takes_query_then_filename() {
    let args = args_of(&["main", "needle", "hay.txt", "extra"]);
    let config = Config::new(&args, false).unwrap();
    assert_eq!(config.query, "needle");
    assert_eq!(config.filename, "hay.txt");
    assert_eq!(config.case_sensitive, false);
    let config = Config::new(&args, true).unwrap();
    assert_eq!(config.case_sensitive, true);
}

#[test]
fn search_keeps_order_and_each_line_once() {
    let contents = "ab ab\nnone\nab\n";
    assert_eq!(vec!["ab ab", "ab"], search("ab", contents));
}

#[test]
fn search_keeps_equal_lines_separately() {
    let contents = "same\nsame\nother";
    assert_eq!(vec!["same", "same"], search("same", contents));
}

#[test]
fn search_without_match_is_empty() {
    let contents = "one\ntwo\nthree";
    assert!(search("four", contents).is_empty());
    assert!(search_case_insensitive("FOUR", contents).is_empty());
}

#[test]
fn search_twice_gives_same_lines() {
    let contents = "Rust:\nsafe, fast, productive.\nTrust Me.";
    assert_eq!(search("st", contents), search("st", contents));
    assert_eq!(
        search_case_insensitive("RUST", contents),
        search_case_insensitive("RUST", contents)
    );
}

#[test]
fn empty_content_has_no_matches() {
    assert!(search("x", "").is_empty());
    assert!(search("", "").is_empty());
    assert!(search_case_insensitive("X", "").is_empty());
    assert!(search_case_insensitive("", "").is_empty());
}

#[test]
fn empty_query_matches_every_line() {
    let contents = "a\n\nB c\nd";
    assert_eq!(vec!["a", "", "B c", "d"], search("", contents));
    assert_eq!(vec!["a", "", "B c", "d"], search_case_insensitive("", contents));
}

#[test]
fn lines_end_at_newline_and_crlf() {
    let contents = "alpha\r\nbeta\ngamma\r";
    assert_eq!(vec!["alpha", "beta", "gamma\r"], search("", contents));
    assert_eq!(vec!["gamma\r"], search("a\r", contents));
    assert!(search("a\r", "alpha\r\n").is_empty());
}

#[test]
fn final_newline_opens_no_line() {
    assert_eq!(vec!["x"], search("", "x\n"));
    assert_eq!(vec![""], search("", "\n"));
}

#[test]
fn case_insensitive_returns_original_casing() {
    let contents = "ÉCOLE\nhello WORLD\nnothing";
    assert_eq!(vec!["hello WORLD"], search_case_insensitive("world", contents));
    assert_eq!(vec!["ÉCOLE"], search_case_insensitive("école", contents));
    assert!(search("world", contents).is_empty());
}

#[test]
fn config_selects_the_search() {
    let contents = "Rust:\nTrust Me.\nrusty";
    let args = args_of(&["main", "Rust", "f"]);
    let exact = Config::new(&args, true).unwrap();
    assert_eq!(vec!["Rust:"], search_with_config(&exact, contents));
    let folded = Config::new(&args, false).unwrap();
    assert_eq!(vec!["Rust:", "Trust Me.", "rusty"], search_with_config(&folded, contents));
}

#[test]
fn contains_finds_runs_of_characters() {
    assert!(contains("Duck tape.", "k t"));
    assert!(contains("abc", "abc"));
    assert!(contains("abc", ""));
    assert!(contains("", ""));
    assert!(!contains("", "a"));
    assert!(!contains("ab", "abc"));
    assert!(!contains("Duck tape.", "duct"));
    assert!(contains("aaab", "aab"));
    assert!(contains("naïve café", "ï"));
}

#[test]
fn char_vec_lists_characters() {
    assert_eq!(vec!['h', 'é', '!'], char_vec("hé!"));
    assert!(char_vec("").is_empty());
}

#[test]
fn error_message_is_fixed() {
    assert_eq!(ConfigError::InvalidArguments.message(), "Not enough arguments");
}
