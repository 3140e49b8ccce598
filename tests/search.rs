use qw::{matches_all, render, search, split_lines, Config, Query, SearchMode};

const POEM: &str = "Rust:\nsafe, fast, productive.\nPick three.\nTrust me.";

fn q(s: &str) -> Query {
    Query::new(s).unwrap()
}

fn run(queries: &[&str], mode: SearchMode, text: &str) -> Vec<String> {
    let qs: Vec<Query> = queries.iter().map(|s| q(s)).collect();
    search(Config::new(qs, mode), text)
}

#[test]
fn smart_lowercase_seed_is_insensitive() {
    assert_eq!(SearchMode::smart("hello"), SearchMode::CaseInsensitive);
}

#[test]
fn smart_capital_seed_is_sensitive() {
    assert_eq!(SearchMode::smart("Hello"), SearchMode::CaseSensitive);
}

#[test]
fn smart_empty_seed_is_insensitive() {
    assert_eq!(SearchMode::smart(""), SearchMode::CaseInsensitive);
}

#[test]
fn smart_digits_and_punctuation_are_insensitive() {
    assert_eq!(SearchMode::smart("42, ok!"), SearchMode::CaseInsensitive);
}

#[test]
fn smart_non_ascii_uppercase_is_sensitive() {
    assert_eq!(SearchMode::smart("straße Ä"), SearchMode::CaseSensitive);
}

#[test]
fn case_insensitive_single_query() {
    assert_eq!(
        run(&["rUsT"], SearchMode::CaseInsensitive, POEM),
        vec!["Rust:", "Trust me."]
    );
}

#[test]
fn case_insensitive_two_queries_conjoin() {
    assert_eq!(
        run(&["us", "me"], SearchMode::CaseInsensitive, POEM),
        vec!["Trust me."]
    );
}

#[test]
fn case_sensitive_single_query() {
    assert_eq!(run(&["duct"], SearchMode::CaseSensitive, POEM), vec!["safe, fast, productive."]);
    assert_eq!(run(&["rUsT"], SearchMode::CaseSensitive, POEM), Vec::<String>::new());
    assert_eq!(run(&["Rust"], SearchMode::CaseSensitive, POEM), vec!["Rust:"]);
}

#[test]
fn no_queries_keep_every_line() {
    let all = vec!["Rust:", "safe, fast, productive.", "Pick three.", "Trust me."];
    assert_eq!(run(&[], SearchMode::CaseSensitive, POEM), all);
    assert_eq!(run(&[], SearchMode::CaseInsensitive, POEM), all);
}

#[test]
fn two_queries_never_disjoin() {
    assert_eq!(run(&["Pick", "Trust"], SearchMode::CaseSensitive, POEM), Vec::<String>::new());
    assert_eq!(run(&["a", "."], SearchMode::CaseSensitive, POEM), vec!["safe, fast, productive."]);
}

#[test]
fn insensitive_result_keeps_original_casing() {
    let r = run(&["TRUST"], SearchMode::CaseInsensitive, "TrUsT me\nnothing");
    assert_eq!(r, vec!["TrUsT me"]);
}

#[test]
fn search_is_repeatable() {
    let a = run(&["us", "me"], SearchMode::CaseInsensitive, POEM);
    let b = run(&["us", "me"], SearchMode::CaseInsensitive, POEM);
    assert_eq!(a, b);
}

#[test]
fn empty_text_has_no_lines() {
    assert_eq!(run(&[], SearchMode::CaseSensitive, ""), Vec::<String>::new());
    assert_eq!(run(&[""], SearchMode::CaseInsensitive, ""), Vec::<String>::new());
}

#[test]
fn empty_query_matches_every_line() {
    assert_eq!(run(&[""], SearchMode::CaseSensitive, "a\n\nb"), vec!["a", "", "b"]);
}

#[test]
fn whitespace_line_uses_containment() {
    assert_eq!(run(&[" "], SearchMode::CaseSensitive, "   \nx\n"), vec!["   "]);
    assert_eq!(run(&["y"], SearchMode::CaseSensitive, "   \nx\n"), Vec::<String>::new());
}

#[test]
fn case_invariant_queries_agree_across_modes() {
    let text = "a1b2\nA1B2\n3,4";
    assert_eq!(
        run(&["1"], SearchMode::CaseSensitive, text),
        run(&["1"], SearchMode::CaseInsensitive, text)
    );
    assert_eq!(run(&[","], SearchMode::CaseInsensitive, text), vec!["3,4"]);
}

#[test]
fn lines_follow_line_endings() {
    assert_eq!(split_lines("a\r\nb\n\nc\n"), vec!["a", "b", "", "c"]);
    assert_eq!(split_lines("\n"), vec![""]);
    assert_eq!(split_lines("x\r"), vec!["x\r"]);
    assert_eq!(split_lines(""), Vec::<String>::new());
}

#[test]
fn query_new_keeps_text() {
    assert_eq!(Query::new("abc"), Ok(Query::String("abc".to_string())));
}

#[test]
fn query_matches_substring() {
    assert!(q("ick").matches("Pick three."));
    assert!(!q("ick").matches("Pi ck"));
    assert!(q("").matches(""));
}

#[test]
fn query_to_lowercase_lowers_text() {
    assert_eq!(q("RuSt Ä").to_lowercase(), q("rust ä"));
}

#[test]
fn matches_all_needs_every_query() {
    let qs = vec![q("a"), q("b")];
    assert!(matches_all(&qs, "cab"));
    assert!(!matches_all(&qs, "ca"));
    assert!(matches_all(&Vec::new(), "anything"));
}

#[test]
fn render_ends_each_line_with_newline() {
    let lines = vec!["Rust:".to_string(), "Trust me.".to_string()];
    assert_eq!(render(&lines), "Rust:\nTrust me.\n");
    assert_eq!(render(&Vec::new()), "");
}
