use query_logger::summary::parse_query_summary;

#[test]
fn short_query_is_its_own_summary() {
    assert_eq!(parse_query_summary("SELECT 1"), "SELECT 1");
}

#[test]
fn four_token_query_is_kept_whole() {
    assert_eq!(parse_query_summary("SELECT * FROM users"), "SELECT * FROM users");
}

#[test]
fn long_query_is_cut_to_four_tokens() {
    assert_eq!(
        parse_query_summary("SELECT * FROM users WHERE id = 1"),
        "SELECT * FROM users"
    );
}

#[test]
fn five_tokens_lose_the_fifth() {
    assert_eq!(parse_query_summary("a b c d e"), "a b c d");
}

#[test]
fn empty_query_has_empty_summary() {
    assert_eq!(parse_query_summary(""), "");
}

#[test]
fn all_whitespace_query_has_empty_summary() {
    assert_eq!(parse_query_summary(" \t\r\n "), "");
}

#[test]
fn runs_of_whitespace_collapse_to_single_spaces() {
    assert_eq!(parse_query_summary("  SELECT\t\tname\n FROM  t  "), "SELECT name FROM t");
}

#[test]
fn unicode_whitespace_separates_tokens() {
    assert_eq!(parse_query_summary("a\u{3000}b\u{2003}c"), "a b c");
    assert_eq!(parse_query_summary("x\u{00A0}y"), "x y");
}

#[test]
fn non_whitespace_unicode_stays_in_a_token() {
    assert_eq!(parse_query_summary("s\u{00E9}lection de donn\u{00E9}es ici l\u{00E0}"), "s\u{00E9}lection de donn\u{00E9}es ici");
}
