use query_logger::message::build_message;

#[test]
fn short_query_message_has_no_verbose_block() {
    let msg = build_message("SELECT 1", 0, 500);
    assert_eq!(msg, "SELECT 1; rows: 0, elapsed: 500.000ns");
    assert!(!msg.contains('\n'));
    assert!(!msg.contains('\u{2026}'));
}

#[test]
fn long_query_message_carries_ellipsis_and_pretty_text() {
    let sql = "SELECT * FROM users WHERE id = 1";
    let msg = build_message(sql, 3, 1_500_000_000);
    let pretty = sqlformat::format(
        sql,
        &sqlformat::QueryParams::None,
        sqlformat::FormatOptions::default(),
    );
    let expected = format!(
        "SELECT * FROM users \u{2026}; rows: 3, elapsed: 1.500s\n\n{}\n",
        pretty
    );
    assert_eq!(msg, expected);
    // The pretty-printer really reformatted the text: the verbose block is
    // not just the raw query again.
    assert_ne!(pretty, sql);
    assert!(pretty.contains('\n'));
}

#[test]
fn message_always_carries_the_row_count() {
    let msg = build_message("UPDATE t SET a = 1 WHERE b = 2", 41, 7);
    assert!(msg.contains("rows: 41"));
}

#[test]
fn oddly_spaced_short_query_counts_as_truncated() {
    // Two tokens only, but the doubled space means the summary differs from
    // the original text, which is the sole truncation signal.
    let msg = build_message("SELECT  1", 0, 10);
    assert!(msg.contains('\u{2026}'));
    assert!(msg.contains('\n'));
    assert!(msg.starts_with("SELECT 1 \u{2026}; rows: 0, elapsed: 10.000ns\n\n"));
}
