use all_new_db_talks::error::PipelineError;
use all_new_db_talks::sanitize::{GeneratedSql, SqlSanitizer};

#[test]
fn clean_strips_fence_and_whitespace() {
    assert_eq!(SqlSanitizer::clean("```sql\nSELECT 1\n```"), "SELECT 1");
}

#[test]
fn clean_leaves_plain_statement_alone() {
    assert_eq!(SqlSanitizer::clean("SELECT * FROM users"), "SELECT * FROM users");
}

#[test]
fn clean_removes_every_marker() {
    assert_eq!(SqlSanitizer::clean("```sql```sqlSELECT```1``````"), "SELECT1");
    assert_eq!(SqlSanitizer::clean("a```b```c"), "abc");
}

#[test]
fn clean_is_case_sensitive_on_the_tag() {
    assert_eq!(SqlSanitizer::clean("```SQL\nSELECT 1\n```"), "SQL\nSELECT 1");
}

#[test]
fn clean_takes_tagged_opener_before_bare_marker() {
    // Two backticks, a tagged opener, one backtick: the opener goes first,
    // and what is left is one bare marker, which goes too.
    assert_eq!(SqlSanitizer::clean("`````sql`"), "");
    // Runs of backticks keep what does not fill a marker.
    assert_eq!(SqlSanitizer::clean("````x"), "`x");
    assert_eq!(SqlSanitizer::clean("`````x"), "``x");
    assert_eq!(SqlSanitizer::clean("``````x"), "x");
}

#[test]
fn clean_trims_unicode_white_space() {
    assert_eq!(SqlSanitizer::clean("\u{3000}\t SELECT 1 \u{a0}\r\n"), "SELECT 1");
    assert_eq!(SqlSanitizer::clean(" \n\t "), "");
}

#[test]
fn clean_keeps_inner_white_space() {
    assert_eq!(SqlSanitizer::clean("  SELECT  a,\n b  "), "SELECT  a,\n b");
}

#[test]
fn clean_is_idempotent_on_samples() {
    let samples = [
        "```sql\nSELECT 1\n```",
        "`````sql`",
        "  ```  x ``` ",
        "``` `` ```sql ` ```",
        "",
        "plain",
        "``sql```",
        "\u{2003}```sql SELECT '`' ```\u{2003}",
    ];
    for raw in samples {
        let once = SqlSanitizer::clean(raw);
        let twice = SqlSanitizer::clean(&once);
        assert_eq!(twice, once);
        assert!(!once.contains("```"));
        assert_eq!(once.trim(), once);
    }
}

#[test]
fn clean_agrees_with_replace_and_trim() {
    let samples = ["```sql\nSELECT 1\n```", "````sql", "a``` ```sqlb", " x ", "`` ` ``"];
    for raw in samples {
        let expected = raw.replace("```sql", "").replace("```", "").trim().to_string();
        assert_eq!(SqlSanitizer::clean(raw), expected);
    }
}

#[test]
fn generated_sql_keeps_both_forms() {
    let sql = GeneratedSql::from_raw("```sql\nSELECT 1\n```".to_string()).unwrap();
    assert_eq!(sql.raw_text(), "```sql\nSELECT 1\n```");
    assert_eq!(sql.sanitized(), "SELECT 1");
}

#[test]
fn generated_sql_refuses_empty_statement() {
    assert!(matches!(GeneratedSql::from_raw(String::new()), Err(PipelineError::Extraction)));
    assert!(matches!(
        GeneratedSql::from_raw("```sql\n\n```".to_string()),
        Err(PipelineError::Extraction)
    ));
    assert!(matches!(GeneratedSql::from_raw("  \n ".to_string()), Err(PipelineError::Extraction)));
}
