use prisma_models::mysql::{
    contains, create_database_sql, drop_database_sql, mysql_safe_identifier, mysql_tags,
    valid_database_name, MysqlTags,
};
use prisma_models::string_utils::{
    TROUBLE_CHARS,
    enclose, enclose_all, escape_quotes, fmt_execute_raw, fmt_execute_raw_text, fmt_query_raw,
    fmt_query_raw_text, raw_param_to_json, RawParam,
};

#[test]
fn enclose_wraps_both_sides() {
    assert_eq!(enclose("abc", "'"), "'abc'");
    assert_eq!(enclose("", "\""), "\"\"");
}

#[test]
fn enclose_all_wraps_each_item() {
    assert_eq!(enclose_all(vec!["a", "bc"], "`"), vec!["`a`".to_string(), "`bc`".to_string()]);
    assert!(enclose_all(vec![], "x").is_empty());
}

#[test]
fn stringify_uses_display() {
    assert_eq!(prisma_models::string_utils::stringify(vec![1, -20, 300]), vec!["1", "-20", "300"]);
}

#[test]
fn quotes_are_escaped() {
    assert_eq!(escape_quotes("say \"hi\""), "say \\\"hi\\\"");
    assert_eq!(escape_quotes("plain"), "plain");
}

#[test]
fn query_raw_mutation_text() {
    assert_eq!(
        fmt_query_raw_text("SELECT \"a\"", "[1,\"x\"]"),
        "mutation { queryRaw(query: \"SELECT \\\"a\\\"\", parameters: \"[1,\\\"x\\\"]\") }"
    );
}

#[test]
fn execute_raw_mutation_text() {
    assert_eq!(
        fmt_execute_raw_text("DELETE FROM t", "[]"),
        "mutation { executeRaw(query: \"DELETE FROM t\", parameters: \"[]\") }"
    );
}

#[test]
fn short_identifiers_are_kept() {
    assert_eq!(mysql_safe_identifier("my_db"), "my_db");
    let s63 = "a".repeat(63);
    assert_eq!(mysql_safe_identifier(&s63), s63);
}

#[test]
fn long_identifiers_are_truncated() {
    let s64 = "b".repeat(64);
    assert_eq!(mysql_safe_identifier(&s64).len(), 63);
    let long = format!("{}{}", "c".repeat(63), "tail_that_goes_away");
    assert_eq!(mysql_safe_identifier(&long), "c".repeat(63));
}

#[test]
fn substring_search() {
    assert!(contains("8.0.23", "8."));
    assert!(contains("abc", ""));
    assert!(!contains("5.7", "5.6"));
    assert!(!contains("ab", "abc"));
}

#[test]
fn tags_from_mysql_metadata() {
    let t = mysql_tags(Some(1), Some("5.7.31-log"), None);
    assert_eq!(
        t,
        MysqlTags {
            mysql: true,
            lower_cases_table_names: true,
            mysql56: false,
            mysql57: true,
            mysql8: false,
            mariadb: false,
            vitess: false,
        }
    );
    let m = mysql_tags(Some(0), Some("10.5.8-MariaDB"), Some("0"));
    assert!(m.mariadb && !m.vitess && !m.lower_cases_table_names && !m.mysql8);
    let v = mysql_tags(None, Some("8.0.22"), Some("1"));
    assert!(v.mysql8 && v.vitess);
    let n = mysql_tags(Some(1), None, Some("1"));
    assert!(n.mysql && n.lower_cases_table_names && !n.vitess && !n.mysql56);
}

#[test]
fn database_statements() {
    assert_eq!(drop_database_sql("test_db"), "DROP DATABASE IF EXISTS `test_db`;");
    assert_eq!(create_database_sql("test_db"), "CREATE DATABASE `test_db`;");
}

#[test]
fn query_raw_serialises_parameters() {
    let params = vec![serde_json::Value::from(1), serde_json::Value::from("x"), serde_json::Value::Null];
    assert_eq!(
        fmt_query_raw("SELECT ?", params),
        "mutation { queryRaw(query: \"SELECT ?\", parameters: \"[1,\\\"x\\\",null]\") }"
    );
    assert_eq!(
        fmt_execute_raw("DELETE FROM t", vec![]),
        "mutation { executeRaw(query: \"DELETE FROM t\", parameters: \"[]\") }"
    );
}

#[test]
fn database_names_must_be_short_and_present() {
    assert!(valid_database_name("db"));
    assert!(!valid_database_name(""));
    assert!(valid_database_name(&"d".repeat(63)));
    assert!(!valid_database_name(&"d".repeat(64)));
}

#[test]
fn trouble_chars_survive_enclosing() {
    assert!(!TROUBLE_CHARS.is_ascii());
    let wrapped = enclose(TROUBLE_CHARS, "'");
    assert_eq!(wrapped.len(), TROUBLE_CHARS.len() + 2);
    assert_eq!(escape_quotes(TROUBLE_CHARS), TROUBLE_CHARS);
}

#[test]
fn execute_raw_tags_dates() {
    let params = vec![
        RawParam::DateTime("2020-01-02T03:04:05+00:00".to_string()),
        RawParam::Json(serde_json::Value::from(7)),
    ];
    assert_eq!(
        fmt_execute_raw("UPDATE t SET d = ?", params),
        "mutation { executeRaw(query: \"UPDATE t SET d = ?\", parameters: \"[{\\\"prisma__type\\\":\\\"date\\\",\\\"prisma__value\\\":\\\"2020-01-02T03:04:05+00:00\\\"},7]\") }"
    );
}

#[test]
fn date_parameter_object() {
    let v = raw_param_to_json(RawParam::DateTime("2021-06-01T00:00:00Z".to_string()));
    assert_eq!(v["prisma__type"], serde_json::Value::from("date"));
    assert_eq!(v["prisma__value"], serde_json::Value::from("2021-06-01T00:00:00Z"));
    assert_eq!(raw_param_to_json(RawParam::Json(serde_json::Value::Null)), serde_json::Value::Null);
}
