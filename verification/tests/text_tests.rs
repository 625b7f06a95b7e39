use zero2prod::text::{eq_ignore_ascii_case, str_eq};

#[test]
fn str_eq_is_exact() {
    assert!(str_eq("database.port", "database.port"));
    assert!(!str_eq("database.port", "database.host"));
    assert!(!str_eq("abc", "abcd"));
    assert!(str_eq("", ""));
    assert!(!str_eq("Local", "local"));
}

#[test]
fn case_insensitive_equality_folds_ascii_letters_only() {
    assert!(eq_ignore_ascii_case("LOCAL", "local"));
    assert!(eq_ignore_ascii_case("Production", "pRoDuCtIoN"));
    assert!(eq_ignore_ascii_case("", ""));
    assert!(!eq_ignore_ascii_case("local", "loc"));
    assert!(!eq_ignore_ascii_case("local_", "local-"));
}
