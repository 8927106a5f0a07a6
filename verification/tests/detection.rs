use ci_group::Provider;

#[test]
fn detects_github() {
    assert_eq!(Provider::detect(Some("true"), None), Provider::GitHub);
    assert_eq!(Provider::detect(None, None), Provider::NoCi);
}

#[test]
fn detects_github_case_insensitive() {
    assert_eq!(Provider::detect(Some("TRUE"), None), Provider::GitHub);
    assert_eq!(Provider::detect(Some("True"), None), Provider::GitHub);
}

#[test]
fn rejects_non_true_values() {
    assert_eq!(Provider::detect(Some("false"), None), Provider::NoCi);
    assert_eq!(Provider::detect(Some(""), None), Provider::NoCi);
    assert_eq!(Provider::detect(Some("1"), None), Provider::NoCi);
}

#[test]
fn detects_azure() {
    assert_eq!(Provider::detect(None, Some("True")), Provider::Azure);
    assert_eq!(Provider::detect(None, None), Provider::NoCi);
}

#[test]
fn is_active_works() {
    assert!(Provider::GitHub.is_active());
    assert!(Provider::Azure.is_active());
    assert!(!Provider::NoCi.is_active());
}

#[test]
fn priority_prefers_github_when_both_set() {
    assert_eq!(Provider::detect(Some("true"), Some("true")), Provider::GitHub);
    assert_eq!(Provider::detect(Some("True"), Some("TRUE")), Provider::GitHub);
}

#[test]
fn non_true_value_treated_as_unset() {
    assert_eq!(Provider::detect(Some("yes"), None), Provider::NoCi);
    assert_eq!(Provider::detect(Some("yes"), Some("true")), Provider::Azure);
    assert_eq!(Provider::detect(Some("true "), None), Provider::NoCi);
    assert_eq!(Provider::detect(Some("truthy"), Some("TRUe")), Provider::Azure);
}
