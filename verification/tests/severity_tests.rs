use eslint_migrate::severity::Severity;
use eslint_migrate::value::Value;

#[test]
fn severity_from_numbers() {
    assert_eq!(Severity::from_number(0), Some(Severity::Off));
    assert_eq!(Severity::from_number(1), Some(Severity::Warn));
    assert_eq!(Severity::from_number(2), Some(Severity::Error));
    assert_eq!(Severity::from_number(3), None);
    assert_eq!(Severity::from_number(99), None);
}

#[test]
fn severity_from_keywords() {
    assert_eq!(Severity::from_keyword("off"), Some(Severity::Off));
    assert_eq!(Severity::from_keyword("warn"), Some(Severity::Warn));
    assert_eq!(Severity::from_keyword("error"), Some(Severity::Error));
    assert_eq!(Severity::from_keyword("fatal"), None);
    assert_eq!(Severity::from_keyword(""), None);
    assert_eq!(Severity::from_keyword("Off"), None);
}

#[test]
fn numeric_and_keyword_spellings_agree() {
    let cases = [(0u64, "off"), (1u64, "warn"), (2u64, "error")];
    for (n, s) in cases {
        assert_eq!(Severity::from_number(n), Severity::from_keyword(s));
    }
}

#[test]
fn severity_from_values() {
    assert_eq!(
        Severity::from_value(&Value::Num(1)),
        Some(Severity::Warn)
    );
    assert_eq!(
        Severity::from_value(&Value::Str("error".to_string())),
        Some(Severity::Error)
    );
    assert_eq!(Severity::from_value(&Value::Bool(true)), None);
    assert_eq!(Severity::from_value(&Value::Null), None);
    assert_eq!(Severity::from_value(&Value::Array(vec![])), None);
}
