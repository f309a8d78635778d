use eslint_migrate::diagnostics::Diagnostic;
use eslint_migrate::rule_conf::{decode_conf, decode_severity_conf, RuleConf};
use eslint_migrate::severity::Severity;
use eslint_migrate::typescript::{ArrayType, ArrayTypeOptions};
use eslint_migrate::value::Value;

fn obj(fields: Vec<(&str, Value)>) -> Value {
    Value::Object(
        fields
            .into_iter()
            .map(|(k, v)| (k.to_string(), v))
            .collect(),
    )
}

#[test]
fn bare_severity_decodes_directly() {
    let mut diags: Vec<Diagnostic> = Vec::new();
    let conf = decode_conf::<ArrayTypeOptions>(&Value::Num(2), &mut diags).unwrap();
    assert!(matches!(conf, RuleConf::Severity(Severity::Error)));
    let conf = decode_conf::<ArrayTypeOptions>(&Value::Str("warn".to_string()), &mut diags)
        .unwrap();
    assert!(matches!(conf, RuleConf::Severity(Severity::Warn)));
}

#[test]
fn missing_severity_fails_the_entry() {
    let mut diags: Vec<Diagnostic> = Vec::new();
    assert!(decode_conf::<ArrayTypeOptions>(&Value::Array(vec![]), &mut diags).is_none());
    assert!(!diags.is_empty());
    let bad = Value::Array(vec![Value::Bool(true), Value::Num(1)]);
    assert!(decode_conf::<ArrayTypeOptions>(&bad, &mut diags).is_none());
}

#[test]
fn severity_with_option_decodes() {
    let mut diags: Vec<Diagnostic> = Vec::new();
    let v = Value::Array(vec![
        Value::Str("error".to_string()),
        obj(vec![("default", Value::Str("generic".to_string()))]),
    ]);
    let conf = decode_conf::<ArrayTypeOptions>(&v, &mut diags).unwrap();
    match conf {
        RuleConf::Option(sev, opts) => {
            assert_eq!(sev, Severity::Error);
            assert_eq!(opts.default_type, ArrayType::Generic);
            assert_eq!(opts.readonly, None);
        }
        other => panic!("unexpected shape: {other:?}"),
    }
}

#[test]
fn malformed_option_recovers_to_severity() {
    let mut diags: Vec<Diagnostic> = Vec::new();
    let v = Value::Array(vec![Value::Num(2), Value::Num(5)]);
    let conf = decode_conf::<ArrayTypeOptions>(&v, &mut diags).unwrap();
    assert!(matches!(conf, RuleConf::Severity(Severity::Error)));
}

#[test]
fn malformed_trailing_element_recovers_to_option() {
    // The recovery law: [severity, validPrimary, garbage] keeps the decoded
    // prefix and never fails outright.
    let mut diags: Vec<Diagnostic> = Vec::new();
    let v = Value::Array(vec![
        Value::Num(1),
        obj(vec![("default", Value::Str("array-simple".to_string()))]),
        Value::Num(42),
    ]);
    let conf = decode_conf::<ArrayTypeOptions>(&v, &mut diags).unwrap();
    match conf {
        RuleConf::Option(sev, opts) => {
            assert_eq!(sev, Severity::Warn);
            assert_eq!(opts.default_type, ArrayType::ArraySimple);
        }
        other => panic!("unexpected shape: {other:?}"),
    }
}

#[test]
fn same_shaped_options_accumulate_into_spread() {
    let mut diags: Vec<Diagnostic> = Vec::new();
    let v = Value::Array(vec![
        Value::Num(2),
        obj(vec![("default", Value::Str("array".to_string()))]),
        obj(vec![("default", Value::Str("generic".to_string()))]),
        obj(vec![("default", Value::Str("array-simple".to_string()))]),
    ]);
    let conf = decode_conf::<ArrayTypeOptions>(&v, &mut diags).unwrap();
    match conf {
        RuleConf::Spread(sev, opts) => {
            assert_eq!(sev, Severity::Error);
            assert_eq!(opts.len(), 3);
            assert_eq!(opts[0].default_type, ArrayType::Array);
            assert_eq!(opts[1].default_type, ArrayType::Generic);
            assert_eq!(opts[2].default_type, ArrayType::ArraySimple);
        }
        other => panic!("unexpected shape: {other:?}"),
    }
}

#[test]
fn rules_without_options_stop_at_severity() {
    // The type-erasure check: a rule that declares no option type keeps the
    // severity and never touches the remaining elements.
    let mut diags: Vec<Diagnostic> = Vec::new();
    let v = Value::Array(vec![
        Value::Num(1),
        Value::Str("this is not decoded".to_string()),
        Value::Bool(false),
    ]);
    let before = diags.len();
    let sev = decode_severity_conf(&v, &mut diags).unwrap();
    assert_eq!(sev, Severity::Warn);
    assert_eq!(diags.len(), before);
}

#[test]
fn conf_accessors() {
    let conf: RuleConf<ArrayTypeOptions> = RuleConf::Option(
        Severity::Warn,
        ArrayTypeOptions { default_type: ArrayType::Generic, readonly: None },
    );
    assert_eq!(conf.severity(), Severity::Warn);
    let opts = conf.into_vec();
    assert_eq!(opts.len(), 1);
    assert_eq!(opts[0].default_type, ArrayType::Generic);
    let conf: RuleConf<ArrayTypeOptions> = RuleConf::Severity(Severity::Off);
    assert_eq!(conf.into_vec().len(), 0);
}
