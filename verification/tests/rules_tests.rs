use eslint_migrate::diagnostics::Diagnostic;
use eslint_migrate::rule_conf::RuleConf;
use eslint_migrate::rules::{NoRestrictedGlobal, Rule, Rules};
use eslint_migrate::severity::Severity;
use eslint_migrate::value::Value;

fn obj(fields: Vec<(&str, Value)>) -> Value {
    Value::Object(
        fields
            .into_iter()
            .map(|(k, v)| (k.to_string(), v))
            .collect(),
    )
}

fn sample_rules() -> Rules {
    let mut rules = Rules::new();
    rules.insert(Rule::new("eqeqeq", Severity::Warn));
    rules.insert(Rule::new("no-var", Severity::Error));
    rules.insert(Rule::new("no-restricted-globals", Severity::Error));
    rules
}

#[test]
fn merge_with_itself_is_identity() {
    // Idempotence of rule merge: merging a rule set with itself yields an
    // identical set.
    let mut merged = sample_rules();
    merged.merge_with(sample_rules());
    let expected = sample_rules();
    assert_eq!(merged.len(), expected.len());
    for i in 0..merged.map.entries.len() {
        assert_eq!(merged.map.entries[i].0, expected.map.entries[i].0);
        assert_eq!(merged.map.entries[i].1, expected.map.entries[i].1);
    }
}

#[test]
fn insert_replaces_same_name_in_place() {
    let mut rules = Rules::new();
    rules.insert(Rule::new("eqeqeq", Severity::Warn));
    rules.insert(Rule::new("no-var", Severity::Warn));
    rules.insert(Rule::new("eqeqeq", Severity::Off));
    assert_eq!(rules.len(), 2);
    assert_eq!(rules.get("eqeqeq").unwrap().severity(), Severity::Off);
    // replacement keeps the original position
    assert_eq!(rules.map.entries[0].0, "eqeqeq");
    assert_eq!(rules.map.entries[1].0, "no-var");
}

#[test]
fn merge_later_entries_win() {
    let mut base = Rules::new();
    base.insert(Rule::new("eqeqeq", Severity::Error));
    base.insert(Rule::new("no-eval", Severity::Error));
    let mut incoming = Rules::new();
    incoming.insert(Rule::new("eqeqeq", Severity::Off));
    base.merge_with(incoming);
    assert_eq!(base.get("eqeqeq").unwrap().severity(), Severity::Off);
    assert_eq!(base.get("no-eval").unwrap().severity(), Severity::Error);
}

#[test]
fn rule_new_specializes_known_names() {
    assert!(matches!(
        Rule::new("no-restricted-globals", Severity::Warn),
        Rule::NoRestrictedGlobals(RuleConf::Severity(Severity::Warn))
    ));
    assert!(matches!(
        Rule::new("unicorn/filename-case", Severity::Error),
        Rule::UnicornFilenameCase(RuleConf::Severity(Severity::Error))
    ));
    assert!(matches!(
        Rule::new("eqeqeq", Severity::Error),
        Rule::Any(_, Severity::Error)
    ));
}

#[test]
fn rule_name_inverts_rule_new() {
    for name in [
        "no-restricted-globals",
        "jsx-a11y/aria-role",
        "@typescript-eslint/array-type",
        "@typescript-eslint/naming-convention",
        "unicorn/filename-case",
        "some/unknown-rule",
    ] {
        assert_eq!(Rule::new(name, Severity::Warn).name(), name);
    }
}

#[test]
fn rules_map_decodes_by_name() {
    let mut diags: Vec<Diagnostic> = Vec::new();
    let v = obj(vec![
        ("eqeqeq", Value::Str("warn".to_string())),
        ("no-eval", Value::Num(1)),
        (
            "no-restricted-globals",
            Value::Array(vec![
                Value::Str("error".to_string()),
                Value::Str("event".to_string()),
            ]),
        ),
    ]);
    let rules = Rules::deserialize(&v, &mut diags).unwrap();
    assert_eq!(rules.len(), 3);
    assert_eq!(rules.get("eqeqeq").unwrap().severity(), Severity::Warn);
    assert_eq!(rules.get("no-eval").unwrap().severity(), Severity::Warn);
    match rules.get("no-restricted-globals").unwrap() {
        Rule::NoRestrictedGlobals(RuleConf::Option(sev, global)) => {
            assert_eq!(*sev, Severity::Error);
            assert!(matches!(global, NoRestrictedGlobal::Plain(name) if name == "event"));
        }
        other => panic!("unexpected rule: {other:?}"),
    }
}

#[test]
fn malformed_rule_entry_is_dropped_with_diagnostic() {
    let mut diags: Vec<Diagnostic> = Vec::new();
    let v = obj(vec![
        ("eqeqeq", Value::Str("warn".to_string())),
        ("no-eval", Value::Bool(true)),
    ]);
    let rules = Rules::deserialize(&v, &mut diags).unwrap();
    assert_eq!(rules.len(), 1);
    assert!(rules.get("no-eval").is_none());
    assert!(!diags.is_empty());
}

#[test]
fn restricted_globals_spread_and_messages() {
    let mut diags: Vec<Diagnostic> = Vec::new();
    let v = obj(vec![(
        "no-restricted-globals",
        Value::Array(vec![
            Value::Str("error".to_string()),
            Value::Str("event".to_string()),
            obj(vec![
                ("name", Value::Str("fdescribe".to_string())),
                ("message", Value::Str("use describe".to_string())),
            ]),
            Value::Str("length".to_string()),
        ]),
    )]);
    let rules = Rules::deserialize(&v, &mut diags).unwrap();
    match rules.get("no-restricted-globals").unwrap() {
        Rule::NoRestrictedGlobals(RuleConf::Spread(sev, globals)) => {
            assert_eq!(*sev, Severity::Error);
            let names: Vec<String> =
                globals.iter().map(|g| g.clone().into_name()).collect();
            assert_eq!(names, vec!["event", "fdescribe", "length"]);
        }
        other => panic!("unexpected rule: {other:?}"),
    }
}

#[test]
fn rules_map_must_be_an_object() {
    let mut diags: Vec<Diagnostic> = Vec::new();
    assert!(Rules::deserialize(&Value::Num(1), &mut diags).is_none());
    assert!(!diags.is_empty());
}

#[test]
fn unknown_rule_names_are_never_diagnosed() {
    // an unrecognized rule name is unknown-but-valid: it decodes in
    // silence, with any options discarded
    let mut diags: Vec<Diagnostic> = Vec::new();
    let v = obj(vec![
        ("some-plugin/not-modeled", Value::Str("warn".to_string())),
        (
            "another-unknown-rule",
            Value::Array(vec![
                Value::Num(2),
                Value::Str("an option this rule does not model".to_string()),
            ]),
        ),
    ]);
    let rules = Rules::deserialize(&v, &mut diags).unwrap();
    assert_eq!(rules.len(), 2);
    assert!(diags.is_empty());
}

#[test]
fn malformed_rule_entry_records_exactly_one_diagnostic() {
    let mut diags: Vec<Diagnostic> = Vec::new();
    let v = obj(vec![
        ("eqeqeq", Value::Str("warn".to_string())),
        ("no-eval", Value::Bool(true)),
        ("no-var", Value::Num(0)),
    ]);
    let rules = Rules::deserialize(&v, &mut diags).unwrap();
    assert_eq!(rules.len(), 2);
    assert_eq!(diags.len(), 1);
}
