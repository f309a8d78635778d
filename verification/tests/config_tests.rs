use eslint_migrate::config::{ConfigData, GlobalConf, GlobalConfQualifier};
use eslint_migrate::diagnostics::{Diagnostic, DiagnosticSeverity};
use eslint_migrate::severity::Severity;
use eslint_migrate::value::Value;

fn obj(fields: Vec<(&str, Value)>) -> Value {
    Value::Object(
        fields
            .into_iter()
            .map(|(k, v)| (k.to_string(), v))
            .collect(),
    )
}

fn s(text: &str) -> Value {
    Value::Str(text.to_string())
}

#[test]
fn global_conf_enablement() {
    assert!(GlobalConf::Flag(true).is_enabled());
    assert!(!GlobalConf::Flag(false).is_enabled());
    assert!(!GlobalConf::Qualifier(GlobalConfQualifier::Off).is_enabled());
    assert!(GlobalConf::Qualifier(GlobalConfQualifier::Readable).is_enabled());
    assert!(GlobalConf::Qualifier(GlobalConfQualifier::Readonly).is_enabled());
    assert!(GlobalConf::Qualifier(GlobalConfQualifier::Writable).is_enabled());
    assert!(GlobalConf::Qualifier(GlobalConfQualifier::Writeable).is_enabled());
}

#[test]
fn config_decodes_all_fields() {
    let mut diags: Vec<Diagnostic> = Vec::new();
    let v = obj(vec![
        ("extends", s("eslint:recommended")),
        ("env", obj(vec![("browser", Value::Bool(true))])),
        ("globals", obj(vec![("var1", s("writable"))])),
        ("ignorePatterns", Value::Array(vec![s("dist/**"), s("build/**")])),
        ("rules", obj(vec![("eqeqeq", s("warn"))])),
        (
            "overrides",
            Value::Array(vec![obj(vec![
                ("files", Value::Array(vec![s("*.ts")])),
                ("rules", obj(vec![("no-var", Value::Num(0))])),
            ])]),
        ),
        ("unknownField", Value::Null),
    ]);
    let config = ConfigData::deserialize(&v, &mut diags).unwrap();
    assert_eq!(config.extends.0, vec!["eslint:recommended"]);
    assert_eq!(config.env.get("browser"), Some(&true));
    assert_eq!(
        config.globals.get("var1"),
        Some(&GlobalConf::Qualifier(GlobalConfQualifier::Writable))
    );
    assert_eq!(config.ignore_patterns.0, vec!["dist/**", "build/**"]);
    assert_eq!(config.rules.len(), 1);
    assert_eq!(config.overrides.len(), 1);
    assert_eq!(config.overrides[0].files.0, vec!["*.ts"]);
    assert_eq!(
        config.overrides[0].rules.get("no-var").unwrap().severity(),
        Severity::Off
    );
}

#[test]
fn shorthand_accepts_scalar_or_array() {
    let mut diags: Vec<Diagnostic> = Vec::new();
    let single = obj(vec![("ignorePatterns", s("dist/**"))]);
    let config = ConfigData::deserialize(&single, &mut diags).unwrap();
    assert_eq!(config.ignore_patterns.0, vec!["dist/**"]);
    let listed = obj(vec![(
        "ignorePatterns",
        Value::Array(vec![s("a"), s("b")]),
    )]);
    let config = ConfigData::deserialize(&listed, &mut diags).unwrap();
    assert_eq!(config.ignore_patterns.0, vec!["a", "b"]);
}

#[test]
fn non_object_configuration_is_fatal() {
    let mut diags: Vec<Diagnostic> = Vec::new();
    assert!(ConfigData::deserialize(&Value::Str("nope".to_string()), &mut diags).is_none());
    assert!(diags
        .iter()
        .any(|d| d.severity == DiagnosticSeverity::Fatal));
}

#[test]
fn malformed_field_degrades_not_aborts() {
    let mut diags: Vec<Diagnostic> = Vec::new();
    let v = obj(vec![
        ("env", s("not an object")),
        ("rules", obj(vec![("eqeqeq", s("warn"))])),
    ]);
    let config = ConfigData::deserialize(&v, &mut diags).unwrap();
    assert_eq!(config.env.len(), 0);
    assert_eq!(config.rules.len(), 1);
    assert!(!diags.is_empty());
}

#[test]
fn merge_combines_fields() {
    let mut diags: Vec<Diagnostic> = Vec::new();
    let mut base = ConfigData::deserialize(
        &obj(vec![
            ("extends", s("a")),
            ("env", obj(vec![("browser", Value::Bool(true)), ("node", Value::Bool(true))])),
            ("ignorePatterns", s("x/**")),
            ("rules", obj(vec![("eqeqeq", s("error"))])),
        ]),
        &mut diags,
    )
    .unwrap();
    let incoming = ConfigData::deserialize(
        &obj(vec![
            ("extends", s("b")),
            ("env", obj(vec![("node", Value::Bool(false))])),
            ("ignorePatterns", s("y/**")),
            ("rules", obj(vec![("eqeqeq", s("off")), ("no-var", s("warn"))])),
        ]),
        &mut diags,
    )
    .unwrap();
    base.merge_with(incoming);
    assert_eq!(base.extends.0, vec!["a", "b"]);
    assert_eq!(base.env.get("browser"), Some(&true));
    assert_eq!(base.env.get("node"), Some(&false));
    assert_eq!(base.ignore_patterns.0, vec!["x/**", "y/**"]);
    assert_eq!(base.rules.get("eqeqeq").unwrap().severity(), Severity::Off);
    assert_eq!(base.rules.get("no-var").unwrap().severity(), Severity::Warn);
}

#[test]
fn from_preset_known_and_unknown() {
    assert!(ConfigData::from_preset("eslint:recommended").is_some());
    assert!(ConfigData::from_preset("eslint:all").is_some());
    assert!(ConfigData::from_preset("plugin:unicorn/recommended").is_some());
    assert!(ConfigData::from_preset("plugin:@typescript-eslint/strict").is_some());
    assert!(ConfigData::from_preset("plugin:made-up/recommended").is_none());
    assert!(ConfigData::from_preset("").is_none());

    let preset = ConfigData::from_preset("eslint:recommended").unwrap();
    assert!(preset.rules.len() > 0);
    assert!(preset.extends.0.is_empty());
    assert_eq!(
        preset.rules.get("constructor-super").unwrap().severity(),
        Severity::Error
    );
}

#[test]
fn explicit_rules_win_over_presets() {
    // An `extends` list of two presets that both enable `no-var` at error,
    // followed by an explicit `"no-var": "off"`, ends with the rule off.
    let mut diags: Vec<Diagnostic> = Vec::new();
    let v = obj(vec![
        (
            "extends",
            Value::Array(vec![s("eslint:recommended"), s("eslint:all")]),
        ),
        ("rules", obj(vec![("no-var", s("off"))])),
    ]);
    let mut config = ConfigData::deserialize(&v, &mut diags).unwrap();
    config.resolve_extends();
    assert!(config.extends.0.is_empty());
    assert_eq!(config.rules.get("no-var").unwrap().severity(), Severity::Off);
    // the presets themselves still contribute what the user left alone
    assert_eq!(
        config.rules.get("eqeqeq").unwrap().severity(),
        Severity::Error
    );
}

#[test]
fn unknown_presets_are_skipped() {
    let mut diags: Vec<Diagnostic> = Vec::new();
    let v = obj(vec![
        (
            "extends",
            Value::Array(vec![s("plugin:not-modeled/recommended")]),
        ),
        ("rules", obj(vec![("eqeqeq", s("warn"))])),
    ]);
    let mut config = ConfigData::deserialize(&v, &mut diags).unwrap();
    config.resolve_extends();
    assert_eq!(config.rules.len(), 1);
    assert_eq!(config.rules.get("eqeqeq").unwrap().severity(), Severity::Warn);
}

#[test]
fn resolve_extends_without_extends_keeps_rules() {
    let mut diags: Vec<Diagnostic> = Vec::new();
    let v = obj(vec![("rules", obj(vec![("eqeqeq", s("warn"))]))]);
    let mut config = ConfigData::deserialize(&v, &mut diags).unwrap();
    config.resolve_extends();
    assert_eq!(config.rules.len(), 1);
    assert_eq!(config.rules.get("eqeqeq").unwrap().severity(), Severity::Warn);
}

#[test]
fn env_entries_with_bad_values_are_dropped() {
    let mut diags: Vec<Diagnostic> = Vec::new();
    let v = obj(vec![(
        "env",
        obj(vec![
            ("browser", Value::Bool(true)),
            ("node", s("yes")),
        ]),
    )]);
    let config = ConfigData::deserialize(&v, &mut diags).unwrap();
    assert_eq!(config.env.len(), 1);
    assert_eq!(config.env.get("browser"), Some(&true));
    assert!(config.env.get("node").is_none());
    assert!(!diags.is_empty());
}

#[test]
fn globals_decode_flags_and_qualifiers() {
    let mut diags: Vec<Diagnostic> = Vec::new();
    let v = obj(vec![(
        "globals",
        obj(vec![
            ("a", Value::Bool(false)),
            ("b", s("readonly")),
            ("c", Value::Num(1)),
        ]),
    )]);
    let config = ConfigData::deserialize(&v, &mut diags).unwrap();
    assert_eq!(config.globals.len(), 2);
    assert_eq!(config.globals.get("a"), Some(&GlobalConf::Flag(false)));
    assert_eq!(
        config.globals.get("b"),
        Some(&GlobalConf::Qualifier(GlobalConfQualifier::Readonly))
    );
    assert!(config.globals.get("c").is_none());
}

#[test]
fn clean_configuration_decodes_in_silence() {
    let mut diags: Vec<Diagnostic> = Vec::new();
    let v = obj(vec![
        ("extends", s("eslint:recommended")),
        ("env", obj(vec![("browser", Value::Bool(true))])),
        ("globals", obj(vec![("var1", s("writable"))])),
        ("rules", obj(vec![("eqeqeq", s("warn")), ("not-a-known-rule", Value::Num(2))])),
        ("someUnknownField", Value::Null),
    ]);
    assert!(ConfigData::deserialize(&v, &mut diags).is_some());
    assert!(diags.is_empty());
}

#[test]
fn failing_global_declaration_is_diagnosed() {
    let mut diags: Vec<Diagnostic> = Vec::new();
    let v = obj(vec![(
        "globals",
        obj(vec![("a", s("writeable")), ("b", s("wrtable"))]),
    )]);
    let config = ConfigData::deserialize(&v, &mut diags).unwrap();
    assert_eq!(config.globals.len(), 1);
    assert_eq!(diags.len(), 1);
}
