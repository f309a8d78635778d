//! Configuration of the Unicorn plugin's rules, and the translation of its
//! filename-case options into the target model.

use crate::biome;
use crate::decode::{
    bool_diag_count, decode_vec, push_diag, spec_decode_list, spec_list_diag_count, str_eq,
    DecodeValue,
};
use crate::diagnostics::{lemma_prefix_trans, Diagnostic, DiagnosticSeverity};
use crate::rule_conf::OptionDefault;
use crate::severity::Severity;
use crate::value::Value;
use vstd::prelude::*;

verus! {

/// A filename case the source rule can demand.
#[derive(Clone, Copy, Debug, PartialEq, Eq, Structural)]
pub enum FilenameCase {
    Kebab,
    Camel,
    Snake,
    Pascal,
}

impl DeepView for FilenameCase {
    type V = FilenameCase;

    open spec fn deep_view(&self) -> FilenameCase {
        *self
    }
}

/// Which keyword names which filename case.
pub open spec fn filename_case_of_keyword(s: Seq<char>) -> Option<FilenameCase> {
    if s == "kebabCase"@ {
        Some(FilenameCase::Kebab)
    } else if s == "camelCase"@ {
        Some(FilenameCase::Camel)
    } else if s == "snakeCase"@ {
        Some(FilenameCase::Snake)
    } else if s == "pascalCase"@ {
        Some(FilenameCase::Pascal)
    } else {
        None
    }
}

/// How many diagnostics decoding a value as a filename case records: none
/// when a known keyword decodes, one otherwise.
pub open spec fn filename_case_diag_count(v: Value) -> nat {
    match v {
        Value::Str(s) => if filename_case_of_keyword(s@) is Some {
            0
        } else {
            1
        },
        _ => 1,
    }
}

impl DecodeValue for FilenameCase {
    open spec fn spec_decode(v: Value) -> Option<FilenameCase> {
        match v {
            Value::Str(s) => filename_case_of_keyword(s@),
            _ => None,
        }
    }

    open spec fn spec_diag_count(v: Value) -> nat {
        filename_case_diag_count(v)
    }

    fn decode(v: &Value, diags: &mut Vec<Diagnostic>) -> (r: Option<FilenameCase>) {
        match v {
            Value::Str(s) => {
                let k = s.as_str();
                if str_eq(k, "kebabCase") {
                    Some(FilenameCase::Kebab)
                } else if str_eq(k, "camelCase") {
                    Some(FilenameCase::Camel)
                } else if str_eq(k, "snakeCase") {
                    Some(FilenameCase::Snake)
                } else if str_eq(k, "pascalCase") {
                    Some(FilenameCase::Pascal)
                } else {
                    push_diag(diags, DiagnosticSeverity::Error, "Unknown filename case.");
                    None
                }
            },
            _ => {
                push_diag(diags, DiagnosticSeverity::Error, "Expected a string.");
                None
            },
        }
    }
}

/// The 4-flag case set of the source rule: each flag enables one case.
#[derive(Clone, Copy, Debug, PartialEq, Eq, Structural)]
pub struct FilenameCases {
    pub kebab_case: bool,
    pub camel_case: bool,
    pub snake_case: bool,
    pub pascal_case: bool,
}

impl DeepView for FilenameCases {
    type V = FilenameCases;

    open spec fn deep_view(&self) -> FilenameCases {
        *self
    }
}

/// The case set with every flag off.
pub open spec fn filename_cases_init() -> FilenameCases {
    FilenameCases { kebab_case: false, camel_case: false, snake_case: false, pascal_case: false }
}

/// How one object field updates a partially decoded case set.
pub open spec fn filename_cases_step(acc: FilenameCases, kv: (String, Value)) -> FilenameCases {
    if kv.0@ == "kebabCase"@ {
        match kv.1 {
            Value::Bool(b) => (FilenameCases { kebab_case: b, ..acc }),
            _ => acc,
        }
    } else if kv.0@ == "camelCase"@ {
        match kv.1 {
            Value::Bool(b) => (FilenameCases { camel_case: b, ..acc }),
            _ => acc,
        }
    } else if kv.0@ == "snakeCase"@ {
        match kv.1 {
            Value::Bool(b) => (FilenameCases { snake_case: b, ..acc }),
            _ => acc,
        }
    } else if kv.0@ == "pascalCase"@ {
        match kv.1 {
            Value::Bool(b) => (FilenameCases { pascal_case: b, ..acc }),
            _ => acc,
        }
    } else {
        acc
    }
}

/// How many diagnostics one case-set field records: the flag's own count
/// for the four known fields, none for unknown fields.
pub open spec fn filename_cases_step_diag_count(kv: (String, Value)) -> nat {
    if kv.0@ == "kebabCase"@ || kv.0@ == "camelCase"@ || kv.0@ == "snakeCase"@ || kv.0@
        == "pascalCase"@ {
        bool_diag_count(kv.1)
    } else {
        0
    }
}

/// How many diagnostics the fields of a case set record in all.
pub open spec fn filename_cases_fold_diag_count(entries: Seq<(String, Value)>) -> nat
    decreases entries.len(),
{
    if entries.len() == 0 {
        0
    } else {
        filename_cases_fold_diag_count(entries.drop_last()) + filename_cases_step_diag_count(
            entries.last(),
        )
    }
}

/// How many diagnostics decoding a value as a case set records.
pub open spec fn filename_cases_diag_count(v: Value) -> nat {
    match v {
        Value::Object(entries) => filename_cases_fold_diag_count(entries@),
        _ => 1,
    }
}

/// The object fields of a case set, folded in source order.
pub open spec fn filename_cases_fold(
    entries: Seq<(String, Value)>,
    acc: FilenameCases,
) -> FilenameCases
    decreases entries.len(),
{
    if entries.len() == 0 {
        acc
    } else {
        filename_cases_step(filename_cases_fold(entries.drop_last(), acc), entries.last())
    }
}

/// What a value decodes to as a case set.
pub open spec fn spec_decode_filename_cases(v: Value) -> Option<FilenameCases> {
    match v {
        Value::Object(entries) => Some(filename_cases_fold(entries@, filename_cases_init())),
        _ => None,
    }
}

impl DecodeValue for FilenameCases {
    open spec fn spec_decode(v: Value) -> Option<FilenameCases> {
        spec_decode_filename_cases(v)
    }

    open spec fn spec_diag_count(v: Value) -> nat {
        filename_cases_diag_count(v)
    }

    #[verifier::loop_isolation(false)]
    fn decode(v: &Value, diags: &mut Vec<Diagnostic>) -> (r: Option<FilenameCases>) {
        match v {
            Value::Object(entries) => {
                let mut acc = FilenameCases {
                    kebab_case: false,
                    camel_case: false,
                    snake_case: false,
                    pascal_case: false,
                };
                let n = entries.len();
                let mut i: usize = 0;
                while i < n
                    invariant
                        i <= n,
                        acc == filename_cases_fold(entries@.take(i as int), filename_cases_init()),
                        old(diags)@.is_prefix_of(diags@),
                        diags@.len() == old(diags)@.len() + filename_cases_fold_diag_count(
                            entries@.take(i as int),
                        ),
                    decreases n - i,
                {
                    let ghost dpre = diags@;
                    proof {
                        assert(entries@.take(i + 1 as int).drop_last() =~= entries@.take(i as int));
                        assert(entries@.take(i + 1 as int).last() == entries@[i as int]);
                    }
                    let key = entries[i].0.as_str();
                    if str_eq(key, "kebabCase") {
                        match bool::decode(&entries[i].1, diags) {
                            Some(b) => {
                                acc = FilenameCases { kebab_case: b, ..acc };
                            },
                            None => {},
                        }
                    } else if str_eq(key, "camelCase") {
                        match bool::decode(&entries[i].1, diags) {
                            Some(b) => {
                                acc = FilenameCases { camel_case: b, ..acc };
                            },
                            None => {},
                        }
                    } else if str_eq(key, "snakeCase") {
                        match bool::decode(&entries[i].1, diags) {
                            Some(b) => {
                                acc = FilenameCases { snake_case: b, ..acc };
                            },
                            None => {},
                        }
                    } else if str_eq(key, "pascalCase") {
                        match bool::decode(&entries[i].1, diags) {
                            Some(b) => {
                                acc = FilenameCases { pascal_case: b, ..acc };
                            },
                            None => {},
                        }
                    }
                    proof {
                        lemma_prefix_trans(old(diags)@, dpre, diags@);
                    }
                    i += 1;
                }
                proof {
                    assert(entries@.take(n as int) =~= entries@);
                }
                let r = Some(acc);
                proof {
                    assert(r.deep_view() == Option::<FilenameCases>::Some(acc));
                    assert(spec_decode_filename_cases(*v) == Some(
                        filename_cases_fold(entries@, filename_cases_init()),
                    ));
                    assert(Self::spec_decode(*v) == spec_decode_filename_cases(*v));
                    assert(filename_cases_diag_count(*v) == filename_cases_fold_diag_count(
                        entries@,
                    ));
                    assert(Self::spec_diag_count(*v) == filename_cases_diag_count(*v));
                }
                r
            },
            _ => {
                push_diag(diags, DiagnosticSeverity::Error, "Expected an object.");
                None
            },
        }
    }
}

/// The options of the source filename-case rule.
#[derive(Clone, Debug, PartialEq)]
pub struct FilenameCaseOptions {
    pub case: FilenameCase,
    pub cases: FilenameCases,
    pub ignore: Vec<String>,
    pub multiple_file_extensions: bool,
}

/// The mathematical shape of [`FilenameCaseOptions`].
#[verifier::ext_equal]
pub struct FilenameCaseOptionsView {
    pub case: FilenameCase,
    pub cases: FilenameCases,
    pub ignore: Seq<Seq<char>>,
    pub multiple_file_extensions: bool,
}

impl DeepView for FilenameCaseOptions {
    type V = FilenameCaseOptionsView;

    open spec fn deep_view(&self) -> FilenameCaseOptionsView {
        FilenameCaseOptionsView {
            case: self.case,
            cases: self.cases,
            ignore: self.ignore.deep_view(),
            multiple_file_extensions: self.multiple_file_extensions,
        }
    }
}

/// The options every field starts from: the kebab case, no case set, no
/// ignore patterns.
pub open spec fn filename_options_init() -> FilenameCaseOptionsView {
    FilenameCaseOptionsView {
        case: FilenameCase::Kebab,
        cases: filename_cases_init(),
        ignore: Seq::empty(),
        multiple_file_extensions: false,
    }
}

/// How one object field updates partially decoded filename-case options.
pub open spec fn filename_options_step(
    acc: FilenameCaseOptionsView,
    kv: (String, Value),
) -> FilenameCaseOptionsView {
    if kv.0@ == "case"@ {
        match FilenameCase::spec_decode(kv.1) {
            Some(x) => (FilenameCaseOptionsView { case: x, ..acc }),
            None => acc,
        }
    } else if kv.0@ == "cases"@ {
        match spec_decode_filename_cases(kv.1) {
            Some(x) => (FilenameCaseOptionsView { cases: x, ..acc }),
            None => acc,
        }
    } else if kv.0@ == "ignore"@ {
        match spec_decode_list::<String>(kv.1) {
            Some(x) => (FilenameCaseOptionsView { ignore: x, ..acc }),
            None => acc,
        }
    } else if kv.0@ == "multipleFileExtensions"@ {
        match kv.1 {
            Value::Bool(b) => (FilenameCaseOptionsView { multiple_file_extensions: b, ..acc }),
            _ => acc,
        }
    } else {
        acc
    }
}

/// How many diagnostics one filename-case-options field records: the
/// field value's own count for the known fields, none for unknown fields.
pub open spec fn filename_options_step_diag_count(kv: (String, Value)) -> nat {
    if kv.0@ == "case"@ {
        filename_case_diag_count(kv.1)
    } else if kv.0@ == "cases"@ {
        filename_cases_diag_count(kv.1)
    } else if kv.0@ == "ignore"@ {
        spec_list_diag_count::<String>(kv.1)
    } else if kv.0@ == "multipleFileExtensions"@ {
        bool_diag_count(kv.1)
    } else {
        0
    }
}

/// How many diagnostics the fields of filename-case options record in all.
pub open spec fn filename_options_fold_diag_count(entries: Seq<(String, Value)>) -> nat
    decreases entries.len(),
{
    if entries.len() == 0 {
        0
    } else {
        filename_options_fold_diag_count(entries.drop_last()) + filename_options_step_diag_count(
            entries.last(),
        )
    }
}

/// How many diagnostics decoding a value as filename-case options records.
pub open spec fn filename_options_diag_count(v: Value) -> nat {
    match v {
        Value::Object(entries) => filename_options_fold_diag_count(entries@),
        _ => 1,
    }
}

/// The object fields of filename-case options, folded in source order.
pub open spec fn filename_options_fold(
    entries: Seq<(String, Value)>,
    acc: FilenameCaseOptionsView,
) -> FilenameCaseOptionsView
    decreases entries.len(),
{
    if entries.len() == 0 {
        acc
    } else {
        filename_options_step(filename_options_fold(entries.drop_last(), acc), entries.last())
    }
}

impl DecodeValue for FilenameCaseOptions {
    open spec fn spec_decode(v: Value) -> Option<FilenameCaseOptionsView> {
        match v {
            Value::Object(entries) => Some(filename_options_fold(entries@, filename_options_init())),
            _ => None,
        }
    }

    open spec fn spec_diag_count(v: Value) -> nat {
        filename_options_diag_count(v)
    }

    #[verifier::loop_isolation(false)]
    fn decode(v: &Value, diags: &mut Vec<Diagnostic>) -> (r: Option<FilenameCaseOptions>) {
        match v {
            Value::Object(entries) => {
                let mut acc = FilenameCaseOptions {
                    case: FilenameCase::Kebab,
                    cases: FilenameCases {
                        kebab_case: false,
                        camel_case: false,
                        snake_case: false,
                        pascal_case: false,
                    },
                    ignore: Vec::new(),
                    multiple_file_extensions: false,
                };
                assert(acc.deep_view() =~= filename_options_init());
                let n = entries.len();
                let mut i: usize = 0;
                while i < n
                    invariant
                        i <= n,
                        acc.deep_view() == filename_options_fold(
                            entries@.take(i as int),
                            filename_options_init(),
                        ),
                        old(diags)@.is_prefix_of(diags@),
                        diags@.len() == old(diags)@.len() + filename_options_fold_diag_count(
                            entries@.take(i as int),
                        ),
                    decreases n - i,
                {
                    let ghost dpre = diags@;
                    let ghost accpre = acc.deep_view();
                    proof {
                        assert(entries@.take(i + 1 as int).drop_last() =~= entries@.take(i as int));
                        assert(entries@.take(i + 1 as int).last() == entries@[i as int]);
                    }
                    let key = entries[i].0.as_str();
                    if str_eq(key, "case") {
                        match FilenameCase::decode(&entries[i].1, diags) {
                            Some(x) => {
                                acc = FilenameCaseOptions { case: x, ..acc };
                            },
                            None => {},
                        }
                    } else if str_eq(key, "cases") {
                        match FilenameCases::decode(&entries[i].1, diags) {
                            Some(x) => {
                                acc = FilenameCaseOptions { cases: x, ..acc };
                            },
                            None => {},
                        }
                    } else if str_eq(key, "ignore") {
                        match decode_vec::<String>(&entries[i].1, diags) {
                            Some(x) => {
                                acc = FilenameCaseOptions { ignore: x, ..acc };
                            },
                            None => {},
                        }
                    } else if str_eq(key, "multipleFileExtensions") {
                        match bool::decode(&entries[i].1, diags) {
                            Some(b) => {
                                acc = FilenameCaseOptions { multiple_file_extensions: b, ..acc };
                            },
                            None => {},
                        }
                    }
                    proof {
                        lemma_prefix_trans(old(diags)@, dpre, diags@);
                        assert(acc.deep_view() == filename_options_step(
                            accpre,
                            entries@[i as int],
                        ));
                    }
                    i += 1;
                }
                proof {
                    assert(entries@.take(n as int) =~= entries@);
                }
                Some(acc)
            },
            _ => {
                push_diag(diags, DiagnosticSeverity::Error, "Expected an object.");
                None
            },
        }
    }
}

impl OptionDefault for FilenameCaseOptions {
    open spec fn spec_default() -> FilenameCaseOptionsView {
        filename_options_init()
    }

    fn default_value() -> (r: FilenameCaseOptions) {
        let r = FilenameCaseOptions {
            case: FilenameCase::Kebab,
            cases: FilenameCases {
                kebab_case: false,
                camel_case: false,
                snake_case: false,
                pascal_case: false,
            },
            ignore: Vec::new(),
            multiple_file_extensions: false,
        };
        proof {
            assert(r.deep_view() =~= filename_options_init());
        }
        r
    }
}

/// Which target case each source case maps to, one to one.
pub open spec fn filename_case_to_biome(c: FilenameCase) -> biome::FilenameCase {
    match c {
        FilenameCase::Kebab => biome::FilenameCase::Kebab,
        FilenameCase::Camel => biome::FilenameCase::Camel,
        FilenameCase::Snake => biome::FilenameCase::Snake,
        FilenameCase::Pascal => biome::FilenameCase::Pascal,
    }
}

impl FilenameCase {
    /// Translates this case into the equivalent target case.
    pub fn into_biome(self) -> (r: biome::FilenameCase)
        ensures
            r == filename_case_to_biome(self),
    {
        match self {
            FilenameCase::Kebab => biome::FilenameCase::Kebab,
            FilenameCase::Camel => biome::FilenameCase::Camel,
            FilenameCase::Snake => biome::FilenameCase::Snake,
            FilenameCase::Pascal => biome::FilenameCase::Pascal,
        }
    }
}

/// The target cases a 4-flag case set enables, in the fixed order kebab,
/// camel, snake, pascal.
pub open spec fn filename_cases_seq(c: FilenameCases) -> Seq<biome::FilenameCase> {
    (if c.kebab_case {
        seq![biome::FilenameCase::Kebab]
    } else {
        Seq::empty()
    }) + (if c.camel_case {
        seq![biome::FilenameCase::Camel]
    } else {
        Seq::empty()
    }) + (if c.snake_case {
        seq![biome::FilenameCase::Snake]
    } else {
        Seq::empty()
    }) + (if c.pascal_case {
        seq![biome::FilenameCase::Pascal]
    } else {
        Seq::empty()
    })
}

impl FilenameCases {
    /// The target cases this set enables; `None` when it enables none.
    pub fn into_biome(self) -> (r: Option<Vec<biome::FilenameCase>>)
        ensures
            r.deep_view() == if filename_cases_seq(self).len() == 0 {
                Option::<Seq<biome::FilenameCase>>::None
            } else {
                Some(filename_cases_seq(self))
            },
    {
        let mut cases: Vec<biome::FilenameCase> = Vec::new();
        if self.kebab_case {
            cases.push(biome::FilenameCase::Kebab);
        }
        if self.camel_case {
            cases.push(biome::FilenameCase::Camel);
        }
        if self.snake_case {
            cases.push(biome::FilenameCase::Snake);
        }
        if self.pascal_case {
            cases.push(biome::FilenameCase::Pascal);
        }
        proof {
            assert(cases.deep_view() =~= filename_cases_seq(self));
        }
        if cases.len() == 0 {
            None
        } else {
            Some(cases)
        }
    }
}

/// The target filenaming-convention options the source options translate
/// to: strict, ascii-only, allowing the cases of the 4-flag set when any
/// flag is on, and the single configured case otherwise.
pub open spec fn filename_options_to_biome(o: FilenameCaseOptionsView)
    -> crate::biome::FilenamingConventionOptionsView {
    biome::FilenamingConventionOptionsView {
        strict_case: true,
        require_ascii: true,
        filename_cases: if filename_cases_seq(o.cases).len() == 0 {
            seq![filename_case_to_biome(o.case)]
        } else {
            filename_cases_seq(o.cases)
        },
    }
}

impl FilenameCaseOptions {
    /// Translates these options into the target's filenaming-convention
    /// options.
    pub fn into_biome(self) -> (r: biome::FilenamingConventionOptions)
        ensures
            r.deep_view() == filename_options_to_biome(self.deep_view()),
    {
        let cases = match self.cases.into_biome() {
            Some(cases) => cases,
            None => {
                let mut v: Vec<biome::FilenameCase> = Vec::new();
                v.push(self.case.into_biome());
                proof {
                    assert(v.deep_view() =~= seq![filename_case_to_biome(self.case)]);
                }
                v
            },
        };
        let r = biome::FilenamingConventionOptions {
            strict_case: true,
            require_ascii: true,
            filename_cases: cases,
        };
        proof {
            assert(r.deep_view() =~= filename_options_to_biome(self.deep_view()));
        }
        r
    }
}

/// The pairs of the plugin's `recommended` preset.
pub open spec fn spec_recommended() -> Seq<(Seq<char>, Severity)> {
    seq![
        ("no-negated-condition"@, Severity::Off),
        ("no-nested-ternary"@, Severity::Off),
        ("unicorn/better-regex"@, Severity::Error),
        ("unicorn/catch-error-name"@, Severity::Error),
        ("unicorn/consistent-destructuring"@, Severity::Off),
        ("unicorn/consistent-function-scoping"@, Severity::Error),
        ("unicorn/custom-error-definition"@, Severity::Off),
        ("unicorn/empty-brace-spaces"@, Severity::Error),
        ("unicorn/error-message"@, Severity::Error),
        ("unicorn/escape-case"@, Severity::Error),
        ("unicorn/expiring-todo-comments"@, Severity::Error),
        ("unicorn/explicit-length-check"@, Severity::Error),
        ("unicorn/filename-case"@, Severity::Error),
        ("unicorn/import-style"@, Severity::Error),
        ("unicorn/new-for-builtins"@, Severity::Error),
        ("unicorn/no-abusive-eslint-disable"@, Severity::Error),
        ("unicorn/no-anonymous-default-export"@, Severity::Error),
        ("unicorn/no-array-callback-reference"@, Severity::Error),
        ("unicorn/no-array-for-each"@, Severity::Error),
        ("unicorn/no-array-method-this-argument"@, Severity::Error),
        ("unicorn/no-array-push-push"@, Severity::Error),
        ("unicorn/no-array-reduce"@, Severity::Error),
        ("unicorn/no-await-expression-member"@, Severity::Error),
        ("unicorn/no-await-in-promise-methods"@, Severity::Error),
        ("unicorn/no-console-spaces"@, Severity::Error),
        ("unicorn/no-document-cookie"@, Severity::Error),
        ("unicorn/no-empty-file"@, Severity::Error),
        ("unicorn/no-for-loop"@, Severity::Error),
        ("unicorn/no-hex-escape"@, Severity::Error),
        ("unicorn/no-instanceof-array"@, Severity::Error),
        ("unicorn/no-invalid-remove-event-listener"@, Severity::Error),
        ("unicorn/no-keyword-prefix"@, Severity::Off),
        ("unicorn/no-lonely-if"@, Severity::Error),
        ("unicorn/no-negated-condition"@, Severity::Error),
        ("unicorn/no-nested-ternary"@, Severity::Error),
        ("unicorn/no-new-array"@, Severity::Error),
        ("unicorn/no-new-buffer"@, Severity::Error),
        ("unicorn/no-null"@, Severity::Error),
        ("unicorn/no-object-as-default-parameter"@, Severity::Error),
        ("unicorn/no-process-exit"@, Severity::Error),
        ("unicorn/no-single-promise-in-promise-methods"@, Severity::Error),
        ("unicorn/no-static-only-class"@, Severity::Error),
        ("unicorn/no-thenable"@, Severity::Error),
        ("unicorn/no-this-assignment"@, Severity::Error),
        ("unicorn/no-typeof-undefined"@, Severity::Error),
        ("unicorn/no-unnecessary-await"@, Severity::Error),
        ("unicorn/no-unnecessary-polyfills"@, Severity::Error),
        ("unicorn/no-unreadable-array-destructuring"@, Severity::Error),
        ("unicorn/no-unreadable-iife"@, Severity::Error),
        ("unicorn/no-unused-properties"@, Severity::Off),
        ("unicorn/no-useless-fallback-in-spread"@, Severity::Error),
        ("unicorn/no-useless-length-check"@, Severity::Error),
        ("unicorn/no-useless-promise-resolve-reject"@, Severity::Error),
        ("unicorn/no-useless-spread"@, Severity::Error),
        ("unicorn/no-useless-switch-case"@, Severity::Error),
        ("unicorn/no-useless-undefined"@, Severity::Error),
        ("unicorn/no-zero-fractions"@, Severity::Error),
        ("unicorn/number-literal-case"@, Severity::Error),
        ("unicorn/numeric-separators-style"@, Severity::Error),
        ("unicorn/prefer-add-event-listener"@, Severity::Error),
        ("unicorn/prefer-array-find"@, Severity::Error),
        ("unicorn/prefer-array-flat-map"@, Severity::Error),
        ("unicorn/prefer-array-flat"@, Severity::Error),
        ("unicorn/prefer-array-index-of"@, Severity::Error),
        ("unicorn/prefer-array-some"@, Severity::Error),
        ("unicorn/prefer-at"@, Severity::Error),
        ("unicorn/prefer-blob-reading-methods"@, Severity::Error),
        ("unicorn/prefer-code-point"@, Severity::Error),
        ("unicorn/prefer-date-now"@, Severity::Error),
        ("unicorn/prefer-default-parameters"@, Severity::Error),
        ("unicorn/prefer-dom-node-append"@, Severity::Error),
        ("unicorn/prefer-dom-node-dataset"@, Severity::Error),
        ("unicorn/prefer-dom-node-remove"@, Severity::Error),
        ("unicorn/prefer-dom-node-text-content"@, Severity::Error),
        ("unicorn/prefer-event-target"@, Severity::Error),
        ("unicorn/prefer-export-from"@, Severity::Error),
        ("unicorn/prefer-includes"@, Severity::Error),
        ("unicorn/prefer-json-parse-buffer"@, Severity::Off),
        ("unicorn/prefer-keyboard-event-key"@, Severity::Error),
        ("unicorn/prefer-logical-operator-over-ternary"@, Severity::Error),
        ("unicorn/prefer-math-trunc"@, Severity::Error),
        ("unicorn/prefer-modern-dom-apis"@, Severity::Error),
        ("unicorn/prefer-modern-math-apis"@, Severity::Error),
        ("unicorn/prefer-module"@, Severity::Error),
        ("unicorn/prefer-native-coercion-functions"@, Severity::Error),
        ("unicorn/prefer-negative-index"@, Severity::Error),
        ("unicorn/prefer-node-protocol"@, Severity::Error),
        ("unicorn/prefer-number-properties"@, Severity::Error),
        ("unicorn/prefer-object-from-entries"@, Severity::Error),
        ("unicorn/prefer-optional-catch-binding"@, Severity::Error),
        ("unicorn/prefer-prototype-methods"@, Severity::Error),
        ("unicorn/prefer-query-selector"@, Severity::Error),
        ("unicorn/prefer-reflect-apply"@, Severity::Error),
        ("unicorn/prefer-regexp-test"@, Severity::Error),
        ("unicorn/prefer-set-has"@, Severity::Error),
        ("unicorn/prefer-set-size"@, Severity::Error),
        ("unicorn/prefer-spread"@, Severity::Error),
        ("unicorn/prefer-string-replace-all"@, Severity::Error),
        ("unicorn/prefer-string-slice"@, Severity::Error),
        ("unicorn/prefer-string-starts-ends-with"@, Severity::Error),
        ("unicorn/prefer-string-trim-start-end"@, Severity::Error),
        ("unicorn/prefer-switch"@, Severity::Error),
        ("unicorn/prefer-ternary"@, Severity::Error),
        ("unicorn/prefer-top-level-await"@, Severity::Error),
        ("unicorn/prefer-type-error"@, Severity::Error),
        ("unicorn/prevent-abbreviations"@, Severity::Error),
        ("unicorn/relative-url-style"@, Severity::Error),
        ("unicorn/require-array-join-separator"@, Severity::Error),
        ("unicorn/require-number-to-fixed-digits-argument"@, Severity::Error),
        ("unicorn/require-post-message-target-origin"@, Severity::Off),
        ("unicorn/string-content"@, Severity::Off),
        ("unicorn/switch-case-braces"@, Severity::Error),
        ("unicorn/template-indent"@, Severity::Error),
        ("unicorn/text-encoding-identifier-case"@, Severity::Error),
        ("unicorn/throw-new-error"@, Severity::Error),
    ]
}

/// The plugin's `recommended` preset.
pub fn recommended() -> (r: Vec<(&'static str, Severity)>)
    ensures
        r.deep_view() == spec_recommended(),
{
    let r: Vec<(&'static str, Severity)> = vec![
        ("no-negated-condition", Severity::Off),
        ("no-nested-ternary", Severity::Off),
        ("unicorn/better-regex", Severity::Error),
        ("unicorn/catch-error-name", Severity::Error),
        ("unicorn/consistent-destructuring", Severity::Off),
        ("unicorn/consistent-function-scoping", Severity::Error),
        ("unicorn/custom-error-definition", Severity::Off),
        ("unicorn/empty-brace-spaces", Severity::Error),
        ("unicorn/error-message", Severity::Error),
        ("unicorn/escape-case", Severity::Error),
        ("unicorn/expiring-todo-comments", Severity::Error),
        ("unicorn/explicit-length-check", Severity::Error),
        ("unicorn/filename-case", Severity::Error),
        ("unicorn/import-style", Severity::Error),
        ("unicorn/new-for-builtins", Severity::Error),
        ("unicorn/no-abusive-eslint-disable", Severity::Error),
        ("unicorn/no-anonymous-default-export", Severity::Error),
        ("unicorn/no-array-callback-reference", Severity::Error),
        ("unicorn/no-array-for-each", Severity::Error),
        ("unicorn/no-array-method-this-argument", Severity::Error),
        ("unicorn/no-array-push-push", Severity::Error),
        ("unicorn/no-array-reduce", Severity::Error),
        ("unicorn/no-await-expression-member", Severity::Error),
        ("unicorn/no-await-in-promise-methods", Severity::Error),
        ("unicorn/no-console-spaces", Severity::Error),
        ("unicorn/no-document-cookie", Severity::Error),
        ("unicorn/no-empty-file", Severity::Error),
        ("unicorn/no-for-loop", Severity::Error),
        ("unicorn/no-hex-escape", Severity::Error),
        ("unicorn/no-instanceof-array", Severity::Error),
        ("unicorn/no-invalid-remove-event-listener", Severity::Error),
        ("unicorn/no-keyword-prefix", Severity::Off),
        ("unicorn/no-lonely-if", Severity::Error),
        ("unicorn/no-negated-condition", Severity::Error),
        ("unicorn/no-nested-ternary", Severity::Error),
        ("unicorn/no-new-array", Severity::Error),
        ("unicorn/no-new-buffer", Severity::Error),
        ("unicorn/no-null", Severity::Error),
        ("unicorn/no-object-as-default-parameter", Severity::Error),
        ("unicorn/no-process-exit", Severity::Error),
        ("unicorn/no-single-promise-in-promise-methods", Severity::Error),
        ("unicorn/no-static-only-class", Severity::Error),
        ("unicorn/no-thenable", Severity::Error),
        ("unicorn/no-this-assignment", Severity::Error),
        ("unicorn/no-typeof-undefined", Severity::Error),
        ("unicorn/no-unnecessary-await", Severity::Error),
        ("unicorn/no-unnecessary-polyfills", Severity::Error),
        ("unicorn/no-unreadable-array-destructuring", Severity::Error),
        ("unicorn/no-unreadable-iife", Severity::Error),
        ("unicorn/no-unused-properties", Severity::Off),
        ("unicorn/no-useless-fallback-in-spread", Severity::Error),
        ("unicorn/no-useless-length-check", Severity::Error),
        ("unicorn/no-useless-promise-resolve-reject", Severity::Error),
        ("unicorn/no-useless-spread", Severity::Error),
        ("unicorn/no-useless-switch-case", Severity::Error),
        ("unicorn/no-useless-undefined", Severity::Error),
        ("unicorn/no-zero-fractions", Severity::Error),
        ("unicorn/number-literal-case", Severity::Error),
        ("unicorn/numeric-separators-style", Severity::Error),
        ("unicorn/prefer-add-event-listener", Severity::Error),
        ("unicorn/prefer-array-find", Severity::Error),
        ("unicorn/prefer-array-flat-map", Severity::Error),
        ("unicorn/prefer-array-flat", Severity::Error),
        ("unicorn/prefer-array-index-of", Severity::Error),
        ("unicorn/prefer-array-some", Severity::Error),
        ("unicorn/prefer-at", Severity::Error),
        ("unicorn/prefer-blob-reading-methods", Severity::Error),
        ("unicorn/prefer-code-point", Severity::Error),
        ("unicorn/prefer-date-now", Severity::Error),
        ("unicorn/prefer-default-parameters", Severity::Error),
        ("unicorn/prefer-dom-node-append", Severity::Error),
        ("unicorn/prefer-dom-node-dataset", Severity::Error),
        ("unicorn/prefer-dom-node-remove", Severity::Error),
        ("unicorn/prefer-dom-node-text-content", Severity::Error),
        ("unicorn/prefer-event-target", Severity::Error),
        ("unicorn/prefer-export-from", Severity::Error),
        ("unicorn/prefer-includes", Severity::Error),
        ("unicorn/prefer-json-parse-buffer", Severity::Off),
        ("unicorn/prefer-keyboard-event-key", Severity::Error),
        ("unicorn/prefer-logical-operator-over-ternary", Severity::Error),
        ("unicorn/prefer-math-trunc", Severity::Error),
        ("unicorn/prefer-modern-dom-apis", Severity::Error),
        ("unicorn/prefer-modern-math-apis", Severity::Error),
        ("unicorn/prefer-module", Severity::Error),
        ("unicorn/prefer-native-coercion-functions", Severity::Error),
        ("unicorn/prefer-negative-index", Severity::Error),
        ("unicorn/prefer-node-protocol", Severity::Error),
        ("unicorn/prefer-number-properties", Severity::Error),
        ("unicorn/prefer-object-from-entries", Severity::Error),
        ("unicorn/prefer-optional-catch-binding", Severity::Error),
        ("unicorn/prefer-prototype-methods", Severity::Error),
        ("unicorn/prefer-query-selector", Severity::Error),
        ("unicorn/prefer-reflect-apply", Severity::Error),
        ("unicorn/prefer-regexp-test", Severity::Error),
        ("unicorn/prefer-set-has", Severity::Error),
        ("unicorn/prefer-set-size", Severity::Error),
        ("unicorn/prefer-spread", Severity::Error),
        ("unicorn/prefer-string-replace-all", Severity::Error),
        ("unicorn/prefer-string-slice", Severity::Error),
        ("unicorn/prefer-string-starts-ends-with", Severity::Error),
        ("unicorn/prefer-string-trim-start-end", Severity::Error),
        ("unicorn/prefer-switch", Severity::Error),
        ("unicorn/prefer-ternary", Severity::Error),
        ("unicorn/prefer-top-level-await", Severity::Error),
        ("unicorn/prefer-type-error", Severity::Error),
        ("unicorn/prevent-abbreviations", Severity::Error),
        ("unicorn/relative-url-style", Severity::Error),
        ("unicorn/require-array-join-separator", Severity::Error),
        ("unicorn/require-number-to-fixed-digits-argument", Severity::Error),
        ("unicorn/require-post-message-target-origin", Severity::Off),
        ("unicorn/string-content", Severity::Off),
        ("unicorn/switch-case-braces", Severity::Error),
        ("unicorn/template-indent", Severity::Error),
        ("unicorn/text-encoding-identifier-case", Severity::Error),
        ("unicorn/throw-new-error", Severity::Error),
    ];
    proof {
        assert(r.deep_view() =~= spec_recommended());
    }
    r
}

/// The pairs of the plugin's rules that its `recommended` preset does not enable.
pub open spec fn spec_non_recommended() -> Seq<(Seq<char>, Severity)> {
    seq![
        ("unicorn/consistent-destructuring"@, Severity::Error),
        ("unicorn/custom-error-definition"@, Severity::Error),
        ("unicorn/no-keyword-prefix"@, Severity::Error),
        ("unicorn/no-unused-properties"@, Severity::Error),
        ("unicorn/prefer-json-parse-buffer"@, Severity::Error),
        ("unicorn/require-post-message-target-origin"@, Severity::Error),
        ("unicorn/string-content"@, Severity::Error),
    ]
}

/// The plugin's rules that its `recommended` preset does not enable.
pub fn non_recommended() -> (r: Vec<(&'static str, Severity)>)
    ensures
        r.deep_view() == spec_non_recommended(),
{
    let r: Vec<(&'static str, Severity)> = vec![
        ("unicorn/consistent-destructuring", Severity::Error),
        ("unicorn/custom-error-definition", Severity::Error),
        ("unicorn/no-keyword-prefix", Severity::Error),
        ("unicorn/no-unused-properties", Severity::Error),
        ("unicorn/prefer-json-parse-buffer", Severity::Error),
        ("unicorn/require-post-message-target-origin", Severity::Error),
        ("unicorn/string-content", Severity::Error),
    ];
    proof {
        assert(r.deep_view() =~= spec_non_recommended());
    }
    r
}

} // verus!
