//! The source linter's own preset rule tables.

use crate::severity::Severity;
use vstd::prelude::*;

verus! {

/// The pairs of the source linter's `recommended` preset.
pub open spec fn spec_eslint_recommended() -> Seq<(Seq<char>, Severity)> {
    seq![
        ("constructor-super"@, Severity::Error),
        ("for-direction"@, Severity::Error),
        ("getter-return"@, Severity::Error),
        ("no-async-promise-executor"@, Severity::Error),
        ("no-case-declarations"@, Severity::Error),
        ("no-class-assign"@, Severity::Error),
        ("no-compare-neg-zero"@, Severity::Error),
        ("no-cond-assign"@, Severity::Error),
        ("no-const-assign"@, Severity::Error),
        ("no-constant-binary-expression"@, Severity::Error),
        ("no-constant-condition"@, Severity::Error),
        ("no-control-regex"@, Severity::Error),
        ("no-debugger"@, Severity::Error),
        ("no-delete-var"@, Severity::Error),
        ("no-dupe-args"@, Severity::Error),
        ("no-dupe-class-members"@, Severity::Error),
        ("no-dupe-else-if"@, Severity::Error),
        ("no-dupe-keys"@, Severity::Error),
        ("no-duplicate-case"@, Severity::Error),
        ("no-empty"@, Severity::Error),
        ("no-empty-character-class"@, Severity::Error),
        ("no-empty-pattern"@, Severity::Error),
        ("no-empty-static-block"@, Severity::Error),
        ("no-ex-assign"@, Severity::Error),
        ("no-extra-boolean-cast"@, Severity::Error),
        ("no-fallthrough"@, Severity::Error),
        ("no-func-assign"@, Severity::Error),
        ("no-global-assign"@, Severity::Error),
        ("no-import-assign"@, Severity::Error),
        ("no-invalid-regexp"@, Severity::Error),
        ("no-irregular-whitespace"@, Severity::Error),
        ("no-loss-of-precision"@, Severity::Error),
        ("no-misleading-character-class"@, Severity::Error),
        ("no-new-native-nonconstructor"@, Severity::Error),
        ("no-nonoctal-decimal-escape"@, Severity::Error),
        ("no-obj-calls"@, Severity::Error),
        ("no-octal"@, Severity::Error),
        ("no-prototype-builtins"@, Severity::Error),
        ("no-redeclare"@, Severity::Error),
        ("no-regex-spaces"@, Severity::Error),
        ("no-self-assign"@, Severity::Error),
        ("no-setter-return"@, Severity::Error),
        ("no-shadow-restricted-names"@, Severity::Error),
        ("no-sparse-arrays"@, Severity::Error),
        ("no-this-before-super"@, Severity::Error),
        ("no-undef"@, Severity::Error),
        ("no-unexpected-multiline"@, Severity::Error),
        ("no-unreachable"@, Severity::Error),
        ("no-unsafe-finally"@, Severity::Error),
        ("no-unsafe-negation"@, Severity::Error),
        ("no-unsafe-optional-chaining"@, Severity::Error),
        ("no-unused-labels"@, Severity::Error),
        ("no-unused-private-class-members"@, Severity::Error),
        ("no-unused-vars"@, Severity::Error),
        ("no-useless-backreference"@, Severity::Error),
        ("no-useless-catch"@, Severity::Error),
        ("no-useless-escape"@, Severity::Error),
        ("no-with"@, Severity::Error),
        ("require-yield"@, Severity::Error),
        ("use-isnan"@, Severity::Error),
        ("valid-typeof"@, Severity::Error),
    ]
}

/// The source linter's `recommended` preset.
pub fn eslint_recommended() -> (r: Vec<(&'static str, Severity)>)
    ensures
        r.deep_view() == spec_eslint_recommended(),
{
    let r: Vec<(&'static str, Severity)> = vec![
        ("constructor-super", Severity::Error),
        ("for-direction", Severity::Error),
        ("getter-return", Severity::Error),
        ("no-async-promise-executor", Severity::Error),
        ("no-case-declarations", Severity::Error),
        ("no-class-assign", Severity::Error),
        ("no-compare-neg-zero", Severity::Error),
        ("no-cond-assign", Severity::Error),
        ("no-const-assign", Severity::Error),
        ("no-constant-binary-expression", Severity::Error),
        ("no-constant-condition", Severity::Error),
        ("no-control-regex", Severity::Error),
        ("no-debugger", Severity::Error),
        ("no-delete-var", Severity::Error),
        ("no-dupe-args", Severity::Error),
        ("no-dupe-class-members", Severity::Error),
        ("no-dupe-else-if", Severity::Error),
        ("no-dupe-keys", Severity::Error),
        ("no-duplicate-case", Severity::Error),
        ("no-empty", Severity::Error),
        ("no-empty-character-class", Severity::Error),
        ("no-empty-pattern", Severity::Error),
        ("no-empty-static-block", Severity::Error),
        ("no-ex-assign", Severity::Error),
        ("no-extra-boolean-cast", Severity::Error),
        ("no-fallthrough", Severity::Error),
        ("no-func-assign", Severity::Error),
        ("no-global-assign", Severity::Error),
        ("no-import-assign", Severity::Error),
        ("no-invalid-regexp", Severity::Error),
        ("no-irregular-whitespace", Severity::Error),
        ("no-loss-of-precision", Severity::Error),
        ("no-misleading-character-class", Severity::Error),
        ("no-new-native-nonconstructor", Severity::Error),
        ("no-nonoctal-decimal-escape", Severity::Error),
        ("no-obj-calls", Severity::Error),
        ("no-octal", Severity::Error),
        ("no-prototype-builtins", Severity::Error),
        ("no-redeclare", Severity::Error),
        ("no-regex-spaces", Severity::Error),
        ("no-self-assign", Severity::Error),
        ("no-setter-return", Severity::Error),
        ("no-shadow-restricted-names", Severity::Error),
        ("no-sparse-arrays", Severity::Error),
        ("no-this-before-super", Severity::Error),
        ("no-undef", Severity::Error),
        ("no-unexpected-multiline", Severity::Error),
        ("no-unreachable", Severity::Error),
        ("no-unsafe-finally", Severity::Error),
        ("no-unsafe-negation", Severity::Error),
        ("no-unsafe-optional-chaining", Severity::Error),
        ("no-unused-labels", Severity::Error),
        ("no-unused-private-class-members", Severity::Error),
        ("no-unused-vars", Severity::Error),
        ("no-useless-backreference", Severity::Error),
        ("no-useless-catch", Severity::Error),
        ("no-useless-escape", Severity::Error),
        ("no-with", Severity::Error),
        ("require-yield", Severity::Error),
        ("use-isnan", Severity::Error),
        ("valid-typeof", Severity::Error),
    ];
    proof {
        assert(r.deep_view() =~= spec_eslint_recommended());
    }
    r
}

/// The pairs of the source linter's `all` preset.
pub open spec fn spec_eslint_all() -> Seq<(Seq<char>, Severity)> {
    seq![
        ("accessor-pairs"@, Severity::Error),
        ("array-callback-return"@, Severity::Error),
        ("arrow-body-style"@, Severity::Error),
        ("block-scoped-var"@, Severity::Error),
        ("camelcase"@, Severity::Error),
        ("capitalized-comments"@, Severity::Error),
        ("class-methods-use-this"@, Severity::Error),
        ("complexity"@, Severity::Error),
        ("consistent-return"@, Severity::Error),
        ("consistent-this"@, Severity::Error),
        ("constructor-super"@, Severity::Error),
        ("curly"@, Severity::Error),
        ("default-case"@, Severity::Error),
        ("default-case-last"@, Severity::Error),
        ("default-param-last"@, Severity::Error),
        ("dot-notation"@, Severity::Error),
        ("eqeqeq"@, Severity::Error),
        ("for-direction"@, Severity::Error),
        ("func-name-matching"@, Severity::Error),
        ("func-names"@, Severity::Error),
        ("func-style"@, Severity::Error),
        ("getter-return"@, Severity::Error),
        ("grouped-accessor-pairs"@, Severity::Error),
        ("guard-for-in"@, Severity::Error),
        ("id-denylist"@, Severity::Error),
        ("id-length"@, Severity::Error),
        ("id-match"@, Severity::Error),
        ("init-declarations"@, Severity::Error),
        ("line-comment-position"@, Severity::Error),
        ("logical-assignment-operators"@, Severity::Error),
        ("max-classes-per-file"@, Severity::Error),
        ("max-depth"@, Severity::Error),
        ("max-lines"@, Severity::Error),
        ("max-lines-per-function"@, Severity::Error),
        ("max-nested-callbacks"@, Severity::Error),
        ("max-params"@, Severity::Error),
        ("max-statements"@, Severity::Error),
        ("multiline-comment-style"@, Severity::Error),
        ("new-cap"@, Severity::Error),
        ("no-alert"@, Severity::Error),
        ("no-array-constructor"@, Severity::Error),
        ("no-async-promise-executor"@, Severity::Error),
        ("no-await-in-loop"@, Severity::Error),
        ("no-bitwise"@, Severity::Error),
        ("no-caller"@, Severity::Error),
        ("no-case-declarations"@, Severity::Error),
        ("no-class-assign"@, Severity::Error),
        ("no-compare-neg-zero"@, Severity::Error),
        ("no-cond-assign"@, Severity::Error),
        ("no-console"@, Severity::Error),
        ("no-const-assign"@, Severity::Error),
        ("no-constant-binary-expression"@, Severity::Error),
        ("no-constant-condition"@, Severity::Error),
        ("no-constructor-return"@, Severity::Error),
        ("no-continue"@, Severity::Error),
        ("no-control-regex"@, Severity::Error),
        ("no-debugger"@, Severity::Error),
        ("no-delete-var"@, Severity::Error),
        ("no-div-regex"@, Severity::Error),
        ("no-dupe-args"@, Severity::Error),
        ("no-dupe-class-members"@, Severity::Error),
        ("no-dupe-else-if"@, Severity::Error),
        ("no-dupe-keys"@, Severity::Error),
        ("no-duplicate-case"@, Severity::Error),
        ("no-duplicate-imports"@, Severity::Error),
        ("no-else-return"@, Severity::Error),
        ("no-empty"@, Severity::Error),
        ("no-empty-character-class"@, Severity::Error),
        ("no-empty-function"@, Severity::Error),
        ("no-empty-pattern"@, Severity::Error),
        ("no-empty-static-block"@, Severity::Error),
        ("no-eq-null"@, Severity::Error),
        ("no-eval"@, Severity::Error),
        ("no-ex-assign"@, Severity::Error),
        ("no-extend-native"@, Severity::Error),
        ("no-extra-bind"@, Severity::Error),
        ("no-extra-boolean-cast"@, Severity::Error),
        ("no-extra-label"@, Severity::Error),
        ("no-fallthrough"@, Severity::Error),
        ("no-func-assign"@, Severity::Error),
        ("no-global-assign"@, Severity::Error),
        ("no-implicit-coercion"@, Severity::Error),
        ("no-implicit-globals"@, Severity::Error),
        ("no-implied-eval"@, Severity::Error),
        ("no-import-assign"@, Severity::Error),
        ("no-inline-comments"@, Severity::Error),
        ("no-inner-declarations"@, Severity::Error),
        ("no-invalid-regexp"@, Severity::Error),
        ("no-invalid-this"@, Severity::Error),
        ("no-irregular-whitespace"@, Severity::Error),
        ("no-iterator"@, Severity::Error),
        ("no-label-var"@, Severity::Error),
        ("no-labels"@, Severity::Error),
        ("no-lone-blocks"@, Severity::Error),
        ("no-lonely-if"@, Severity::Error),
        ("no-loop-func"@, Severity::Error),
        ("no-loss-of-precision"@, Severity::Error),
        ("no-magic-numbers"@, Severity::Error),
        ("no-misleading-character-class"@, Severity::Error),
        ("no-multi-assign"@, Severity::Error),
        ("no-multi-str"@, Severity::Error),
        ("no-negated-condition"@, Severity::Error),
        ("no-nested-ternary"@, Severity::Error),
        ("no-new"@, Severity::Error),
        ("no-new-func"@, Severity::Error),
        ("no-new-native-nonconstructor"@, Severity::Error),
        ("no-new-wrappers"@, Severity::Error),
        ("no-nonoctal-decimal-escape"@, Severity::Error),
        ("no-obj-calls"@, Severity::Error),
        ("no-object-constructor"@, Severity::Error),
        ("no-octal"@, Severity::Error),
        ("no-octal-escape"@, Severity::Error),
        ("no-param-reassign"@, Severity::Error),
        ("no-plusplus"@, Severity::Error),
        ("no-promise-executor-return"@, Severity::Error),
        ("no-proto"@, Severity::Error),
        ("no-prototype-builtins"@, Severity::Error),
        ("no-redeclare"@, Severity::Error),
        ("no-regex-spaces"@, Severity::Error),
        ("no-restricted-exports"@, Severity::Error),
        ("no-restricted-globals"@, Severity::Error),
        ("no-restricted-imports"@, Severity::Error),
        ("no-restricted-properties"@, Severity::Error),
        ("no-restricted-syntax"@, Severity::Error),
        ("no-return-assign"@, Severity::Error),
        ("no-script-url"@, Severity::Error),
        ("no-self-assign"@, Severity::Error),
        ("no-self-compare"@, Severity::Error),
        ("no-sequences"@, Severity::Error),
        ("no-setter-return"@, Severity::Error),
        ("no-shadow"@, Severity::Error),
        ("no-shadow-restricted-names"@, Severity::Error),
        ("no-sparse-arrays"@, Severity::Error),
        ("no-template-curly-in-string"@, Severity::Error),
        ("no-ternary"@, Severity::Error),
        ("no-this-before-super"@, Severity::Error),
        ("no-throw-literal"@, Severity::Error),
        ("no-undef"@, Severity::Error),
        ("no-undef-init"@, Severity::Error),
        ("no-undefined"@, Severity::Error),
        ("no-underscore-dangle"@, Severity::Error),
        ("no-unexpected-multiline"@, Severity::Error),
        ("no-unmodified-loop-condition"@, Severity::Error),
        ("no-unneeded-ternary"@, Severity::Error),
        ("no-unreachable"@, Severity::Error),
        ("no-unreachable-loop"@, Severity::Error),
        ("no-unsafe-finally"@, Severity::Error),
        ("no-unsafe-negation"@, Severity::Error),
        ("no-unsafe-optional-chaining"@, Severity::Error),
        ("no-unused-expressions"@, Severity::Error),
        ("no-unused-labels"@, Severity::Error),
        ("no-unused-private-class-members"@, Severity::Error),
        ("no-unused-vars"@, Severity::Error),
        ("no-use-before-define"@, Severity::Error),
        ("no-useless-assignment"@, Severity::Error),
        ("no-useless-backreference"@, Severity::Error),
        ("no-useless-call"@, Severity::Error),
        ("no-useless-catch"@, Severity::Error),
        ("no-useless-computed-key"@, Severity::Error),
        ("no-useless-concat"@, Severity::Error),
        ("no-useless-constructor"@, Severity::Error),
        ("no-useless-escape"@, Severity::Error),
        ("no-useless-rename"@, Severity::Error),
        ("no-useless-return"@, Severity::Error),
        ("no-var"@, Severity::Error),
        ("no-void"@, Severity::Error),
        ("no-warning-comments"@, Severity::Error),
        ("no-with"@, Severity::Error),
        ("object-shorthand"@, Severity::Error),
        ("one-var"@, Severity::Error),
        ("operator-assignment"@, Severity::Error),
        ("prefer-arrow-callback"@, Severity::Error),
        ("prefer-const"@, Severity::Error),
        ("prefer-destructuring"@, Severity::Error),
        ("prefer-exponentiation-operator"@, Severity::Error),
        ("prefer-named-capture-group"@, Severity::Error),
        ("prefer-numeric-literals"@, Severity::Error),
        ("prefer-object-has-own"@, Severity::Error),
        ("prefer-object-spread"@, Severity::Error),
        ("prefer-promise-reject-errors"@, Severity::Error),
        ("prefer-regex-literals"@, Severity::Error),
        ("prefer-rest-params"@, Severity::Error),
        ("prefer-spread"@, Severity::Error),
        ("prefer-template"@, Severity::Error),
        ("radix"@, Severity::Error),
        ("require-atomic-updates"@, Severity::Error),
        ("require-await"@, Severity::Error),
        ("require-unicode-regexp"@, Severity::Error),
        ("require-yield"@, Severity::Error),
        ("sort-imports"@, Severity::Error),
        ("sort-keys"@, Severity::Error),
        ("sort-vars"@, Severity::Error),
        ("strict"@, Severity::Error),
        ("symbol-description"@, Severity::Error),
        ("unicode-bom"@, Severity::Error),
        ("use-isnan"@, Severity::Error),
        ("valid-typeof"@, Severity::Error),
        ("vars-on-top"@, Severity::Error),
        ("yoda"@, Severity::Error),
    ]
}

/// The source linter's `all` preset.
pub fn eslint_all() -> (r: Vec<(&'static str, Severity)>)
    ensures
        r.deep_view() == spec_eslint_all(),
{
    let r: Vec<(&'static str, Severity)> = vec![
        ("accessor-pairs", Severity::Error),
        ("array-callback-return", Severity::Error),
        ("arrow-body-style", Severity::Error),
        ("block-scoped-var", Severity::Error),
        ("camelcase", Severity::Error),
        ("capitalized-comments", Severity::Error),
        ("class-methods-use-this", Severity::Error),
        ("complexity", Severity::Error),
        ("consistent-return", Severity::Error),
        ("consistent-this", Severity::Error),
        ("constructor-super", Severity::Error),
        ("curly", Severity::Error),
        ("default-case", Severity::Error),
        ("default-case-last", Severity::Error),
        ("default-param-last", Severity::Error),
        ("dot-notation", Severity::Error),
        ("eqeqeq", Severity::Error),
        ("for-direction", Severity::Error),
        ("func-name-matching", Severity::Error),
        ("func-names", Severity::Error),
        ("func-style", Severity::Error),
        ("getter-return", Severity::Error),
        ("grouped-accessor-pairs", Severity::Error),
        ("guard-for-in", Severity::Error),
        ("id-denylist", Severity::Error),
        ("id-length", Severity::Error),
        ("id-match", Severity::Error),
        ("init-declarations", Severity::Error),
        ("line-comment-position", Severity::Error),
        ("logical-assignment-operators", Severity::Error),
        ("max-classes-per-file", Severity::Error),
        ("max-depth", Severity::Error),
        ("max-lines", Severity::Error),
        ("max-lines-per-function", Severity::Error),
        ("max-nested-callbacks", Severity::Error),
        ("max-params", Severity::Error),
        ("max-statements", Severity::Error),
        ("multiline-comment-style", Severity::Error),
        ("new-cap", Severity::Error),
        ("no-alert", Severity::Error),
        ("no-array-constructor", Severity::Error),
        ("no-async-promise-executor", Severity::Error),
        ("no-await-in-loop", Severity::Error),
        ("no-bitwise", Severity::Error),
        ("no-caller", Severity::Error),
        ("no-case-declarations", Severity::Error),
        ("no-class-assign", Severity::Error),
        ("no-compare-neg-zero", Severity::Error),
        ("no-cond-assign", Severity::Error),
        ("no-console", Severity::Error),
        ("no-const-assign", Severity::Error),
        ("no-constant-binary-expression", Severity::Error),
        ("no-constant-condition", Severity::Error),
        ("no-constructor-return", Severity::Error),
        ("no-continue", Severity::Error),
        ("no-control-regex", Severity::Error),
        ("no-debugger", Severity::Error),
        ("no-delete-var", Severity::Error),
        ("no-div-regex", Severity::Error),
        ("no-dupe-args", Severity::Error),
        ("no-dupe-class-members", Severity::Error),
        ("no-dupe-else-if", Severity::Error),
        ("no-dupe-keys", Severity::Error),
        ("no-duplicate-case", Severity::Error),
        ("no-duplicate-imports", Severity::Error),
        ("no-else-return", Severity::Error),
        ("no-empty", Severity::Error),
        ("no-empty-character-class", Severity::Error),
        ("no-empty-function", Severity::Error),
        ("no-empty-pattern", Severity::Error),
        ("no-empty-static-block", Severity::Error),
        ("no-eq-null", Severity::Error),
        ("no-eval", Severity::Error),
        ("no-ex-assign", Severity::Error),
        ("no-extend-native", Severity::Error),
        ("no-extra-bind", Severity::Error),
        ("no-extra-boolean-cast", Severity::Error),
        ("no-extra-label", Severity::Error),
        ("no-fallthrough", Severity::Error),
        ("no-func-assign", Severity::Error),
        ("no-global-assign", Severity::Error),
        ("no-implicit-coercion", Severity::Error),
        ("no-implicit-globals", Severity::Error),
        ("no-implied-eval", Severity::Error),
        ("no-import-assign", Severity::Error),
        ("no-inline-comments", Severity::Error),
        ("no-inner-declarations", Severity::Error),
        ("no-invalid-regexp", Severity::Error),
        ("no-invalid-this", Severity::Error),
        ("no-irregular-whitespace", Severity::Error),
        ("no-iterator", Severity::Error),
        ("no-label-var", Severity::Error),
        ("no-labels", Severity::Error),
        ("no-lone-blocks", Severity::Error),
        ("no-lonely-if", Severity::Error),
        ("no-loop-func", Severity::Error),
        ("no-loss-of-precision", Severity::Error),
        ("no-magic-numbers", Severity::Error),
        ("no-misleading-character-class", Severity::Error),
        ("no-multi-assign", Severity::Error),
        ("no-multi-str", Severity::Error),
        ("no-negated-condition", Severity::Error),
        ("no-nested-ternary", Severity::Error),
        ("no-new", Severity::Error),
        ("no-new-func", Severity::Error),
        ("no-new-native-nonconstructor", Severity::Error),
        ("no-new-wrappers", Severity::Error),
        ("no-nonoctal-decimal-escape", Severity::Error),
        ("no-obj-calls", Severity::Error),
        ("no-object-constructor", Severity::Error),
        ("no-octal", Severity::Error),
        ("no-octal-escape", Severity::Error),
        ("no-param-reassign", Severity::Error),
        ("no-plusplus", Severity::Error),
        ("no-promise-executor-return", Severity::Error),
        ("no-proto", Severity::Error),
        ("no-prototype-builtins", Severity::Error),
        ("no-redeclare", Severity::Error),
        ("no-regex-spaces", Severity::Error),
        ("no-restricted-exports", Severity::Error),
        ("no-restricted-globals", Severity::Error),
        ("no-restricted-imports", Severity::Error),
        ("no-restricted-properties", Severity::Error),
        ("no-restricted-syntax", Severity::Error),
        ("no-return-assign", Severity::Error),
        ("no-script-url", Severity::Error),
        ("no-self-assign", Severity::Error),
        ("no-self-compare", Severity::Error),
        ("no-sequences", Severity::Error),
        ("no-setter-return", Severity::Error),
        ("no-shadow", Severity::Error),
        ("no-shadow-restricted-names", Severity::Error),
        ("no-sparse-arrays", Severity::Error),
        ("no-template-curly-in-string", Severity::Error),
        ("no-ternary", Severity::Error),
        ("no-this-before-super", Severity::Error),
        ("no-throw-literal", Severity::Error),
        ("no-undef", Severity::Error),
        ("no-undef-init", Severity::Error),
        ("no-undefined", Severity::Error),
        ("no-underscore-dangle", Severity::Error),
        ("no-unexpected-multiline", Severity::Error),
        ("no-unmodified-loop-condition", Severity::Error),
        ("no-unneeded-ternary", Severity::Error),
        ("no-unreachable", Severity::Error),
        ("no-unreachable-loop", Severity::Error),
        ("no-unsafe-finally", Severity::Error),
        ("no-unsafe-negation", Severity::Error),
        ("no-unsafe-optional-chaining", Severity::Error),
        ("no-unused-expressions", Severity::Error),
        ("no-unused-labels", Severity::Error),
        ("no-unused-private-class-members", Severity::Error),
        ("no-unused-vars", Severity::Error),
        ("no-use-before-define", Severity::Error),
        ("no-useless-assignment", Severity::Error),
        ("no-useless-backreference", Severity::Error),
        ("no-useless-call", Severity::Error),
        ("no-useless-catch", Severity::Error),
        ("no-useless-computed-key", Severity::Error),
        ("no-useless-concat", Severity::Error),
        ("no-useless-constructor", Severity::Error),
        ("no-useless-escape", Severity::Error),
        ("no-useless-rename", Severity::Error),
        ("no-useless-return", Severity::Error),
        ("no-var", Severity::Error),
        ("no-void", Severity::Error),
        ("no-warning-comments", Severity::Error),
        ("no-with", Severity::Error),
        ("object-shorthand", Severity::Error),
        ("one-var", Severity::Error),
        ("operator-assignment", Severity::Error),
        ("prefer-arrow-callback", Severity::Error),
        ("prefer-const", Severity::Error),
        ("prefer-destructuring", Severity::Error),
        ("prefer-exponentiation-operator", Severity::Error),
        ("prefer-named-capture-group", Severity::Error),
        ("prefer-numeric-literals", Severity::Error),
        ("prefer-object-has-own", Severity::Error),
        ("prefer-object-spread", Severity::Error),
        ("prefer-promise-reject-errors", Severity::Error),
        ("prefer-regex-literals", Severity::Error),
        ("prefer-rest-params", Severity::Error),
        ("prefer-spread", Severity::Error),
        ("prefer-template", Severity::Error),
        ("radix", Severity::Error),
        ("require-atomic-updates", Severity::Error),
        ("require-await", Severity::Error),
        ("require-unicode-regexp", Severity::Error),
        ("require-yield", Severity::Error),
        ("sort-imports", Severity::Error),
        ("sort-keys", Severity::Error),
        ("sort-vars", Severity::Error),
        ("strict", Severity::Error),
        ("symbol-description", Severity::Error),
        ("unicode-bom", Severity::Error),
        ("use-isnan", Severity::Error),
        ("valid-typeof", Severity::Error),
        ("vars-on-top", Severity::Error),
        ("yoda", Severity::Error),
    ];
    proof {
        assert(r.deep_view() =~= spec_eslint_all());
    }
    r
}

} // verus!
