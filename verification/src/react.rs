//! Preset rule tables of the React plugin.

use crate::severity::Severity;
use vstd::prelude::*;

verus! {

/// The pairs of the plugin's `jsx-runtime` preset.
pub open spec fn spec_jsx_runtime() -> Seq<(Seq<char>, Severity)> {
    seq![
        ("react/react-in-jsx-scope"@, Severity::Off),
        ("react/jsx-uses-react"@, Severity::Off),
    ]
}

/// The plugin's `jsx-runtime` preset.
pub fn jsx_runtime() -> (r: Vec<(&'static str, Severity)>)
    ensures
        r.deep_view() == spec_jsx_runtime(),
{
    let r: Vec<(&'static str, Severity)> = vec![
        ("react/react-in-jsx-scope", Severity::Off),
        ("react/jsx-uses-react", Severity::Off),
    ];
    proof {
        assert(r.deep_view() =~= spec_jsx_runtime());
    }
    r
}

/// The pairs of the plugin's `recommended` preset.
pub open spec fn spec_recommended() -> Seq<(Seq<char>, Severity)> {
    seq![
        ("react/display-name"@, Severity::Error),
        ("react/jsx-key"@, Severity::Error),
        ("react/jsx-no-comment-textnodes"@, Severity::Error),
        ("react/jsx-no-duplicate-props"@, Severity::Error),
        ("react/jsx-no-target-blank"@, Severity::Error),
        ("react/jsx-no-undef"@, Severity::Error),
        ("react/jsx-uses-react"@, Severity::Error),
        ("react/jsx-uses-vars"@, Severity::Error),
        ("react/no-children-prop"@, Severity::Error),
        ("react/no-danger-with-children"@, Severity::Error),
        ("react/no-deprecated"@, Severity::Error),
        ("react/no-direct-mutation-state"@, Severity::Error),
        ("react/no-find-dom-node"@, Severity::Error),
        ("react/no-is-mounted"@, Severity::Error),
        ("react/no-render-return-value"@, Severity::Error),
        ("react/no-string-refs"@, Severity::Error),
        ("react/no-unescaped-entities"@, Severity::Error),
        ("react/no-unknown-property"@, Severity::Error),
        ("react/no-unsafe"@, Severity::Error),
        ("react/prop-types"@, Severity::Error),
        ("react/react-in-jsx-scope"@, Severity::Error),
        ("react/require-render-return"@, Severity::Error),
    ]
}

/// The plugin's `recommended` preset.
pub fn recommended() -> (r: Vec<(&'static str, Severity)>)
    ensures
        r.deep_view() == spec_recommended(),
{
    let r: Vec<(&'static str, Severity)> = vec![
        ("react/display-name", Severity::Error),
        ("react/jsx-key", Severity::Error),
        ("react/jsx-no-comment-textnodes", Severity::Error),
        ("react/jsx-no-duplicate-props", Severity::Error),
        ("react/jsx-no-target-blank", Severity::Error),
        ("react/jsx-no-undef", Severity::Error),
        ("react/jsx-uses-react", Severity::Error),
        ("react/jsx-uses-vars", Severity::Error),
        ("react/no-children-prop", Severity::Error),
        ("react/no-danger-with-children", Severity::Error),
        ("react/no-deprecated", Severity::Error),
        ("react/no-direct-mutation-state", Severity::Error),
        ("react/no-find-dom-node", Severity::Error),
        ("react/no-is-mounted", Severity::Error),
        ("react/no-render-return-value", Severity::Error),
        ("react/no-string-refs", Severity::Error),
        ("react/no-unescaped-entities", Severity::Error),
        ("react/no-unknown-property", Severity::Error),
        ("react/no-unsafe", Severity::Error),
        ("react/prop-types", Severity::Error),
        ("react/react-in-jsx-scope", Severity::Error),
        ("react/require-render-return", Severity::Error),
    ];
    proof {
        assert(r.deep_view() =~= spec_recommended());
    }
    r
}

/// The pairs of the plugin's rules that its `recommended` preset does not enable.
pub open spec fn spec_non_recommended() -> Seq<(Seq<char>, Severity)> {
    seq![
        ("react/boolean-prop-naming"@, Severity::Error),
        ("react/button-has-type"@, Severity::Error),
        ("react/checked-requires-onchange-or-readonly"@, Severity::Error),
        ("react/default-props-match-prop-types"@, Severity::Error),
        ("react/destructuring-assignment"@, Severity::Error),
        ("react/forbid-component-props"@, Severity::Error),
        ("react/forbid-dom-props"@, Severity::Error),
        ("react/forbid-elements"@, Severity::Error),
        ("react/forbid-foreign-prop-types"@, Severity::Error),
        ("react/forbid-prop-types"@, Severity::Error),
        ("react/function-component-definition"@, Severity::Error),
        ("react/hook-use-state"@, Severity::Error),
        ("react/iframe-missing-sandbox"@, Severity::Error),
        ("react/index"@, Severity::Error),
        ("react/jsx-boolean-value"@, Severity::Error),
        ("react/jsx-child-element-spacing"@, Severity::Error),
        ("react/jsx-closing-bracket-location"@, Severity::Error),
        ("react/jsx-closing-tag-location"@, Severity::Error),
        ("react/jsx-curly-brace-presence"@, Severity::Error),
        ("react/jsx-curly-newline"@, Severity::Error),
        ("react/jsx-curly-spacing"@, Severity::Error),
        ("react/jsx-equals-spacing"@, Severity::Error),
        ("react/jsx-filename-extension"@, Severity::Error),
        ("react/jsx-first-prop-new-line"@, Severity::Error),
        ("react/jsx-fragments"@, Severity::Error),
        ("react/jsx-handler-names"@, Severity::Error),
        ("react/jsx-indent"@, Severity::Error),
        ("react/jsx-indent-props"@, Severity::Error),
        ("react/jsx-max-depth"@, Severity::Error),
        ("react/jsx-max-props-per-line"@, Severity::Error),
        ("react/jsx-newline"@, Severity::Error),
        ("react/jsx-no-bind"@, Severity::Error),
        ("react/jsx-no-constructed-context-values"@, Severity::Error),
        ("react/jsx-no-leaked-render"@, Severity::Error),
        ("react/jsx-no-literals"@, Severity::Error),
        ("react/jsx-no-script-url"@, Severity::Error),
        ("react/jsx-no-useless-fragment"@, Severity::Error),
        ("react/jsx-one-expression-per-line"@, Severity::Error),
        ("react/jsx-pascal-case"@, Severity::Error),
        ("react/jsx-props-no-multi-spaces"@, Severity::Error),
        ("react/jsx-props-no-spreading"@, Severity::Error),
        ("react/jsx-sort-default-props"@, Severity::Error),
        ("react/jsx-sort-props"@, Severity::Error),
        ("react/jsx-space-before-closing"@, Severity::Error),
        ("react/jsx-tag-spacing"@, Severity::Error),
        ("react/jsx-wrap-multilines"@, Severity::Error),
        ("react/no-access-state-in-setstate"@, Severity::Error),
        ("react/no-adjacent-inline-elements"@, Severity::Error),
        ("react/no-array-index-key"@, Severity::Error),
        ("react/no-arrow-function-lifecycle"@, Severity::Error),
        ("react/no-danger"@, Severity::Error),
        ("react/no-did-mount-set-state"@, Severity::Error),
        ("react/no-did-update-set-state"@, Severity::Error),
        ("react/no-invalid-html-attribute"@, Severity::Error),
        ("react/no-multi-comp"@, Severity::Error),
        ("react/no-namespace"@, Severity::Error),
        ("react/no-object-type-as-default-prop"@, Severity::Error),
        ("react/no-redundant-should-component-update"@, Severity::Error),
        ("react/no-set-state"@, Severity::Error),
        ("react/no-this-in-sfc"@, Severity::Error),
        ("react/no-typos"@, Severity::Error),
        ("react/no-unstable-nested-components"@, Severity::Error),
        ("react/no-unused-class-component-methods"@, Severity::Error),
        ("react/no-unused-prop-types"@, Severity::Error),
        ("react/no-unused-state"@, Severity::Error),
        ("react/no-will-update-set-state"@, Severity::Error),
        ("react/prefer-es6-class"@, Severity::Error),
        ("react/prefer-exact-props"@, Severity::Error),
        ("react/prefer-read-only-props"@, Severity::Error),
        ("react/prefer-stateless-function"@, Severity::Error),
        ("react/require-default-props"@, Severity::Error),
        ("react/require-optimization"@, Severity::Error),
        ("react/self-closing-comp"@, Severity::Error),
        ("react/sort-comp"@, Severity::Error),
        ("react/sort-default-props"@, Severity::Error),
        ("react/sort-prop-types"@, Severity::Error),
        ("react/state-in-constructor"@, Severity::Error),
        ("react/static-property-placement"@, Severity::Error),
        ("react/style-prop-object"@, Severity::Error),
        ("react/void-dom-elements-no-children"@, Severity::Error),
    ]
}

/// The plugin's rules that its `recommended` preset does not enable.
pub fn non_recommended() -> (r: Vec<(&'static str, Severity)>)
    ensures
        r.deep_view() == spec_non_recommended(),
{
    let r: Vec<(&'static str, Severity)> = vec![
        ("react/boolean-prop-naming", Severity::Error),
        ("react/button-has-type", Severity::Error),
        ("react/checked-requires-onchange-or-readonly", Severity::Error),
        ("react/default-props-match-prop-types", Severity::Error),
        ("react/destructuring-assignment", Severity::Error),
        ("react/forbid-component-props", Severity::Error),
        ("react/forbid-dom-props", Severity::Error),
        ("react/forbid-elements", Severity::Error),
        ("react/forbid-foreign-prop-types", Severity::Error),
        ("react/forbid-prop-types", Severity::Error),
        ("react/function-component-definition", Severity::Error),
        ("react/hook-use-state", Severity::Error),
        ("react/iframe-missing-sandbox", Severity::Error),
        ("react/index", Severity::Error),
        ("react/jsx-boolean-value", Severity::Error),
        ("react/jsx-child-element-spacing", Severity::Error),
        ("react/jsx-closing-bracket-location", Severity::Error),
        ("react/jsx-closing-tag-location", Severity::Error),
        ("react/jsx-curly-brace-presence", Severity::Error),
        ("react/jsx-curly-newline", Severity::Error),
        ("react/jsx-curly-spacing", Severity::Error),
        ("react/jsx-equals-spacing", Severity::Error),
        ("react/jsx-filename-extension", Severity::Error),
        ("react/jsx-first-prop-new-line", Severity::Error),
        ("react/jsx-fragments", Severity::Error),
        ("react/jsx-handler-names", Severity::Error),
        ("react/jsx-indent", Severity::Error),
        ("react/jsx-indent-props", Severity::Error),
        ("react/jsx-max-depth", Severity::Error),
        ("react/jsx-max-props-per-line", Severity::Error),
        ("react/jsx-newline", Severity::Error),
        ("react/jsx-no-bind", Severity::Error),
        ("react/jsx-no-constructed-context-values", Severity::Error),
        ("react/jsx-no-leaked-render", Severity::Error),
        ("react/jsx-no-literals", Severity::Error),
        ("react/jsx-no-script-url", Severity::Error),
        ("react/jsx-no-useless-fragment", Severity::Error),
        ("react/jsx-one-expression-per-line", Severity::Error),
        ("react/jsx-pascal-case", Severity::Error),
        ("react/jsx-props-no-multi-spaces", Severity::Error),
        ("react/jsx-props-no-spreading", Severity::Error),
        ("react/jsx-sort-default-props", Severity::Error),
        ("react/jsx-sort-props", Severity::Error),
        ("react/jsx-space-before-closing", Severity::Error),
        ("react/jsx-tag-spacing", Severity::Error),
        ("react/jsx-wrap-multilines", Severity::Error),
        ("react/no-access-state-in-setstate", Severity::Error),
        ("react/no-adjacent-inline-elements", Severity::Error),
        ("react/no-array-index-key", Severity::Error),
        ("react/no-arrow-function-lifecycle", Severity::Error),
        ("react/no-danger", Severity::Error),
        ("react/no-did-mount-set-state", Severity::Error),
        ("react/no-did-update-set-state", Severity::Error),
        ("react/no-invalid-html-attribute", Severity::Error),
        ("react/no-multi-comp", Severity::Error),
        ("react/no-namespace", Severity::Error),
        ("react/no-object-type-as-default-prop", Severity::Error),
        ("react/no-redundant-should-component-update", Severity::Error),
        ("react/no-set-state", Severity::Error),
        ("react/no-this-in-sfc", Severity::Error),
        ("react/no-typos", Severity::Error),
        ("react/no-unstable-nested-components", Severity::Error),
        ("react/no-unused-class-component-methods", Severity::Error),
        ("react/no-unused-prop-types", Severity::Error),
        ("react/no-unused-state", Severity::Error),
        ("react/no-will-update-set-state", Severity::Error),
        ("react/prefer-es6-class", Severity::Error),
        ("react/prefer-exact-props", Severity::Error),
        ("react/prefer-read-only-props", Severity::Error),
        ("react/prefer-stateless-function", Severity::Error),
        ("react/require-default-props", Severity::Error),
        ("react/require-optimization", Severity::Error),
        ("react/self-closing-comp", Severity::Error),
        ("react/sort-comp", Severity::Error),
        ("react/sort-default-props", Severity::Error),
        ("react/sort-prop-types", Severity::Error),
        ("react/state-in-constructor", Severity::Error),
        ("react/static-property-placement", Severity::Error),
        ("react/style-prop-object", Severity::Error),
        ("react/void-dom-elements-no-children", Severity::Error),
    ];
    proof {
        assert(r.deep_view() =~= spec_non_recommended());
    }
    r
}

} // verus!
