//! Configuration of the TypeScript plugin's rules, and the translation of
//! their options into the target model.

use crate::biome;
use crate::decode::{
    decode_shorthand, decode_vec, push_diag, spec_decode_list, spec_decode_shorthand,
    spec_list_diag_count, spec_shorthand_diag_count, str_eq, DecodeValue, Shorthand,
};
use crate::severity::Severity;
use crate::diagnostics::{lemma_prefix_trans, Diagnostic, DiagnosticSeverity};
use crate::value::Value;
use vstd::prelude::*;

verus! {

/// The array-type spellings the source rule distinguishes.
#[derive(Clone, Copy, Debug, PartialEq, Eq, Structural)]
pub enum ArrayType {
    Array,
    ArraySimple,
    Generic,
}

impl DeepView for ArrayType {
    type V = ArrayType;

    open spec fn deep_view(&self) -> ArrayType {
        *self
    }
}

/// Which keyword names which array-type spelling.
pub open spec fn array_type_of_keyword(s: Seq<char>) -> Option<ArrayType> {
    if s == "array"@ {
        Some(ArrayType::Array)
    } else if s == "array-simple"@ {
        Some(ArrayType::ArraySimple)
    } else if s == "generic"@ {
        Some(ArrayType::Generic)
    } else {
        None
    }
}

/// How many diagnostics decoding a value as an array-type spelling records: none
/// when a known keyword decodes, one otherwise.
pub open spec fn array_type_diag_count(v: Value) -> nat {
    match v {
        Value::Str(s) => if array_type_of_keyword(s@) is Some {
            0
        } else {
            1
        },
        _ => 1,
    }
}

impl DecodeValue for ArrayType {
    open spec fn spec_decode(v: Value) -> Option<ArrayType> {
        match v {
            Value::Str(s) => array_type_of_keyword(s@),
            _ => None,
        }
    }

    open spec fn spec_diag_count(v: Value) -> nat {
        array_type_diag_count(v)
    }

    fn decode(v: &Value, diags: &mut Vec<Diagnostic>) -> (r: Option<ArrayType>) {
        match v {
            Value::Str(s) => {
                if str_eq(s.as_str(), "array") {
                    Some(ArrayType::Array)
                } else if str_eq(s.as_str(), "array-simple") {
                    Some(ArrayType::ArraySimple)
                } else if str_eq(s.as_str(), "generic") {
                    Some(ArrayType::Generic)
                } else {
                    push_diag(diags, DiagnosticSeverity::Error, "Unknown array type.");
                    None
                }
            },
            _ => {
                push_diag(diags, DiagnosticSeverity::Error, "Expected a string.");
                None
            },
        }
    }
}

/// The options of the source array-type rule: a spelling for mutable arrays
/// and, optionally, a distinct spelling for read-only arrays.
#[derive(Clone, Copy, Debug, PartialEq, Eq, Structural)]
pub struct ArrayTypeOptions {
    pub default_type: ArrayType,
    pub readonly: Option<ArrayType>,
}

impl DeepView for ArrayTypeOptions {
    type V = ArrayTypeOptions;

    open spec fn deep_view(&self) -> ArrayTypeOptions {
        *self
    }
}

/// How one object field updates partially decoded array-type options.
pub open spec fn array_type_options_step(
    acc: ArrayTypeOptions,
    kv: (String, Value),
) -> ArrayTypeOptions {
    if kv.0@ == "default"@ {
        match ArrayType::spec_decode(kv.1) {
            Some(x) => (ArrayTypeOptions { default_type: x, ..acc }),
            None => acc,
        }
    } else if kv.0@ == "readonly"@ {
        match ArrayType::spec_decode(kv.1) {
            Some(x) => (ArrayTypeOptions { readonly: Some(x), ..acc }),
            None => acc,
        }
    } else {
        acc
    }
}

/// The object fields of array-type options, folded in source order.
pub open spec fn array_type_options_fold(
    entries: Seq<(String, Value)>,
    acc: ArrayTypeOptions,
) -> ArrayTypeOptions
    decreases entries.len(),
{
    if entries.len() == 0 {
        acc
    } else {
        array_type_options_step(
            array_type_options_fold(entries.drop_last(), acc),
            entries.last(),
        )
    }
}

/// The options every field starts from.
pub open spec fn array_type_options_init() -> ArrayTypeOptions {
    ArrayTypeOptions { default_type: ArrayType::Array, readonly: None }
}

/// How many diagnostics one array-type-options field records: the
/// spelling's own count for the two known fields, none for unknown fields.
pub open spec fn array_type_options_step_diag_count(kv: (String, Value)) -> nat {
    if kv.0@ == "default"@ {
        array_type_diag_count(kv.1)
    } else if kv.0@ == "readonly"@ {
        array_type_diag_count(kv.1)
    } else {
        0
    }
}

/// How many diagnostics the fields of array-type options record in all.
pub open spec fn array_type_options_fold_diag_count(entries: Seq<(String, Value)>) -> nat
    decreases entries.len(),
{
    if entries.len() == 0 {
        0
    } else {
        array_type_options_fold_diag_count(entries.drop_last())
            + array_type_options_step_diag_count(entries.last())
    }
}

/// How many diagnostics decoding a value as array-type options records.
pub open spec fn array_type_options_diag_count(v: Value) -> nat {
    match v {
        Value::Object(entries) => array_type_options_fold_diag_count(entries@),
        _ => 1,
    }
}

impl DecodeValue for ArrayTypeOptions {
    open spec fn spec_decode(v: Value) -> Option<ArrayTypeOptions> {
        match v {
            Value::Object(entries) => Some(
                array_type_options_fold(entries@, array_type_options_init()),
            ),
            _ => None,
        }
    }

    open spec fn spec_diag_count(v: Value) -> nat {
        array_type_options_diag_count(v)
    }

    #[verifier::loop_isolation(false)]
    fn decode(v: &Value, diags: &mut Vec<Diagnostic>) -> (r: Option<ArrayTypeOptions>) {
        match v {
            Value::Object(entries) => {
                let mut acc = ArrayTypeOptions { default_type: ArrayType::Array, readonly: None };
                let n = entries.len();
                let mut i: usize = 0;
                while i < n
                    invariant
                        i <= n,
                        acc == array_type_options_fold(
                            entries@.take(i as int),
                            array_type_options_init(),
                        ),
                        old(diags)@.is_prefix_of(diags@),
                        diags@.len() == old(diags)@.len() + array_type_options_fold_diag_count(
                            entries@.take(i as int),
                        ),
                    decreases n - i,
                {
                    let ghost dpre = diags@;
                    proof {
                        assert(entries@.take(i + 1 as int).drop_last() =~= entries@.take(i as int));
                        assert(entries@.take(i + 1 as int).last() == entries@[i as int]);
                    }
                    if str_eq(entries[i].0.as_str(), "default") {
                        match ArrayType::decode(&entries[i].1, diags) {
                            Some(x) => {
                                acc = ArrayTypeOptions { default_type: x, ..acc };
                            },
                            None => {},
                        }
                    } else if str_eq(entries[i].0.as_str(), "readonly") {
                        match ArrayType::decode(&entries[i].1, diags) {
                            Some(x) => {
                                acc = ArrayTypeOptions { readonly: Some(x), ..acc };
                            },
                            None => {},
                        }
                    }
                    proof {
                        lemma_prefix_trans(old(diags)@, dpre, diags@);
                    }
                    i += 1;
                }
                proof {
                    assert(entries@.take(n as int) =~= entries@);
                }
                Some(acc)
            },
            _ => {
                push_diag(diags, DiagnosticSeverity::Error, "Expected an object.");
                None
            },
        }
    }
}

/// Which target spelling a source spelling collapses to: the two
/// equivalent array spellings become the shorthand, the generic spelling
/// stays generic.
pub open spec fn array_type_to_biome(t: ArrayType) -> biome::ConsistentArrayType {
    match t {
        ArrayType::Array => biome::ConsistentArrayType::Shorthand,
        ArrayType::ArraySimple => biome::ConsistentArrayType::Shorthand,
        ArrayType::Generic => biome::ConsistentArrayType::Generic,
    }
}

impl ArrayTypeOptions {
    /// Translates these options into the target's consistent-array-type
    /// options; only the default spelling carries over.
    pub fn into_biome(self) -> (r: biome::ConsistentArrayTypeOptions)
        ensures
            r.syntax == array_type_to_biome(self.default_type),
    {
        biome::ConsistentArrayTypeOptions {
            syntax: match self.default_type {
                ArrayType::Array => biome::ConsistentArrayType::Shorthand,
                ArrayType::ArraySimple => biome::ConsistentArrayType::Shorthand,
                ArrayType::Generic => biome::ConsistentArrayType::Generic,
            },
        }
    }
}

/// What a naming-convention selector applies to.
#[derive(Clone, Copy, Debug, PartialEq, Eq, Structural)]
pub enum Selector {
    ClassicAccessor,
    AutoAccessor,
    Class,
    ClassMethod,
    ClassProperty,
    Enum,
    EnumMember,
    Function,
    Import,
    Interface,
    ObjectLiteralMethod,
    ObjectLiteralProperty,
    Parameter,
    ParameterProperty,
    TypeAlias,
    TypeMethod,
    TypeParameter,
    TypeProperty,
    Variable,
    Default,
    Accessor,
    MemberLike,
    Method,
    Property,
    TypeLike,
    VariableLike,
}

impl DeepView for Selector {
    type V = Selector;

    open spec fn deep_view(&self) -> Selector {
        *self
    }
}

/// Which keyword names which selector.
pub open spec fn selector_of_keyword(s: Seq<char>) -> Option<Selector> {
    if s == "classicAccessor"@ {
        Some(Selector::ClassicAccessor)
    } else if s == "autoAccessor"@ {
        Some(Selector::AutoAccessor)
    } else if s == "class"@ {
        Some(Selector::Class)
    } else if s == "classMethod"@ {
        Some(Selector::ClassMethod)
    } else if s == "classProperty"@ {
        Some(Selector::ClassProperty)
    } else if s == "enum"@ {
        Some(Selector::Enum)
    } else if s == "enumMember"@ {
        Some(Selector::EnumMember)
    } else if s == "function"@ {
        Some(Selector::Function)
    } else if s == "import"@ {
        Some(Selector::Import)
    } else if s == "interface"@ {
        Some(Selector::Interface)
    } else if s == "objectLiteralMethod"@ {
        Some(Selector::ObjectLiteralMethod)
    } else if s == "objectLiteralProperty"@ {
        Some(Selector::ObjectLiteralProperty)
    } else if s == "parameter"@ {
        Some(Selector::Parameter)
    } else if s == "parameterProperty"@ {
        Some(Selector::ParameterProperty)
    } else if s == "typeAlias"@ {
        Some(Selector::TypeAlias)
    } else if s == "typeMethod"@ {
        Some(Selector::TypeMethod)
    } else if s == "typeParameter"@ {
        Some(Selector::TypeParameter)
    } else if s == "typeProperty"@ {
        Some(Selector::TypeProperty)
    } else if s == "variable"@ {
        Some(Selector::Variable)
    } else if s == "default"@ {
        Some(Selector::Default)
    } else if s == "accessor"@ {
        Some(Selector::Accessor)
    } else if s == "memberLike"@ {
        Some(Selector::MemberLike)
    } else if s == "method"@ {
        Some(Selector::Method)
    } else if s == "property"@ {
        Some(Selector::Property)
    } else if s == "typeLike"@ {
        Some(Selector::TypeLike)
    } else if s == "variableLike"@ {
        Some(Selector::VariableLike)
    } else {
        None
    }
}

/// How many diagnostics decoding a value as a selector records: none
/// when a known keyword decodes, one otherwise.
pub open spec fn selector_diag_count(v: Value) -> nat {
    match v {
        Value::Str(s) => if selector_of_keyword(s@) is Some {
            0
        } else {
            1
        },
        _ => 1,
    }
}

impl DecodeValue for Selector {
    open spec fn spec_decode(v: Value) -> Option<Selector> {
        match v {
            Value::Str(s) => selector_of_keyword(s@),
            _ => None,
        }
    }

    open spec fn spec_diag_count(v: Value) -> nat {
        selector_diag_count(v)
    }

    fn decode(v: &Value, diags: &mut Vec<Diagnostic>) -> (r: Option<Selector>) {
        match v {
            Value::Str(s) => {
                let k = s.as_str();
                if str_eq(k, "classicAccessor") {
                    Some(Selector::ClassicAccessor)
                } else if str_eq(k, "autoAccessor") {
                    Some(Selector::AutoAccessor)
                } else if str_eq(k, "class") {
                    Some(Selector::Class)
                } else if str_eq(k, "classMethod") {
                    Some(Selector::ClassMethod)
                } else if str_eq(k, "classProperty") {
                    Some(Selector::ClassProperty)
                } else if str_eq(k, "enum") {
                    Some(Selector::Enum)
                } else if str_eq(k, "enumMember") {
                    Some(Selector::EnumMember)
                } else if str_eq(k, "function") {
                    Some(Selector::Function)
                } else if str_eq(k, "import") {
                    Some(Selector::Import)
                } else if str_eq(k, "interface") {
                    Some(Selector::Interface)
                } else if str_eq(k, "objectLiteralMethod") {
                    Some(Selector::ObjectLiteralMethod)
                } else if str_eq(k, "objectLiteralProperty") {
                    Some(Selector::ObjectLiteralProperty)
                } else if str_eq(k, "parameter") {
                    Some(Selector::Parameter)
                } else if str_eq(k, "parameterProperty") {
                    Some(Selector::ParameterProperty)
                } else if str_eq(k, "typeAlias") {
                    Some(Selector::TypeAlias)
                } else if str_eq(k, "typeMethod") {
                    Some(Selector::TypeMethod)
                } else if str_eq(k, "typeParameter") {
                    Some(Selector::TypeParameter)
                } else if str_eq(k, "typeProperty") {
                    Some(Selector::TypeProperty)
                } else if str_eq(k, "variable") {
                    Some(Selector::Variable)
                } else if str_eq(k, "default") {
                    Some(Selector::Default)
                } else if str_eq(k, "accessor") {
                    Some(Selector::Accessor)
                } else if str_eq(k, "memberLike") {
                    Some(Selector::MemberLike)
                } else if str_eq(k, "method") {
                    Some(Selector::Method)
                } else if str_eq(k, "property") {
                    Some(Selector::Property)
                } else if str_eq(k, "typeLike") {
                    Some(Selector::TypeLike)
                } else if str_eq(k, "variableLike") {
                    Some(Selector::VariableLike)
                } else {
                    push_diag(diags, DiagnosticSeverity::Error, "Unknown selector.");
                    None
                }
            },
            _ => {
                push_diag(diags, DiagnosticSeverity::Error, "Expected a string.");
                None
            },
        }
    }
}

/// A modifier a naming-convention selector can be narrowed by.
#[derive(Clone, Copy, Debug, PartialEq, Eq, Structural)]
pub enum Modifier {
    Abstract,
    Async,
    Const,
    Destructured,
    Exported,
    Global,
    Override,
    Private,
    Protected,
    Public,
    Readonly,
    RequiresQuotes,
    SharpPrivate,
    Static,
    Unused,
}

impl DeepView for Modifier {
    type V = Modifier;

    open spec fn deep_view(&self) -> Modifier {
        *self
    }
}

/// Which keyword names which modifier.
pub open spec fn modifier_of_keyword(s: Seq<char>) -> Option<Modifier> {
    if s == "abstract"@ {
        Some(Modifier::Abstract)
    } else if s == "async"@ {
        Some(Modifier::Async)
    } else if s == "const"@ {
        Some(Modifier::Const)
    } else if s == "destructured"@ {
        Some(Modifier::Destructured)
    } else if s == "exported"@ {
        Some(Modifier::Exported)
    } else if s == "global"@ {
        Some(Modifier::Global)
    } else if s == "override"@ {
        Some(Modifier::Override)
    } else if s == "private"@ {
        Some(Modifier::Private)
    } else if s == "protected"@ {
        Some(Modifier::Protected)
    } else if s == "public"@ {
        Some(Modifier::Public)
    } else if s == "readonly"@ {
        Some(Modifier::Readonly)
    } else if s == "requiresQuotes"@ {
        Some(Modifier::RequiresQuotes)
    } else if s == "#private"@ {
        Some(Modifier::SharpPrivate)
    } else if s == "static"@ {
        Some(Modifier::Static)
    } else if s == "unused"@ {
        Some(Modifier::Unused)
    } else {
        None
    }
}

/// How many diagnostics decoding a value as a modifier records: none
/// when a known keyword decodes, one otherwise.
pub open spec fn modifier_diag_count(v: Value) -> nat {
    match v {
        Value::Str(s) => if modifier_of_keyword(s@) is Some {
            0
        } else {
            1
        },
        _ => 1,
    }
}

impl DecodeValue for Modifier {
    open spec fn spec_decode(v: Value) -> Option<Modifier> {
        match v {
            Value::Str(s) => modifier_of_keyword(s@),
            _ => None,
        }
    }

    open spec fn spec_diag_count(v: Value) -> nat {
        modifier_diag_count(v)
    }

    fn decode(v: &Value, diags: &mut Vec<Diagnostic>) -> (r: Option<Modifier>) {
        match v {
            Value::Str(s) => {
                let k = s.as_str();
                if str_eq(k, "abstract") {
                    Some(Modifier::Abstract)
                } else if str_eq(k, "async") {
                    Some(Modifier::Async)
                } else if str_eq(k, "const") {
                    Some(Modifier::Const)
                } else if str_eq(k, "destructured") {
                    Some(Modifier::Destructured)
                } else if str_eq(k, "exported") {
                    Some(Modifier::Exported)
                } else if str_eq(k, "global") {
                    Some(Modifier::Global)
                } else if str_eq(k, "override") {
                    Some(Modifier::Override)
                } else if str_eq(k, "private") {
                    Some(Modifier::Private)
                } else if str_eq(k, "protected") {
                    Some(Modifier::Protected)
                } else if str_eq(k, "public") {
                    Some(Modifier::Public)
                } else if str_eq(k, "readonly") {
                    Some(Modifier::Readonly)
                } else if str_eq(k, "requiresQuotes") {
                    Some(Modifier::RequiresQuotes)
                } else if str_eq(k, "#private") {
                    Some(Modifier::SharpPrivate)
                } else if str_eq(k, "static") {
                    Some(Modifier::Static)
                } else if str_eq(k, "unused") {
                    Some(Modifier::Unused)
                } else {
                    push_diag(diags, DiagnosticSeverity::Error, "Unknown modifier.");
                    None
                }
            },
            _ => {
                push_diag(diags, DiagnosticSeverity::Error, "Expected a string.");
                None
            },
        }
    }
}

/// A value type a naming-convention selector can be narrowed by.
#[derive(Clone, Copy, Debug, PartialEq, Eq, Structural)]
pub enum Type {
    Array,
    Boolean,
    Function,
    Number,
    String,
}

impl DeepView for Type {
    type V = Type;

    open spec fn deep_view(&self) -> Type {
        *self
    }
}

/// Which keyword names which value type.
pub open spec fn type_of_keyword(s: Seq<char>) -> Option<Type> {
    if s == "array"@ {
        Some(Type::Array)
    } else if s == "boolean"@ {
        Some(Type::Boolean)
    } else if s == "function"@ {
        Some(Type::Function)
    } else if s == "number"@ {
        Some(Type::Number)
    } else if s == "string"@ {
        Some(Type::String)
    } else {
        None
    }
}

/// How many diagnostics decoding a value as a value type records: none
/// when a known keyword decodes, one otherwise.
pub open spec fn type_diag_count(v: Value) -> nat {
    match v {
        Value::Str(s) => if type_of_keyword(s@) is Some {
            0
        } else {
            1
        },
        _ => 1,
    }
}

impl DecodeValue for Type {
    open spec fn spec_decode(v: Value) -> Option<Type> {
        match v {
            Value::Str(s) => type_of_keyword(s@),
            _ => None,
        }
    }

    open spec fn spec_diag_count(v: Value) -> nat {
        type_diag_count(v)
    }

    fn decode(v: &Value, diags: &mut Vec<Diagnostic>) -> (r: Option<Type>) {
        match v {
            Value::Str(s) => {
                let k = s.as_str();
                if str_eq(k, "array") {
                    Some(Type::Array)
                } else if str_eq(k, "boolean") {
                    Some(Type::Boolean)
                } else if str_eq(k, "function") {
                    Some(Type::Function)
                } else if str_eq(k, "number") {
                    Some(Type::Number)
                } else if str_eq(k, "string") {
                    Some(Type::String)
                } else {
                    push_diag(diags, DiagnosticSeverity::Error, "Unknown type.");
                    None
                }
            },
            _ => {
                push_diag(diags, DiagnosticSeverity::Error, "Expected a string.");
                None
            },
        }
    }
}

/// A case format a naming convention can demand.
#[derive(Clone, Copy, Debug, PartialEq, Eq, Structural)]
pub enum NamingConventionCase {
    Camel,
    StrictCamel,
    Pascal,
    StrictPascal,
    Snake,
    Upper,
}

impl DeepView for NamingConventionCase {
    type V = NamingConventionCase;

    open spec fn deep_view(&self) -> NamingConventionCase {
        *self
    }
}

/// Which keyword names which case format.
pub open spec fn case_of_keyword(s: Seq<char>) -> Option<NamingConventionCase> {
    if s == "camelCase"@ {
        Some(NamingConventionCase::Camel)
    } else if s == "strictCamelCase"@ {
        Some(NamingConventionCase::StrictCamel)
    } else if s == "PascalCase"@ {
        Some(NamingConventionCase::Pascal)
    } else if s == "StrictPascalCase"@ {
        Some(NamingConventionCase::StrictPascal)
    } else if s == "snake_case"@ {
        Some(NamingConventionCase::Snake)
    } else if s == "UPPER_CASE"@ {
        Some(NamingConventionCase::Upper)
    } else {
        None
    }
}

/// How many diagnostics decoding a value as a case format records: none
/// when a known keyword decodes, one otherwise.
pub open spec fn case_diag_count(v: Value) -> nat {
    match v {
        Value::Str(s) => if case_of_keyword(s@) is Some {
            0
        } else {
            1
        },
        _ => 1,
    }
}

impl DecodeValue for NamingConventionCase {
    open spec fn spec_decode(v: Value) -> Option<NamingConventionCase> {
        match v {
            Value::Str(s) => case_of_keyword(s@),
            _ => None,
        }
    }

    open spec fn spec_diag_count(v: Value) -> nat {
        case_diag_count(v)
    }

    fn decode(v: &Value, diags: &mut Vec<Diagnostic>) -> (r: Option<NamingConventionCase>) {
        match v {
            Value::Str(s) => {
                let k = s.as_str();
                if str_eq(k, "camelCase") {
                    Some(NamingConventionCase::Camel)
                } else if str_eq(k, "strictCamelCase") {
                    Some(NamingConventionCase::StrictCamel)
                } else if str_eq(k, "PascalCase") {
                    Some(NamingConventionCase::Pascal)
                } else if str_eq(k, "StrictPascalCase") {
                    Some(NamingConventionCase::StrictPascal)
                } else if str_eq(k, "snake_case") {
                    Some(NamingConventionCase::Snake)
                } else if str_eq(k, "UPPER_CASE") {
                    Some(NamingConventionCase::Upper)
                } else {
                    push_diag(diags, DiagnosticSeverity::Error, "Unknown case format.");
                    None
                }
            },
            _ => {
                push_diag(diags, DiagnosticSeverity::Error, "Expected a string.");
                None
            },
        }
    }
}

/// How an underscore prefix or suffix is treated.
#[derive(Clone, Copy, Debug, PartialEq, Eq, Structural)]
pub enum Underscore {
    Forbid,
    Require,
    RequireDouble,
    Allow,
    AllowDouble,
    AllowSingleOrDouble,
}

impl DeepView for Underscore {
    type V = Underscore;

    open spec fn deep_view(&self) -> Underscore {
        *self
    }
}

/// Which keyword names which underscore treatment.
pub open spec fn underscore_of_keyword(s: Seq<char>) -> Option<Underscore> {
    if s == "forbid"@ {
        Some(Underscore::Forbid)
    } else if s == "require"@ {
        Some(Underscore::Require)
    } else if s == "requireDouble"@ {
        Some(Underscore::RequireDouble)
    } else if s == "allow"@ {
        Some(Underscore::Allow)
    } else if s == "allowDouble"@ {
        Some(Underscore::AllowDouble)
    } else if s == "allowSingleOrDouble"@ {
        Some(Underscore::AllowSingleOrDouble)
    } else {
        None
    }
}

/// How many diagnostics decoding a value as an underscore treatment records: none
/// when a known keyword decodes, one otherwise.
pub open spec fn underscore_diag_count(v: Value) -> nat {
    match v {
        Value::Str(s) => if underscore_of_keyword(s@) is Some {
            0
        } else {
            1
        },
        _ => 1,
    }
}

impl DecodeValue for Underscore {
    open spec fn spec_decode(v: Value) -> Option<Underscore> {
        match v {
            Value::Str(s) => underscore_of_keyword(s@),
            _ => None,
        }
    }

    open spec fn spec_diag_count(v: Value) -> nat {
        underscore_diag_count(v)
    }

    fn decode(v: &Value, diags: &mut Vec<Diagnostic>) -> (r: Option<Underscore>) {
        match v {
            Value::Str(s) => {
                let k = s.as_str();
                if str_eq(k, "forbid") {
                    Some(Underscore::Forbid)
                } else if str_eq(k, "require") {
                    Some(Underscore::Require)
                } else if str_eq(k, "requireDouble") {
                    Some(Underscore::RequireDouble)
                } else if str_eq(k, "allow") {
                    Some(Underscore::Allow)
                } else if str_eq(k, "allowDouble") {
                    Some(Underscore::AllowDouble)
                } else if str_eq(k, "allowSingleOrDouble") {
                    Some(Underscore::AllowSingleOrDouble)
                } else {
                    push_diag(diags, DiagnosticSeverity::Error, "Unknown underscore option.");
                    None
                }
            },
            _ => {
                push_diag(diags, DiagnosticSeverity::Error, "Expected a string.");
                None
            },
        }
    }
}

/// One selection of the source naming-convention rule: which declarations
/// it addresses and which formats it demands of them.
#[derive(Clone, Debug, PartialEq)]
pub struct NamingConventionSelection {
    pub selector: Shorthand<Selector>,
    pub modifiers: Option<Vec<Modifier>>,
    pub types: Option<Vec<Type>>,
    pub format: Option<Vec<NamingConventionCase>>,
    pub leading_underscore: Option<Underscore>,
    pub trailing_underscore: Option<Underscore>,
}

/// The mathematical shape of [`NamingConventionSelection`].
#[verifier::ext_equal]
pub struct NamingConventionSelectionView {
    pub selector: Seq<Selector>,
    pub modifiers: Option<Seq<Modifier>>,
    pub types: Option<Seq<Type>>,
    pub format: Option<Seq<NamingConventionCase>>,
    pub leading_underscore: Option<Underscore>,
    pub trailing_underscore: Option<Underscore>,
}

impl DeepView for NamingConventionSelection {
    type V = NamingConventionSelectionView;

    open spec fn deep_view(&self) -> NamingConventionSelectionView {
        NamingConventionSelectionView {
            selector: self.selector.deep_view(),
            modifiers: self.modifiers.deep_view(),
            types: self.types.deep_view(),
            format: self.format.deep_view(),
            leading_underscore: self.leading_underscore,
            trailing_underscore: self.trailing_underscore,
        }
    }
}

/// The selection every field starts from: no selector, nothing narrowed,
/// no format demanded.
pub open spec fn selection_init() -> NamingConventionSelectionView {
    NamingConventionSelectionView {
        selector: Seq::empty(),
        modifiers: None,
        types: None,
        format: None,
        leading_underscore: None,
        trailing_underscore: None,
    }
}

/// How one object field updates a partially decoded selection.
pub open spec fn selection_step(
    acc: NamingConventionSelectionView,
    kv: (String, Value),
) -> NamingConventionSelectionView {
    if kv.0@ == "selector"@ {
        match spec_decode_shorthand::<Selector>(kv.1) {
            Some(x) => (NamingConventionSelectionView { selector: x, ..acc }),
            None => acc,
        }
    } else if kv.0@ == "modifiers"@ {
        match spec_decode_list::<Modifier>(kv.1) {
            Some(x) => (NamingConventionSelectionView { modifiers: Some(x), ..acc }),
            None => acc,
        }
    } else if kv.0@ == "types"@ {
        match spec_decode_list::<Type>(kv.1) {
            Some(x) => (NamingConventionSelectionView { types: Some(x), ..acc }),
            None => acc,
        }
    } else if kv.0@ == "format"@ {
        match spec_decode_list::<NamingConventionCase>(kv.1) {
            Some(x) => (NamingConventionSelectionView { format: Some(x), ..acc }),
            None => acc,
        }
    } else if kv.0@ == "leadingUnderscore"@ {
        match Underscore::spec_decode(kv.1) {
            Some(x) => (NamingConventionSelectionView { leading_underscore: Some(x), ..acc }),
            None => acc,
        }
    } else if kv.0@ == "trailingUnderscore"@ {
        match Underscore::spec_decode(kv.1) {
            Some(x) => (NamingConventionSelectionView { trailing_underscore: Some(x), ..acc }),
            None => acc,
        }
    } else {
        acc
    }
}

/// How many diagnostics one selection field records: the field value's
/// own count for the known fields, none for unknown fields.
pub open spec fn selection_step_diag_count(kv: (String, Value)) -> nat {
    if kv.0@ == "selector"@ {
        spec_shorthand_diag_count::<Selector>(kv.1)
    } else if kv.0@ == "modifiers"@ {
        spec_list_diag_count::<Modifier>(kv.1)
    } else if kv.0@ == "types"@ {
        spec_list_diag_count::<Type>(kv.1)
    } else if kv.0@ == "format"@ {
        spec_list_diag_count::<NamingConventionCase>(kv.1)
    } else if kv.0@ == "leadingUnderscore"@ {
        underscore_diag_count(kv.1)
    } else if kv.0@ == "trailingUnderscore"@ {
        underscore_diag_count(kv.1)
    } else {
        0
    }
}

/// How many diagnostics the fields of a selection record in all.
pub open spec fn selection_fold_diag_count(entries: Seq<(String, Value)>) -> nat
    decreases entries.len(),
{
    if entries.len() == 0 {
        0
    } else {
        selection_fold_diag_count(entries.drop_last()) + selection_step_diag_count(entries.last())
    }
}

/// How many diagnostics decoding a value as a selection records.
pub open spec fn selection_diag_count(v: Value) -> nat {
    match v {
        Value::Object(entries) => selection_fold_diag_count(entries@),
        _ => 1,
    }
}

/// The object fields of a selection, folded in source order.
pub open spec fn selection_fold(
    entries: Seq<(String, Value)>,
    acc: NamingConventionSelectionView,
) -> NamingConventionSelectionView
    decreases entries.len(),
{
    if entries.len() == 0 {
        acc
    } else {
        selection_step(selection_fold(entries.drop_last(), acc), entries.last())
    }
}

impl DecodeValue for NamingConventionSelection {
    open spec fn spec_decode(v: Value) -> Option<NamingConventionSelectionView> {
        match v {
            Value::Object(entries) => Some(selection_fold(entries@, selection_init())),
            _ => None,
        }
    }

    open spec fn spec_diag_count(v: Value) -> nat {
        selection_diag_count(v)
    }

    #[verifier::loop_isolation(false)]
    fn decode(v: &Value, diags: &mut Vec<Diagnostic>) -> (r: Option<NamingConventionSelection>) {
        match v {
            Value::Object(entries) => {
                let mut acc = NamingConventionSelection {
                    selector: Shorthand::new(),
                    modifiers: None,
                    types: None,
                    format: None,
                    leading_underscore: None,
                    trailing_underscore: None,
                };
                assert(acc.deep_view() =~= selection_init());
                let n = entries.len();
                let mut i: usize = 0;
                while i < n
                    invariant
                        i <= n,
                        acc.deep_view() == selection_fold(entries@.take(i as int), selection_init()),
                        old(diags)@.is_prefix_of(diags@),
                        diags@.len() == old(diags)@.len() + selection_fold_diag_count(
                            entries@.take(i as int),
                        ),
                    decreases n - i,
                {
                    let ghost dpre = diags@;
                    let ghost accpre = acc.deep_view();
                    proof {
                        assert(entries@.take(i + 1 as int).drop_last() =~= entries@.take(i as int));
                        assert(entries@.take(i + 1 as int).last() == entries@[i as int]);
                    }
                    let key = entries[i].0.as_str();
                    if str_eq(key, "selector") {
                        match decode_shorthand::<Selector>(&entries[i].1, diags) {
                            Some(x) => {
                                acc = NamingConventionSelection { selector: x, ..acc };
                            },
                            None => {},
                        }
                    } else if str_eq(key, "modifiers") {
                        match decode_vec::<Modifier>(&entries[i].1, diags) {
                            Some(x) => {
                                acc = NamingConventionSelection { modifiers: Some(x), ..acc };
                            },
                            None => {},
                        }
                    } else if str_eq(key, "types") {
                        match decode_vec::<Type>(&entries[i].1, diags) {
                            Some(x) => {
                                acc = NamingConventionSelection { types: Some(x), ..acc };
                            },
                            None => {},
                        }
                    } else if str_eq(key, "format") {
                        match decode_vec::<NamingConventionCase>(&entries[i].1, diags) {
                            Some(x) => {
                                acc = NamingConventionSelection { format: Some(x), ..acc };
                            },
                            None => {},
                        }
                    } else if str_eq(key, "leadingUnderscore") {
                        match Underscore::decode(&entries[i].1, diags) {
                            Some(x) => {
                                acc = NamingConventionSelection {
                                    leading_underscore: Some(x),
                                    ..acc
                                };
                            },
                            None => {},
                        }
                    } else if str_eq(key, "trailingUnderscore") {
                        match Underscore::decode(&entries[i].1, diags) {
                            Some(x) => {
                                acc = NamingConventionSelection {
                                    trailing_underscore: Some(x),
                                    ..acc
                                };
                            },
                            None => {},
                        }
                    }
                    proof {
                        lemma_prefix_trans(old(diags)@, dpre, diags@);
                        assert(acc.deep_view() == selection_step(accpre, entries@[i as int]));
                    }
                    i += 1;
                }
                proof {
                    assert(entries@.take(n as int) =~= entries@);
                }
                Some(acc)
            },
            _ => {
                push_diag(diags, DiagnosticSeverity::Error, "Expected an object.");
                None
            },
        }
    }
}

/// The configured selections of the source naming-convention rule: the
/// source defaults, overridden by whatever the user configured.
#[derive(Clone, Debug, PartialEq)]
pub struct NamingConventionOptions(pub Vec<NamingConventionSelection>);

impl DeepView for NamingConventionOptions {
    type V = Seq<NamingConventionSelectionView>;

    open spec fn deep_view(&self) -> Seq<NamingConventionSelectionView> {
        self.0.deep_view()
    }
}

/// The selections the source rule applies when the user configures none:
/// camel-cased names by default, camel or pascal for imports, camel or
/// upper for variables, pascal for type-like declarations.
pub open spec fn spec_default_selections() -> Seq<NamingConventionSelectionView> {
    seq![
        NamingConventionSelectionView {
            selector: seq![Selector::Default],
            modifiers: None,
            types: None,
            format: Some(seq![NamingConventionCase::Camel]),
            leading_underscore: Some(Underscore::Allow),
            trailing_underscore: Some(Underscore::Allow),
        },
        NamingConventionSelectionView {
            selector: seq![Selector::Import],
            modifiers: None,
            types: None,
            format: Some(seq![NamingConventionCase::Camel, NamingConventionCase::Pascal]),
            leading_underscore: None,
            trailing_underscore: None,
        },
        NamingConventionSelectionView {
            selector: seq![Selector::Variable],
            modifiers: None,
            types: None,
            format: Some(seq![NamingConventionCase::Camel, NamingConventionCase::Upper]),
            leading_underscore: Some(Underscore::Allow),
            trailing_underscore: Some(Underscore::Allow),
        },
        NamingConventionSelectionView {
            selector: seq![Selector::TypeLike],
            modifiers: None,
            types: None,
            format: Some(seq![NamingConventionCase::Pascal]),
            leading_underscore: Some(Underscore::Allow),
            trailing_underscore: Some(Underscore::Allow),
        },
    ]
}

impl NamingConventionOptions {
    /// The default selections alone.
    pub fn default_options() -> (r: NamingConventionOptions)
        ensures
            r.deep_view() == spec_default_selections(),
    {
        let mut selections: Vec<NamingConventionSelection> = Vec::new();
        let mut fmt0: Vec<NamingConventionCase> = Vec::new();
        fmt0.push(NamingConventionCase::Camel);
        selections.push(NamingConventionSelection {
            selector: Shorthand::from_single(Selector::Default),
            modifiers: None,
            types: None,
            format: Some(fmt0),
            leading_underscore: Some(Underscore::Allow),
            trailing_underscore: Some(Underscore::Allow),
        });
        let mut fmt1: Vec<NamingConventionCase> = Vec::new();
        fmt1.push(NamingConventionCase::Camel);
        fmt1.push(NamingConventionCase::Pascal);
        selections.push(NamingConventionSelection {
            selector: Shorthand::from_single(Selector::Import),
            modifiers: None,
            types: None,
            format: Some(fmt1),
            leading_underscore: None,
            trailing_underscore: None,
        });
        let mut fmt2: Vec<NamingConventionCase> = Vec::new();
        fmt2.push(NamingConventionCase::Camel);
        fmt2.push(NamingConventionCase::Upper);
        selections.push(NamingConventionSelection {
            selector: Shorthand::from_single(Selector::Variable),
            modifiers: None,
            types: None,
            format: Some(fmt2),
            leading_underscore: Some(Underscore::Allow),
            trailing_underscore: Some(Underscore::Allow),
        });
        let mut fmt3: Vec<NamingConventionCase> = Vec::new();
        fmt3.push(NamingConventionCase::Pascal);
        selections.push(NamingConventionSelection {
            selector: Shorthand::from_single(Selector::TypeLike),
            modifiers: None,
            types: None,
            format: Some(fmt3),
            leading_underscore: Some(Underscore::Allow),
            trailing_underscore: Some(Underscore::Allow),
        });
        let r = NamingConventionOptions(selections);
        proof {
            assert(r.deep_view().len() == 4);
            assert(r.deep_view()[0].selector =~= seq![Selector::Default]);
            assert(r.deep_view()[0].format->0 =~= seq![NamingConventionCase::Camel]);
            assert(r.deep_view()[0] =~= spec_default_selections()[0]);
            assert(r.deep_view()[1].selector =~= seq![Selector::Import]);
            assert(r.deep_view()[1].format->0 =~= seq![
                NamingConventionCase::Camel,
                NamingConventionCase::Pascal,
            ]);
            assert(r.deep_view()[1] =~= spec_default_selections()[1]);
            assert(r.deep_view()[2].selector =~= seq![Selector::Variable]);
            assert(r.deep_view()[2].format->0 =~= seq![
                NamingConventionCase::Camel,
                NamingConventionCase::Upper,
            ]);
            assert(r.deep_view()[2] =~= spec_default_selections()[2]);
            assert(r.deep_view()[3].selector =~= seq![Selector::TypeLike]);
            assert(r.deep_view()[3].format->0 =~= seq![NamingConventionCase::Pascal]);
            assert(r.deep_view()[3] =~= spec_default_selections()[3]);
            assert(r.deep_view() =~= spec_default_selections());
        }
        r
    }

    /// The default selections, followed by the user's own selections, which
    /// therefore take precedence wherever a later selection wins.
    pub fn override_default(overrides: Vec<NamingConventionSelection>) -> (r:
        NamingConventionOptions)
        ensures
            r.deep_view() == spec_default_selections() + overrides.deep_view(),
    {
        let ghost ov = overrides.deep_view();
        let mut result = NamingConventionOptions::default_options();
        let mut overrides = overrides;
        result.0.append(&mut overrides);
        proof {
            assert(result.deep_view() =~= spec_default_selections() + ov);
        }
        result
    }
}

/// The first case format a selection demands, if it demands any.
pub open spec fn first_format(sel: NamingConventionSelectionView) -> Option<
    NamingConventionCase,
> {
    match sel.format {
        Some(f) => if f.len() == 0 {
            None
        } else {
            Some(f[0])
        },
        None => None,
    }
}

/// The format the enum-member selector ends up with: the last selection
/// addressing enum members decides, and decides `None` when it demands no
/// format.
pub open spec fn enum_member_format(sels: Seq<NamingConventionSelectionView>) -> Option<
    NamingConventionCase,
>
    decreases sels.len(),
{
    if sels.len() == 0 {
        None
    } else if sels.last().selector.contains(Selector::EnumMember) {
        first_format(sels.last())
    } else {
        enum_member_format(sels.drop_last())
    }
}

/// The target naming-convention options a selection list translates to:
/// only the enum-member format carries over, since the target supports a
/// single case per rule; the strict variants of camel and pascal case turn
/// strict-case checking on, and snake case, which the target does not
/// support for enum members, falls back to the target's default case.
pub open spec fn naming_options_to_biome(sels: Seq<NamingConventionSelectionView>)
    -> biome::NamingConventionOptions {
    let fmt = enum_member_format(sels);
    biome::NamingConventionOptions {
        strict_case: fmt == Some(NamingConventionCase::StrictCamel) || fmt == Some(
            NamingConventionCase::StrictPascal,
        ),
        require_ascii: false,
        enum_member_case: match fmt {
            Some(NamingConventionCase::Camel) => biome::EnumMemberCase::Camel,
            Some(NamingConventionCase::StrictCamel) => biome::EnumMemberCase::Camel,
            Some(NamingConventionCase::Pascal) => biome::EnumMemberCase::Pascal,
            Some(NamingConventionCase::StrictPascal) => biome::EnumMemberCase::Pascal,
            Some(NamingConventionCase::Upper) => biome::EnumMemberCase::Constant,
            Some(NamingConventionCase::Snake) => biome::EnumMemberCase::Constant,
            None => biome::EnumMemberCase::Constant,
        },
    }
}

impl NamingConventionSelection {
    /// Whether this selection addresses enum members.
    pub fn addresses_enum_members(&self) -> (r: bool)
        ensures
            r == self.deep_view().selector.contains(Selector::EnumMember),
    {
        let n = self.selector.0.len();
        let mut i: usize = 0;
        while i < n
            invariant
                i <= n,
                n == self.selector.0.len(),
                forall|j: int| 0 <= j < i ==> self.deep_view().selector[j] != Selector::EnumMember,
            decreases n - i,
        {
            if self.selector.0[i] == Selector::EnumMember {
                assert(self.deep_view().selector[i as int] == Selector::EnumMember);
                return true;
            }
            i += 1;
        }
        assert(!self.deep_view().selector.contains(Selector::EnumMember));
        false
    }

    /// The first case format this selection demands.
    pub fn first_format(&self) -> (r: Option<NamingConventionCase>)
        ensures
            r == first_format(self.deep_view()),
    {
        match &self.format {
            Some(f) => if f.len() == 0 {
                None
            } else {
                Some(f[0])
            },
            None => None,
        }
    }
}

impl NamingConventionOptions {
    /// Translates the selections into the target's naming-convention
    /// options.
    #[verifier::loop_isolation(false)]
    pub fn into_biome(self) -> (r: biome::NamingConventionOptions)
        ensures
            r == naming_options_to_biome(self.deep_view()),
    {
        let mut fmt: Option<NamingConventionCase> = None;
        let n = self.0.len();
        let mut i: usize = 0;
        while i < n
            invariant
                i <= n,
                fmt == enum_member_format(self.deep_view().take(i as int)),
            decreases n - i,
        {
            proof {
                assert(self.deep_view().take(i + 1 as int).drop_last() =~= self.deep_view().take(
                    i as int,
                ));
                assert(self.deep_view().take(i + 1 as int).last() == self.deep_view()[i as int]);
            }
            if self.0[i].addresses_enum_members() {
                fmt = self.0[i].first_format();
            }
            i += 1;
        }
        proof {
            assert(self.deep_view().take(n as int) =~= self.deep_view());
        }
        let strict_case = match fmt {
            Some(NamingConventionCase::StrictCamel) => true,
            Some(NamingConventionCase::StrictPascal) => true,
            _ => false,
        };
        let enum_member_case = match fmt {
            Some(NamingConventionCase::Camel) => biome::EnumMemberCase::Camel,
            Some(NamingConventionCase::StrictCamel) => biome::EnumMemberCase::Camel,
            Some(NamingConventionCase::Pascal) => biome::EnumMemberCase::Pascal,
            Some(NamingConventionCase::StrictPascal) => biome::EnumMemberCase::Pascal,
            Some(NamingConventionCase::Upper) => biome::EnumMemberCase::Constant,
            Some(NamingConventionCase::Snake) => biome::EnumMemberCase::Constant,
            None => biome::EnumMemberCase::Constant,
        };
        biome::NamingConventionOptions { strict_case, require_ascii: false, enum_member_case }
    }
}


/// The pairs of the plugin's `recommended` preset.
pub open spec fn spec_recommended() -> Seq<(Seq<char>, Severity)> {
    seq![
        ("@typescript-eslint/ban-ts-comment"@, Severity::Error),
        ("@typescript-eslint/ban-types"@, Severity::Error),
        ("no-array-constructor"@, Severity::Off),
        ("@typescript-eslint/no-array-constructor"@, Severity::Error),
        ("@typescript-eslint/no-duplicate-enum-values"@, Severity::Error),
        ("@typescript-eslint/no-explicit-any"@, Severity::Error),
        ("@typescript-eslint/no-extra-non-null-assertion"@, Severity::Error),
        ("no-loss-of-precision"@, Severity::Off),
        ("@typescript-eslint/no-loss-of-precision"@, Severity::Error),
        ("@typescript-eslint/no-misused-new"@, Severity::Error),
        ("@typescript-eslint/no-namespace"@, Severity::Error),
        ("@typescript-eslint/no-non-null-asserted-optional-chain"@, Severity::Error),
        ("@typescript-eslint/no-this-alias"@, Severity::Error),
        ("@typescript-eslint/no-unnecessary-type-constraint"@, Severity::Error),
        ("@typescript-eslint/no-unsafe-declaration-merging"@, Severity::Error),
        ("no-unused-vars"@, Severity::Off),
        ("@typescript-eslint/no-unused-vars"@, Severity::Error),
        ("@typescript-eslint/no-var-requires"@, Severity::Error),
        ("@typescript-eslint/prefer-as-const"@, Severity::Error),
        ("@typescript-eslint/triple-slash-reference"@, Severity::Error),
    ]
}

/// The plugin's `recommended` preset.
pub fn recommended() -> (r: Vec<(&'static str, Severity)>)
    ensures
        r.deep_view() == spec_recommended(),
{
    let r: Vec<(&'static str, Severity)> = vec![
        ("@typescript-eslint/ban-ts-comment", Severity::Error),
        ("@typescript-eslint/ban-types", Severity::Error),
        ("no-array-constructor", Severity::Off),
        ("@typescript-eslint/no-array-constructor", Severity::Error),
        ("@typescript-eslint/no-duplicate-enum-values", Severity::Error),
        ("@typescript-eslint/no-explicit-any", Severity::Error),
        ("@typescript-eslint/no-extra-non-null-assertion", Severity::Error),
        ("no-loss-of-precision", Severity::Off),
        ("@typescript-eslint/no-loss-of-precision", Severity::Error),
        ("@typescript-eslint/no-misused-new", Severity::Error),
        ("@typescript-eslint/no-namespace", Severity::Error),
        ("@typescript-eslint/no-non-null-asserted-optional-chain", Severity::Error),
        ("@typescript-eslint/no-this-alias", Severity::Error),
        ("@typescript-eslint/no-unnecessary-type-constraint", Severity::Error),
        ("@typescript-eslint/no-unsafe-declaration-merging", Severity::Error),
        ("no-unused-vars", Severity::Off),
        ("@typescript-eslint/no-unused-vars", Severity::Error),
        ("@typescript-eslint/no-var-requires", Severity::Error),
        ("@typescript-eslint/prefer-as-const", Severity::Error),
        ("@typescript-eslint/triple-slash-reference", Severity::Error),
    ];
    proof {
        assert(r.deep_view() =~= spec_recommended());
    }
    r
}

/// The pairs of the plugin's `recommended-type-checked-only` preset.
pub open spec fn spec_recommended_type_checked_only() -> Seq<(Seq<char>, Severity)> {
    seq![
        ("@typescript-eslint/await-thenable"@, Severity::Error),
        ("@typescript-eslint/no-base-to-string"@, Severity::Error),
        ("@typescript-eslint/no-duplicate-type-constituents"@, Severity::Error),
        ("@typescript-eslint/no-floating-promises"@, Severity::Error),
        ("@typescript-eslint/no-for-in-array"@, Severity::Error),
        ("no-implied-eval"@, Severity::Off),
        ("@typescript-eslint/no-implied-eval"@, Severity::Error),
        ("@typescript-eslint/no-misused-promises"@, Severity::Error),
        ("@typescript-eslint/no-redundant-type-constituents"@, Severity::Error),
        ("@typescript-eslint/no-unnecessary-type-assertion"@, Severity::Error),
        ("@typescript-eslint/no-unsafe-argument"@, Severity::Error),
        ("@typescript-eslint/no-unsafe-assignment"@, Severity::Error),
        ("@typescript-eslint/no-unsafe-call"@, Severity::Error),
        ("@typescript-eslint/no-unsafe-enum-comparison"@, Severity::Error),
        ("@typescript-eslint/no-unsafe-member-access"@, Severity::Error),
        ("@typescript-eslint/no-unsafe-return"@, Severity::Error),
        ("require-await"@, Severity::Off),
        ("@typescript-eslint/require-await"@, Severity::Error),
        ("@typescript-eslint/restrict-plus-operands"@, Severity::Error),
        ("@typescript-eslint/restrict-template-expressions"@, Severity::Error),
        ("@typescript-eslint/unbound-method"@, Severity::Error),
    ]
}

/// The plugin's `recommended-type-checked-only` preset.
pub fn recommended_type_checked_only() -> (r: Vec<(&'static str, Severity)>)
    ensures
        r.deep_view() == spec_recommended_type_checked_only(),
{
    let r: Vec<(&'static str, Severity)> = vec![
        ("@typescript-eslint/await-thenable", Severity::Error),
        ("@typescript-eslint/no-base-to-string", Severity::Error),
        ("@typescript-eslint/no-duplicate-type-constituents", Severity::Error),
        ("@typescript-eslint/no-floating-promises", Severity::Error),
        ("@typescript-eslint/no-for-in-array", Severity::Error),
        ("no-implied-eval", Severity::Off),
        ("@typescript-eslint/no-implied-eval", Severity::Error),
        ("@typescript-eslint/no-misused-promises", Severity::Error),
        ("@typescript-eslint/no-redundant-type-constituents", Severity::Error),
        ("@typescript-eslint/no-unnecessary-type-assertion", Severity::Error),
        ("@typescript-eslint/no-unsafe-argument", Severity::Error),
        ("@typescript-eslint/no-unsafe-assignment", Severity::Error),
        ("@typescript-eslint/no-unsafe-call", Severity::Error),
        ("@typescript-eslint/no-unsafe-enum-comparison", Severity::Error),
        ("@typescript-eslint/no-unsafe-member-access", Severity::Error),
        ("@typescript-eslint/no-unsafe-return", Severity::Error),
        ("require-await", Severity::Off),
        ("@typescript-eslint/require-await", Severity::Error),
        ("@typescript-eslint/restrict-plus-operands", Severity::Error),
        ("@typescript-eslint/restrict-template-expressions", Severity::Error),
        ("@typescript-eslint/unbound-method", Severity::Error),
    ];
    proof {
        assert(r.deep_view() =~= spec_recommended_type_checked_only());
    }
    r
}

/// The pairs of the plugin's `strict` preset.
pub open spec fn spec_strict() -> Seq<(Seq<char>, Severity)> {
    seq![
        ("@typescript-eslint/ban-ts-comment"@, Severity::Error),
        ("@typescript-eslint/ban-types"@, Severity::Error),
        ("no-array-constructor"@, Severity::Off),
        ("@typescript-eslint/no-array-constructor"@, Severity::Error),
        ("@typescript-eslint/no-duplicate-enum-values"@, Severity::Error),
        ("@typescript-eslint/no-dynamic-delete"@, Severity::Error),
        ("@typescript-eslint/no-explicit-any"@, Severity::Error),
        ("@typescript-eslint/no-extra-non-null-assertion"@, Severity::Error),
        ("@typescript-eslint/no-extraneous-class"@, Severity::Error),
        ("@typescript-eslint/no-invalid-void-type"@, Severity::Error),
        ("no-loss-of-precision"@, Severity::Off),
        ("@typescript-eslint/no-loss-of-precision"@, Severity::Error),
        ("@typescript-eslint/no-misused-new"@, Severity::Error),
        ("@typescript-eslint/no-namespace"@, Severity::Error),
        ("@typescript-eslint/no-non-null-asserted-nullish-coalescing"@, Severity::Error),
        ("@typescript-eslint/no-non-null-asserted-optional-chain"@, Severity::Error),
        ("@typescript-eslint/no-non-null-assertion"@, Severity::Error),
        ("@typescript-eslint/no-this-alias"@, Severity::Error),
        ("@typescript-eslint/no-unnecessary-type-constraint"@, Severity::Error),
        ("@typescript-eslint/no-unsafe-declaration-merging"@, Severity::Error),
        ("no-unused-vars"@, Severity::Off),
        ("@typescript-eslint/no-unused-vars"@, Severity::Error),
        ("no-useless-constructor"@, Severity::Off),
        ("@typescript-eslint/no-useless-constructor"@, Severity::Error),
        ("@typescript-eslint/no-var-requires"@, Severity::Error),
        ("@typescript-eslint/prefer-as-const"@, Severity::Error),
        ("@typescript-eslint/prefer-literal-enum-member"@, Severity::Error),
        ("@typescript-eslint/prefer-ts-expect-error"@, Severity::Error),
        ("@typescript-eslint/triple-slash-reference"@, Severity::Error),
        ("@typescript-eslint/unified-signatures"@, Severity::Error),
    ]
}

/// The plugin's `strict` preset.
pub fn strict() -> (r: Vec<(&'static str, Severity)>)
    ensures
        r.deep_view() == spec_strict(),
{
    let r: Vec<(&'static str, Severity)> = vec![
        ("@typescript-eslint/ban-ts-comment", Severity::Error),
        ("@typescript-eslint/ban-types", Severity::Error),
        ("no-array-constructor", Severity::Off),
        ("@typescript-eslint/no-array-constructor", Severity::Error),
        ("@typescript-eslint/no-duplicate-enum-values", Severity::Error),
        ("@typescript-eslint/no-dynamic-delete", Severity::Error),
        ("@typescript-eslint/no-explicit-any", Severity::Error),
        ("@typescript-eslint/no-extra-non-null-assertion", Severity::Error),
        ("@typescript-eslint/no-extraneous-class", Severity::Error),
        ("@typescript-eslint/no-invalid-void-type", Severity::Error),
        ("no-loss-of-precision", Severity::Off),
        ("@typescript-eslint/no-loss-of-precision", Severity::Error),
        ("@typescript-eslint/no-misused-new", Severity::Error),
        ("@typescript-eslint/no-namespace", Severity::Error),
        ("@typescript-eslint/no-non-null-asserted-nullish-coalescing", Severity::Error),
        ("@typescript-eslint/no-non-null-asserted-optional-chain", Severity::Error),
        ("@typescript-eslint/no-non-null-assertion", Severity::Error),
        ("@typescript-eslint/no-this-alias", Severity::Error),
        ("@typescript-eslint/no-unnecessary-type-constraint", Severity::Error),
        ("@typescript-eslint/no-unsafe-declaration-merging", Severity::Error),
        ("no-unused-vars", Severity::Off),
        ("@typescript-eslint/no-unused-vars", Severity::Error),
        ("no-useless-constructor", Severity::Off),
        ("@typescript-eslint/no-useless-constructor", Severity::Error),
        ("@typescript-eslint/no-var-requires", Severity::Error),
        ("@typescript-eslint/prefer-as-const", Severity::Error),
        ("@typescript-eslint/prefer-literal-enum-member", Severity::Error),
        ("@typescript-eslint/prefer-ts-expect-error", Severity::Error),
        ("@typescript-eslint/triple-slash-reference", Severity::Error),
        ("@typescript-eslint/unified-signatures", Severity::Error),
    ];
    proof {
        assert(r.deep_view() =~= spec_strict());
    }
    r
}

/// The pairs of the plugin's `strict-type-checked-only` preset.
pub open spec fn spec_strict_type_checked_only() -> Seq<(Seq<char>, Severity)> {
    seq![
        ("@typescript-eslint/await-thenable"@, Severity::Error),
        ("@typescript-eslint/no-array-delete"@, Severity::Error),
        ("@typescript-eslint/no-base-to-string"@, Severity::Error),
        ("@typescript-eslint/no-confusing-void-expression"@, Severity::Error),
        ("@typescript-eslint/no-duplicate-type-constituents"@, Severity::Error),
        ("@typescript-eslint/no-floating-promises"@, Severity::Error),
        ("@typescript-eslint/no-for-in-array"@, Severity::Error),
        ("no-implied-eval"@, Severity::Off),
        ("@typescript-eslint/no-implied-eval"@, Severity::Error),
        ("@typescript-eslint/no-meaningless-void-operator"@, Severity::Error),
        ("@typescript-eslint/no-misused-promises"@, Severity::Error),
        ("@typescript-eslint/no-mixed-enums"@, Severity::Error),
        ("@typescript-eslint/no-redundant-type-constituents"@, Severity::Error),
        ("@typescript-eslint/no-unnecessary-boolean-literal-compare"@, Severity::Error),
        ("@typescript-eslint/no-unnecessary-condition"@, Severity::Error),
        ("@typescript-eslint/no-unnecessary-type-arguments"@, Severity::Error),
        ("@typescript-eslint/no-unnecessary-type-assertion"@, Severity::Error),
        ("@typescript-eslint/no-unsafe-argument"@, Severity::Error),
        ("@typescript-eslint/no-unsafe-assignment"@, Severity::Error),
        ("@typescript-eslint/no-unsafe-call"@, Severity::Error),
        ("@typescript-eslint/no-unsafe-enum-comparison"@, Severity::Error),
        ("@typescript-eslint/no-unsafe-member-access"@, Severity::Error),
        ("@typescript-eslint/no-unsafe-return"@, Severity::Error),
        ("@typescript-eslint/no-useless-template-literals"@, Severity::Error),
        ("no-throw-literal"@, Severity::Off),
        ("@typescript-eslint/only-throw-error"@, Severity::Error),
        ("@typescript-eslint/prefer-includes"@, Severity::Error),
        ("prefer-promise-reject-errors"@, Severity::Off),
        ("@typescript-eslint/prefer-promise-reject-errors"@, Severity::Error),
        ("@typescript-eslint/prefer-reduce-type-parameter"@, Severity::Error),
        ("@typescript-eslint/prefer-return-this-type"@, Severity::Error),
        ("require-await"@, Severity::Off),
        ("@typescript-eslint/require-await"@, Severity::Error),
        ("@typescript-eslint/restrict-plus-operands"@, Severity::Error),
        ("@typescript-eslint/restrict-template-expressions"@, Severity::Error),
        ("@typescript-eslint/unbound-method"@, Severity::Error),
        ("@typescript-eslint/use-unknown-in-catch-callback-variable"@, Severity::Error),
    ]
}

/// The plugin's `strict-type-checked-only` preset.
pub fn strict_type_checked_only() -> (r: Vec<(&'static str, Severity)>)
    ensures
        r.deep_view() == spec_strict_type_checked_only(),
{
    let r: Vec<(&'static str, Severity)> = vec![
        ("@typescript-eslint/await-thenable", Severity::Error),
        ("@typescript-eslint/no-array-delete", Severity::Error),
        ("@typescript-eslint/no-base-to-string", Severity::Error),
        ("@typescript-eslint/no-confusing-void-expression", Severity::Error),
        ("@typescript-eslint/no-duplicate-type-constituents", Severity::Error),
        ("@typescript-eslint/no-floating-promises", Severity::Error),
        ("@typescript-eslint/no-for-in-array", Severity::Error),
        ("no-implied-eval", Severity::Off),
        ("@typescript-eslint/no-implied-eval", Severity::Error),
        ("@typescript-eslint/no-meaningless-void-operator", Severity::Error),
        ("@typescript-eslint/no-misused-promises", Severity::Error),
        ("@typescript-eslint/no-mixed-enums", Severity::Error),
        ("@typescript-eslint/no-redundant-type-constituents", Severity::Error),
        ("@typescript-eslint/no-unnecessary-boolean-literal-compare", Severity::Error),
        ("@typescript-eslint/no-unnecessary-condition", Severity::Error),
        ("@typescript-eslint/no-unnecessary-type-arguments", Severity::Error),
        ("@typescript-eslint/no-unnecessary-type-assertion", Severity::Error),
        ("@typescript-eslint/no-unsafe-argument", Severity::Error),
        ("@typescript-eslint/no-unsafe-assignment", Severity::Error),
        ("@typescript-eslint/no-unsafe-call", Severity::Error),
        ("@typescript-eslint/no-unsafe-enum-comparison", Severity::Error),
        ("@typescript-eslint/no-unsafe-member-access", Severity::Error),
        ("@typescript-eslint/no-unsafe-return", Severity::Error),
        ("@typescript-eslint/no-useless-template-literals", Severity::Error),
        ("no-throw-literal", Severity::Off),
        ("@typescript-eslint/only-throw-error", Severity::Error),
        ("@typescript-eslint/prefer-includes", Severity::Error),
        ("prefer-promise-reject-errors", Severity::Off),
        ("@typescript-eslint/prefer-promise-reject-errors", Severity::Error),
        ("@typescript-eslint/prefer-reduce-type-parameter", Severity::Error),
        ("@typescript-eslint/prefer-return-this-type", Severity::Error),
        ("require-await", Severity::Off),
        ("@typescript-eslint/require-await", Severity::Error),
        ("@typescript-eslint/restrict-plus-operands", Severity::Error),
        ("@typescript-eslint/restrict-template-expressions", Severity::Error),
        ("@typescript-eslint/unbound-method", Severity::Error),
        ("@typescript-eslint/use-unknown-in-catch-callback-variable", Severity::Error),
    ];
    proof {
        assert(r.deep_view() =~= spec_strict_type_checked_only());
    }
    r
}

/// The pairs of the plugin's `stylistic` preset.
pub open spec fn spec_stylistic() -> Seq<(Seq<char>, Severity)> {
    seq![
        ("@typescript-eslint/adjacent-overload-signatures"@, Severity::Error),
        ("@typescript-eslint/array-type"@, Severity::Error),
        ("@typescript-eslint/ban-tslint-comment"@, Severity::Error),
        ("@typescript-eslint/class-literal-property-style"@, Severity::Error),
        ("@typescript-eslint/consistent-generic-constructors"@, Severity::Error),
        ("@typescript-eslint/consistent-indexed-object-style"@, Severity::Error),
        ("@typescript-eslint/consistent-type-assertions"@, Severity::Error),
        ("@typescript-eslint/consistent-type-definitions"@, Severity::Error),
        ("@typescript-eslint/no-confusing-non-null-assertion"@, Severity::Error),
        ("no-empty-function"@, Severity::Off),
        ("@typescript-eslint/no-empty-function"@, Severity::Error),
        ("@typescript-eslint/no-empty-interface"@, Severity::Error),
        ("@typescript-eslint/no-inferrable-types"@, Severity::Error),
        ("@typescript-eslint/prefer-for-of"@, Severity::Error),
        ("@typescript-eslint/prefer-function-type"@, Severity::Error),
        ("@typescript-eslint/prefer-namespace-keyword"@, Severity::Error),
    ]
}

/// The plugin's `stylistic` preset.
pub fn stylistic() -> (r: Vec<(&'static str, Severity)>)
    ensures
        r.deep_view() == spec_stylistic(),
{
    let r: Vec<(&'static str, Severity)> = vec![
        ("@typescript-eslint/adjacent-overload-signatures", Severity::Error),
        ("@typescript-eslint/array-type", Severity::Error),
        ("@typescript-eslint/ban-tslint-comment", Severity::Error),
        ("@typescript-eslint/class-literal-property-style", Severity::Error),
        ("@typescript-eslint/consistent-generic-constructors", Severity::Error),
        ("@typescript-eslint/consistent-indexed-object-style", Severity::Error),
        ("@typescript-eslint/consistent-type-assertions", Severity::Error),
        ("@typescript-eslint/consistent-type-definitions", Severity::Error),
        ("@typescript-eslint/no-confusing-non-null-assertion", Severity::Error),
        ("no-empty-function", Severity::Off),
        ("@typescript-eslint/no-empty-function", Severity::Error),
        ("@typescript-eslint/no-empty-interface", Severity::Error),
        ("@typescript-eslint/no-inferrable-types", Severity::Error),
        ("@typescript-eslint/prefer-for-of", Severity::Error),
        ("@typescript-eslint/prefer-function-type", Severity::Error),
        ("@typescript-eslint/prefer-namespace-keyword", Severity::Error),
    ];
    proof {
        assert(r.deep_view() =~= spec_stylistic());
    }
    r
}

/// The pairs of the plugin's `stylistic-type-checked-only` preset.
pub open spec fn spec_stylistic_type_checked_only() -> Seq<(Seq<char>, Severity)> {
    seq![
        ("dot-notation"@, Severity::Off),
        ("@typescript-eslint/dot-notation"@, Severity::Error),
        ("@typescript-eslint/non-nullable-type-assertion-style"@, Severity::Error),
        ("@typescript-eslint/prefer-nullish-coalescing"@, Severity::Error),
        ("@typescript-eslint/prefer-optional-chain"@, Severity::Error),
        ("@typescript-eslint/prefer-string-starts-ends-with"@, Severity::Error),
    ]
}

/// The plugin's `stylistic-type-checked-only` preset.
pub fn stylistic_type_checked_only() -> (r: Vec<(&'static str, Severity)>)
    ensures
        r.deep_view() == spec_stylistic_type_checked_only(),
{
    let r: Vec<(&'static str, Severity)> = vec![
        ("dot-notation", Severity::Off),
        ("@typescript-eslint/dot-notation", Severity::Error),
        ("@typescript-eslint/non-nullable-type-assertion-style", Severity::Error),
        ("@typescript-eslint/prefer-nullish-coalescing", Severity::Error),
        ("@typescript-eslint/prefer-optional-chain", Severity::Error),
        ("@typescript-eslint/prefer-string-starts-ends-with", Severity::Error),
    ];
    proof {
        assert(r.deep_view() =~= spec_stylistic_type_checked_only());
    }
    r
}

/// The pairs of the plugin's `disable-type-checked` preset.
pub open spec fn spec_disable_type_checked() -> Seq<(Seq<char>, Severity)> {
    seq![
        ("@typescript-eslint/await-thenable"@, Severity::Off),
        ("@typescript-eslint/consistent-return"@, Severity::Off),
        ("@typescript-eslint/consistent-type-exports"@, Severity::Off),
        ("@typescript-eslint/dot-notation"@, Severity::Off),
        ("@typescript-eslint/naming-convention"@, Severity::Off),
        ("@typescript-eslint/no-array-delete"@, Severity::Off),
        ("@typescript-eslint/no-base-to-string"@, Severity::Off),
        ("@typescript-eslint/no-confusing-void-expression"@, Severity::Off),
        ("@typescript-eslint/no-duplicate-type-constituents"@, Severity::Off),
        ("@typescript-eslint/no-floating-promises"@, Severity::Off),
        ("@typescript-eslint/no-for-in-array"@, Severity::Off),
        ("@typescript-eslint/no-implied-eval"@, Severity::Off),
        ("@typescript-eslint/no-meaningless-void-operator"@, Severity::Off),
        ("@typescript-eslint/no-misused-promises"@, Severity::Off),
        ("@typescript-eslint/no-mixed-enums"@, Severity::Off),
        ("@typescript-eslint/no-redundant-type-constituents"@, Severity::Off),
        ("@typescript-eslint/no-throw-literal"@, Severity::Off),
        ("@typescript-eslint/no-unnecessary-boolean-literal-compare"@, Severity::Off),
        ("@typescript-eslint/no-unnecessary-condition"@, Severity::Off),
        ("@typescript-eslint/no-unnecessary-qualifier"@, Severity::Off),
        ("@typescript-eslint/no-unnecessary-type-arguments"@, Severity::Off),
        ("@typescript-eslint/no-unnecessary-type-assertion"@, Severity::Off),
        ("@typescript-eslint/no-unsafe-argument"@, Severity::Off),
        ("@typescript-eslint/no-unsafe-assignment"@, Severity::Off),
        ("@typescript-eslint/no-unsafe-call"@, Severity::Off),
        ("@typescript-eslint/no-unsafe-enum-comparison"@, Severity::Off),
        ("@typescript-eslint/no-unsafe-member-access"@, Severity::Off),
        ("@typescript-eslint/no-unsafe-return"@, Severity::Off),
        ("@typescript-eslint/no-unsafe-unary-minus"@, Severity::Off),
        ("@typescript-eslint/no-useless-template-literals"@, Severity::Off),
        ("@typescript-eslint/non-nullable-type-assertion-style"@, Severity::Off),
        ("@typescript-eslint/only-throw-error"@, Severity::Off),
        ("@typescript-eslint/prefer-destructuring"@, Severity::Off),
        ("@typescript-eslint/prefer-find"@, Severity::Off),
        ("@typescript-eslint/prefer-includes"@, Severity::Off),
        ("@typescript-eslint/prefer-nullish-coalescing"@, Severity::Off),
        ("@typescript-eslint/prefer-optional-chain"@, Severity::Off),
        ("@typescript-eslint/prefer-promise-reject-errors"@, Severity::Off),
        ("@typescript-eslint/prefer-readonly"@, Severity::Off),
        ("@typescript-eslint/prefer-readonly-parameter-types"@, Severity::Off),
        ("@typescript-eslint/prefer-reduce-type-parameter"@, Severity::Off),
        ("@typescript-eslint/prefer-regexp-exec"@, Severity::Off),
        ("@typescript-eslint/prefer-return-this-type"@, Severity::Off),
        ("@typescript-eslint/prefer-string-starts-ends-with"@, Severity::Off),
        ("@typescript-eslint/promise-function-async"@, Severity::Off),
        ("@typescript-eslint/require-array-sort-compare"@, Severity::Off),
        ("@typescript-eslint/require-await"@, Severity::Off),
        ("@typescript-eslint/restrict-plus-operands"@, Severity::Off),
        ("@typescript-eslint/restrict-template-expressions"@, Severity::Off),
        ("@typescript-eslint/return-await"@, Severity::Off),
        ("@typescript-eslint/strict-boolean-expressions"@, Severity::Off),
        ("@typescript-eslint/switch-exhaustiveness-check"@, Severity::Off),
        ("@typescript-eslint/unbound-method"@, Severity::Off),
        ("@typescript-eslint/use-unknown-in-catch-callback-variable"@, Severity::Off),
    ]
}

/// The plugin's `disable-type-checked` preset.
pub fn disable_type_checked() -> (r: Vec<(&'static str, Severity)>)
    ensures
        r.deep_view() == spec_disable_type_checked(),
{
    let r: Vec<(&'static str, Severity)> = vec![
        ("@typescript-eslint/await-thenable", Severity::Off),
        ("@typescript-eslint/consistent-return", Severity::Off),
        ("@typescript-eslint/consistent-type-exports", Severity::Off),
        ("@typescript-eslint/dot-notation", Severity::Off),
        ("@typescript-eslint/naming-convention", Severity::Off),
        ("@typescript-eslint/no-array-delete", Severity::Off),
        ("@typescript-eslint/no-base-to-string", Severity::Off),
        ("@typescript-eslint/no-confusing-void-expression", Severity::Off),
        ("@typescript-eslint/no-duplicate-type-constituents", Severity::Off),
        ("@typescript-eslint/no-floating-promises", Severity::Off),
        ("@typescript-eslint/no-for-in-array", Severity::Off),
        ("@typescript-eslint/no-implied-eval", Severity::Off),
        ("@typescript-eslint/no-meaningless-void-operator", Severity::Off),
        ("@typescript-eslint/no-misused-promises", Severity::Off),
        ("@typescript-eslint/no-mixed-enums", Severity::Off),
        ("@typescript-eslint/no-redundant-type-constituents", Severity::Off),
        ("@typescript-eslint/no-throw-literal", Severity::Off),
        ("@typescript-eslint/no-unnecessary-boolean-literal-compare", Severity::Off),
        ("@typescript-eslint/no-unnecessary-condition", Severity::Off),
        ("@typescript-eslint/no-unnecessary-qualifier", Severity::Off),
        ("@typescript-eslint/no-unnecessary-type-arguments", Severity::Off),
        ("@typescript-eslint/no-unnecessary-type-assertion", Severity::Off),
        ("@typescript-eslint/no-unsafe-argument", Severity::Off),
        ("@typescript-eslint/no-unsafe-assignment", Severity::Off),
        ("@typescript-eslint/no-unsafe-call", Severity::Off),
        ("@typescript-eslint/no-unsafe-enum-comparison", Severity::Off),
        ("@typescript-eslint/no-unsafe-member-access", Severity::Off),
        ("@typescript-eslint/no-unsafe-return", Severity::Off),
        ("@typescript-eslint/no-unsafe-unary-minus", Severity::Off),
        ("@typescript-eslint/no-useless-template-literals", Severity::Off),
        ("@typescript-eslint/non-nullable-type-assertion-style", Severity::Off),
        ("@typescript-eslint/only-throw-error", Severity::Off),
        ("@typescript-eslint/prefer-destructuring", Severity::Off),
        ("@typescript-eslint/prefer-find", Severity::Off),
        ("@typescript-eslint/prefer-includes", Severity::Off),
        ("@typescript-eslint/prefer-nullish-coalescing", Severity::Off),
        ("@typescript-eslint/prefer-optional-chain", Severity::Off),
        ("@typescript-eslint/prefer-promise-reject-errors", Severity::Off),
        ("@typescript-eslint/prefer-readonly", Severity::Off),
        ("@typescript-eslint/prefer-readonly-parameter-types", Severity::Off),
        ("@typescript-eslint/prefer-reduce-type-parameter", Severity::Off),
        ("@typescript-eslint/prefer-regexp-exec", Severity::Off),
        ("@typescript-eslint/prefer-return-this-type", Severity::Off),
        ("@typescript-eslint/prefer-string-starts-ends-with", Severity::Off),
        ("@typescript-eslint/promise-function-async", Severity::Off),
        ("@typescript-eslint/require-array-sort-compare", Severity::Off),
        ("@typescript-eslint/require-await", Severity::Off),
        ("@typescript-eslint/restrict-plus-operands", Severity::Off),
        ("@typescript-eslint/restrict-template-expressions", Severity::Off),
        ("@typescript-eslint/return-await", Severity::Off),
        ("@typescript-eslint/strict-boolean-expressions", Severity::Off),
        ("@typescript-eslint/switch-exhaustiveness-check", Severity::Off),
        ("@typescript-eslint/unbound-method", Severity::Off),
        ("@typescript-eslint/use-unknown-in-catch-callback-variable", Severity::Off),
    ];
    proof {
        assert(r.deep_view() =~= spec_disable_type_checked());
    }
    r
}

/// The pairs of the plugin's `all` preset.
pub open spec fn spec_all_rules() -> Seq<(Seq<char>, Severity)> {
    seq![
        ("@typescript-eslint/adjacent-overload-signatures"@, Severity::Error),
        ("@typescript-eslint/array-type"@, Severity::Error),
        ("@typescript-eslint/await-thenable"@, Severity::Error),
        ("@typescript-eslint/ban-ts-comment"@, Severity::Error),
        ("@typescript-eslint/ban-tslint-comment"@, Severity::Error),
        ("@typescript-eslint/ban-types"@, Severity::Error),
        ("@typescript-eslint/class-literal-property-style"@, Severity::Error),
        ("class-methods-use-this"@, Severity::Off),
        ("@typescript-eslint/class-methods-use-this"@, Severity::Error),
        ("@typescript-eslint/consistent-generic-constructors"@, Severity::Error),
        ("@typescript-eslint/consistent-indexed-object-style"@, Severity::Error),
        ("consistent-return"@, Severity::Off),
        ("@typescript-eslint/consistent-return"@, Severity::Error),
        ("@typescript-eslint/consistent-type-assertions"@, Severity::Error),
        ("@typescript-eslint/consistent-type-definitions"@, Severity::Error),
        ("@typescript-eslint/consistent-type-exports"@, Severity::Error),
        ("@typescript-eslint/consistent-type-imports"@, Severity::Error),
        ("default-param-last"@, Severity::Off),
        ("@typescript-eslint/default-param-last"@, Severity::Error),
        ("dot-notation"@, Severity::Off),
        ("@typescript-eslint/dot-notation"@, Severity::Error),
        ("@typescript-eslint/explicit-function-return-type"@, Severity::Error),
        ("@typescript-eslint/explicit-member-accessibility"@, Severity::Error),
        ("@typescript-eslint/explicit-module-boundary-types"@, Severity::Error),
        ("init-declarations"@, Severity::Off),
        ("@typescript-eslint/init-declarations"@, Severity::Error),
        ("max-params"@, Severity::Off),
        ("@typescript-eslint/max-params"@, Severity::Error),
        ("@typescript-eslint/member-ordering"@, Severity::Error),
        ("@typescript-eslint/method-signature-style"@, Severity::Error),
        ("@typescript-eslint/naming-convention"@, Severity::Error),
        ("no-array-constructor"@, Severity::Off),
        ("@typescript-eslint/no-array-constructor"@, Severity::Error),
        ("@typescript-eslint/no-array-delete"@, Severity::Error),
        ("@typescript-eslint/no-base-to-string"@, Severity::Error),
        ("@typescript-eslint/no-confusing-non-null-assertion"@, Severity::Error),
        ("@typescript-eslint/no-confusing-void-expression"@, Severity::Error),
        ("no-dupe-class-members"@, Severity::Off),
        ("@typescript-eslint/no-dupe-class-members"@, Severity::Error),
        ("@typescript-eslint/no-duplicate-enum-values"@, Severity::Error),
        ("@typescript-eslint/no-duplicate-type-constituents"@, Severity::Error),
        ("@typescript-eslint/no-dynamic-delete"@, Severity::Error),
        ("no-empty-function"@, Severity::Off),
        ("@typescript-eslint/no-empty-function"@, Severity::Error),
        ("@typescript-eslint/no-empty-interface"@, Severity::Error),
        ("@typescript-eslint/no-explicit-any"@, Severity::Error),
        ("@typescript-eslint/no-extra-non-null-assertion"@, Severity::Error),
        ("@typescript-eslint/no-extraneous-class"@, Severity::Error),
        ("@typescript-eslint/no-floating-promises"@, Severity::Error),
        ("@typescript-eslint/no-for-in-array"@, Severity::Error),
        ("no-implied-eval"@, Severity::Off),
        ("@typescript-eslint/no-implied-eval"@, Severity::Error),
        ("@typescript-eslint/no-import-type-side-effects"@, Severity::Error),
        ("@typescript-eslint/no-inferrable-types"@, Severity::Error),
        ("no-invalid-this"@, Severity::Off),
        ("@typescript-eslint/no-invalid-this"@, Severity::Error),
        ("@typescript-eslint/no-invalid-void-type"@, Severity::Error),
        ("no-loop-func"@, Severity::Off),
        ("@typescript-eslint/no-loop-func"@, Severity::Error),
        ("no-loss-of-precision"@, Severity::Off),
        ("@typescript-eslint/no-loss-of-precision"@, Severity::Error),
        ("no-magic-numbers"@, Severity::Off),
        ("@typescript-eslint/no-magic-numbers"@, Severity::Error),
        ("@typescript-eslint/no-meaningless-void-operator"@, Severity::Error),
        ("@typescript-eslint/no-misused-new"@, Severity::Error),
        ("@typescript-eslint/no-misused-promises"@, Severity::Error),
        ("@typescript-eslint/no-mixed-enums"@, Severity::Error),
        ("@typescript-eslint/no-namespace"@, Severity::Error),
        ("@typescript-eslint/no-non-null-asserted-nullish-coalescing"@, Severity::Error),
        ("@typescript-eslint/no-non-null-asserted-optional-chain"@, Severity::Error),
        ("@typescript-eslint/no-non-null-assertion"@, Severity::Error),
        ("no-redeclare"@, Severity::Off),
        ("@typescript-eslint/no-redeclare"@, Severity::Error),
        ("@typescript-eslint/no-redundant-type-constituents"@, Severity::Error),
        ("@typescript-eslint/no-require-imports"@, Severity::Error),
        ("no-restricted-imports"@, Severity::Off),
        ("@typescript-eslint/no-restricted-imports"@, Severity::Error),
        ("no-shadow"@, Severity::Off),
        ("@typescript-eslint/no-shadow"@, Severity::Error),
        ("@typescript-eslint/no-this-alias"@, Severity::Error),
        ("@typescript-eslint/no-unnecessary-boolean-literal-compare"@, Severity::Error),
        ("@typescript-eslint/no-unnecessary-condition"@, Severity::Error),
        ("@typescript-eslint/no-unnecessary-qualifier"@, Severity::Error),
        ("@typescript-eslint/no-unnecessary-type-arguments"@, Severity::Error),
        ("@typescript-eslint/no-unnecessary-type-assertion"@, Severity::Error),
        ("@typescript-eslint/no-unnecessary-type-constraint"@, Severity::Error),
        ("@typescript-eslint/no-unsafe-argument"@, Severity::Error),
        ("@typescript-eslint/no-unsafe-assignment"@, Severity::Error),
        ("@typescript-eslint/no-unsafe-call"@, Severity::Error),
        ("@typescript-eslint/no-unsafe-declaration-merging"@, Severity::Error),
        ("@typescript-eslint/no-unsafe-enum-comparison"@, Severity::Error),
        ("@typescript-eslint/no-unsafe-member-access"@, Severity::Error),
        ("@typescript-eslint/no-unsafe-return"@, Severity::Error),
        ("@typescript-eslint/no-unsafe-unary-minus"@, Severity::Error),
        ("no-unused-expressions"@, Severity::Off),
        ("@typescript-eslint/no-unused-expressions"@, Severity::Error),
        ("no-unused-vars"@, Severity::Off),
        ("@typescript-eslint/no-unused-vars"@, Severity::Error),
        ("no-use-before-define"@, Severity::Off),
        ("@typescript-eslint/no-use-before-define"@, Severity::Error),
        ("no-useless-constructor"@, Severity::Off),
        ("@typescript-eslint/no-useless-constructor"@, Severity::Error),
        ("@typescript-eslint/no-useless-empty-export"@, Severity::Error),
        ("@typescript-eslint/no-useless-template-literals"@, Severity::Error),
        ("@typescript-eslint/no-var-requires"@, Severity::Error),
        ("@typescript-eslint/non-nullable-type-assertion-style"@, Severity::Error),
        ("no-throw-literal"@, Severity::Off),
        ("@typescript-eslint/only-throw-error"@, Severity::Error),
        ("@typescript-eslint/parameter-properties"@, Severity::Error),
        ("@typescript-eslint/prefer-as-const"@, Severity::Error),
        ("prefer-destructuring"@, Severity::Off),
        ("@typescript-eslint/prefer-destructuring"@, Severity::Error),
        ("@typescript-eslint/prefer-enum-initializers"@, Severity::Error),
        ("@typescript-eslint/prefer-find"@, Severity::Error),
        ("@typescript-eslint/prefer-for-of"@, Severity::Error),
        ("@typescript-eslint/prefer-function-type"@, Severity::Error),
        ("@typescript-eslint/prefer-includes"@, Severity::Error),
        ("@typescript-eslint/prefer-literal-enum-member"@, Severity::Error),
        ("@typescript-eslint/prefer-namespace-keyword"@, Severity::Error),
        ("@typescript-eslint/prefer-nullish-coalescing"@, Severity::Error),
        ("@typescript-eslint/prefer-optional-chain"@, Severity::Error),
        ("prefer-promise-reject-errors"@, Severity::Off),
        ("@typescript-eslint/prefer-promise-reject-errors"@, Severity::Error),
        ("@typescript-eslint/prefer-readonly"@, Severity::Error),
        ("@typescript-eslint/prefer-readonly-parameter-types"@, Severity::Error),
        ("@typescript-eslint/prefer-reduce-type-parameter"@, Severity::Error),
        ("@typescript-eslint/prefer-regexp-exec"@, Severity::Error),
        ("@typescript-eslint/prefer-return-this-type"@, Severity::Error),
        ("@typescript-eslint/prefer-string-starts-ends-with"@, Severity::Error),
        ("@typescript-eslint/prefer-ts-expect-error"@, Severity::Error),
        ("@typescript-eslint/promise-function-async"@, Severity::Error),
        ("@typescript-eslint/require-array-sort-compare"@, Severity::Error),
        ("require-await"@, Severity::Off),
        ("@typescript-eslint/require-await"@, Severity::Error),
        ("@typescript-eslint/restrict-plus-operands"@, Severity::Error),
        ("@typescript-eslint/restrict-template-expressions"@, Severity::Error),
        ("no-return-await"@, Severity::Off),
        ("@typescript-eslint/return-await"@, Severity::Error),
        ("@typescript-eslint/sort-type-constituents"@, Severity::Error),
        ("@typescript-eslint/strict-boolean-expressions"@, Severity::Error),
        ("@typescript-eslint/switch-exhaustiveness-check"@, Severity::Error),
        ("@typescript-eslint/triple-slash-reference"@, Severity::Error),
        ("@typescript-eslint/typedef"@, Severity::Error),
        ("@typescript-eslint/unbound-method"@, Severity::Error),
        ("@typescript-eslint/unified-signatures"@, Severity::Error),
        ("@typescript-eslint/use-unknown-in-catch-callback-variable"@, Severity::Error),
    ]
}

/// The plugin's `all` preset.
pub fn all_rules() -> (r: Vec<(&'static str, Severity)>)
    ensures
        r.deep_view() == spec_all_rules(),
{
    let r: Vec<(&'static str, Severity)> = vec![
        ("@typescript-eslint/adjacent-overload-signatures", Severity::Error),
        ("@typescript-eslint/array-type", Severity::Error),
        ("@typescript-eslint/await-thenable", Severity::Error),
        ("@typescript-eslint/ban-ts-comment", Severity::Error),
        ("@typescript-eslint/ban-tslint-comment", Severity::Error),
        ("@typescript-eslint/ban-types", Severity::Error),
        ("@typescript-eslint/class-literal-property-style", Severity::Error),
        ("class-methods-use-this", Severity::Off),
        ("@typescript-eslint/class-methods-use-this", Severity::Error),
        ("@typescript-eslint/consistent-generic-constructors", Severity::Error),
        ("@typescript-eslint/consistent-indexed-object-style", Severity::Error),
        ("consistent-return", Severity::Off),
        ("@typescript-eslint/consistent-return", Severity::Error),
        ("@typescript-eslint/consistent-type-assertions", Severity::Error),
        ("@typescript-eslint/consistent-type-definitions", Severity::Error),
        ("@typescript-eslint/consistent-type-exports", Severity::Error),
        ("@typescript-eslint/consistent-type-imports", Severity::Error),
        ("default-param-last", Severity::Off),
        ("@typescript-eslint/default-param-last", Severity::Error),
        ("dot-notation", Severity::Off),
        ("@typescript-eslint/dot-notation", Severity::Error),
        ("@typescript-eslint/explicit-function-return-type", Severity::Error),
        ("@typescript-eslint/explicit-member-accessibility", Severity::Error),
        ("@typescript-eslint/explicit-module-boundary-types", Severity::Error),
        ("init-declarations", Severity::Off),
        ("@typescript-eslint/init-declarations", Severity::Error),
        ("max-params", Severity::Off),
        ("@typescript-eslint/max-params", Severity::Error),
        ("@typescript-eslint/member-ordering", Severity::Error),
        ("@typescript-eslint/method-signature-style", Severity::Error),
        ("@typescript-eslint/naming-convention", Severity::Error),
        ("no-array-constructor", Severity::Off),
        ("@typescript-eslint/no-array-constructor", Severity::Error),
        ("@typescript-eslint/no-array-delete", Severity::Error),
        ("@typescript-eslint/no-base-to-string", Severity::Error),
        ("@typescript-eslint/no-confusing-non-null-assertion", Severity::Error),
        ("@typescript-eslint/no-confusing-void-expression", Severity::Error),
        ("no-dupe-class-members", Severity::Off),
        ("@typescript-eslint/no-dupe-class-members", Severity::Error),
        ("@typescript-eslint/no-duplicate-enum-values", Severity::Error),
        ("@typescript-eslint/no-duplicate-type-constituents", Severity::Error),
        ("@typescript-eslint/no-dynamic-delete", Severity::Error),
        ("no-empty-function", Severity::Off),
        ("@typescript-eslint/no-empty-function", Severity::Error),
        ("@typescript-eslint/no-empty-interface", Severity::Error),
        ("@typescript-eslint/no-explicit-any", Severity::Error),
        ("@typescript-eslint/no-extra-non-null-assertion", Severity::Error),
        ("@typescript-eslint/no-extraneous-class", Severity::Error),
        ("@typescript-eslint/no-floating-promises", Severity::Error),
        ("@typescript-eslint/no-for-in-array", Severity::Error),
        ("no-implied-eval", Severity::Off),
        ("@typescript-eslint/no-implied-eval", Severity::Error),
        ("@typescript-eslint/no-import-type-side-effects", Severity::Error),
        ("@typescript-eslint/no-inferrable-types", Severity::Error),
        ("no-invalid-this", Severity::Off),
        ("@typescript-eslint/no-invalid-this", Severity::Error),
        ("@typescript-eslint/no-invalid-void-type", Severity::Error),
        ("no-loop-func", Severity::Off),
        ("@typescript-eslint/no-loop-func", Severity::Error),
        ("no-loss-of-precision", Severity::Off),
        ("@typescript-eslint/no-loss-of-precision", Severity::Error),
        ("no-magic-numbers", Severity::Off),
        ("@typescript-eslint/no-magic-numbers", Severity::Error),
        ("@typescript-eslint/no-meaningless-void-operator", Severity::Error),
        ("@typescript-eslint/no-misused-new", Severity::Error),
        ("@typescript-eslint/no-misused-promises", Severity::Error),
        ("@typescript-eslint/no-mixed-enums", Severity::Error),
        ("@typescript-eslint/no-namespace", Severity::Error),
        ("@typescript-eslint/no-non-null-asserted-nullish-coalescing", Severity::Error),
        ("@typescript-eslint/no-non-null-asserted-optional-chain", Severity::Error),
        ("@typescript-eslint/no-non-null-assertion", Severity::Error),
        ("no-redeclare", Severity::Off),
        ("@typescript-eslint/no-redeclare", Severity::Error),
        ("@typescript-eslint/no-redundant-type-constituents", Severity::Error),
        ("@typescript-eslint/no-require-imports", Severity::Error),
        ("no-restricted-imports", Severity::Off),
        ("@typescript-eslint/no-restricted-imports", Severity::Error),
        ("no-shadow", Severity::Off),
        ("@typescript-eslint/no-shadow", Severity::Error),
        ("@typescript-eslint/no-this-alias", Severity::Error),
        ("@typescript-eslint/no-unnecessary-boolean-literal-compare", Severity::Error),
        ("@typescript-eslint/no-unnecessary-condition", Severity::Error),
        ("@typescript-eslint/no-unnecessary-qualifier", Severity::Error),
        ("@typescript-eslint/no-unnecessary-type-arguments", Severity::Error),
        ("@typescript-eslint/no-unnecessary-type-assertion", Severity::Error),
        ("@typescript-eslint/no-unnecessary-type-constraint", Severity::Error),
        ("@typescript-eslint/no-unsafe-argument", Severity::Error),
        ("@typescript-eslint/no-unsafe-assignment", Severity::Error),
        ("@typescript-eslint/no-unsafe-call", Severity::Error),
        ("@typescript-eslint/no-unsafe-declaration-merging", Severity::Error),
        ("@typescript-eslint/no-unsafe-enum-comparison", Severity::Error),
        ("@typescript-eslint/no-unsafe-member-access", Severity::Error),
        ("@typescript-eslint/no-unsafe-return", Severity::Error),
        ("@typescript-eslint/no-unsafe-unary-minus", Severity::Error),
        ("no-unused-expressions", Severity::Off),
        ("@typescript-eslint/no-unused-expressions", Severity::Error),
        ("no-unused-vars", Severity::Off),
        ("@typescript-eslint/no-unused-vars", Severity::Error),
        ("no-use-before-define", Severity::Off),
        ("@typescript-eslint/no-use-before-define", Severity::Error),
        ("no-useless-constructor", Severity::Off),
        ("@typescript-eslint/no-useless-constructor", Severity::Error),
        ("@typescript-eslint/no-useless-empty-export", Severity::Error),
        ("@typescript-eslint/no-useless-template-literals", Severity::Error),
        ("@typescript-eslint/no-var-requires", Severity::Error),
        ("@typescript-eslint/non-nullable-type-assertion-style", Severity::Error),
        ("no-throw-literal", Severity::Off),
        ("@typescript-eslint/only-throw-error", Severity::Error),
        ("@typescript-eslint/parameter-properties", Severity::Error),
        ("@typescript-eslint/prefer-as-const", Severity::Error),
        ("prefer-destructuring", Severity::Off),
        ("@typescript-eslint/prefer-destructuring", Severity::Error),
        ("@typescript-eslint/prefer-enum-initializers", Severity::Error),
        ("@typescript-eslint/prefer-find", Severity::Error),
        ("@typescript-eslint/prefer-for-of", Severity::Error),
        ("@typescript-eslint/prefer-function-type", Severity::Error),
        ("@typescript-eslint/prefer-includes", Severity::Error),
        ("@typescript-eslint/prefer-literal-enum-member", Severity::Error),
        ("@typescript-eslint/prefer-namespace-keyword", Severity::Error),
        ("@typescript-eslint/prefer-nullish-coalescing", Severity::Error),
        ("@typescript-eslint/prefer-optional-chain", Severity::Error),
        ("prefer-promise-reject-errors", Severity::Off),
        ("@typescript-eslint/prefer-promise-reject-errors", Severity::Error),
        ("@typescript-eslint/prefer-readonly", Severity::Error),
        ("@typescript-eslint/prefer-readonly-parameter-types", Severity::Error),
        ("@typescript-eslint/prefer-reduce-type-parameter", Severity::Error),
        ("@typescript-eslint/prefer-regexp-exec", Severity::Error),
        ("@typescript-eslint/prefer-return-this-type", Severity::Error),
        ("@typescript-eslint/prefer-string-starts-ends-with", Severity::Error),
        ("@typescript-eslint/prefer-ts-expect-error", Severity::Error),
        ("@typescript-eslint/promise-function-async", Severity::Error),
        ("@typescript-eslint/require-array-sort-compare", Severity::Error),
        ("require-await", Severity::Off),
        ("@typescript-eslint/require-await", Severity::Error),
        ("@typescript-eslint/restrict-plus-operands", Severity::Error),
        ("@typescript-eslint/restrict-template-expressions", Severity::Error),
        ("no-return-await", Severity::Off),
        ("@typescript-eslint/return-await", Severity::Error),
        ("@typescript-eslint/sort-type-constituents", Severity::Error),
        ("@typescript-eslint/strict-boolean-expressions", Severity::Error),
        ("@typescript-eslint/switch-exhaustiveness-check", Severity::Error),
        ("@typescript-eslint/triple-slash-reference", Severity::Error),
        ("@typescript-eslint/typedef", Severity::Error),
        ("@typescript-eslint/unbound-method", Severity::Error),
        ("@typescript-eslint/unified-signatures", Severity::Error),
        ("@typescript-eslint/use-unknown-in-catch-callback-variable", Severity::Error),
    ];
    proof {
        assert(r.deep_view() =~= spec_all_rules());
    }
    r
}

} // verus!
