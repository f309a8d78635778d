//! Shape-tolerant decoding of raw values into typed data.
//!
//! Every decodable type implements [`DecodeValue`]: an executable decoder
//! that returns `None` on a malformed value together with two specification
//! functions that pin down exactly which values decode to what, and exactly
//! how many diagnostics the attempt records. Decoders never panic and never
//! abort a surrounding decode: a failed fragment is reported through the
//! diagnostic list and skipped, while whatever decodes cleanly is accepted
//! in silence.

use crate::diagnostics::{lemma_prefix_trans, Diagnostic, DiagnosticSeverity};
use crate::value::Value;
use vstd::prelude::*;

verus! {

/// Relies on `str`'s `PartialEq`: two string slices compare equal exactly
/// when they consist of the same characters.
#[verifier::external_body]
pub fn str_eq(a: &str, b: &str) -> (r: bool)
    ensures
        r == (a@ == b@),
{
    a == b
}

/// A type that can be decoded from a raw configuration value.
///
/// `spec_decode` is the mathematical meaning of the decoder: `decode`
/// returns (up to views) exactly what `spec_decode` says. `spec_diag_count`
/// is the exact number of diagnostics one decode attempt records: the old
/// diagnostics stay a prefix of the new ones and exactly that many entries
/// follow them, so a failure provably reports itself and a clean decode
/// provably stays silent.
pub trait DecodeValue: Sized + DeepView {
    /// Which values decode into this type, and to what.
    spec fn spec_decode(v: Value) -> Option<Self::V>;

    /// How many diagnostics decoding the value records.
    spec fn spec_diag_count(v: Value) -> nat;

    /// Decodes a raw value, reporting a diagnostic on failure.
    fn decode(v: &Value, diags: &mut Vec<Diagnostic>) -> (r: Option<Self>)
        ensures
            r.deep_view() == Self::spec_decode(*v),
            old(diags)@.is_prefix_of(final(diags)@),
            final(diags)@.len() == old(diags)@.len() + Self::spec_diag_count(*v),
            Self::spec_diag_count(*v) == 0 ==> final(diags)@ == old(diags)@,
    ;
}

/// How many diagnostics decoding a value as a string records: none for a
/// string, one for anything else.
pub open spec fn string_diag_count(v: Value) -> nat {
    match v {
        Value::Str(_) => 0,
        _ => 1,
    }
}

impl DecodeValue for String {
    open spec fn spec_decode(v: Value) -> Option<Seq<char>> {
        match v {
            Value::Str(s) => Some(s@),
            _ => None,
        }
    }

    open spec fn spec_diag_count(v: Value) -> nat {
        string_diag_count(v)
    }

    fn decode(v: &Value, diags: &mut Vec<Diagnostic>) -> (r: Option<String>) {
        match v {
            Value::Str(s) => Some(s.clone()),
            _ => {
                push_diag(diags, DiagnosticSeverity::Error, "Expected a string.");
                None
            },
        }
    }
}

/// How many diagnostics decoding a value as a boolean records: none for a
/// boolean, one for anything else.
pub open spec fn bool_diag_count(v: Value) -> nat {
    match v {
        Value::Bool(_) => 0,
        _ => 1,
    }
}

impl DecodeValue for bool {
    open spec fn spec_decode(v: Value) -> Option<bool> {
        match v {
            Value::Bool(b) => Some(b),
            _ => None,
        }
    }

    open spec fn spec_diag_count(v: Value) -> nat {
        bool_diag_count(v)
    }

    fn decode(v: &Value, diags: &mut Vec<Diagnostic>) -> (r: Option<bool>) {
        match v {
            Value::Bool(b) => {
                let r = Some(*b);
                proof {
                    assert(r.deep_view() == Option::<bool>::Some(*b));
                }
                r
            },
            _ => {
                push_diag(diags, DiagnosticSeverity::Error, "Expected a boolean.");
                None
            },
        }
    }
}

/// Appends one diagnostic, leaving everything already recorded in place.
pub fn push_diag(diags: &mut Vec<Diagnostic>, severity: DiagnosticSeverity, message: &str)
    ensures
        final(diags)@.len() == old(diags)@.len() + 1,
        old(diags)@.is_prefix_of(final(diags)@),
{
    diags.push(Diagnostic::new(severity, message));
    proof {
        assert(old(diags)@ =~= diags@.subrange(0, old(diags)@.len() as int));
    }
}

/// The element-wise decoding of an array: elements that decode are kept in
/// order, elements that fail are dropped.
pub open spec fn decoded_elems<T: DecodeValue>(items: Seq<Value>) -> Seq<T::V>
    decreases items.len(),
{
    if items.len() == 0 {
        Seq::empty()
    } else {
        let rest = decoded_elems::<T>(items.drop_last());
        match T::spec_decode(items.last()) {
            Some(x) => rest.push(x),
            None => rest,
        }
    }
}

/// How many diagnostics decoding the elements of an array records: the sum
/// over the elements.
pub open spec fn decoded_elems_diag_count<T: DecodeValue>(items: Seq<Value>) -> nat
    decreases items.len(),
{
    if items.len() == 0 {
        0
    } else {
        decoded_elems_diag_count::<T>(items.drop_last()) + T::spec_diag_count(items.last())
    }
}

/// What an array value decodes to as a list: any non-array fails, an array
/// keeps its decodable elements.
pub open spec fn spec_decode_list<T: DecodeValue>(v: Value) -> Option<Seq<T::V>> {
    match v {
        Value::Array(items) => Some(decoded_elems::<T>(items@)),
        _ => None,
    }
}

/// How many diagnostics decoding a value as a list records: the elements'
/// own counts for an array, one for anything else.
pub open spec fn spec_list_diag_count<T: DecodeValue>(v: Value) -> nat {
    match v {
        Value::Array(items) => decoded_elems_diag_count::<T>(items@),
        _ => 1,
    }
}

/// Decodes an array element-wise, skipping (and diagnosing) elements that
/// fail to decode.
pub fn decode_vec<T: DecodeValue>(v: &Value, diags: &mut Vec<Diagnostic>) -> (r: Option<Vec<T>>)
    ensures
        r.deep_view() == spec_decode_list::<T>(*v),
        old(diags)@.is_prefix_of(final(diags)@),
        final(diags)@.len() == old(diags)@.len() + spec_list_diag_count::<T>(*v),
        spec_list_diag_count::<T>(*v) == 0 ==> final(diags)@ == old(diags)@,
{
    match v {
        Value::Array(items) => {
            let ghost d0 = diags@;
            let mut out: Vec<T> = Vec::new();
            let n = items.len();
            for i in 0..n
                invariant
                    n == items@.len(),
                    out.deep_view() == decoded_elems::<T>(items@.take(i as int)),
                    d0.is_prefix_of(diags@),
                    diags@.len() == d0.len() + decoded_elems_diag_count::<T>(
                        items@.take(i as int),
                    ),
            {
                let ghost dpre = diags@;
                if let Some(x) = T::decode(&items[i], diags) {
                    out.push(x);
                }
                proof {
                    lemma_prefix_trans(d0, dpre, diags@);
                    assert(items@.take(i + 1 as int).drop_last() =~= items@.take(i as int));
                    assert(items@.take(i + 1 as int).last() == items@[i as int]);
                }
            }
            proof {
                assert(items@.take(n as int) =~= items@);
            }
            Some(out)
        },
        _ => {
            push_diag(diags, DiagnosticSeverity::Error, "Expected an array.");
            None
        },
    }
}

/// A field that accepts either a single value or an array of values,
/// normalized to a list either way.
#[derive(Clone, Debug, PartialEq)]
pub struct Shorthand<T>(pub Vec<T>);

impl<T: DeepView> DeepView for Shorthand<T> {
    type V = Seq<T::V>;

    open spec fn deep_view(&self) -> Seq<T::V> {
        self.0.deep_view()
    }
}

impl<T> Shorthand<T> {
    /// The empty list.
    pub fn new() -> (r: Shorthand<T>)
        ensures
            r.0@ =~= Seq::<T>::empty(),
    {
        Shorthand(Vec::new())
    }

    /// List append: the incoming elements follow the present ones.
    pub fn merge_with(&mut self, other: Shorthand<T>)
        ensures
            final(self).0@ == old(self).0@ + other.0@,
    {
        let mut other = other;
        self.0.append(&mut other.0);
    }

    /// Wraps a single value as a one-element list.
    pub fn from_single(value: T) -> (r: Shorthand<T>)
        ensures
            r.0@ =~= seq![value],
    {
        let mut v = Vec::new();
        v.push(value);
        Shorthand(v)
    }
}

/// What a value decodes to as a shorthand list: an array decodes
/// element-wise (dropping failures), any other value decodes as a single
/// element or fails outright.
pub open spec fn spec_decode_shorthand<T: DecodeValue>(v: Value) -> Option<Seq<T::V>> {
    match v {
        Value::Array(_) => spec_decode_list::<T>(v),
        _ => match T::spec_decode(v) {
            Some(x) => Some(seq![x]),
            None => None,
        },
    }
}

/// How many diagnostics decoding a value as a shorthand list records: the
/// list's count for an array, the single element's count otherwise.
pub open spec fn spec_shorthand_diag_count<T: DecodeValue>(v: Value) -> nat {
    match v {
        Value::Array(_) => spec_list_diag_count::<T>(v),
        _ => T::spec_diag_count(v),
    }
}

/// Decodes a shorthand field: one scalar, or an array of them.
pub fn decode_shorthand<T: DecodeValue>(v: &Value, diags: &mut Vec<Diagnostic>) -> (r: Option<
    Shorthand<T>,
>)
    ensures
        r.deep_view() == spec_decode_shorthand::<T>(*v),
        old(diags)@.is_prefix_of(final(diags)@),
        final(diags)@.len() == old(diags)@.len() + spec_shorthand_diag_count::<T>(*v),
        spec_shorthand_diag_count::<T>(*v) == 0 ==> final(diags)@ == old(diags)@,
{
    match v {
        Value::Array(_) => match decode_vec::<T>(v, diags) {
            Some(items) => Some(Shorthand(items)),
            None => None,
        },
        _ => match T::decode(v, diags) {
            Some(x) => {
                let r = Shorthand::from_single(x);
                assert(r.deep_view() =~= seq![x.deep_view()]);
                Some(r)
            },
            None => None,
        },
    }
}

} // verus!
