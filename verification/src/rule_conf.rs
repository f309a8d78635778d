//! The canonical shape of one configured rule's value.
//!
//! A rule is configured either as a bare severity, or as a positional array
//! `[severity, primaryOption?, moreOptions...?]`. Decoding never backtracks
//! past a successfully decoded severity: a malformed trailing option is
//! dropped with a diagnostic while the validly decoded prefix is kept.

use crate::decode::{decoded_elems, decoded_elems_diag_count, DecodeValue};
use crate::diagnostics::{lemma_prefix_trans, Diagnostic, DiagnosticSeverity};
use crate::severity::{severity_of_value, Severity};
use crate::value::Value;
use vstd::prelude::*;

verus! {

/// One rule's configured value: a severity, optionally followed by a
/// structured primary option, a distinguished secondary option, or a spread
/// of several same-shaped option values.
#[derive(Clone, Debug, PartialEq)]
pub enum RuleConf<T, U = ()> {
    Severity(Severity),
    Option(Severity, T),
    Options(Severity, T, U),
    Spread(Severity, Vec<T>),
}

/// The mathematical shape of a [`RuleConf`].
#[verifier::ext_equal]
pub enum RuleConfView<T, U> {
    Severity(Severity),
    Option(Severity, T),
    Options(Severity, T, U),
    Spread(Severity, Seq<T>),
}

impl<T: DeepView, U: DeepView> DeepView for RuleConf<T, U> {
    type V = RuleConfView<T::V, U::V>;

    open spec fn deep_view(&self) -> RuleConfView<T::V, U::V> {
        match self {
            RuleConf::Severity(sev) => RuleConfView::Severity(*sev),
            RuleConf::Option(sev, x) => RuleConfView::Option(*sev, x.deep_view()),
            RuleConf::Options(sev, x, y) => RuleConfView::Options(
                *sev,
                x.deep_view(),
                y.deep_view(),
            ),
            RuleConf::Spread(sev, xs) => RuleConfView::Spread(*sev, xs.deep_view()),
        }
    }
}

impl<T, U> RuleConfView<T, U> {
    /// The severity every shape carries.
    pub open spec fn severity(self) -> Severity {
        match self {
            RuleConfView::Severity(sev) => sev,
            RuleConfView::Option(sev, _) => sev,
            RuleConfView::Options(sev, _, _) => sev,
            RuleConfView::Spread(sev, _) => sev,
        }
    }
}

impl<T> RuleConfView<T, ()> {
    /// All primary option values carried, in order.
    pub open spec fn options(self) -> Seq<T> {
        match self {
            RuleConfView::Severity(_) => Seq::empty(),
            RuleConfView::Option(_, x) => seq![x],
            RuleConfView::Options(_, x, _) => seq![x],
            RuleConfView::Spread(_, xs) => xs,
        }
    }
}

impl<T: DeepView, U: DeepView> RuleConf<T, U> {
    /// The severity this configuration carries, whatever its shape.
    pub fn severity(&self) -> (r: Severity)
        ensures
            r == self.deep_view().severity(),
    {
        match self {
            Self::Severity(severity) => *severity,
            Self::Option(severity, _) => *severity,
            Self::Options(severity, _, _) => *severity,
            Self::Spread(severity, _) => *severity,
        }
    }
}

impl<T: DeepView> RuleConf<T, ()> {
    /// The primary option values carried, in order.
    pub fn into_vec(self) -> (r: Vec<T>)
        ensures
            r.deep_view() == self.deep_view().options(),
    {
        match self {
            RuleConf::Severity(_) => {
                let r = Vec::new();
                assert(r.deep_view() =~= Seq::<T::V>::empty());
                r
            },
            RuleConf::Option(_, value) | RuleConf::Options(_, value, _) => {
                let ghost vv = value.deep_view();
                let mut r = Vec::new();
                r.push(value);
                assert(r.deep_view() =~= seq![vv]);
                r
            },
            RuleConf::Spread(_, result) => result,
        }
    }
}

/// A fallback value used when a rule carries no usable primary option.
pub trait OptionDefault: Sized + DeepView {
    /// What the fallback is.
    spec fn spec_default() -> Self::V;

    /// Builds the fallback value.
    fn default_value() -> (r: Self)
        ensures
            r.deep_view() == Self::spec_default(),
    ;
}

impl<T: OptionDefault, U: DeepView> RuleConf<T, U> {
    /// The primary option if exactly one was given, the fallback otherwise.
    pub fn option_or_default(self) -> (r: T)
        ensures
            r.deep_view() == match self.deep_view() {
                RuleConfView::Option(_, x) => x,
                _ => T::spec_default(),
            },
    {
        match self {
            RuleConf::Severity(_) | RuleConf::Options(_, _, _) | RuleConf::Spread(_, _) => {
                T::default_value()
            },
            RuleConf::Option(_, option) => option,
        }
    }
}

/// What an array tail decodes to for a rule with a primary option type.
///
/// Element 0 must decode as a severity, or the whole entry fails. A second
/// element that fails to decode as the primary option truncates the result
/// to the bare severity; a failing third element truncates to the single
/// option; from a decodable third element onward every further element that
/// decodes is accumulated into a spread.
pub open spec fn spec_decode_conf_items<T: DecodeValue>(items: Seq<Value>) -> Option<
    RuleConfView<T::V, ()>,
> {
    if items.len() == 0 {
        None
    } else {
        match severity_of_value(items[0]) {
            None => None,
            Some(sev) => if items.len() == 1 {
                Some(RuleConfView::Severity(sev))
            } else {
                match T::spec_decode(items[1]) {
                    None => Some(RuleConfView::Severity(sev)),
                    Some(p) => if items.len() == 2 {
                        Some(RuleConfView::Option(sev, p))
                    } else {
                        match T::spec_decode(items[2]) {
                            None => Some(RuleConfView::Option(sev, p)),
                            Some(p2) => Some(
                                RuleConfView::Spread(
                                    sev,
                                    seq![p, p2] + decoded_elems::<T>(
                                        items.subrange(3, items.len() as int),
                                    ),
                                ),
                            ),
                        }
                    },
                }
            },
        }
    }
}

/// What a raw value decodes to for a rule with a primary option type: a
/// bare number or string decodes as a severity directly, an array decodes
/// positionally, and every other shape fails.
pub open spec fn spec_decode_conf<T: DecodeValue>(v: Value) -> Option<RuleConfView<T::V, ()>> {
    match v {
        Value::Num(_) | Value::Str(_) => match severity_of_value(v) {
            Some(sev) => Some(RuleConfView::Severity(sev)),
            None => None,
        },
        Value::Array(items) => spec_decode_conf_items::<T>(items@),
        _ => None,
    }
}

/// What a raw value decodes to for a rule that declares no option type: the
/// severity alone, even when the array carries further elements, which are
/// deliberately not decoded.
pub open spec fn spec_decode_severity_conf(v: Value) -> Option<Severity> {
    match v {
        Value::Num(_) | Value::Str(_) => severity_of_value(v),
        Value::Array(items) => if items@.len() == 0 {
            None
        } else {
            severity_of_value(items@[0])
        },
        _ => None,
    }
}

/// How many diagnostics decoding an array tail for a rule with a primary
/// option type records: one for a missing or undecodable severity, the
/// option elements' own counts otherwise — and nothing at all for a bare
/// severity.
pub open spec fn spec_conf_items_diag_count<T: DecodeValue>(items: Seq<Value>) -> nat {
    if items.len() == 0 {
        1
    } else {
        match severity_of_value(items[0]) {
            None => 1,
            Some(_) => if items.len() == 1 {
                0
            } else {
                let c1 = T::spec_diag_count(items[1]);
                match T::spec_decode(items[1]) {
                    None => c1,
                    Some(_) => if items.len() == 2 {
                        c1
                    } else {
                        let c2 = c1 + T::spec_diag_count(items[2]);
                        match T::spec_decode(items[2]) {
                            None => c2,
                            Some(_) => c2 + decoded_elems_diag_count::<T>(
                                items.subrange(3, items.len() as int),
                            ),
                        }
                    },
                }
            },
        }
    }
}

/// How many diagnostics decoding a rule configuration with primary option
/// type `T` records.
pub open spec fn spec_conf_diag_count<T: DecodeValue>(v: Value) -> nat {
    match v {
        Value::Num(_) | Value::Str(_) => if severity_of_value(v) is Some {
            0
        } else {
            1
        },
        Value::Array(items) => spec_conf_items_diag_count::<T>(items@),
        _ => 1,
    }
}

/// How many diagnostics decoding a rule configuration for a rule without
/// an option type records: none when the severity decodes — the undecoded
/// trailing elements contribute none — and one otherwise.
pub open spec fn spec_severity_conf_diag_count(v: Value) -> nat {
    if spec_decode_severity_conf(v) is Some {
        0
    } else {
        1
    }
}

/// Decodes a rule configuration for a rule whose primary option type is `T`.
#[verifier::loop_isolation(false)]
pub fn decode_conf<T: DecodeValue>(v: &Value, diags: &mut Vec<Diagnostic>) -> (r: Option<
    RuleConf<T, ()>,
>)
    ensures
        r.deep_view() == spec_decode_conf::<T>(*v),
        old(diags)@.is_prefix_of(final(diags)@),
        final(diags)@.len() == old(diags)@.len() + spec_conf_diag_count::<T>(*v),
        spec_conf_diag_count::<T>(*v) == 0 ==> final(diags)@ == old(diags)@,
{
    match v {
        Value::Num(_) | Value::Str(_) => match Severity::from_value(v) {
            Some(sev) => Some(RuleConf::Severity(sev)),
            None => {
                push_severity_diag(diags);
                None
            },
        },
        Value::Array(items) => {
            if items.len() == 0 {
                push_severity_diag(diags);
                return None;
            }
            let sev = match Severity::from_value(&items[0]) {
                Some(sev) => sev,
                None => {
                    push_severity_diag(diags);
                    return None;
                },
            };
            if items.len() == 1 {
                return Some(RuleConf::Severity(sev));
            }
            let first = match T::decode(&items[1], diags) {
                Some(p) => p,
                None => {
                    return Some(RuleConf::Severity(sev));
                },
            };
            if items.len() == 2 {
                return Some(RuleConf::Option(sev, first));
            }
            let ghost d1 = diags@;
            let second = match T::decode(&items[2], diags) {
                Some(p2) => p2,
                None => {
                    proof {
                        lemma_prefix_trans(old(diags)@, d1, diags@);
                    }
                    return Some(RuleConf::Option(sev, first));
                },
            };
            let ghost firstv = first.deep_view();
            let ghost secondv = second.deep_view();
            let mut spread: Vec<T> = Vec::new();
            spread.push(first);
            spread.push(second);
            let n = items.len();
            let ghost dbase = diags@.len();
            let mut i: usize = 3;
            while i < n
                invariant
                    3 <= i <= n,
                    spread.deep_view() =~= seq![firstv, secondv] + decoded_elems::<T>(
                        items@.subrange(3, i as int),
                    ),
                    old(diags)@.is_prefix_of(diags@),
                    diags@.len() == dbase + decoded_elems_diag_count::<T>(
                        items@.subrange(3, i as int),
                    ),
                decreases n - i,
            {
                let ghost dpre = diags@;
                let ghost pre = spread.deep_view();
                let ghost sub = items@.subrange(3, i as int);
                let ghost sub1 = items@.subrange(3, i + 1 as int);
                proof {
                    assert(sub1.drop_last() =~= sub);
                    assert(sub1.last() == items@[i as int]);
                    assert(decoded_elems::<T>(sub1) == match T::spec_decode(sub1.last()) {
                        Some(x) => decoded_elems::<T>(sub1.drop_last()).push(x),
                        None => decoded_elems::<T>(sub1.drop_last()),
                    });
                    assert(decoded_elems_diag_count::<T>(sub1) == decoded_elems_diag_count::<T>(
                        sub1.drop_last(),
                    ) + T::spec_diag_count(sub1.last()));
                }
                match T::decode(&items[i], diags) {
                    Some(x) => {
                        let ghost xv = x.deep_view();
                        proof {
                            assert(T::spec_decode(items@[i as int]) == Some(xv));
                        }
                        spread.push(x);
                        proof {
                            assert(spread.deep_view() =~= pre.push(xv));
                            assert((seq![firstv, secondv] + decoded_elems::<T>(sub)).push(xv)
                                =~= seq![firstv, secondv] + decoded_elems::<T>(sub).push(xv));
                        }
                    },
                    None => {
                        proof {
                            assert(T::spec_decode(items@[i as int]) is None);
                        }
                    },
                }
                proof {
                    lemma_prefix_trans(old(diags)@, dpre, diags@);
                }
                i += 1;
            }
            assert(spread.deep_view() =~= seq![firstv, secondv] + decoded_elems::<T>(
                items@.subrange(3, items@.len() as int),
            ));
            Some(RuleConf::Spread(sev, spread))
        },
        _ => {
            push_severity_diag(diags);
            None
        },
    }
}

/// Records that a rule entry carried no decodable severity.
fn push_severity_diag(diags: &mut Vec<Diagnostic>)
    ensures
        old(diags)@.is_prefix_of(final(diags)@),
        final(diags)@.len() == old(diags)@.len() + 1,
{
    crate::decode::push_diag(diags, DiagnosticSeverity::Error, "A severity is expected.");
}

/// Decodes a rule configuration for a rule that declares no option type,
/// stopping at the severity without touching any further array element.
pub fn decode_severity_conf(v: &Value, diags: &mut Vec<Diagnostic>) -> (r: Option<Severity>)
    ensures
        r == spec_decode_severity_conf(*v),
        old(diags)@.is_prefix_of(final(diags)@),
        final(diags)@.len() == old(diags)@.len() + spec_severity_conf_diag_count(*v),
        spec_severity_conf_diag_count(*v) == 0 ==> final(diags)@ == old(diags)@,
{
    match v {
        Value::Num(_) | Value::Str(_) => match Severity::from_value(v) {
            Some(sev) => Some(sev),
            None => {
                push_severity_diag(diags);
                None
            },
        },
        Value::Array(items) => {
            if items.len() == 0 {
                push_severity_diag(diags);
                return None;
            }
            match Severity::from_value(&items[0]) {
                Some(sev) => Some(sev),
                None => {
                    push_severity_diag(diags);
                    None
                },
            }
        },
        _ => {
            push_severity_diag(diags);
            None
        },
    }
}

/// Recovery law of the rule-configuration decoder: for a rule declaring a
/// primary option type, an array `[severity, validPrimary, garbage]` whose
/// severity and primary option decode but whose trailing element does not
/// yields exactly the severity with the single primary option — the
/// malformed tail never discards the validly decoded prefix.
pub proof fn lemma_rule_conf_recovery<T: DecodeValue>(items: Seq<Value>, sev: Severity, p: T::V)
    requires
        items.len() == 3,
        severity_of_value(items[0]) == Some(sev),
        T::spec_decode(items[1]) == Some(p),
        T::spec_decode(items[2]) is None,
    ensures
        spec_decode_conf_items::<T>(items) == Some(RuleConfView::<T::V, ()>::Option(sev, p)),
{
}

} // verus!
