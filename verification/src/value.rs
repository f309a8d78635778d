//! The generic value tree handed to the decoders.
//!
//! An ESLint configuration file is parsed by an external collaborator into
//! this shape-polymorphic tree; everything the library decodes starts from a
//! [`Value`]. Numbers are modeled as unsigned integers: the configuration
//! grammar only ever gives meaning to the small integers `0`, `1` and `2`
//! (rule severities), and any other number fails to decode exactly like a
//! fractional or negative one would.

use vstd::prelude::*;

verus! {

/// A parsed configuration value: a scalar, an array, or an object given as
/// its fields in source order.
#[derive(Debug)]
pub enum Value {
    Null,
    Bool(bool),
    Num(u64),
    Str(String),
    Array(Vec<Value>),
    Object(Vec<(String, Value)>),
}

} // verus!
