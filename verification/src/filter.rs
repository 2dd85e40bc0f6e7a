//! The filter tree: a boolean predicate over the properties of a row.

use crate::value::Value;
use vstd::prelude::*;

verus! {

/// How a condition compares a property with its operands.
#[derive(Clone, Copy, Debug, PartialEq, Eq, Structural)]
pub enum Operator {
    Eq,
    Neq,
    Gt,
    Gte,
    Lt,
    Lte,
    StartsWith,
    Contains,
    EndsWith,
    IsNull,
    Between,
}

/// A comparison of one property with the operands that its operator asks
/// for: none for `IsNull`, two for `Between`, one otherwise, which must be
/// text for `StartsWith`, `Contains` and `EndsWith`.
#[derive(Debug, PartialEq, Eq)]
pub struct Condition {
    pub property_index: u16,
    pub operator: Operator,
    pub operands: Vec<Value>,
    pub case_sensitive: bool,
}

/// A boolean predicate tree.
#[derive(Debug, PartialEq, Eq)]
pub enum Filter {
    And(Vec<Filter>),
    Or(Vec<Filter>),
    Not(Box<Filter>),
    Condition(Condition),
}

} // verus!
