//! Scalar values that a query binds to its placeholders.

use vstd::prelude::*;

verus! {

/// A scalar that a condition compares a property against.
#[derive(Debug, PartialEq, Eq)]
pub enum Value {
    Bool(bool),
    Integer(i64),
    Text(String),
}

/// What a [`Value`] stands for.
pub enum ValueView {
    Bool(bool),
    Integer(i64),
    Text(Seq<char>),
}

impl View for Value {
    type V = ValueView;

    open spec fn view(&self) -> ValueView {
        match self {
            Value::Bool(b) => ValueView::Bool(*b),
            Value::Integer(n) => ValueView::Integer(*n),
            Value::Text(s) => ValueView::Text(s@),
        }
    }
}

impl DeepView for Value {
    type V = ValueView;

    open spec fn deep_view(&self) -> ValueView {
        self@
    }
}

impl Clone for Value {
    fn clone(&self) -> (copy: Self)
        ensures
            copy == *self,
    {
        match self {
            Value::Bool(b) => Value::Bool(*b),
            Value::Integer(n) => Value::Integer(*n),
            Value::Text(s) => Value::Text(s.clone()),
        }
    }
}

} // verus!
