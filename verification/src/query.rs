//! The compiled query: what the compiler hands to whoever runs it.

use crate::value::{Value, ValueView};
use vstd::prelude::*;

verus! {

/// A compiled query: SQL text with `?` placeholders, the values to bind to
/// them in the order in which they occur, the collection it reads, and
/// whether its rows must be collected in full before any is handed on.
#[derive(Debug)]
pub struct SQLiteQuery {
    collection_index: u16,
    sql: String,
    has_sort_distinct: bool,
    values: Vec<Value>,
}

/// What a [`SQLiteQuery`] stands for.
pub struct QueryView {
    pub collection_index: u16,
    pub sql: Seq<char>,
    pub requires_materialization: bool,
    pub values: Seq<ValueView>,
}

impl View for SQLiteQuery {
    type V = QueryView;

    closed spec fn view(&self) -> QueryView {
        QueryView {
            collection_index: self.collection_index,
            sql: self.sql@,
            requires_materialization: self.has_sort_distinct,
            values: self.values.deep_view(),
        }
    }
}

impl SQLiteQuery {
    /// Puts a compiled query together from its parts.
    pub fn new(
        collection_index: u16,
        sql: String,
        has_sort_distinct: bool,
        values: Vec<Value>,
    ) -> (query: Self)
        ensures
            query@ == (QueryView {
                collection_index,
                sql: sql@,
                requires_materialization: has_sort_distinct,
                values: values.deep_view(),
            }),
    {
        SQLiteQuery { collection_index, sql, has_sort_distinct, values }
    }

    /// The index of the collection that the query reads.
    pub fn collection_index(&self) -> (index: u16)
        ensures
            index == self@.collection_index,
    {
        self.collection_index
    }

    /// The SQL text, from `FROM` on.
    pub fn sql(&self) -> (sql: &str)
        ensures
            sql@ == self@.sql,
    {
        self.sql.as_str()
    }

    /// Whether the query sorts or groups, so that its rows cannot be
    /// streamed one by one.
    pub fn requires_materialization(&self) -> (flag: bool)
        ensures
            flag == self@.requires_materialization,
    {
        self.has_sort_distinct
    }

    /// The values to bind, in the order of the placeholders in the text.
    pub fn values(&self) -> (values: &Vec<Value>)
        ensures
            values.deep_view() == self@.values,
    {
        &self.values
    }
}

} // verus!
