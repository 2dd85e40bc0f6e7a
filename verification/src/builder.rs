//! The query assembler: collects a filter, sort keys and distinct keys, and
//! compiles them in one step into a [`SQLiteQuery`].

use crate::filter::Filter;
use crate::query::{QueryView, SQLiteQuery};
use crate::scan::{first_some, lemma_first_some_at, lemma_first_some_none};
use crate::schema::{CollectionView, SQLiteCollection};
use crate::sql::{
    collation, collation_keyword, filter_error, filter_sql, filter_text, filter_values,
    CompileError,
};
use crate::lemmas::{lemma_query_placeholders, lemma_query_text_is_plain};
use crate::text::{all_plain, join_strings, joined, placeholders};
use crate::value::{Value, ValueView};
use vstd::prelude::*;
use vstd::string::StringExecFns;

verus! {

/// The direction of a sort key.
#[derive(Clone, Copy, Debug, PartialEq, Eq, Structural)]
pub enum Sort {
    Asc,
    Desc,
}

/// One sort key: a property, a direction and the case flag of its collation.
#[derive(Clone, Copy, Debug, PartialEq, Eq, Structural)]
pub struct SortKey {
    pub property_index: u16,
    pub sort: Sort,
    pub case_sensitive: bool,
}

/// One distinct key: a property and the case flag of its collation.
#[derive(Clone, Copy, Debug, PartialEq, Eq, Structural)]
pub struct DistinctKey {
    pub property_index: u16,
    pub case_sensitive: bool,
}

/// The collation keyword of a sort key. A sort key carries its flag the
/// other way round from a filter or a distinct key: a set flag sorts with
/// `NOCASE`, a cleared one with `BINARY`.
pub open spec fn sort_collation(case_sensitive: bool) -> Seq<char> {
    collation(!case_sensitive)
}

/// The text of one sort key on the column `name`.
pub open spec fn sort_key_text(name: Seq<char>, sort: Sort, case_sensitive: bool) -> Seq<char> {
    match sort {
        Sort::Asc => name + " COLLATE "@ + sort_collation(case_sensitive),
        Sort::Desc => name + " COLLATE "@ + sort_collation(case_sensitive) + " DESC"@,
    }
}

/// The text of one distinct key on the column `name`.
pub open spec fn distinct_key_text(name: Seq<char>, case_sensitive: bool) -> Seq<char> {
    name + " COLLATE "@ + collation(case_sensitive)
}

/// The error of a key on the property with index `index`: none when the
/// schema knows the property.
pub open spec fn key_error(schema: CollectionView, index: u16) -> Option<CompileError> {
    if schema.property_name(index) is None {
        Some(CompileError::UnknownProperty(index))
    } else {
        None
    }
}

/// The error of each sort key, by position.
pub open spec fn sort_errors(schema: CollectionView, keys: Seq<SortKey>) -> Seq<
    Option<CompileError>,
> {
    Seq::new(keys.len(), |i: int| key_error(schema, keys[i].property_index))
}

/// The error of each distinct key, by position.
pub open spec fn distinct_errors(schema: CollectionView, keys: Seq<DistinctKey>) -> Seq<
    Option<CompileError>,
> {
    Seq::new(keys.len(), |i: int| key_error(schema, keys[i].property_index))
}

/// The text of one sort key as the schema resolves it.
pub open spec fn sort_key_in(schema: CollectionView, key: SortKey) -> Seq<char> {
    sort_key_text(schema.property_name(key.property_index)->Some_0, key.sort, key.case_sensitive)
}

/// The text of one distinct key as the schema resolves it.
pub open spec fn distinct_key_in(schema: CollectionView, key: DistinctKey) -> Seq<char> {
    distinct_key_text(schema.property_name(key.property_index)->Some_0, key.case_sensitive)
}

/// The text of each sort key, by position.
pub open spec fn sort_texts(schema: CollectionView, keys: Seq<SortKey>) -> Seq<Seq<char>> {
    Seq::new(keys.len(), |i: int| sort_key_in(schema, keys[i]))
}

/// The text of each distinct key, by position.
pub open spec fn distinct_texts(schema: CollectionView, keys: Seq<DistinctKey>) -> Seq<
    Seq<char>,
> {
    Seq::new(keys.len(), |i: int| distinct_key_in(schema, keys[i]))
}

/// The `WHERE` clause: absent without a filter.
pub open spec fn where_clause(schema: CollectionView, filter: Option<Filter>) -> Seq<char> {
    match filter {
        Some(f) => " WHERE "@ + filter_text(schema, f, false),
        None => Seq::empty(),
    }
}

/// The `ORDER BY` clause: the sort keys in the order given, joined by
/// commas; absent without sort keys.
pub open spec fn order_by_clause(schema: CollectionView, keys: Seq<SortKey>) -> Seq<char> {
    if keys.len() == 0 {
        Seq::empty()
    } else {
        " ORDER BY "@ + joined(sort_texts(schema, keys), ","@)
    }
}

/// The `GROUP BY` clause: the distinct keys in the order given, joined by
/// commas; absent without distinct keys.
pub open spec fn group_by_clause(schema: CollectionView, keys: Seq<DistinctKey>) -> Seq<char> {
    if keys.len() == 0 {
        Seq::empty()
    } else {
        " GROUP BY "@ + joined(distinct_texts(schema, keys), ","@)
    }
}

/// What a [`SQLiteQueryBuilder`] stands for: the schema it compiles
/// against and what it has collected so far.
pub struct BuilderView {
    pub collection: CollectionView,
    pub collection_index: u16,
    pub filter: Option<Filter>,
    pub sort: Seq<SortKey>,
    pub distinct: Seq<DistinctKey>,
}

impl BuilderView {
    /// The first error that compiling meets: in the filter, else in the sort
    /// keys, else in the distinct keys.
    pub open spec fn error(self) -> Option<CompileError> {
        let in_filter = match self.filter {
            Some(f) => filter_error(self.collection, f),
            None => None,
        };
        let in_sort = first_some(sort_errors(self.collection, self.sort));
        if in_filter is Some {
            in_filter
        } else if in_sort is Some {
            in_sort
        } else {
            first_some(distinct_errors(self.collection, self.distinct))
        }
    }

    /// The text of the compiled query.
    pub open spec fn text(self) -> Seq<char> {
        "FROM "@ + self.collection.name + where_clause(self.collection, self.filter)
            + order_by_clause(self.collection, self.sort) + group_by_clause(
            self.collection,
            self.distinct,
        )
    }

    /// The values that the compiled query binds: those of the filter.
    pub open spec fn values(self) -> Seq<ValueView> {
        match self.filter {
            Some(f) => filter_values(f),
            None => Seq::empty(),
        }
    }

    /// The query that compiling gives when there is no error.
    pub open spec fn compiled(self) -> QueryView {
        QueryView {
            collection_index: self.collection_index,
            sql: self.text(),
            requires_materialization: self.sort.len() > 0 || self.distinct.len() > 0,
            values: self.values(),
        }
    }
}

/// Collects the parts of a query against one collection and compiles them.
pub struct SQLiteQueryBuilder<'a> {
    collection: &'a SQLiteCollection,
    collection_index: u16,
    filter: Option<Filter>,
    sort: Vec<SortKey>,
    distinct: Vec<DistinctKey>,
}

impl<'a> View for SQLiteQueryBuilder<'a> {
    type V = BuilderView;

    closed spec fn view(&self) -> BuilderView {
        BuilderView {
            collection: self.collection@,
            collection_index: self.collection_index,
            filter: self.filter,
            sort: self.sort@,
            distinct: self.distinct@,
        }
    }
}

/// Writes one sort key.
fn sort_key_sql(name: &str, sort: Sort, case_sensitive: bool) -> (text: String)
    ensures
        text@ == sort_key_text(name@, sort, case_sensitive),
{
    let mut text = String::from_str(name);
    text.append(" COLLATE ");
    text.append(collation_keyword(!case_sensitive));
    match sort {
        Sort::Asc => {},
        Sort::Desc => {
            text.append(" DESC");
        },
    }
    text
}

/// Writes one distinct key.
fn distinct_key_sql(name: &str, case_sensitive: bool) -> (text: String)
    ensures
        text@ == distinct_key_text(name@, case_sensitive),
{
    let mut text = String::from_str(name);
    text.append(" COLLATE ");
    text.append(collation_keyword(case_sensitive));
    text
}

/// Writes the `ORDER BY` clause, resolving each key through the schema.
fn order_by_sql(collection: &SQLiteCollection, keys: &Vec<SortKey>) -> (clause: Result<
    String,
    CompileError,
>)
    ensures
        match first_some(sort_errors(collection@, keys@)) {
            Some(error) => clause == Err::<String, CompileError>(error),
            None => clause is Ok && clause->Ok_0@ == order_by_clause(collection@, keys@),
        },
{
    let ghost errors = sort_errors(collection@, keys@);
    let mut parts: Vec<String> = Vec::new();
    let mut i: usize = 0;
    while i < keys.len()
        invariant
            i <= keys.len(),
            parts.len() == i,
            errors == sort_errors(collection@, keys@),
            forall|k: int| 0 <= k < i ==> errors[k] is None,
            forall|k: int|
                0 <= k < i ==> (#[trigger] parts[k])@ == sort_texts(collection@, keys@)[k],
        decreases keys.len() - i,
    {
        let key = keys[i];
        match collection.get_property_name(key.property_index) {
            None => {
                proof {
                    lemma_first_some_at(errors, i as int);
                }
                return Err(CompileError::UnknownProperty(key.property_index));
            },
            Some(name) => {
                parts.push(sort_key_sql(name, key.sort, key.case_sensitive));
            },
        }
        i += 1;
    }
    proof {
        lemma_first_some_none(errors);
        assert(parts.deep_view() =~= sort_texts(collection@, keys@));
        reveal_strlit(",");
    }
    let mut clause = String::new();
    if parts.len() > 0 {
        clause.append(" ORDER BY ");
        clause.append(join_strings(&parts, ",").as_str());
    }
    Ok(clause)
}

/// Writes the `GROUP BY` clause, resolving each key through the schema.
fn group_by_sql(collection: &SQLiteCollection, keys: &Vec<DistinctKey>) -> (clause: Result<
    String,
    CompileError,
>)
    ensures
        match first_some(distinct_errors(collection@, keys@)) {
            Some(error) => clause == Err::<String, CompileError>(error),
            None => clause is Ok && clause->Ok_0@ == group_by_clause(collection@, keys@),
        },
{
    let ghost errors = distinct_errors(collection@, keys@);
    let mut parts: Vec<String> = Vec::new();
    let mut i: usize = 0;
    while i < keys.len()
        invariant
            i <= keys.len(),
            parts.len() == i,
            errors == distinct_errors(collection@, keys@),
            forall|k: int| 0 <= k < i ==> errors[k] is None,
            forall|k: int|
                0 <= k < i ==> (#[trigger] parts[k])@ == distinct_texts(collection@, keys@)[k],
        decreases keys.len() - i,
    {
        let key = keys[i];
        match collection.get_property_name(key.property_index) {
            None => {
                proof {
                    lemma_first_some_at(errors, i as int);
                }
                return Err(CompileError::UnknownProperty(key.property_index));
            },
            Some(name) => {
                parts.push(distinct_key_sql(name, key.case_sensitive));
            },
        }
        i += 1;
    }
    proof {
        lemma_first_some_none(errors);
        assert(parts.deep_view() =~= distinct_texts(collection@, keys@));
        reveal_strlit(",");
    }
    let mut clause = String::new();
    if parts.len() > 0 {
        clause.append(" GROUP BY ");
        clause.append(join_strings(&parts, ",").as_str());
    }
    Ok(clause)
}

impl<'a> SQLiteQueryBuilder<'a> {
    /// Starts a query against `collection` with no filter, no sort key and
    /// no distinct key.
    pub fn new(collection: &'a SQLiteCollection, collection_index: u16) -> (builder:
        SQLiteQueryBuilder<'a>)
        ensures
            builder@ == (BuilderView {
                collection: collection@,
                collection_index,
                filter: None,
                sort: Seq::empty(),
                distinct: Seq::empty(),
            }),
    {
        SQLiteQueryBuilder {
            collection,
            collection_index,
            filter: None,
            sort: Vec::new(),
            distinct: Vec::new(),
        }
    }

    /// Sets the filter, replacing one set before.
    pub fn set_filter(&mut self, filter: Filter)
        ensures
            final(self)@ == (BuilderView { filter: Some(filter), ..old(self)@ }),
    {
        self.filter = Some(filter);
    }

    /// Appends a sort key after those added before.
    pub fn add_sort(&mut self, property_index: u16, sort: Sort, case_sensitive: bool)
        ensures
            final(self)@ == (BuilderView {
                sort: old(self)@.sort.push(SortKey { property_index, sort, case_sensitive }),
                ..old(self)@
            }),
    {
        self.sort.push(SortKey { property_index, sort, case_sensitive });
    }

    /// Appends a distinct key after those added before.
    pub fn add_distinct(&mut self, property_index: u16, case_sensitive: bool)
        ensures
            final(self)@ == (BuilderView {
                distinct: old(self)@.distinct.push(DistinctKey { property_index, case_sensitive }),
                ..old(self)@
            }),
    {
        self.distinct.push(DistinctKey { property_index, case_sensitive });
    }

    /// Compiles what was collected, consuming the builder. Gives the
    /// compiled query, or the first error met, and then no query at all.
    pub fn build(self) -> (built: Result<SQLiteQuery, CompileError>)
        ensures
            match self@.error() {
                Some(error) => built == Err::<SQLiteQuery, CompileError>(error),
                None => built is Ok && built->Ok_0@ == self@.compiled(),
            },
            built is Ok ==> built->Ok_0@.requires_materialization == (self@.sort.len() > 0
                || self@.distinct.len() > 0),
            built is Ok ==> placeholders(built->Ok_0@.sql) == built->Ok_0@.values.len(),
            built is Ok ==> all_plain(built->Ok_0@.sql),
    {
        proof {
            use_type_invariant(self.collection);
            if self@.error() is None {
                lemma_query_placeholders(self@);
                lemma_query_text_is_plain(self@);
            }
        }
        let mut filter_values: Vec<Value> = Vec::new();
        let mut sql = String::from_str("FROM ");
        sql.append(self.collection.name());
        if let Some(filter) = self.filter {
            match filter_sql(self.collection, filter) {
                Err(error) => {
                    return Err(error);
                },
                Ok((fragment, values)) => {
                    sql.append(" WHERE ");
                    sql.append(fragment.as_str());
                    filter_values = values;
                },
            }
        }
        match order_by_sql(self.collection, &self.sort) {
            Err(error) => {
                return Err(error);
            },
            Ok(clause) => {
                sql.append(clause.as_str());
            },
        }
        match group_by_sql(self.collection, &self.distinct) {
            Err(error) => {
                return Err(error);
            },
            Ok(clause) => {
                sql.append(clause.as_str());
            },
        }
        let has_sort_distinct = !self.sort.is_empty() || !self.distinct.is_empty();
        assert(sql@ =~= self@.text());
        assert(filter_values.deep_view() =~= self@.values());
        Ok(SQLiteQuery::new(self.collection_index, sql, has_sort_distinct, filter_values))
    }
}

} // verus!
