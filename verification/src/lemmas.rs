//! What holds of every compiled filter and query.

use crate::builder::{
    distinct_errors, distinct_key_in, distinct_key_text, distinct_texts, group_by_clause,
    order_by_clause, sort_collation, sort_errors, sort_key_in, sort_key_text, sort_texts,
    where_clause, BuilderView, DistinctKey, Sort, SortKey,
};
use crate::filter::{Filter, Operator};
use crate::scan::lemma_first_some_none;
use crate::schema::CollectionView;
use crate::sql::{
    child_errors, child_texts, child_values, collation, comparison_symbol, condition_text,
    condition_values, filter_error, filter_text, filter_values, group_text, is_pattern,
    like_pattern,
};
use crate::text::{
    all_plain, escape_like, is_identifier, is_wildcard, joined,
    lemma_identifier_has_no_placeholder, lemma_placeholders_absent, lemma_placeholders_concat,
    lemma_plain_concat, lemma_plain_joined, placeholders,
};
use crate::value::ValueView;
use vstd::prelude::*;

verus! {

/// The fixed pieces of the SQL text hold no placeholder, but for the
/// placeholder itself.
pub proof fn lemma_fixed_texts()
    ensures
        placeholders("?"@) == 1,
        placeholders(""@) == 0,
        placeholders(" "@) == 0,
        placeholders("="@) == 0,
        placeholders("<>"@) == 0,
        placeholders(">"@) == 0,
        placeholders(">="@) == 0,
        placeholders("<"@) == 0,
        placeholders("<="@) == 0,
        placeholders(" IS NULL"@) == 0,
        placeholders(" BETWEEN "@) == 0,
        placeholders(" AND "@) == 0,
        placeholders(" OR "@) == 0,
        placeholders(" LIKE "@) == 0,
        placeholders(" COLLATE "@) == 0,
        placeholders("BINARY"@) == 0,
        placeholders("NOCASE"@) == 0,
        placeholders(" DESC"@) == 0,
        placeholders("1=1"@) == 0,
        placeholders("1=0"@) == 0,
        placeholders("("@) == 0,
        placeholders(")"@) == 0,
        placeholders("NOT ("@) == 0,
        placeholders(","@) == 0,
        placeholders("FROM "@) == 0,
        placeholders(" WHERE "@) == 0,
        placeholders(" ORDER BY "@) == 0,
        placeholders(" GROUP BY "@) == 0,
{
    reveal_strlit("?");
    reveal_strlit("");
    reveal_strlit(" ");
    reveal_strlit("=");
    reveal_strlit("<>");
    reveal_strlit(">");
    reveal_strlit(">=");
    reveal_strlit("<");
    reveal_strlit("<=");
    reveal_strlit(" IS NULL");
    reveal_strlit(" BETWEEN ");
    reveal_strlit(" AND ");
    reveal_strlit(" OR ");
    reveal_strlit(" LIKE ");
    reveal_strlit(" COLLATE ");
    reveal_strlit("BINARY");
    reveal_strlit("NOCASE");
    reveal_strlit(" DESC");
    reveal_strlit("1=1");
    reveal_strlit("1=0");
    reveal_strlit("(");
    reveal_strlit(")");
    reveal_strlit("NOT (");
    reveal_strlit(",");
    reveal_strlit("FROM ");
    reveal_strlit(" WHERE ");
    reveal_strlit(" ORDER BY ");
    reveal_strlit(" GROUP BY ");
    assert(placeholders("?"@) == 1) by {
        reveal_with_fuel(placeholders, 2);
    }
    lemma_placeholders_absent(""@);
    lemma_placeholders_absent(" "@);
    lemma_placeholders_absent("="@);
    lemma_placeholders_absent("<>"@);
    lemma_placeholders_absent(">"@);
    lemma_placeholders_absent(">="@);
    lemma_placeholders_absent("<"@);
    lemma_placeholders_absent("<="@);
    lemma_placeholders_absent(" IS NULL"@);
    lemma_placeholders_absent(" BETWEEN "@);
    lemma_placeholders_absent(" AND "@);
    lemma_placeholders_absent(" OR "@);
    lemma_placeholders_absent(" LIKE "@);
    lemma_placeholders_absent(" COLLATE "@);
    lemma_placeholders_absent("BINARY"@);
    lemma_placeholders_absent("NOCASE"@);
    lemma_placeholders_absent(" DESC"@);
    lemma_placeholders_absent("1=1"@);
    lemma_placeholders_absent("1=0"@);
    lemma_placeholders_absent("("@);
    lemma_placeholders_absent(")"@);
    lemma_placeholders_absent("NOT ("@);
    lemma_placeholders_absent(","@);
    lemma_placeholders_absent("FROM "@);
    lemma_placeholders_absent(" WHERE "@);
    lemma_placeholders_absent(" ORDER BY "@);
    lemma_placeholders_absent(" GROUP BY "@);
}

/// In a schema that is well formed, the name that an index resolves to is a
/// plain identifier.
pub proof fn lemma_property_name_is_identifier(schema: CollectionView, index: u16)
    requires
        schema.well_formed(),
        schema.property_name(index) is Some,
    ensures
        is_identifier(schema.property_name(index)->Some_0),
{
    let i = choose|i: int| 0 <= i < schema.properties.len() && schema.properties[i].index == index;
    assert(is_identifier(schema.properties[i].name));
}

/// Joining fragments with a separator that holds no placeholder gives as
/// many placeholders as the fragments hold together.
pub proof fn lemma_joined_placeholders<V>(
    parts: Seq<Seq<char>>,
    sep: Seq<char>,
    bound: Seq<Seq<V>>,
)
    requires
        parts.len() == bound.len(),
        placeholders(sep) == 0,
        forall|i: int| 0 <= i < parts.len() ==> placeholders(#[trigger] parts[i]) == bound[i].len(),
    ensures
        placeholders(joined(parts, sep)) == bound.flatten().len(),
    decreases parts.len(),
{
    if parts.len() == 1 {
        bound.lemma_flatten_one_element();
    } else if parts.len() > 1 {
        let head = parts.drop_last();
        lemma_joined_placeholders(head, sep, bound.drop_last());
        lemma_placeholders_concat(joined(head, sep), sep);
        lemma_placeholders_concat(joined(head, sep) + sep, parts.last());
        assert(bound =~= bound.drop_last().push(bound.last()));
        bound.drop_last().lemma_flatten_push(bound.last());
    }
}

/// A condition on a column with a plain name has one placeholder for each
/// value that it binds.
pub proof fn lemma_condition_placeholders(
    name: Seq<char>,
    op: Operator,
    case_sensitive: bool,
    operands: Seq<ValueView>,
)
    requires
        is_identifier(name),
        crate::sql::operands_fit(op, operands),
    ensures
        placeholders(condition_text(name, op, case_sensitive)) == condition_values(
            op,
            operands,
        ).len(),
{
    lemma_fixed_texts();
    lemma_identifier_has_no_placeholder(name);
    if op is IsNull {
        lemma_placeholders_concat(name, " IS NULL"@);
    } else if op is Between {
        lemma_placeholders_concat(name, " BETWEEN "@);
        lemma_placeholders_concat(name + " BETWEEN "@, "?"@);
        lemma_placeholders_concat(name + " BETWEEN "@ + "?"@, " AND "@);
        lemma_placeholders_concat(name + " BETWEEN "@ + "?"@ + " AND "@, "?"@);
    } else if is_pattern(op) {
        lemma_placeholders_concat(name, " LIKE "@);
        lemma_placeholders_concat(name + " LIKE "@, "?"@);
        lemma_placeholders_concat(name + " LIKE "@ + "?"@, " COLLATE "@);
        lemma_placeholders_concat(
            name + " LIKE "@ + "?"@ + " COLLATE "@,
            collation(case_sensitive),
        );
    } else {
        lemma_placeholders_concat(name, " "@);
        lemma_placeholders_concat(name + " "@, comparison_symbol(op));
        lemma_placeholders_concat(name + " "@ + comparison_symbol(op), " "@);
        lemma_placeholders_concat(name + " "@ + comparison_symbol(op) + " "@, "?"@);
    }
}

/// The text of a group has as many placeholders as its fragments hold
/// together, when neither separator nor identity holds one.
pub proof fn lemma_group_placeholders<V>(
    parts: Seq<Seq<char>>,
    sep: Seq<char>,
    identity: Seq<char>,
    nested: bool,
    bound: Seq<Seq<V>>,
)
    requires
        parts.len() == bound.len(),
        placeholders(sep) == 0,
        placeholders(identity) == 0,
        forall|i: int| 0 <= i < parts.len() ==> placeholders(#[trigger] parts[i]) == bound[i].len(),
    ensures
        placeholders(group_text(parts, sep, identity, nested)) == bound.flatten().len(),
{
    lemma_fixed_texts();
    lemma_joined_placeholders(parts, sep, bound);
    if parts.len() > 0 && nested {
        lemma_placeholders_concat("("@, joined(parts, sep));
        lemma_placeholders_concat("("@ + joined(parts, sep), ")"@);
    }
}

/// The text of a filter that compiles has exactly as many `?` placeholders
/// as the filter binds values, whether or not the filter has a parent.
pub proof fn lemma_filter_placeholders(schema: CollectionView, f: Filter, nested: bool)
    requires
        schema.well_formed(),
        filter_error(schema, f) is None,
    ensures
        placeholders(filter_text(schema, f, nested)) == filter_values(f).len(),
    decreases f,
{
    lemma_fixed_texts();
    match f {
        Filter::And(children) => {
            lemma_first_some_none(child_errors(schema, children@));
            assert forall|i: int| 0 <= i < children@.len() implies placeholders(
                #[trigger] child_texts(schema, children@)[i],
            ) == child_values(children@)[i].len() by {
                assert(child_errors(schema, children@)[i] is None);
                lemma_filter_placeholders(schema, children@[i], true);
            }
            lemma_group_placeholders(
                child_texts(schema, children@),
                " AND "@,
                "1=1"@,
                nested,
                child_values(children@),
            );
        },
        Filter::Or(children) => {
            lemma_first_some_none(child_errors(schema, children@));
            assert forall|i: int| 0 <= i < children@.len() implies placeholders(
                #[trigger] child_texts(schema, children@)[i],
            ) == child_values(children@)[i].len() by {
                assert(child_errors(schema, children@)[i] is None);
                lemma_filter_placeholders(schema, children@[i], true);
            }
            lemma_group_placeholders(
                child_texts(schema, children@),
                " OR "@,
                "1=0"@,
                nested,
                child_values(children@),
            );
        },
        Filter::Not(child) => {
            lemma_filter_placeholders(schema, *child, true);
            lemma_placeholders_concat("NOT ("@, filter_text(schema, *child, true));
            lemma_placeholders_concat("NOT ("@ + filter_text(schema, *child, true), ")"@);
        },
        Filter::Condition(c) => {
            lemma_property_name_is_identifier(schema, c.property_index);
            lemma_condition_placeholders(
                schema.property_name(c.property_index)->Some_0,
                c.operator,
                c.case_sensitive,
                c.operands.deep_view(),
            );
        },
    }
}

/// A sort key on a column with a plain name holds no placeholder.
pub proof fn lemma_sort_key_binds_nothing(name: Seq<char>, sort: Sort, case_sensitive: bool)
    requires
        is_identifier(name),
    ensures
        placeholders(sort_key_text(name, sort, case_sensitive)) == 0,
{
    lemma_fixed_texts();
    lemma_identifier_has_no_placeholder(name);
    let keyword = sort_collation(case_sensitive);
    lemma_placeholders_concat(name, " COLLATE "@);
    lemma_placeholders_concat(name + " COLLATE "@, keyword);
    lemma_placeholders_concat(name + " COLLATE "@ + keyword, " DESC"@);
}

/// A distinct key on a column with a plain name holds no placeholder.
pub proof fn lemma_distinct_key_binds_nothing(name: Seq<char>, case_sensitive: bool)
    requires
        is_identifier(name),
    ensures
        placeholders(distinct_key_text(name, case_sensitive)) == 0,
{
    lemma_fixed_texts();
    lemma_identifier_has_no_placeholder(name);
    lemma_placeholders_concat(name, " COLLATE "@);
    lemma_placeholders_concat(name + " COLLATE "@, collation(case_sensitive));
}

/// Joining fragments that hold no placeholder, with a separator that holds
/// none, gives a text that holds none.
pub proof fn lemma_joined_binds_nothing(parts: Seq<Seq<char>>, sep: Seq<char>)
    requires
        placeholders(sep) == 0,
        forall|i: int| 0 <= i < parts.len() ==> placeholders(#[trigger] parts[i]) == 0,
    ensures
        placeholders(joined(parts, sep)) == 0,
    decreases parts.len(),
{
    if parts.len() > 1 {
        let head = parts.drop_last();
        lemma_joined_binds_nothing(head, sep);
        lemma_placeholders_concat(joined(head, sep), sep);
        lemma_placeholders_concat(joined(head, sep) + sep, parts.last());
    }
}

/// The text of a query that compiles has exactly as many `?` placeholders as
/// the query binds values: sort keys and distinct keys bind nothing, and no
/// name from the schema can be taken for a placeholder.
pub proof fn lemma_query_placeholders(builder: BuilderView)
    requires
        builder.collection.well_formed(),
        builder.error() is None,
    ensures
        placeholders(builder.text()) == builder.values().len(),
        placeholders(builder.compiled().sql) == builder.compiled().values.len(),
{
    let schema = builder.collection;
    lemma_fixed_texts();
    lemma_identifier_has_no_placeholder(schema.name);
    let from = "FROM "@ + schema.name;
    let filtered = where_clause(schema, builder.filter);
    let sorted = order_by_clause(schema, builder.sort);
    let grouped = group_by_clause(schema, builder.distinct);
    lemma_placeholders_concat("FROM "@, schema.name);
    lemma_placeholders_concat(from, filtered);
    lemma_placeholders_concat(from + filtered, sorted);
    lemma_placeholders_concat(from + filtered + sorted, grouped);
    match builder.filter {
        Some(f) => {
            lemma_filter_placeholders(schema, f, false);
            lemma_placeholders_concat(" WHERE "@, filter_text(schema, f, false));
        },
        None => {},
    }
    if builder.sort.len() > 0 {
        let texts = sort_texts(schema, builder.sort);
        lemma_first_some_none(sort_errors(schema, builder.sort));
        assert forall|i: int| 0 <= i < texts.len() implies placeholders(#[trigger] texts[i])
            == 0 by {
            let key = builder.sort[i];
            assert(sort_errors(schema, builder.sort)[i] is None);
            lemma_property_name_is_identifier(schema, key.property_index);
            lemma_sort_key_binds_nothing(
                schema.property_name(key.property_index)->Some_0,
                key.sort,
                key.case_sensitive,
            );
        }
        lemma_joined_binds_nothing(texts, ","@);
        lemma_placeholders_concat(" ORDER BY "@, joined(texts, ","@));
    }
    if builder.distinct.len() > 0 {
        let texts = distinct_texts(schema, builder.distinct);
        lemma_first_some_none(distinct_errors(schema, builder.distinct));
        assert forall|i: int| 0 <= i < texts.len() implies placeholders(#[trigger] texts[i])
            == 0 by {
            let key = builder.distinct[i];
            assert(distinct_errors(schema, builder.distinct)[i] is None);
            lemma_property_name_is_identifier(schema, key.property_index);
            lemma_distinct_key_binds_nothing(
                schema.property_name(key.property_index)->Some_0,
                key.case_sensitive,
            );
        }
        lemma_joined_binds_nothing(texts, ","@);
        lemma_placeholders_concat(" GROUP BY "@, joined(texts, ","@));
    }
}

/// A group without children compiles to its identity, with or without a
/// parent and whatever the schema: `1=1` for `And`, `1=0` for `Or`. It has
/// no error and binds nothing.
pub proof fn lemma_empty_group(schema: CollectionView, f: Filter, nested: bool)
    requires
        match f {
            Filter::And(children) => children@.len() == 0,
            Filter::Or(children) => children@.len() == 0,
            _ => false,
        },
    ensures
        filter_error(schema, f) is None,
        f is And ==> filter_text(schema, f, nested) == "1=1"@,
        f is Or ==> filter_text(schema, f, nested) == "1=0"@,
        filter_values(f) == Seq::<ValueView>::empty(),
{
    match f {
        Filter::And(children) => {
            lemma_first_some_none(child_errors(schema, children@));
            assert(child_texts(schema, children@).len() == 0);
            assert(child_values(children@).flatten() =~= Seq::<ValueView>::empty());
        },
        Filter::Or(children) => {
            lemma_first_some_none(child_errors(schema, children@));
            assert(child_texts(schema, children@).len() == 0);
            assert(child_values(children@).flatten() =~= Seq::<ValueView>::empty());
        },
        _ => {},
    }
}

/// Whether `f` is a group with at least one child.
pub open spec fn is_proper_group(f: Filter) -> bool {
    match f {
        Filter::And(children) => children@.len() > 0,
        Filter::Or(children) => children@.len() > 0,
        _ => false,
    }
}

/// A group with children that has a parent is its own text in parentheses;
/// every other filter reads the same with and without a parent.
pub proof fn lemma_nested_group_is_parenthesized(schema: CollectionView, f: Filter)
    ensures
        is_proper_group(f) ==> filter_text(schema, f, true) == "("@ + filter_text(
            schema,
            f,
            false,
        ) + ")"@,
        !is_proper_group(f) ==> filter_text(schema, f, true) == filter_text(schema, f, false),
{
    match f {
        Filter::And(children) => {
            assert(child_texts(schema, children@).len() == children@.len());
        },
        Filter::Or(children) => {
            assert(child_texts(schema, children@).len() == children@.len());
        },
        _ => {},
    }
}

/// The text of a group with children, without a parent: the texts of the
/// children as they read with a parent, in order, with the separator
/// between them.
pub proof fn lemma_group_joins_children(schema: CollectionView, f: Filter)
    requires
        is_proper_group(f),
    ensures
        f matches Filter::And(children) ==> filter_text(schema, f, false) == joined(
            child_texts(schema, children@),
            " AND "@,
        ),
        f matches Filter::Or(children) ==> filter_text(schema, f, false) == joined(
            child_texts(schema, children@),
            " OR "@,
        ),
{
}

/// A conjunction of `a` and `b` under a disjunction with `c` keeps its
/// parentheses: the text reads `(a AND b) OR c`.
pub proof fn lemma_and_under_or(
    schema: CollectionView,
    f: Filter,
    a: Filter,
    b: Filter,
    c: Filter,
)
    requires
        f matches Filter::Or(outer) && outer@.len() == 2 && outer@[1] == c && (
        outer@[0] matches Filter::And(inner) && inner@ == seq![a, b]),
    ensures
        filter_text(schema, f, false) == "("@ + filter_text(schema, a, true) + " AND "@
            + filter_text(schema, b, true) + ")"@ + " OR "@ + filter_text(schema, c, true),
{
    let outer = f->Or_0@;
    let conjunction = outer[0];
    let inner = conjunction->And_0@;
    let inner_texts = child_texts(schema, inner);
    let outer_texts = child_texts(schema, outer);
    assert(joined(inner_texts, " AND "@) == joined(inner_texts.drop_last(), " AND "@) + " AND "@
        + inner_texts.last());
    assert(joined(outer_texts, " OR "@) == joined(outer_texts.drop_last(), " OR "@) + " OR "@
        + outer_texts.last());
}

/// Joining one more fragment puts it last, after a separator when it is not
/// the only one.
pub proof fn lemma_joined_push(parts: Seq<Seq<char>>, sep: Seq<char>, part: Seq<char>)
    ensures
        joined(parts.push(part), sep) == if parts.len() == 0 {
            part
        } else {
            joined(parts, sep) + sep + part
        },
{
    assert(parts.push(part).drop_last() =~= parts);
}

/// Sort keys come out in the order in which they went in: one more key
/// leaves the clause as it was and comes last, after a comma; the first key
/// opens the clause. Without a key there is no clause.
pub proof fn lemma_order_by_keeps_order(schema: CollectionView, keys: Seq<SortKey>, key: SortKey)
    ensures
        order_by_clause(schema, Seq::<SortKey>::empty()) == Seq::<char>::empty(),
        order_by_clause(schema, keys.push(key)) == if keys.len() == 0 {
            " ORDER BY "@ + sort_key_in(schema, key)
        } else {
            order_by_clause(schema, keys) + ","@ + sort_key_in(schema, key)
        },
{
    assert(sort_texts(schema, keys.push(key)) =~= sort_texts(schema, keys).push(
        sort_key_in(schema, key),
    ));
    lemma_joined_push(sort_texts(schema, keys), ","@, sort_key_in(schema, key));
    if keys.len() > 0 {
        assert(order_by_clause(schema, keys.push(key)) =~= order_by_clause(schema, keys) + ","@
            + sort_key_in(schema, key));
    }
}

/// Distinct keys come out in the order in which they went in: one more key
/// leaves the clause as it was and comes last, after a comma; the first key
/// opens the clause. Without a key there is no clause.
pub proof fn lemma_group_by_keeps_order(
    schema: CollectionView,
    keys: Seq<DistinctKey>,
    key: DistinctKey,
)
    ensures
        group_by_clause(schema, Seq::<DistinctKey>::empty()) == Seq::<char>::empty(),
        group_by_clause(schema, keys.push(key)) == if keys.len() == 0 {
            " GROUP BY "@ + distinct_key_in(schema, key)
        } else {
            group_by_clause(schema, keys) + ","@ + distinct_key_in(schema, key)
        },
{
    assert(distinct_texts(schema, keys.push(key)) =~= distinct_texts(schema, keys).push(
        distinct_key_in(schema, key),
    ));
    lemma_joined_push(distinct_texts(schema, keys), ","@, distinct_key_in(schema, key));
    if keys.len() > 0 {
        assert(group_by_clause(schema, keys.push(key)) =~= group_by_clause(schema, keys) + ","@
            + distinct_key_in(schema, key));
    }
}

/// A query without sort keys and distinct keys is its `FROM` and `WHERE`
/// alone and needs no materialization; with either it does.
pub proof fn lemma_streamable_query(builder: BuilderView)
    ensures
        builder.sort.len() == 0 && builder.distinct.len() == 0 ==> builder.text() == "FROM "@
            + builder.collection.name + where_clause(builder.collection, builder.filter),
        builder.compiled().requires_materialization <==> (builder.sort.len() > 0
            || builder.distinct.len() > 0),
        !builder.compiled().requires_materialization <==> (builder.sort.len() == 0
            && builder.distinct.len() == 0),
{
    if builder.sort.len() == 0 && builder.distinct.len() == 0 {
        assert(builder.text() =~= "FROM "@ + builder.collection.name + where_clause(
            builder.collection,
            builder.filter,
        ));
    }
}

/// In escaped text every wildcard character stands behind a backslash.
pub proof fn lemma_escaped_wildcards(raw: Seq<char>)
    ensures
        forall|i: int|
            0 <= i < escape_like(raw).len() && is_wildcard(#[trigger] escape_like(raw)[i]) ==> i
                > 0 && escape_like(raw)[i - 1] == '\\',
    decreases raw.len(),
{
    if raw.len() > 0 {
        lemma_escaped_wildcards(raw.drop_last());
        let before = escape_like(raw.drop_last());
        let escaped = escape_like(raw);
        assert forall|i: int|
            0 <= i < escaped.len() && is_wildcard(#[trigger] escaped[i]) implies i > 0
            && escaped[i - 1] == '\\' by {
            if i < before.len() {
                assert(escaped[i] == before[i]);
                assert(escaped[i - 1] == before[i - 1]);
            }
        }
    }
}

/// Escaping leaves text without wildcard characters as it is.
pub proof fn lemma_escape_without_wildcards(raw: Seq<char>)
    requires
        forall|i: int| 0 <= i < raw.len() ==> !is_wildcard(#[trigger] raw[i]),
    ensures
        escape_like(raw) == raw,
    decreases raw.len(),
{
    if raw.len() > 0 {
        lemma_escape_without_wildcards(raw.drop_last());
    }
}

/// A prefix pattern ends in the one wildcard that is meant as such: every
/// wildcard character before it comes from the operand and stands behind a
/// backslash.
pub proof fn lemma_prefix_pattern(raw: Seq<char>)
    ensures
        like_pattern(Operator::StartsWith, raw) == escape_like(raw).push('%'),
        forall|i: int|
            0 <= i < escape_like(raw).len() && is_wildcard(
                #[trigger] like_pattern(Operator::StartsWith, raw)[i],
            ) ==> i > 0 && like_pattern(Operator::StartsWith, raw)[i - 1] == '\\',
{
    reveal_strlit("%");
    lemma_escaped_wildcards(raw);
    let escaped = escape_like(raw);
    assert forall|i: int|
        0 <= i < escaped.len() && is_wildcard(
            #[trigger] like_pattern(Operator::StartsWith, raw)[i],
        ) implies i > 0 && like_pattern(Operator::StartsWith, raw)[i - 1] == '\\' by {
        assert(like_pattern(Operator::StartsWith, raw)[i] == escaped[i]);
    }
}

/// The fixed pieces of the SQL text are plain.
pub proof fn lemma_fixed_texts_are_plain()
    ensures
        all_plain("?"@),
        all_plain(""@),
        all_plain(" "@),
        all_plain("="@),
        all_plain("<>"@),
        all_plain(">"@),
        all_plain(">="@),
        all_plain("<"@),
        all_plain("<="@),
        all_plain(" IS NULL"@),
        all_plain(" BETWEEN "@),
        all_plain(" AND "@),
        all_plain(" OR "@),
        all_plain(" LIKE "@),
        all_plain(" COLLATE "@),
        all_plain("BINARY"@),
        all_plain("NOCASE"@),
        all_plain(" DESC"@),
        all_plain("1=1"@),
        all_plain("1=0"@),
        all_plain("("@),
        all_plain(")"@),
        all_plain("NOT ("@),
        all_plain(","@),
        all_plain("FROM "@),
        all_plain(" WHERE "@),
        all_plain(" ORDER BY "@),
        all_plain(" GROUP BY "@),
{
    reveal_strlit("?");
    reveal_strlit("");
    reveal_strlit(" ");
    reveal_strlit("=");
    reveal_strlit("<>");
    reveal_strlit(">");
    reveal_strlit(">=");
    reveal_strlit("<");
    reveal_strlit("<=");
    reveal_strlit(" IS NULL");
    reveal_strlit(" BETWEEN ");
    reveal_strlit(" AND ");
    reveal_strlit(" OR ");
    reveal_strlit(" LIKE ");
    reveal_strlit(" COLLATE ");
    reveal_strlit("BINARY");
    reveal_strlit("NOCASE");
    reveal_strlit(" DESC");
    reveal_strlit("1=1");
    reveal_strlit("1=0");
    reveal_strlit("(");
    reveal_strlit(")");
    reveal_strlit("NOT (");
    reveal_strlit(",");
    reveal_strlit("FROM ");
    reveal_strlit(" WHERE ");
    reveal_strlit(" ORDER BY ");
    reveal_strlit(" GROUP BY ");
}

/// A condition on a column with a plain name is plain text: its operands
/// are bound, never written.
pub proof fn lemma_condition_is_plain(name: Seq<char>, op: Operator, case_sensitive: bool)
    requires
        is_identifier(name),
    ensures
        all_plain(condition_text(name, op, case_sensitive)),
{
    lemma_fixed_texts_are_plain();
    if op is IsNull {
        lemma_plain_concat(name, " IS NULL"@);
    } else if op is Between {
        lemma_plain_concat(name, " BETWEEN "@);
        lemma_plain_concat(name + " BETWEEN "@, "?"@);
        lemma_plain_concat(name + " BETWEEN "@ + "?"@, " AND "@);
        lemma_plain_concat(name + " BETWEEN "@ + "?"@ + " AND "@, "?"@);
    } else if is_pattern(op) {
        lemma_plain_concat(name, " LIKE "@);
        lemma_plain_concat(name + " LIKE "@, "?"@);
        lemma_plain_concat(name + " LIKE "@ + "?"@, " COLLATE "@);
        lemma_plain_concat(name + " LIKE "@ + "?"@ + " COLLATE "@, collation(case_sensitive));
    } else {
        lemma_plain_concat(name, " "@);
        lemma_plain_concat(name + " "@, comparison_symbol(op));
        lemma_plain_concat(name + " "@ + comparison_symbol(op), " "@);
        lemma_plain_concat(name + " "@ + comparison_symbol(op) + " "@, "?"@);
    }
}

/// The text of a filter that compiles is plain, whatever its operands hold:
/// nothing that a caller supplies as a value reaches the text.
pub proof fn lemma_filter_text_is_plain(schema: CollectionView, f: Filter, nested: bool)
    requires
        schema.well_formed(),
        filter_error(schema, f) is None,
    ensures
        all_plain(filter_text(schema, f, nested)),
    decreases f,
{
    lemma_fixed_texts_are_plain();
    match f {
        Filter::And(children) => {
            let texts = child_texts(schema, children@);
            lemma_first_some_none(child_errors(schema, children@));
            assert forall|i: int| 0 <= i < texts.len() implies all_plain(#[trigger] texts[i]) by {
                assert(child_errors(schema, children@)[i] is None);
                lemma_filter_text_is_plain(schema, children@[i], true);
            }
            lemma_plain_joined(texts, " AND "@);
            lemma_plain_concat("("@, joined(texts, " AND "@));
            lemma_plain_concat("("@ + joined(texts, " AND "@), ")"@);
        },
        Filter::Or(children) => {
            let texts = child_texts(schema, children@);
            lemma_first_some_none(child_errors(schema, children@));
            assert forall|i: int| 0 <= i < texts.len() implies all_plain(#[trigger] texts[i]) by {
                assert(child_errors(schema, children@)[i] is None);
                lemma_filter_text_is_plain(schema, children@[i], true);
            }
            lemma_plain_joined(texts, " OR "@);
            lemma_plain_concat("("@, joined(texts, " OR "@));
            lemma_plain_concat("("@ + joined(texts, " OR "@), ")"@);
        },
        Filter::Not(child) => {
            lemma_filter_text_is_plain(schema, *child, true);
            lemma_plain_concat("NOT ("@, filter_text(schema, *child, true));
            lemma_plain_concat("NOT ("@ + filter_text(schema, *child, true), ")"@);
        },
        Filter::Condition(c) => {
            lemma_property_name_is_identifier(schema, c.property_index);
            lemma_condition_is_plain(
                schema.property_name(c.property_index)->Some_0,
                c.operator,
                c.case_sensitive,
            );
        },
    }
}

/// The text of a query that compiles is plain: it is made of names from the
/// schema and of fixed pieces, and of nothing that came in as a value.
pub proof fn lemma_query_text_is_plain(builder: BuilderView)
    requires
        builder.collection.well_formed(),
        builder.error() is None,
    ensures
        all_plain(builder.text()),
{
    let schema = builder.collection;
    lemma_fixed_texts_are_plain();
    let from = "FROM "@ + schema.name;
    let filtered = where_clause(schema, builder.filter);
    let sorted = order_by_clause(schema, builder.sort);
    let grouped = group_by_clause(schema, builder.distinct);
    match builder.filter {
        Some(f) => {
            lemma_filter_text_is_plain(schema, f, false);
            lemma_plain_concat(" WHERE "@, filter_text(schema, f, false));
        },
        None => {},
    }
    if builder.sort.len() > 0 {
        let texts = sort_texts(schema, builder.sort);
        lemma_first_some_none(sort_errors(schema, builder.sort));
        assert forall|i: int| 0 <= i < texts.len() implies all_plain(#[trigger] texts[i]) by {
            let key = builder.sort[i];
            assert(sort_errors(schema, builder.sort)[i] is None);
            lemma_property_name_is_identifier(schema, key.property_index);
            let name = schema.property_name(key.property_index)->Some_0;
            let keyword = sort_collation(key.case_sensitive);
            lemma_plain_concat(name, " COLLATE "@);
            lemma_plain_concat(name + " COLLATE "@, keyword);
            lemma_plain_concat(name + " COLLATE "@ + keyword, " DESC"@);
        }
        lemma_plain_joined(texts, ","@);
        lemma_plain_concat(" ORDER BY "@, joined(texts, ","@));
    }
    if builder.distinct.len() > 0 {
        let texts = distinct_texts(schema, builder.distinct);
        lemma_first_some_none(distinct_errors(schema, builder.distinct));
        assert forall|i: int| 0 <= i < texts.len() implies all_plain(#[trigger] texts[i]) by {
            let key = builder.distinct[i];
            assert(distinct_errors(schema, builder.distinct)[i] is None);
            lemma_property_name_is_identifier(schema, key.property_index);
            let name = schema.property_name(key.property_index)->Some_0;
            lemma_plain_concat(name, " COLLATE "@);
            lemma_plain_concat(name + " COLLATE "@, collation(key.case_sensitive));
        }
        lemma_plain_joined(texts, ","@);
        lemma_plain_concat(" GROUP BY "@, joined(texts, ","@));
    }
    lemma_plain_concat("FROM "@, schema.name);
    lemma_plain_concat(from, filtered);
    lemma_plain_concat(from + filtered, sorted);
    lemma_plain_concat(from + filtered + sorted, grouped);
}

} // verus!
