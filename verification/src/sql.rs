//! The filter compiler: lowers a filter tree to a SQL boolean expression
//! with `?` placeholders and the values to bind to them, in order.

use crate::filter::{Condition, Filter, Operator};
use crate::scan::{first_some, lemma_first_some_at, lemma_first_some_none};
use crate::schema::{CollectionView, SQLiteCollection};
use crate::lemmas::{lemma_filter_placeholders, lemma_filter_text_is_plain};
use crate::text::{
    all_plain, escape_like, escape_like_pattern, join_strings, joined, placeholders,
};
use crate::value::{Value, ValueView};
use vstd::prelude::*;
use vstd::string::StringExecFns;

verus! {

/// Why a query could not be compiled.
#[derive(Clone, Copy, Debug, PartialEq, Eq, Structural)]
pub enum CompileError {
    /// The schema has no property with this index.
    UnknownProperty(u16),
    /// The condition on the property with this index has operands that its
    /// operator cannot take.
    MalformedOperand(u16),
}

/// The collation keyword for a text comparison.
pub open spec fn collation(case_sensitive: bool) -> Seq<char> {
    if case_sensitive {
        "BINARY"@
    } else {
        "NOCASE"@
    }
}

/// Whether `op` matches text against a `LIKE` pattern.
pub open spec fn is_pattern(op: Operator) -> bool {
    op is StartsWith || op is Contains || op is EndsWith
}

/// The SQL symbol of an equality or ordering operator; empty for the others.
pub open spec fn comparison_symbol(op: Operator) -> Seq<char> {
    match op {
        Operator::Eq => "="@,
        Operator::Neq => "<>"@,
        Operator::Gt => ">"@,
        Operator::Gte => ">="@,
        Operator::Lt => "<"@,
        Operator::Lte => "<="@,
        _ => ""@,
    }
}

/// Whether `operands` are what `op` asks for.
pub open spec fn operands_fit(op: Operator, operands: Seq<ValueView>) -> bool {
    if op is IsNull {
        operands.len() == 0
    } else if op is Between {
        operands.len() == 2
    } else if is_pattern(op) {
        operands.len() == 1 && operands[0] is Text
    } else {
        operands.len() == 1
    }
}

/// The `LIKE` pattern for `raw`: its wildcards escaped, then `%` on each
/// side where anything may follow or precede.
pub open spec fn like_pattern(op: Operator, raw: Seq<char>) -> Seq<char> {
    match op {
        Operator::StartsWith => escape_like(raw) + "%"@,
        Operator::EndsWith => "%"@ + escape_like(raw),
        _ => "%"@ + escape_like(raw) + "%"@,
    }
}

/// The SQL text of a condition on the column `name`.
pub open spec fn condition_text(name: Seq<char>, op: Operator, case_sensitive: bool) -> Seq<char> {
    if op is IsNull {
        name + " IS NULL"@
    } else if op is Between {
        name + " BETWEEN "@ + "?"@ + " AND "@ + "?"@
    } else if is_pattern(op) {
        name + " LIKE "@ + "?"@ + " COLLATE "@ + collation(case_sensitive)
    } else {
        name + " "@ + comparison_symbol(op) + " "@ + "?"@
    }
}

/// The values that a condition binds, in placeholder order.
pub open spec fn condition_values(op: Operator, operands: Seq<ValueView>) -> Seq<ValueView> {
    if is_pattern(op) {
        seq![ValueView::Text(like_pattern(op, operands[0]->Text_0))]
    } else {
        operands
    }
}

/// What is wrong with a condition: its property is unknown, else its
/// operands do not fit its operator.
pub open spec fn condition_error(schema: CollectionView, c: Condition) -> Option<CompileError> {
    if schema.property_name(c.property_index) is None {
        Some(CompileError::UnknownProperty(c.property_index))
    } else if !operands_fit(c.operator, c.operands.deep_view()) {
        Some(CompileError::MalformedOperand(c.property_index))
    } else {
        None
    }
}

/// The text of a group of fragments: `identity` for no fragment, else the
/// fragments joined by `sep`, in parentheses when the group has a parent.
pub open spec fn group_text(
    parts: Seq<Seq<char>>,
    sep: Seq<char>,
    identity: Seq<char>,
    nested: bool,
) -> Seq<char> {
    if parts.len() == 0 {
        identity
    } else if nested {
        "("@ + joined(parts, sep) + ")"@
    } else {
        joined(parts, sep)
    }
}

/// The first error in a filter, reading its conditions left to right.
pub open spec fn filter_error(schema: CollectionView, f: Filter) -> Option<CompileError>
    decreases f,
{
    match f {
        Filter::And(children) => first_some(child_errors(schema, children@)),
        Filter::Or(children) => first_some(child_errors(schema, children@)),
        Filter::Not(child) => filter_error(schema, *child),
        Filter::Condition(c) => condition_error(schema, c),
    }
}

/// The error of each child of a group, by position.
pub open spec fn child_errors(schema: CollectionView, children: Seq<Filter>) -> Seq<
    Option<CompileError>,
>
    decreases children,
{
    Seq::new(
        children.len(),
        |i: int|
            if 0 <= i < children.len() {
                filter_error(schema, children[i])
            } else {
                None
            },
    )
}

/// The SQL text of a filter without errors; `nested` says whether the
/// filter has a parent.
pub open spec fn filter_text(schema: CollectionView, f: Filter, nested: bool) -> Seq<char>
    decreases f,
{
    match f {
        Filter::And(children) => group_text(
            child_texts(schema, children@),
            " AND "@,
            "1=1"@,
            nested,
        ),
        Filter::Or(children) => group_text(
            child_texts(schema, children@),
            " OR "@,
            "1=0"@,
            nested,
        ),
        Filter::Not(child) => "NOT ("@ + filter_text(schema, *child, true) + ")"@,
        Filter::Condition(c) => condition_text(
            schema.property_name(c.property_index)->Some_0,
            c.operator,
            c.case_sensitive,
        ),
    }
}

/// The text of each child of a group, by position.
pub open spec fn child_texts(schema: CollectionView, children: Seq<Filter>) -> Seq<Seq<char>>
    decreases children,
{
    Seq::new(
        children.len(),
        |i: int|
            if 0 <= i < children.len() {
                filter_text(schema, children[i], true)
            } else {
                Seq::empty()
            },
    )
}

/// The values that a filter without errors binds, in the order of its
/// placeholders.
pub open spec fn filter_values(f: Filter) -> Seq<ValueView>
    decreases f,
{
    match f {
        Filter::And(children) => child_values(children@).flatten(),
        Filter::Or(children) => child_values(children@).flatten(),
        Filter::Not(child) => filter_values(*child),
        Filter::Condition(c) => condition_values(c.operator, c.operands.deep_view()),
    }
}

/// The values of each child of a group, by position.
pub open spec fn child_values(children: Seq<Filter>) -> Seq<Seq<ValueView>>
    decreases children,
{
    Seq::new(
        children.len(),
        |i: int|
            if 0 <= i < children.len() {
                filter_values(children[i])
            } else {
                Seq::empty()
            },
    )
}

/// Whether `compiled` is what compiling `f` against `schema` must give: the
/// first error of `f` if it has one, else its text and its values.
pub open spec fn compiles_to(
    schema: CollectionView,
    f: Filter,
    nested: bool,
    compiled: Result<(String, Vec<Value>), CompileError>,
) -> bool {
    match filter_error(schema, f) {
        Some(error) => compiled == Err::<(String, Vec<Value>), CompileError>(error),
        None => {
            &&& compiled is Ok
            &&& compiled->Ok_0.0@ == filter_text(schema, f, nested)
            &&& compiled->Ok_0.1.deep_view() == filter_values(f)
        },
    }
}

/// The collation keyword for a text comparison.
pub fn collation_keyword(case_sensitive: bool) -> (keyword: &'static str)
    ensures
        keyword@ == collation(case_sensitive),
{
    if case_sensitive {
        "BINARY"
    } else {
        "NOCASE"
    }
}

/// The SQL symbol of an equality or ordering operator.
fn symbol_of(op: Operator) -> (symbol: &'static str)
    ensures
        symbol@ == comparison_symbol(op),
{
    match op {
        Operator::Eq => "=",
        Operator::Neq => "<>",
        Operator::Gt => ">",
        Operator::Gte => ">=",
        Operator::Lt => "<",
        Operator::Lte => "<=",
        _ => "",
    }
}

/// Builds the `LIKE` pattern that `op` asks for from the raw operand.
fn pattern_for(op: Operator, raw: &str) -> (pattern: String)
    requires
        is_pattern(op),
    ensures
        pattern@ == like_pattern(op, raw@),
{
    let mut pattern = String::new();
    if op != Operator::StartsWith {
        pattern.append("%");
    }
    let escaped = escape_like_pattern(raw);
    pattern.append(escaped.as_str());
    if op != Operator::EndsWith {
        pattern.append("%");
    }
    pattern
}

/// Compiles one condition: resolves its column, checks its operands against
/// its operator, and writes its text and values.
fn compile_condition(collection: &SQLiteCollection, c: &Condition) -> (compiled: Result<
    (String, Vec<Value>),
    CompileError,
>)
    ensures
        compiles_to(collection@, Filter::Condition(*c), true, compiled),
        compiles_to(collection@, Filter::Condition(*c), false, compiled),
{
    let name = match collection.get_property_name(c.property_index) {
        Some(name) => name,
        None => {
            return Err(CompileError::UnknownProperty(c.property_index));
        },
    };
    let op = c.operator;
    let count = c.operands.len();
    let mut text = String::from_str(name);
    let mut values: Vec<Value> = Vec::new();
    if op == Operator::IsNull {
        if count != 0 {
            return Err(CompileError::MalformedOperand(c.property_index));
        }
        text.append(" IS NULL");
    } else if op == Operator::Between {
        if count != 2 {
            return Err(CompileError::MalformedOperand(c.property_index));
        }
        text.append(" BETWEEN ");
        text.append("?");
        text.append(" AND ");
        text.append("?");
        values.push(c.operands[0].clone());
        values.push(c.operands[1].clone());
    } else if op == Operator::StartsWith || op == Operator::Contains || op
        == Operator::EndsWith {
        if count != 1 {
            return Err(CompileError::MalformedOperand(c.property_index));
        }
        match &c.operands[0] {
            Value::Text(raw) => {
                text.append(" LIKE ");
                text.append("?");
                text.append(" COLLATE ");
                text.append(collation_keyword(c.case_sensitive));
                values.push(Value::Text(pattern_for(op, raw.as_str())));
            },
            _ => {
                return Err(CompileError::MalformedOperand(c.property_index));
            },
        }
    } else {
        if count != 1 {
            return Err(CompileError::MalformedOperand(c.property_index));
        }
        text.append(" ");
        text.append(symbol_of(op));
        text.append(" ");
        text.append("?");
        values.push(c.operands[0].clone());
    }
    assert(values.deep_view() =~= condition_values(op, c.operands.deep_view()));
    Ok((text, values))
}

/// Compiles the children of a group front to back and joins their texts
/// with `sep`; `identity` is the text of a group without children.
fn compile_group(
    collection: &SQLiteCollection,
    children: &Vec<Filter>,
    sep: &str,
    identity: &str,
    nested: bool,
) -> (compiled: Result<(String, Vec<Value>), CompileError>)
    requires
        sep.is_ascii(),
        sep@.len() <= 8,
    ensures
        match first_some(child_errors(collection@, children@)) {
            Some(error) => compiled == Err::<(String, Vec<Value>), CompileError>(error),
            None => {
                &&& compiled is Ok
                &&& compiled->Ok_0.0@ == group_text(
                    child_texts(collection@, children@),
                    sep@,
                    identity@,
                    nested,
                )
                &&& compiled->Ok_0.1.deep_view() == child_values(children@).flatten()
            },
        },
    decreases children,
{
    let ghost errors = child_errors(collection@, children@);
    let mut parts: Vec<String> = Vec::new();
    let mut values: Vec<Value> = Vec::new();
    let mut i: usize = 0;
    while i < children.len()
        invariant
            i <= children.len(),
            parts.len() == i,
            errors == child_errors(collection@, children@),
            forall|k: int| 0 <= k < i ==> errors[k] is None,
            forall|k: int|
                0 <= k < i ==> (#[trigger] parts[k])@ == filter_text(
                    collection@,
                    children[k],
                    true,
                ),
            values.deep_view() == child_values(children@.take(i as int)).flatten(),
        decreases children.len() - i,
    {
        match compile_filter(collection, &children[i], true) {
            Err(error) => {
                proof {
                    lemma_first_some_at(errors, i as int);
                }
                return Err(error);
            },
            Ok((text, mut bound)) => {
                proof {
                    let before = child_values(children@.take(i as int));
                    let after = child_values(children@.take(i + 1));
                    assert(after =~= before.push(filter_values(children[i as int])));
                    before.lemma_flatten_push(filter_values(children[i as int]));
                }
                parts.push(text);
                values.append(&mut bound);
            },
        }
        i += 1;
    }
    proof {
        lemma_first_some_none(errors);
        assert(children@.take(children.len() as int) =~= children@);
        assert(parts.deep_view() =~= child_texts(collection@, children@));
    }
    if parts.len() == 0 {
        return Ok((String::from_str(identity), values));
    }
    let body = join_strings(&parts, sep);
    if nested {
        let mut text = String::from_str("(");
        text.append(body.as_str());
        text.append(")");
        Ok((text, values))
    } else {
        Ok((body, values))
    }
}

/// Compiles a filter; `nested` says whether it has a parent.
fn compile_filter(collection: &SQLiteCollection, filter: &Filter, nested: bool) -> (compiled:
    Result<(String, Vec<Value>), CompileError>)
    ensures
        compiles_to(collection@, *filter, nested, compiled),
    decreases filter,
{
    match filter {
        Filter::And(children) => {
            proof {
                reveal_strlit(" AND ");
            }
            compile_group(collection, children, " AND ", "1=1", nested)
        },
        Filter::Or(children) => {
            proof {
                reveal_strlit(" OR ");
            }
            compile_group(collection, children, " OR ", "1=0", nested)
        },
        Filter::Not(child) => {
            match compile_filter(collection, child, true) {
                Err(error) => Err(error),
                Ok((inner, values)) => {
                    let mut text = String::from_str("NOT (");
                    text.append(inner.as_str());
                    text.append(")");
                    Ok((text, values))
                },
            }
        },
        Filter::Condition(c) => compile_condition(collection, c),
    }
}

/// Compiles `filter` against the schema of `collection` into a SQL boolean
/// expression and the values to bind to its placeholders, in order. Fails
/// with the first error of the filter, reading its conditions left to right.
pub fn filter_sql(collection: &SQLiteCollection, filter: Filter) -> (compiled: Result<
    (String, Vec<Value>),
    CompileError,
>)
    ensures
        compiles_to(collection@, filter, false, compiled),
        compiled is Ok ==> placeholders(compiled->Ok_0.0@) == compiled->Ok_0.1@.len(),
        compiled is Ok ==> all_plain(compiled->Ok_0.0@),
{
    proof {
        use_type_invariant(collection);
        if filter_error(collection@, filter) is None {
            lemma_filter_placeholders(collection@, filter, false);
            lemma_filter_text_is_plain(collection@, filter, false);
        }
    }
    compile_filter(collection, &filter, false)
}

} // verus!
