use query_compiler::filter::{Condition, Filter, Operator};
use query_compiler::schema::{DataType, Property, SQLiteCollection};
use query_compiler::sql::{collation_keyword, filter_sql, CompileError};
use query_compiler::value::Value;

fn users() -> SQLiteCollection {
    SQLiteCollection::new(
        "users".to_string(),
        vec![
            Property { index: 1, name: "age".to_string(), data_type: DataType::Int },
            Property { index: 2, name: "name".to_string(), data_type: DataType::Text },
            Property { index: 3, name: "email".to_string(), data_type: DataType::Text },
            Property { index: 4, name: "active".to_string(), data_type: DataType::Bool },
        ],
    )
    .unwrap()
}

fn condition(property_index: u16, operator: Operator, operands: Vec<Value>) -> Filter {
    Filter::Condition(Condition { property_index, operator, operands, case_sensitive: false })
}

fn text_condition(
    property_index: u16,
    operator: Operator,
    operand: &str,
    case_sensitive: bool,
) -> Filter {
    Filter::Condition(Condition {
        property_index,
        operator,
        operands: vec![Value::Text(operand.to_string())],
        case_sensitive,
    })
}

fn age_over(n: i64) -> Filter {
    condition(1, Operator::Gt, vec![Value::Integer(n)])
}

fn placeholders(text: &str) -> usize {
    text.chars().filter(|c| *c == '?').count()
}

#[test]
fn empty_and_is_true_literal() {
    let (text, values) = filter_sql(&users(), Filter::And(vec![])).unwrap();
    assert_eq!(text, "1=1");
    assert_eq!(values, vec![]);
}

#[test]
fn empty_or_is_false_literal() {
    let (text, values) = filter_sql(&users(), Filter::Or(vec![])).unwrap();
    assert_eq!(text, "1=0");
    assert_eq!(values, vec![]);
}

#[test]
fn empty_groups_keep_their_literal_when_nested() {
    let f = Filter::And(vec![Filter::Or(vec![]), Filter::And(vec![]), age_over(1)]);
    let (text, values) = filter_sql(&users(), f).unwrap();
    assert_eq!(text, "1=0 AND 1=1 AND age > ?");
    assert_eq!(values, vec![Value::Integer(1)]);
    let (text, _) = filter_sql(&users(), Filter::Not(Box::new(Filter::Or(vec![])))).unwrap();
    assert_eq!(text, "NOT (1=0)");
}

#[test]
fn comparison_operators() {
    let cases = vec![
        (Operator::Eq, "age = ?"),
        (Operator::Neq, "age <> ?"),
        (Operator::Gt, "age > ?"),
        (Operator::Gte, "age >= ?"),
        (Operator::Lt, "age < ?"),
        (Operator::Lte, "age <= ?"),
    ];
    for (operator, expected) in cases {
        let (text, values) =
            filter_sql(&users(), condition(1, operator, vec![Value::Integer(-5)])).unwrap();
        assert_eq!(text, expected);
        assert_eq!(values, vec![Value::Integer(-5)]);
    }
}

#[test]
fn comparison_binds_any_scalar() {
    let (text, values) =
        filter_sql(&users(), condition(4, Operator::Eq, vec![Value::Bool(true)])).unwrap();
    assert_eq!(text, "active = ?");
    assert_eq!(values, vec![Value::Bool(true)]);
    // An equality on text binds the operand as it is and attaches no collation.
    let (text, values) =
        filter_sql(&users(), text_condition(2, Operator::Eq, "50%_off", true)).unwrap();
    assert_eq!(text, "name = ?");
    assert_eq!(values, vec![Value::Text("50%_off".to_string())]);
}

#[test]
fn is_null_binds_nothing() {
    let (text, values) = filter_sql(&users(), condition(3, Operator::IsNull, vec![])).unwrap();
    assert_eq!(text, "email IS NULL");
    assert_eq!(values, vec![]);
}

#[test]
fn between_binds_two_values_in_order() {
    let f = condition(1, Operator::Between, vec![Value::Integer(18), Value::Integer(65)]);
    let (text, values) = filter_sql(&users(), f).unwrap();
    assert_eq!(text, "age BETWEEN ? AND ?");
    assert_eq!(values, vec![Value::Integer(18), Value::Integer(65)]);
}

#[test]
fn starts_with_case_insensitive() {
    let (text, values) =
        filter_sql(&users(), text_condition(2, Operator::StartsWith, "Al", false)).unwrap();
    assert_eq!(text, "name LIKE ? COLLATE NOCASE");
    assert_eq!(values, vec![Value::Text("Al%".to_string())]);
}

#[test]
fn starts_with_escapes_wildcards_in_operand() {
    let (text, values) =
        filter_sql(&users(), text_condition(2, Operator::StartsWith, "50%_off", true)).unwrap();
    assert_eq!(text, "name LIKE ? COLLATE BINARY");
    assert_eq!(values, vec![Value::Text("50\\%\\_off%".to_string())]);
}

#[test]
fn contains_and_ends_with_patterns() {
    let (text, values) =
        filter_sql(&users(), text_condition(3, Operator::Contains, "@ex_", false)).unwrap();
    assert_eq!(text, "email LIKE ? COLLATE NOCASE");
    assert_eq!(values, vec![Value::Text("%@ex\\_%".to_string())]);
    let (text, values) =
        filter_sql(&users(), text_condition(3, Operator::EndsWith, ".org", true)).unwrap();
    assert_eq!(text, "email LIKE ? COLLATE BINARY");
    assert_eq!(values, vec![Value::Text("%.org".to_string())]);
    let (_, values) =
        filter_sql(&users(), text_condition(3, Operator::Contains, "", false)).unwrap();
    assert_eq!(values, vec![Value::Text("%%".to_string())]);
}

#[test]
fn collation_follows_case_flag() {
    assert_eq!(collation_keyword(true), "BINARY");
    assert_eq!(collation_keyword(false), "NOCASE");
}

#[test]
fn mixed_collations_in_one_filter() {
    let f = Filter::And(vec![
        text_condition(2, Operator::StartsWith, "Al", true),
        text_condition(3, Operator::EndsWith, "Org", false),
    ]);
    let (text, values) = filter_sql(&users(), f).unwrap();
    assert_eq!(text, "name LIKE ? COLLATE BINARY AND email LIKE ? COLLATE NOCASE");
    assert_eq!(
        values,
        vec![Value::Text("Al%".to_string()), Value::Text("%Org".to_string())]
    );
}

#[test]
fn top_level_group_has_no_parentheses() {
    let f = Filter::And(vec![age_over(18), condition(3, Operator::IsNull, vec![])]);
    let (text, values) = filter_sql(&users(), f).unwrap();
    assert_eq!(text, "age > ? AND email IS NULL");
    assert_eq!(values, vec![Value::Integer(18)]);
    let (text, _) = filter_sql(&users(), Filter::Or(vec![age_over(1)])).unwrap();
    assert_eq!(text, "age > ?");
}

#[test]
fn and_under_or_keeps_precedence() {
    let a = age_over(18);
    let b = text_condition(2, Operator::StartsWith, "Al", false);
    let c = condition(3, Operator::IsNull, vec![]);
    let f = Filter::Or(vec![Filter::And(vec![a, b]), c]);
    let (text, values) = filter_sql(&users(), f).unwrap();
    assert_eq!(text, "(age > ? AND name LIKE ? COLLATE NOCASE) OR email IS NULL");
    assert_eq!(values, vec![Value::Integer(18), Value::Text("Al%".to_string())]);
}

#[test]
fn or_under_and_keeps_precedence() {
    let f = Filter::And(vec![
        age_over(18),
        Filter::Or(vec![age_over(1), age_over(2)]),
        Filter::And(vec![age_over(3)]),
    ]);
    let (text, values) = filter_sql(&users(), f).unwrap();
    assert_eq!(text, "age > ? AND (age > ? OR age > ?) AND (age > ?)");
    assert_eq!(
        values,
        vec![Value::Integer(18), Value::Integer(1), Value::Integer(2), Value::Integer(3)]
    );
}

#[test]
fn not_wraps_its_child() {
    let (text, values) = filter_sql(&users(), Filter::Not(Box::new(age_over(18)))).unwrap();
    assert_eq!(text, "NOT (age > ?)");
    assert_eq!(values, vec![Value::Integer(18)]);
    let f = Filter::Not(Box::new(Filter::Or(vec![age_over(1), age_over(2)])));
    let (text, values) = filter_sql(&users(), f).unwrap();
    assert_eq!(text, "NOT ((age > ? OR age > ?))");
    assert_eq!(values, vec![Value::Integer(1), Value::Integer(2)]);
    let f = Filter::Not(Box::new(Filter::Not(Box::new(age_over(7)))));
    let (text, _) = filter_sql(&users(), f).unwrap();
    assert_eq!(text, "NOT (NOT (age > ?))");
}

#[test]
fn values_follow_placeholders_left_to_right() {
    let f = Filter::Or(vec![
        Filter::And(vec![
            condition(1, Operator::Between, vec![Value::Integer(1), Value::Integer(2)]),
            Filter::Not(Box::new(text_condition(2, Operator::Contains, "x", false))),
        ]),
        condition(4, Operator::Eq, vec![Value::Bool(false)]),
        condition(3, Operator::IsNull, vec![]),
        Filter::And(vec![]),
        age_over(3),
    ]);
    let (text, values) = filter_sql(&users(), f).unwrap();
    assert_eq!(
        text,
        "(age BETWEEN ? AND ? AND NOT (name LIKE ? COLLATE NOCASE)) OR active = ? \
         OR email IS NULL OR 1=1 OR age > ?"
    );
    assert_eq!(
        values,
        vec![
            Value::Integer(1),
            Value::Integer(2),
            Value::Text("%x%".to_string()),
            Value::Bool(false),
            Value::Integer(3),
        ]
    );
    assert_eq!(placeholders(&text), values.len());
}

#[test]
fn question_mark_in_operand_is_bound_not_written() {
    let (text, values) =
        filter_sql(&users(), text_condition(2, Operator::Contains, "who?' OR 1=1 --", false))
            .unwrap();
    assert_eq!(text, "name LIKE ? COLLATE NOCASE");
    assert_eq!(placeholders(&text), 1);
    assert_eq!(values, vec![Value::Text("%who?' OR 1=1 --%".to_string())]);
}

#[test]
fn unknown_property_fails() {
    let made = filter_sql(&users(), condition(9, Operator::Eq, vec![Value::Integer(1)]));
    assert_eq!(made.unwrap_err(), CompileError::UnknownProperty(9));
    let made = filter_sql(&users(), condition(0, Operator::IsNull, vec![]));
    assert_eq!(made.unwrap_err(), CompileError::UnknownProperty(0));
}

#[test]
fn malformed_operands_fail() {
    let bad = vec![
        condition(1, Operator::Between, vec![Value::Integer(1)]),
        condition(1, Operator::Between, vec![]),
        condition(
            1,
            Operator::Between,
            vec![Value::Integer(1), Value::Integer(2), Value::Integer(3)],
        ),
        condition(1, Operator::Eq, vec![]),
        condition(1, Operator::Lt, vec![Value::Integer(1), Value::Integer(2)]),
        condition(1, Operator::IsNull, vec![Value::Integer(1)]),
        condition(1, Operator::StartsWith, vec![Value::Integer(1)]),
        condition(1, Operator::Contains, vec![Value::Bool(true)]),
        condition(1, Operator::EndsWith, vec![]),
        condition(
            1,
            Operator::Contains,
            vec![Value::Text("a".to_string()), Value::Text("b".to_string())],
        ),
    ];
    for f in bad {
        assert_eq!(filter_sql(&users(), f).unwrap_err(), CompileError::MalformedOperand(1));
    }
}

#[test]
fn unknown_property_is_reported_before_malformed_operand() {
    let made = filter_sql(&users(), condition(8, Operator::Between, vec![]));
    assert_eq!(made.unwrap_err(), CompileError::UnknownProperty(8));
}

#[test]
fn first_error_in_reading_order_wins() {
    let f = Filter::And(vec![
        age_over(1),
        Filter::Or(vec![
            Filter::Not(Box::new(condition(2, Operator::Eq, vec![]))),
            condition(7, Operator::IsNull, vec![]),
        ]),
        condition(6, Operator::IsNull, vec![]),
    ]);
    assert_eq!(filter_sql(&users(), f).unwrap_err(), CompileError::MalformedOperand(2));
    let f = Filter::Or(vec![
        Filter::And(vec![]),
        condition(6, Operator::IsNull, vec![]),
        condition(2, Operator::Eq, vec![]),
    ]);
    assert_eq!(filter_sql(&users(), f).unwrap_err(), CompileError::UnknownProperty(6));
}
