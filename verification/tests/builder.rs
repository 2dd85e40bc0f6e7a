use query_compiler::builder::{SQLiteQueryBuilder, Sort};
use query_compiler::filter::{Condition, Filter, Operator};
use query_compiler::query::SQLiteQuery;
use query_compiler::schema::{DataType, Property, SQLiteCollection};
use query_compiler::sql::CompileError;
use query_compiler::value::Value;

const AGE: u16 = 1;
const NAME: u16 = 2;
const EMAIL: u16 = 3;

fn users() -> SQLiteCollection {
    SQLiteCollection::new(
        "users".to_string(),
        vec![
            Property { index: AGE, name: "age".to_string(), data_type: DataType::Int },
            Property { index: NAME, name: "name".to_string(), data_type: DataType::Text },
            Property { index: EMAIL, name: "email".to_string(), data_type: DataType::Text },
        ],
    )
    .unwrap()
}

fn age_over(n: i64) -> Filter {
    Filter::Condition(Condition {
        property_index: AGE,
        operator: Operator::Gt,
        operands: vec![Value::Integer(n)],
        case_sensitive: false,
    })
}

fn count_placeholders(text: &str) -> usize {
    text.chars().filter(|c| *c == '?').count()
}

#[test]
fn filter_and_two_sort_keys() {
    let users = users();
    let mut builder = SQLiteQueryBuilder::new(&users, 0);
    builder.set_filter(age_over(18));
    builder.add_sort(AGE, Sort::Desc, false);
    builder.add_sort(NAME, Sort::Asc, true);
    let query = builder.build().unwrap();
    assert_eq!(
        query.sql(),
        "FROM users WHERE age > ? ORDER BY age COLLATE BINARY DESC,name COLLATE NOCASE"
    );
    assert_eq!(query.values(), &vec![Value::Integer(18)]);
    assert!(query.requires_materialization());
}

#[test]
fn distinct_alone() {
    let users = users();
    let mut builder = SQLiteQueryBuilder::new(&users, 0);
    builder.add_distinct(EMAIL, false);
    let query = builder.build().unwrap();
    assert_eq!(query.sql(), "FROM users GROUP BY email COLLATE NOCASE");
    assert_eq!(query.values(), &vec![]);
    assert!(query.requires_materialization());
}

#[test]
fn nothing_added_gives_bare_from() {
    let users = users();
    let query = SQLiteQueryBuilder::new(&users, 12).build().unwrap();
    assert_eq!(query.sql(), "FROM users");
    assert_eq!(query.values(), &vec![]);
    assert!(!query.requires_materialization());
    assert_eq!(query.collection_index(), 12);
}

#[test]
fn filter_alone_streams() {
    let users = users();
    let mut builder = SQLiteQueryBuilder::new(&users, 1);
    builder.set_filter(age_over(21));
    let query = builder.build().unwrap();
    assert_eq!(query.sql(), "FROM users WHERE age > ?");
    assert_eq!(query.values(), &vec![Value::Integer(21)]);
    assert!(!query.requires_materialization());
}

#[test]
fn empty_filter_groups_at_top_level() {
    let users = users();
    let mut builder = SQLiteQueryBuilder::new(&users, 1);
    builder.set_filter(Filter::And(vec![]));
    assert_eq!(builder.build().unwrap().sql(), "FROM users WHERE 1=1");
    let mut builder = SQLiteQueryBuilder::new(&users, 1);
    builder.set_filter(Filter::Or(vec![]));
    let query = builder.build().unwrap();
    assert_eq!(query.sql(), "FROM users WHERE 1=0");
    assert_eq!(query.values(), &vec![]);
}

#[test]
fn sort_keys_keep_their_order() {
    let users = users();
    let mut builder = SQLiteQueryBuilder::new(&users, 0);
    builder.add_sort(EMAIL, Sort::Asc, false);
    builder.add_sort(AGE, Sort::Desc, true);
    builder.add_sort(NAME, Sort::Desc, false);
    builder.add_sort(AGE, Sort::Asc, true);
    let query = builder.build().unwrap();
    assert_eq!(
        query.sql(),
        "FROM users ORDER BY email COLLATE BINARY,age COLLATE NOCASE DESC,\
         name COLLATE BINARY DESC,age COLLATE NOCASE"
    );
    assert!(query.requires_materialization());
}

#[test]
fn distinct_keys_keep_their_order() {
    let users = users();
    let mut builder = SQLiteQueryBuilder::new(&users, 0);
    builder.add_distinct(NAME, true);
    builder.add_distinct(EMAIL, false);
    builder.add_distinct(AGE, true);
    let query = builder.build().unwrap();
    assert_eq!(
        query.sql(),
        "FROM users GROUP BY name COLLATE BINARY,email COLLATE NOCASE,age COLLATE BINARY"
    );
    assert!(query.requires_materialization());
}

#[test]
fn sort_alone_materializes() {
    let users = users();
    let mut builder = SQLiteQueryBuilder::new(&users, 0);
    builder.add_sort(NAME, Sort::Asc, false);
    let query = builder.build().unwrap();
    assert_eq!(query.sql(), "FROM users ORDER BY name COLLATE BINARY");
    assert!(query.requires_materialization());
}

#[test]
fn all_clauses_in_their_order() {
    let users = users();
    let mut builder = SQLiteQueryBuilder::new(&users, 5);
    builder.add_distinct(EMAIL, true);
    builder.add_sort(NAME, Sort::Desc, true);
    builder.set_filter(Filter::Or(vec![
        Filter::And(vec![
            age_over(18),
            Filter::Condition(Condition {
                property_index: NAME,
                operator: Operator::StartsWith,
                operands: vec![Value::Text("Al".to_string())],
                case_sensitive: false,
            }),
        ]),
        Filter::Condition(Condition {
            property_index: AGE,
            operator: Operator::Between,
            operands: vec![Value::Integer(1), Value::Integer(2)],
            case_sensitive: false,
        }),
    ]));
    let query: SQLiteQuery = builder.build().unwrap();
    assert_eq!(
        query.sql(),
        "FROM users WHERE (age > ? AND name LIKE ? COLLATE NOCASE) OR age BETWEEN ? AND ? \
         ORDER BY name COLLATE NOCASE DESC GROUP BY email COLLATE BINARY"
    );
    assert_eq!(
        query.values(),
        &vec![
            Value::Integer(18),
            Value::Text("Al%".to_string()),
            Value::Integer(1),
            Value::Integer(2),
        ]
    );
    assert_eq!(count_placeholders(query.sql()), query.values().len());
    assert!(query.requires_materialization());
    assert_eq!(query.collection_index(), 5);
}

#[test]
fn last_filter_set_wins() {
    let users = users();
    let mut builder = SQLiteQueryBuilder::new(&users, 0);
    builder.set_filter(age_over(1));
    builder.set_filter(age_over(2));
    let query = builder.build().unwrap();
    assert_eq!(query.sql(), "FROM users WHERE age > ?");
    assert_eq!(query.values(), &vec![Value::Integer(2)]);
}

#[test]
fn unknown_sort_property_fails_the_build() {
    let users = users();
    let mut builder = SQLiteQueryBuilder::new(&users, 0);
    builder.add_sort(AGE, Sort::Asc, false);
    builder.add_sort(40, Sort::Asc, false);
    builder.add_sort(41, Sort::Asc, false);
    assert_eq!(builder.build().unwrap_err(), CompileError::UnknownProperty(40));
}

#[test]
fn unknown_distinct_property_fails_the_build() {
    let users = users();
    let mut builder = SQLiteQueryBuilder::new(&users, 0);
    builder.add_distinct(50, false);
    assert_eq!(builder.build().unwrap_err(), CompileError::UnknownProperty(50));
}

#[test]
fn build_reports_filter_then_sort_then_distinct() {
    let users = users();
    let bad_filter = Filter::Condition(Condition {
        property_index: AGE,
        operator: Operator::Between,
        operands: vec![Value::Integer(1)],
        case_sensitive: false,
    });
    let mut builder = SQLiteQueryBuilder::new(&users, 0);
    builder.add_distinct(50, false);
    builder.add_sort(40, Sort::Asc, false);
    builder.set_filter(bad_filter);
    assert_eq!(builder.build().unwrap_err(), CompileError::MalformedOperand(AGE));
    let mut builder = SQLiteQueryBuilder::new(&users, 0);
    builder.add_distinct(50, false);
    builder.add_sort(40, Sort::Asc, false);
    builder.set_filter(age_over(3));
    assert_eq!(builder.build().unwrap_err(), CompileError::UnknownProperty(40));
}

#[test]
fn query_parts_are_kept_as_given() {
    let query = SQLiteQuery::new(
        3,
        "FROM t WHERE a = ?".to_string(),
        true,
        vec![Value::Text("x".to_string())],
    );
    assert_eq!(query.collection_index(), 3);
    assert_eq!(query.sql(), "FROM t WHERE a = ?");
    assert!(query.requires_materialization());
    assert_eq!(query.values(), &vec![Value::Text("x".to_string())]);
}

#[test]
fn value_clone_is_equal() {
    let values = vec![Value::Bool(true), Value::Integer(i64::MIN), Value::Text("é%".to_string())];
    for value in &values {
        assert_eq!(&value.clone(), value);
    }
}
