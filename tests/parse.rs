use inquerest::{
    parse_bool, parse_column, parse_condition, parse_equality, parse_equation, parse_filter,
    parse_from, parse_function, parse_join, parse_name, parse_number, parse_operand, parse_order,
    parse_params, parse_query, parse_string, Column, Condition, Connector, Direction, Equality,
    Equation, Filter, Function, Join, Limit, Modifier, Operand, Order, Params, Query, Range, Value,
};

fn col(name: &str) -> Operand {
    Operand::Column(Column { name: name.to_string() })
}

fn num(text: &str) -> Operand {
    Operand::Value(Value::Number(text.to_string()))
}

fn cond(left: Operand, equality: Equality, right: Operand) -> Condition {
    Condition { left, equality, right }
}

fn chained_filter() -> Filter {
    Filter {
        connector: None,
        condition: cond(col("age"), Equality::Lt, num("13")),
        sub_filters: vec![Filter {
            connector: Some(Connector::And),
            condition: cond(col("student"), Equality::Eq, Operand::Value(Value::Bool(true))),
            sub_filters: vec![Filter {
                connector: Some(Connector::Or),
                condition: cond(col("gender"), Equality::Eq, col("M")),
                sub_filters: vec![],
            }],
        }],
    }
}

#[test]
fn test_boolean_true() {
    assert_eq!(Ok(true), parse_bool("true"));
}

#[test]
fn test_boolean_false() {
    assert_eq!(Ok(false), parse_bool("false"));
}

#[test]
fn test_number() {
    let n = parse_number("123").unwrap();
    assert_eq!(n, "123");
    assert_eq!(n.parse::<f64>().unwrap(), 123.0);
}

#[test]
fn test_name() {
    assert_eq!(Ok("age".to_owned()), parse_name("age"));
}

#[test]
fn lib_test_column() {
    assert_eq!(Ok(col("age")), parse_operand("age"));
}

#[test]
fn test_table_column() {
    assert_eq!(Ok(col("person.age")), parse_operand("person.age"));
}

#[test]
fn test_from() {
    assert_eq!(Ok(vec![col("person")]), parse_from("from=person"));
}

#[test]
fn test_left_join() {
    assert_eq!(
        Ok(Join {
            modifier: Some(Modifier::Left),
            join_type: None,
            table: col("person"),
            column1: vec!["person.student_id".to_owned()],
            column2: vec!["student.id".to_owned()],
        }),
        parse_join("left_join=person&on=person.student_id=student.id")
    );
}

#[test]
fn test_join() {
    assert_eq!(
        Ok(Join {
            modifier: None,
            join_type: None,
            table: col("bazaar.person"),
            column1: vec!["person.student_id".to_owned()],
            column2: vec!["student.id".to_owned()],
        }),
        parse_join("join=bazaar.person&on=person.student_id=student.id")
    );
}

#[test]
#[should_panic]
fn test_join_without_on() {
    assert_eq!(
        Ok(Join {
            modifier: None,
            join_type: None,
            table: col("bazaar.person"),
            column1: vec!["person.student_id".to_owned()],
            column2: vec!["student.id".to_owned()],
        }),
        parse_join("join=bazaar.person")
    );
}

#[test]
fn test_function() {
    assert_eq!(
        Ok(Function { function: "min".to_owned(), params: vec![col("age")] }),
        parse_function("min(age)")
    );
}

#[test]
fn test_order() {
    assert_eq!(
        Ok(Order { operand: col("age"), direction: Some(Direction::Desc), nulls_where: None }),
        parse_order("age.desc")
    );
}

#[test]
fn test_euqation() {
    assert_eq!(
        Ok(Equation { left: col("x"), right: num("123") }),
        parse_equation("x=123")
    );
}

#[test]
fn test_condition() {
    assert_eq!(
        Ok(cond(col("age"), Equality::Eq, num("13"))),
        parse_condition("age=eq.13")
    );
}

#[test]
fn test_filter() {
    assert_eq!(
        Ok(Filter {
            connector: None,
            condition: cond(col("student"), Equality::Eq, Operand::Value(Value::Bool(true))),
            sub_filters: vec![],
        }),
        parse_filter("student=eq.true")
    );
}

#[test]
fn test_params() {
    assert_eq!(
        Ok(Params {
            filters: vec![chained_filter()],
            equations: vec![Equation { left: col("x"), right: num("123") }],
        }),
        parse_params("age=lt.13&student=eq.true|gender=eq.M&x=123")
    );
}

#[test]
fn test_query() {
    assert_eq!(
        Ok(Query {
            filters: vec![chained_filter()],
            order_by: vec![
                Order { operand: col("age"), direction: Some(Direction::Desc), nulls_where: None },
                Order { operand: col("height"), direction: Some(Direction::Asc), nulls_where: None },
            ],
            group_by: vec![
                Operand::Function(Function { function: "sum".to_owned(), params: vec![col("age")] }),
                col("grade"),
                col("gender"),
            ],
            having: vec![Filter {
                connector: None,
                condition: cond(
                    Operand::Function(Function { function: "min".to_owned(), params: vec![col("age")] }),
                    Equality::Gt,
                    num("13"),
                ),
                sub_filters: vec![],
            }],
            range: Some(Range::Limit(Limit { limit: 100, offset: Some(25) })),
            equations: vec![
                Equation { left: col("x"), right: num("123") },
                Equation { left: col("y"), right: num("456") },
            ],
            ..Default::default()
        }),
        parse_query("age=lt.13&student=eq.true|gender=eq.M&group_by=sum(age),grade,gender&having=min(age)=gt.13&order_by=age.desc,height.asc&limit=100&offset=25&x=123&y=456")
    );
}

#[test]
fn parser_test_column() {
    assert_eq!(parse_column("product_id"), Ok(Column { name: "product_id".into() }));
}

#[test]
fn test_string() {
    assert_eq!(parse_string("product_id"), Ok("product_id".to_string()));
}

#[test]
fn test_iregular_string() {
    assert_eq!(
        parse_string("a string value\"pr'oduct_id"),
        Ok("a string value\"pr\'oduct_id".to_string())
    );
}
