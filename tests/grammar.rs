use inquerest::{
    parse_bool, parse_column, parse_connector, parse_direction, parse_equality, parse_filter,
    parse_function, parse_group_by, parse_having, parse_join, parse_name, parse_number,
    parse_operand, parse_order, parse_order_by, parse_param, parse_params, parse_query,
    parse_quoted_string, parse_range, parse_string, parse_value, Column, Condition, Connector,
    Direction, Equality, Equation, ErrorKind, Filter, Function, JoinType, Limit, Modifier,
    NullsWhere, Operand, Order, Page, Param, ParseError, Range, Value,
};

fn col(name: &str) -> Operand {
    Operand::Column(Column { name: name.to_string() })
}

fn num(text: &str) -> Operand {
    Operand::Value(Value::Number(text.to_string()))
}

fn no_match() -> ParseError {
    ParseError { offset: 0, kind: ErrorKind::NoMatch }
}

fn trailing(offset: usize) -> ParseError {
    ParseError { offset, kind: ErrorKind::TrailingInput }
}

#[test]
fn number_literals_follow_json() {
    assert_eq!(parse_number("0"), Ok("0".to_string()));
    assert_eq!(parse_number("-1.5e+3"), Ok("-1.5e+3".to_string()));
    assert_eq!(parse_number("-1.5e+3").unwrap().parse::<f64>().unwrap(), -1500.0);
    assert_eq!(parse_number("2E10"), Ok("2E10".to_string()));
    assert_eq!(parse_number("01"), Err(trailing(1)));
    assert_eq!(parse_number("1."), Err(trailing(1)));
    assert_eq!(parse_number("1e"), Err(trailing(1)));
    assert_eq!(parse_number("-"), Err(no_match()));
    assert_eq!(parse_number(".5"), Err(no_match()));
}

#[test]
fn booleans_are_exact_keywords() {
    assert_eq!(parse_bool("True"), Err(no_match()));
    assert_eq!(parse_bool("truest"), Err(trailing(4)));
}

#[test]
fn quoted_string_decodes_escapes() {
    assert_eq!(parse_quoted_string("\"a\\nb\""), Ok("a\nb".to_string()));
    assert_eq!(
        parse_quoted_string("\"\\\\ \\/ \\\" \\b \\f \\r \\t\""),
        Ok("\\ / \" \u{8} \u{c} \r \t".to_string())
    );
    assert_eq!(parse_quoted_string("\"\""), Ok(String::new()));
    assert_eq!(parse_quoted_string("\"x\\u0041y\""), Ok("xAy".to_string()));
}

#[test]
fn quoted_string_pairs_surrogates() {
    assert_eq!(parse_quoted_string("\"\\uD83D\\uDE00\""), Ok("\u{1F600}".to_string()));
}

#[test]
fn unpaired_surrogate_becomes_replacement() {
    assert_eq!(parse_quoted_string("\"\\uD800x\""), Ok("\u{FFFD}x".to_string()));
    assert_eq!(parse_quoted_string("\"\\uDC00\""), Ok("\u{FFFD}".to_string()));
    assert_eq!(
        parse_quoted_string("\"\\uD800\\u0041\""),
        Ok("\u{FFFD}A".to_string())
    );
}

#[test]
fn quoted_string_failures() {
    assert_eq!(parse_quoted_string("\"\\x\""), Err(no_match()));
    assert_eq!(parse_quoted_string("\"\\u12G4\""), Err(no_match()));
    assert_eq!(parse_quoted_string("\"open"), Err(no_match()));
    assert_eq!(parse_quoted_string("plain"), Err(no_match()));
    assert_eq!(parse_quoted_string("\"a\"b"), Err(trailing(3)));
}

#[test]
fn value_order_null_bool_number_string() {
    assert_eq!(parse_value("null"), Ok(Value::Null));
    assert_eq!(parse_value("true"), Ok(Value::Bool(true)));
    assert_eq!(parse_value("12.5"), Ok(Value::Number("12.5".to_string())));
    assert_eq!(parse_value("M|x.y"), Ok(Value::String("M|x.y".to_string())));
    assert_eq!(parse_value("a=b"), Err(trailing(1)));
    assert_eq!(parse_value(""), Err(no_match()));
}

#[test]
fn fallback_string_stops_at_delimiters() {
    assert_eq!(parse_string("ab(c"), Err(trailing(2)));
    assert_eq!(parse_string("&"), Err(no_match()));
}

#[test]
fn names_and_columns() {
    assert_eq!(parse_name("1abc_2"), Ok("1abc_2".to_string()));
    assert_eq!(parse_column("1abc"), Err(no_match()));
    assert_eq!(parse_column("_t.c1"), Ok(Column { name: "_t.c1".to_string() }));
    assert_eq!(parse_column("person.descr"), Ok(Column { name: "person.descr".to_string() }));
    assert_eq!(parse_column("t.ascending"), Ok(Column { name: "t.ascending".to_string() }));
    assert_eq!(parse_column("t.asc"), Err(trailing(1)));
}

#[test]
fn longer_suffix_stays_in_column() {
    assert_eq!(parse_operand("t.ascending"), Ok(col("t.ascending")));
    assert_eq!(parse_operand("person.description"), Ok(col("person.description")));
    let f = parse_filter("person.description=eq.x").unwrap();
    assert_eq!(f.condition.left, col("person.description"));
    assert_eq!(
        parse_order("t.ascending.desc"),
        Ok(Order { operand: col("t.ascending"), direction: Some(Direction::Desc), nulls_where: None })
    );
}

#[test]
fn operand_rejects_direction_suffix() {
    assert_eq!(parse_operand("age.asc"), Err(trailing(3)));
    assert_eq!(parse_operand("age.desc"), Err(trailing(3)));
    assert_ne!(parse_operand("age.asc"), Ok(col("age.asc")));
    assert_eq!(parse_operand("person.age"), Ok(col("person.age")));
}

#[test]
fn operand_try_order() {
    assert_eq!(parse_operand("true"), Ok(Operand::Value(Value::Bool(true))));
    assert_eq!(parse_operand("-3"), Ok(num("-3")));
    assert_eq!(
        parse_operand("max(min(a))"),
        Ok(Operand::Function(Function {
            function: "max".to_string(),
            params: vec![Operand::Function(Function {
                function: "min".to_string(),
                params: vec![col("a")],
            })],
        }))
    );
    assert_eq!(parse_function("f()"), Err(no_match()));
}

#[test]
fn equality_prefers_longer_keywords() {
    assert_eq!(parse_equality("lt"), Ok(Equality::Lt));
    assert_eq!(parse_equality("lte"), Ok(Equality::Lte));
    assert_eq!(parse_equality("is"), Ok(Equality::Is));
    assert_eq!(parse_equality("is_not"), Ok(Equality::IsNot));
    assert_eq!(parse_equality("gt"), Ok(Equality::Gt));
    assert_eq!(parse_equality("gte"), Ok(Equality::Gte));
    assert_eq!(parse_equality("eq"), Ok(Equality::Eq));
    assert_eq!(parse_equality("neq"), Ok(Equality::Neq));
    assert_eq!(parse_equality("in"), Ok(Equality::In));
    assert_eq!(parse_equality("not_in"), Ok(Equality::NotIn));
    assert_eq!(parse_equality("like"), Ok(Equality::Like));
    assert_eq!(parse_equality("ilike"), Ok(Equality::Ilike));
    assert_eq!(parse_equality("st"), Ok(Equality::St));
    assert_eq!(parse_equality("ne"), Err(no_match()));
}

#[test]
fn connectors_and_directions() {
    assert_eq!(parse_connector("&"), Ok(Connector::And));
    assert_eq!(parse_connector("|"), Ok(Connector::Or));
    assert_eq!(parse_direction("asc"), Ok(Direction::Asc));
    assert_eq!(parse_direction("desc"), Ok(Direction::Desc));
}

#[test]
fn filter_chain_is_right_nested() {
    let c = |name: &str, v: &str| Condition {
        left: col(name),
        equality: Equality::Eq,
        right: num(v),
    };
    assert_eq!(
        parse_filter("a=eq.1&b=eq.2|c=eq.3"),
        Ok(Filter {
            connector: None,
            condition: c("a", "1"),
            sub_filters: vec![Filter {
                connector: Some(Connector::And),
                condition: c("b", "2"),
                sub_filters: vec![Filter {
                    connector: Some(Connector::Or),
                    condition: c("c", "3"),
                    sub_filters: vec![],
                }],
            }],
        })
    );
}

#[test]
fn parentheses_leave_no_node() {
    assert_eq!(parse_filter("(a=eq.1)"), parse_filter("a=eq.1"));
    assert_eq!(parse_filter("(a=eq.1&b=eq.2)"), parse_filter("a=eq.1&b=eq.2"));
    assert_eq!(parse_filter("(a=eq.1"), Err(no_match()));
}

#[test]
fn filter_stops_before_what_is_no_condition() {
    assert_eq!(parse_filter("a=eq.1&x=2"), Err(trailing(6)));
    assert_eq!(parse_filter("a=zz.1"), Err(no_match()));
}

#[test]
fn order_with_nulls() {
    assert_eq!(
        parse_order("age.desc.nullslast"),
        Ok(Order {
            operand: col("age"),
            direction: Some(Direction::Desc),
            nulls_where: Some(NullsWhere::Last),
        })
    );
    assert_eq!(
        parse_order("sum(x).asc.nullsfirst"),
        Ok(Order {
            operand: Operand::Function(Function { function: "sum".to_string(), params: vec![col("x")] }),
            direction: Some(Direction::Asc),
            nulls_where: Some(NullsWhere::First),
        })
    );
    assert_eq!(parse_order("age"), Err(no_match()));
    assert_eq!(
        parse_order_by("order_by=a.asc,b.desc").map(|v| v.len()),
        Ok(2)
    );
}

#[test]
fn join_kinds_and_pairs() {
    let j = parse_join("left_inner_join=t&on=a.x=t.x&on=a.y=t.y").unwrap();
    assert_eq!(j.modifier, Some(Modifier::Left));
    assert_eq!(j.join_type, Some(JoinType::Inner));
    assert_eq!(j.table, col("t"));
    assert_eq!(j.column1, vec!["a.x".to_string(), "a.y".to_string()]);
    assert_eq!(j.column2, vec!["t.x".to_string(), "t.y".to_string()]);
    let n = parse_join("natural_join=t&on=a=b").unwrap();
    assert_eq!(n.modifier, None);
    assert_eq!(n.join_type, Some(JoinType::Natural));
    assert_eq!(parse_join("join=person"), Err(no_match()));
}

#[test]
fn ranges() {
    assert_eq!(
        parse_range("limit=100&offset=25"),
        Ok(Range::Limit(Limit { limit: 100, offset: Some(25) }))
    );
    assert_eq!(parse_range("limit=7"), Ok(Range::Limit(Limit { limit: 7, offset: None })));
    assert_eq!(
        parse_range("page=2&page_size=20"),
        Ok(Range::Page(Page { page: 2, page_size: 20 }))
    );
    assert_eq!(parse_range("page=2"), Err(no_match()));
    assert_eq!(
        parse_range("limit=9223372036854775807"),
        Ok(Range::Limit(Limit { limit: i64::MAX, offset: None }))
    );
    let at = |offset: usize| ParseError { offset, kind: ErrorKind::NoMatch };
    assert_eq!(parse_range("limit=9223372036854775808"), Err(at(6)));
    assert_eq!(parse_range("limit=99999999999999999999"), Err(at(6)));
    assert_eq!(parse_range("limit=1&offset=99999999999999999999"), Err(at(15)));
    assert_eq!(parse_range("page=99999999999999999999&page_size=1"), Err(at(5)));
    assert_eq!(parse_range("page=1&page_size=99999999999999999999"), Err(at(17)));
}

#[test]
fn group_by_and_having() {
    assert_eq!(
        parse_group_by("group_by=a,b"),
        Ok(vec![col("a"), col("b")])
    );
    let h = parse_having("having=min(age)=gt.13").unwrap();
    assert_eq!(h.len(), 1);
    assert_eq!(h[0].condition.equality, Equality::Gt);
}

#[test]
fn param_prefers_condition() {
    assert_eq!(
        parse_param("a=eq.1"),
        Ok(Param::Condition(Condition { left: col("a"), equality: Equality::Eq, right: num("1") }))
    );
    assert_eq!(
        parse_param("a=1"),
        Ok(Param::Equation(Equation { left: col("a"), right: num("1") }))
    );
}

#[test]
fn params_with_only_equations() {
    let p = parse_params("x=abc&y=null").unwrap();
    assert!(p.filters.is_empty());
    assert_eq!(
        p.equations,
        vec![
            Equation { left: col("x"), right: Operand::Value(Value::String("abc".to_string())) },
            Equation { left: col("y"), right: Operand::Value(Value::Null) },
        ]
    );
}

#[test]
fn query_with_from_and_join() {
    let q = parse_query("from=person&join=student&on=person.id=student.id&age=gt.3&page=1&page_size=10").unwrap();
    assert_eq!(q.from, vec![col("person")]);
    assert_eq!(q.join.len(), 1);
    assert_eq!(q.filters.len(), 1);
    assert_eq!(q.range, Some(Range::Page(Page { page: 1, page_size: 10 })));
}

#[test]
fn query_out_of_order_fails() {
    assert_eq!(parse_query("limit=1&having=a=eq.1"), Err(trailing(16)));
    assert_eq!(parse_query(""), Ok(Default::default()));
    assert_eq!(
        parse_query("a=eq.1&limit=99999999999999999999"),
        Err(ParseError { offset: 13, kind: ErrorKind::NoMatch })
    );
}

#[test]
fn parsing_twice_gives_equal_trees() {
    let input = "age=lt.13&student=eq.true|gender=eq.M&group_by=sum(age),grade,gender&having=min(age)=gt.13&order_by=age.desc,height.asc&limit=100&offset=25&x=123&y=456";
    assert_eq!(parse_query(input), parse_query(input));
    assert!(parse_query(input).is_ok());
}
