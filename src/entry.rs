//! The entry points: each parses a whole input with one rule of the grammar.
use crate::ast::{
    views, Column, Condition, Connector, Direction, Equality, Equation, ErrorKind, Filter,
    Function, Join, Operand, Order, Param, ParseError, Params, Query, Range, Value,
};
use crate::grammar as g;
use crate::grammar::{yields, yields_all};
use crate::parser;
use crate::scan::chars_of;
use vstd::prelude::*;

verus! {

/// What a parse of the whole of `s` returns, given what the rule gives from
/// its start: the value where the rule takes all of `s`; else the position
/// where input remains; else a failure at the start.
pub open spec fn complete<T: View>(r: Result<T, ParseError>, s: Seq<char>, m: Option<(T::V, nat)>) -> bool {
    match m {
        Some((v, n)) => if n == s.len() {
            r matches Ok(x) && x@ == v
        } else {
            r == Err::<T, ParseError>(ParseError { offset: n as usize, kind: ErrorKind::TrailingInput })
        },
        None => r == Err::<T, ParseError>(ParseError { offset: 0, kind: ErrorKind::NoMatch }),
    }
}

/// Like `complete`, for a rule that gives a sequence of values.
pub open spec fn complete_all<T: View>(
    r: Result<Vec<T>, ParseError>,
    s: Seq<char>,
    m: Option<(Seq<T::V>, nat)>,
) -> bool {
    match m {
        Some((v, n)) => if n == s.len() {
            r matches Ok(x) && views(x@) == v
        } else {
            r == Err::<Vec<T>, ParseError>(ParseError { offset: n as usize, kind: ErrorKind::TrailingInput })
        },
        None => r == Err::<Vec<T>, ParseError>(ParseError { offset: 0, kind: ErrorKind::NoMatch }),
    }
}

/// Like `complete`, for a rule that always matches a prefix: `m` is its value
/// and the position after it.
pub open spec fn complete_whole<T: View>(r: Result<T, ParseError>, s: Seq<char>, m: (T::V, int)) -> bool {
    if m.1 == s.len() {
        r matches Ok(x) && x@ == m.0
    } else {
        r == Err::<T, ParseError>(ParseError { offset: m.1 as usize, kind: ErrorKind::TrailingInput })
    }
}

/// Like `complete`, for a rule that may also fail at a position `o` inside the
/// input (an integer literal out of range): the parse then fails there.
pub open spec fn complete_checked<T: View>(
    r: Result<T, ParseError>,
    s: Seq<char>,
    m: Result<Option<(T::V, nat)>, int>,
) -> bool {
    match m {
        Ok(x) => complete(r, s, x),
        Err(o) => r == Err::<T, ParseError>(ParseError { offset: o as usize, kind: ErrorKind::NoMatch }),
    }
}

/// Like `complete_whole`, for a rule that may also fail at a position `o`
/// inside the input: the parse then fails there.
pub open spec fn complete_whole_checked<T: View>(
    r: Result<T, ParseError>,
    s: Seq<char>,
    m: Result<(T::V, int), int>,
) -> bool {
    match m {
        Ok(x) => complete_whole(r, s, x),
        Err(o) => r == Err::<T, ParseError>(ParseError { offset: o as usize, kind: ErrorKind::NoMatch }),
    }
}

fn finish<T: View>(r: Option<(T, usize)>, s: &Vec<char>, Ghost(m): Ghost<Option<(T::V, nat)>>) -> (out: Result<T, ParseError>)
    requires
        yields(r, s@, 0, m),
    ensures
        complete(out, s@, m),
{
    match r {
        Some((v, e)) => if e == s.len() {
            Ok(v)
        } else {
            Err(ParseError { offset: e, kind: ErrorKind::TrailingInput })
        },
        None => Err(ParseError { offset: 0, kind: ErrorKind::NoMatch }),
    }
}

fn finish_all<T: View>(r: Option<(Vec<T>, usize)>, s: &Vec<char>, Ghost(m): Ghost<Option<(Seq<T::V>, nat)>>) -> (out: Result<Vec<T>, ParseError>)
    requires
        yields_all(r, s@, 0, m),
    ensures
        complete_all(out, s@, m),
{
    match r {
        Some((v, e)) => if e == s.len() {
            Ok(v)
        } else {
            Err(ParseError { offset: e, kind: ErrorKind::TrailingInput })
        },
        None => Err(ParseError { offset: 0, kind: ErrorKind::NoMatch }),
    }
}

/// Parses a name: one or more ASCII letters, digits or underscores.
pub fn parse_name(input: &str) -> (r: Result<String, ParseError>)
    ensures
        complete(r, input@, g::name(input@, 0)),
{
    let s = chars_of(input);
    finish(parser::name(&s, 0), &s, Ghost(g::name(s@, 0)))
}

/// Parses a column, `ident` or `table.ident`, where the part after the dot is never a direction keyword.
pub fn parse_column(input: &str) -> (r: Result<Column, ParseError>)
    ensures
        complete(r, input@, g::column(input@, 0)),
{
    let s = chars_of(input);
    finish(parser::column(&s, 0), &s, Ghost(g::column(s@, 0)))
}

/// Parses a number in JSON's grammar, given as the text of its literal.
pub fn parse_number(input: &str) -> (r: Result<String, ParseError>)
    ensures
        complete(r, input@, g::number(input@, 0)),
{
    let s = chars_of(input);
    finish(parser::number(&s, 0), &s, Ghost(g::number(s@, 0)))
}

/// Parses `true` or `false`.
pub fn parse_bool(input: &str) -> (r: Result<bool, ParseError>)
    ensures
        complete(r, input@, g::boolean(input@, 0)),
{
    let s = chars_of(input);
    finish(parser::boolean(&s, 0), &s, Ghost(g::boolean(s@, 0)))
}

/// Parses the fallback string: characters other than `=`, `&`, `(` and `)`.
pub fn parse_string(input: &str) -> (r: Result<String, ParseError>)
    ensures
        complete(r, input@, g::loose_string(input@, 0)),
{
    let s = chars_of(input);
    finish(parser::loose_string(&s, 0), &s, Ghost(g::loose_string(s@, 0)))
}

/// Parses a double-quoted string, its escapes decoded.
pub fn parse_quoted_string(input: &str) -> (r: Result<String, ParseError>)
    ensures
        complete(r, input@, g::quoted_string(input@, 0)),
{
    let s = chars_of(input);
    finish(parser::quoted_string(&s, 0), &s, Ghost(g::quoted_string(s@, 0)))
}

/// Parses a value: `null`, a boolean, a number, else a string.
pub fn parse_value(input: &str) -> (r: Result<Value, ParseError>)
    ensures
        complete(r, input@, g::value(input@, 0)),
{
    let s = chars_of(input);
    finish(parser::value(&s, 0), &s, Ghost(g::value(s@, 0)))
}

/// Parses a function call on one operand.
pub fn parse_function(input: &str) -> (r: Result<Function, ParseError>)
    ensures
        complete(r, input@, g::function(input@, 0)),
{
    let s = chars_of(input);
    finish(parser::function(&s, 0), &s, Ghost(g::function(s@, 0)))
}

/// Parses an operand: a function call, a boolean, a number, else a column.
pub fn parse_operand(input: &str) -> (r: Result<Operand, ParseError>)
    ensures
        complete(r, input@, g::operand(input@, 0)),
{
    let s = chars_of(input);
    finish(parser::operand(&s, 0), &s, Ghost(g::operand(s@, 0)))
}

/// Parses `asc` or `desc`.
pub fn parse_direction(input: &str) -> (r: Result<Direction, ParseError>)
    ensures
        complete(r, input@, g::direction(input@, 0)),
{
    let s = chars_of(input);
    finish(parser::direction(&s, 0), &s, Ghost(g::direction(s@, 0)))
}

/// Parses a comparison operator such as `lt`, `lte` or `is_not`.
pub fn parse_equality(input: &str) -> (r: Result<Equality, ParseError>)
    ensures
        complete(r, input@, g::equality(input@, 0)),
{
    let s = chars_of(input);
    finish(parser::equality(&s, 0), &s, Ghost(g::equality(s@, 0)))
}

/// Parses a condition `operand=equality.operand`.
pub fn parse_condition(input: &str) -> (r: Result<Condition, ParseError>)
    ensures
        complete(r, input@, g::condition(input@, 0)),
{
    let s = chars_of(input);
    finish(parser::condition(&s, 0), &s, Ghost(g::condition(s@, 0)))
}

/// Parses `&` or `|`.
pub fn parse_connector(input: &str) -> (r: Result<Connector, ParseError>)
    ensures
        complete(r, input@, g::connector(input@, 0)),
{
    let s = chars_of(input);
    finish(parser::connector(&s, 0), &s, Ghost(g::connector(s@, 0)))
}

/// Parses a filter: conditions chained by connectors, nested to the right.
pub fn parse_filter(input: &str) -> (r: Result<Filter, ParseError>)
    ensures
        complete(r, input@, g::filter(input@, 0)),
{
    let s = chars_of(input);
    finish(parser::filter(&s, 0), &s, Ghost(g::filter(s@, 0)))
}

/// Parses an order `operand.direction`, with an optional `.nullsfirst` or `.nullslast`.
pub fn parse_order(input: &str) -> (r: Result<Order, ParseError>)
    ensures
        complete(r, input@, g::order(input@, 0)),
{
    let s = chars_of(input);
    finish(parser::order(&s, 0), &s, Ghost(g::order(s@, 0)))
}

/// Parses an assignment `column=value`.
pub fn parse_equation(input: &str) -> (r: Result<Equation, ParseError>)
    ensures
        complete(r, input@, g::equation(input@, 0)),
{
    let s = chars_of(input);
    finish(parser::equation(&s, 0), &s, Ghost(g::equation(s@, 0)))
}

/// Parses a condition, else an assignment.
pub fn parse_param(input: &str) -> (r: Result<Param, ParseError>)
    ensures
        complete(r, input@, g::param(input@, 0)),
{
    let s = chars_of(input);
    finish(parser::param(&s, 0), &s, Ghost(g::param(s@, 0)))
}

/// Parses a join with its kind, table and one or more `&on=` pairs.
pub fn parse_join(input: &str) -> (r: Result<Join, ParseError>)
    ensures
        complete(r, input@, g::join(input@, 0)),
{
    let s = chars_of(input);
    finish(parser::join(&s, 0), &s, Ghost(g::join(s@, 0)))
}

/// Parses `page=N&page_size=M`, else `limit=N` with an optional `&offset=M`.
pub fn parse_range(input: &str) -> (r: Result<Range, ParseError>)
    ensures
        complete_checked(r, input@, g::range(input@, 0)),
{
    let s = chars_of(input);
    match parser::range(&s, 0) {
        Ok(x) => finish(x, &s, Ghost(g::range(s@, 0)->Ok_0)),
        Err(o) => Err(ParseError { offset: o, kind: ErrorKind::NoMatch }),
    }
}

/// Parses the `from=` clause.
pub fn parse_from(input: &str) -> (r: Result<Vec<Operand>, ParseError>)
    ensures
        complete_all(r, input@, g::from_clause(input@, 0)),
{
    let s = chars_of(input);
    finish_all(parser::from_clause(&s, 0), &s, Ghost(g::from_clause(s@, 0)))
}

/// Parses the `group_by=` clause.
pub fn parse_group_by(input: &str) -> (r: Result<Vec<Operand>, ParseError>)
    ensures
        complete_all(r, input@, g::group_by_clause(input@, 0)),
{
    let s = chars_of(input);
    finish_all(parser::group_by_clause(&s, 0), &s, Ghost(g::group_by_clause(s@, 0)))
}

/// Parses the `having=` clause.
pub fn parse_having(input: &str) -> (r: Result<Vec<Filter>, ParseError>)
    ensures
        complete_all(r, input@, g::having_clause(input@, 0)),
{
    let s = chars_of(input);
    finish_all(parser::having_clause(&s, 0), &s, Ghost(g::having_clause(s@, 0)))
}

/// Parses the `order_by=` clause.
pub fn parse_order_by(input: &str) -> (r: Result<Vec<Order>, ParseError>)
    ensures
        complete_all(r, input@, g::order_by_clause(input@, 0)),
{
    let s = chars_of(input);
    finish_all(parser::order_by_clause(&s, 0), &s, Ghost(g::order_by_clause(s@, 0)))
}

/// Parses optional filters followed by optional assignments. Every clause being optional, this fails only where input
/// remains after the clauses.
pub fn parse_params(input: &str) -> (r: Result<Params, ParseError>)
    ensures
        complete_whole(r, input@, g::params(input@, 0)),
{
    let s = chars_of(input);
    let (v, e) = parser::params(&s, 0);
    if e == s.len() {
        Ok(v)
    } else {
        Err(ParseError { offset: e, kind: ErrorKind::TrailingInput })
    }
}

/// Parses a whole query: its clauses, each optional, in the order `from`, joins, filters, `group_by`, `having`, `order_by`, range, assignments. Every clause being optional, this fails only where input
/// remains after the clauses.
pub fn parse_query(input: &str) -> (r: Result<Query, ParseError>)
    ensures
        complete_whole_checked(r, input@, g::query(input@, 0)),
{
    let s = chars_of(input);
    match parser::query(&s, 0) {
        Ok((v, e)) => if e == s.len() {
            Ok(v)
        } else {
            Err(ParseError { offset: e, kind: ErrorKind::TrailingInput })
        },
        Err(o) => Err(ParseError { offset: o, kind: ErrorKind::NoMatch }),
    }
}

} // verus!
