//! The executable parsers: one function per rule of `grammar`, each proved to
//! return exactly what its rule gives.
use crate::ast::{
    views, Column, Condition, Connector, Direction, Equality, Equation, Filter, FilterModel,
    Function, Join, JoinType, Limit, Modifier, NullsWhere, Operand, Order, Page,
    Param, Params, Query, QueryModel, Range, Value,
};
use crate::grammar as g;
use crate::grammar::{yields, yields_all, yields_checked, CharClass};
use crate::scan::{
    at_char, char_from_u32, is_alpha_or_underscore_char, lit_at, run_end, string_of, text,
};
use vstd::prelude::*;

verus! {

pub(crate) fn name(s: &Vec<char>, p: usize) -> (r: Option<(String, usize)>)
    requires
        p <= s.len(),
    ensures
        yields(r, s@, p as int, g::name(s@, p as int)),
{
    let e = run_end(s, p, CharClass::Word);
    if e > p {
        Some((text(s, p, e), e))
    } else {
        None
    }
}

fn ident_end(s: &Vec<char>, p: usize) -> (r: Option<usize>)
    requires
        p <= s.len(),
    ensures
        match r {
            Some(e) => g::ident_len(s@, p as int) == Some((e - p) as nat) && p < e <= s.len(),
            None => g::ident_len(s@, p as int) is None,
        },
{
    if p < s.len() && is_alpha_or_underscore_char(s[p]) {
        Some(run_end(s, p + 1, CharClass::Word))
    } else {
        None
    }
}

pub(crate) fn direction(s: &Vec<char>, p: usize) -> (r: Option<(Direction, usize)>)
    requires
        p <= s.len(),
    ensures
        yields(r, s@, p as int, g::direction(s@, p as int)),
{
    proof {
        reveal(g::direction);
        reveal_strlit("asc");
        reveal_strlit("desc");
    }
    if lit_at(s, p, "asc") {
        Some((Direction::Asc, p + 3))
    } else if lit_at(s, p, "desc") {
        Some((Direction::Desc, p + 4))
    } else {
        None
    }
}

pub(crate) fn column(s: &Vec<char>, p: usize) -> (r: Option<(Column, usize)>)
    requires
        p <= s.len(),
    ensures
        yields(r, s@, p as int, g::column(s@, p as int)),
{
    proof {
        reveal(g::column);
        reveal_strlit("asc");
        reveal_strlit("desc");
    }
    match ident_end(s, p) {
        Some(e1) => {
            let mut e = e1;
            if at_char(s, e1, '.') {
                if let Some(e2) = ident_end(s, e1 + 1) {
                    let len = e2 - (e1 + 1);
                    let word = (len == 3 && lit_at(s, e1 + 1, "asc")) || (len == 4 && lit_at(
                        s,
                        e1 + 1,
                        "desc",
                    ));
                    proof {
                        let w = s@.subrange(e1 + 1, e2 as int);
                        assert(w.len() == len);
                        assert("asc"@.len() == 3 && "desc"@.len() == 4);
                        if len == 3 {
                            assert(w == s@.subrange(e1 + 1, e1 + 1 + 3));
                        }
                        if len == 4 {
                            assert(w == s@.subrange(e1 + 1, e1 + 1 + 4));
                        }
                    }
                    assert(word == g::is_direction_word(s@.subrange(e1 + 1, e2 as int)));
                    if !word {
                        e = e2;
                    }
                }
            }
            Some((Column { name: text(s, p, e) }, e))
        },
        None => None,
    }
}

fn int_part_end(s: &Vec<char>, p: usize) -> (r: Option<usize>)
    requires
        p <= s.len(),
    ensures
        match r {
            Some(e) => g::int_part_len(s@, p as int) == Some((e - p) as nat) && p < e <= s.len(),
            None => g::int_part_len(s@, p as int) is None,
        },
{
    if p < s.len() && '1' <= s[p] && s[p] <= '9' {
        Some(run_end(s, p + 1, CharClass::Digit))
    } else if at_char(s, p, '0') {
        Some(p + 1)
    } else {
        None
    }
}

fn frac_end(s: &Vec<char>, p: usize) -> (e: usize)
    requires
        p <= s.len(),
    ensures
        e == p + g::frac_len(s@, p as int),
        e <= s.len(),
{
    if at_char(s, p, '.') {
        let e = run_end(s, p + 1, CharClass::Digit);
        if e > p + 1 {
            return e;
        }
    }
    p
}

fn exp_end(s: &Vec<char>, p: usize) -> (e: usize)
    requires
        p <= s.len(),
    ensures
        e == p + g::exp_len(s@, p as int),
        e <= s.len(),
{
    if at_char(s, p, 'e') || at_char(s, p, 'E') {
        let q = if at_char(s, p + 1, '+') || at_char(s, p + 1, '-') {
            p + 2
        } else {
            p + 1
        };
        let e = run_end(s, q, CharClass::Digit);
        if e > q {
            return e;
        }
    }
    p
}

/// A number, as the text of its literal.
pub(crate) fn number(s: &Vec<char>, p: usize) -> (r: Option<(String, usize)>)
    requires
        p <= s.len(),
    ensures
        yields(r, s@, p as int, g::number(s@, p as int)),
{
    proof {
        reveal(g::number);
    }
    let q = if at_char(s, p, '-') {
        p + 1
    } else {
        p
    };
    match int_part_end(s, q) {
        Some(e1) => {
            let e2 = frac_end(s, e1);
            let e3 = exp_end(s, e2);
            Some((text(s, p, e3), e3))
        },
        None => None,
    }
}

pub(crate) fn boolean(s: &Vec<char>, p: usize) -> (r: Option<(bool, usize)>)
    requires
        p <= s.len(),
    ensures
        yields(r, s@, p as int, g::boolean(s@, p as int)),
{
    proof {
        reveal(g::boolean);
        reveal_strlit("true");
        reveal_strlit("false");
    }
    if lit_at(s, p, "true") {
        Some((true, p + 4))
    } else if lit_at(s, p, "false") {
        Some((false, p + 5))
    } else {
        None
    }
}

pub(crate) fn loose_string(s: &Vec<char>, p: usize) -> (r: Option<(String, usize)>)
    requires
        p <= s.len(),
    ensures
        yields(r, s@, p as int, g::loose_string(s@, p as int)),
{
    proof {
        reveal(g::loose_string);
    }
    let e = run_end(s, p, CharClass::Loose);
    if e > p {
        Some((text(s, p, e), e))
    } else {
        None
    }
}

pub(crate) fn value(s: &Vec<char>, p: usize) -> (r: Option<(Value, usize)>)
    requires
        p <= s.len(),
    ensures
        yields(r, s@, p as int, g::value(s@, p as int)),
{
    proof {
        reveal(g::value);
        reveal_strlit("null");
    }
    if lit_at(s, p, "null") {
        Some((Value::Null, p + 4))
    } else if let Some((b, e)) = boolean(s, p) {
        Some((Value::Bool(b), e))
    } else if let Some((t, e)) = number(s, p) {
        Some((Value::Number(t), e))
    } else if let Some((t, e)) = loose_string(s, p) {
        Some((Value::String(t), e))
    } else {
        None
    }
}

fn hex_digit(c: char) -> (r: Option<u32>)
    ensures
        match r {
            Some(v) => g::hex_value(c) == Some(v as int) && v < 16,
            None => g::hex_value(c) is None,
        },
{
    if '0' <= c && c <= '9' {
        Some(c as u32 - '0' as u32)
    } else if 'a' <= c && c <= 'f' {
        Some(c as u32 - 'a' as u32 + 10)
    } else if 'A' <= c && c <= 'F' {
        Some(c as u32 - 'A' as u32 + 10)
    } else {
        None
    }
}

/// A `\uXXXX` escape at `p`, as its code unit.
fn unicode_escape(s: &Vec<char>, p: usize) -> (r: Option<u32>)
    requires
        p <= s.len(),
    ensures
        match r {
            Some(u) => g::unicode_escape(s@, p as int) == Some(u as int) && p + 6 <= s.len()
                && u <= 0xFFFF,
            None => g::unicode_escape(s@, p as int) is None,
        },
{
    proof {
        reveal(g::hex4);
    }
    if !(at_char(s, p, '\\') && at_char(s, p + 1, 'u')) || s.len() - (p + 2) < 4 {
        return None;
    }
    let q = p + 2;
    match (hex_digit(s[q]), hex_digit(s[q + 1]), hex_digit(s[q + 2]), hex_digit(s[q + 3])) {
        (Some(a), Some(b), Some(c), Some(d)) => Some(a * 4096 + b * 256 + c * 16 + d),
        _ => None,
    }
}

fn escaped(c: char) -> (r: Option<char>)
    ensures
        r == g::escaped(c),
{
    if c == '\\' || c == '/' || c == '"' {
        Some(c)
    } else if c == 'b' {
        Some('\x08')
    } else if c == 'f' {
        Some('\x0C')
    } else if c == 'n' {
        Some('\n')
    } else if c == 'r' {
        Some('\r')
    } else if c == 't' {
        Some('\t')
    } else {
        None
    }
}

/// The character of code point `v`, known to be a Unicode scalar value.
fn scalar(v: u32) -> (c: char)
    requires
        v < 0xD800 || (0xE000 <= v && v <= 0x10FFFF),
    ensures
        c == v as char,
{
    match char_from_u32(v) {
        Some(c) => c,
        None => '\u{FFFD}',
    }
}

/// The character that the escape of code unit `u` at `p` decodes to, and the
/// position after the escapes it takes.
fn unicode_char(s: &Vec<char>, p: usize, u: u32) -> (r: (char, usize))
    requires
        p + 6 <= s.len(),
        u <= 0xFFFF,
    ensures
        g::unicode_char(s@, p as int, u as int) == (r.0, (r.1 - p) as nat),
        p < r.1 <= s.len(),
{
    proof {
        reveal(g::unicode_char);
    }
    let v = unicode_escape(s, p + 6);
    if 0xD800 <= u && u <= 0xDBFF && v.is_some() {
        let lo = v.unwrap();
        if 0xDC00 <= lo && lo <= 0xDFFF {
            return (scalar(0x10000 + (u - 0xD800) * 0x400 + (lo - 0xDC00)), p + 12);
        }
    }
    if 0xD800 <= u && u <= 0xDFFF {
        ('\u{FFFD}', p + 6)
    } else {
        (scalar(u), p + 6)
    }
}

/// `prefix` and `k` characters taken before the result `r` of a rule.
spec fn after(prefix: Seq<char>, k: nat, r: Option<(Seq<char>, nat)>) -> Option<(Seq<char>, nat)> {
    match r {
        Some((t, n)) => Some((prefix + t, k + n)),
        None => None,
    }
}

proof fn lemma_after_push(out: Seq<char>, k: nat, c: char, j: nat, r: Option<(Seq<char>, nat)>)
    ensures
        after(out, k, after(seq![c], j, r)) == after(out.push(c), k + j, r),
{
    if let Some((t, n)) = r {
        assert(out + (seq![c] + t) =~= out.push(c) + t);
    }
}

#[verifier::rlimit(30)]
pub(crate) fn quoted_string(s: &Vec<char>, p: usize) -> (r: Option<(String, usize)>)
    requires
        p <= s.len(),
    ensures
        yields(r, s@, p as int, g::quoted_string(s@, p as int)),
{
    if !at_char(s, p, '"') {
        return None;
    }
    let mut out: Vec<char> = Vec::new();
    let mut i: usize = p + 1;
    while i < s.len() && s[i] != '"'
        invariant
            p < i <= s.len(),
            g::quoted_body(s@, p + 1) == after(out@, (i - p - 1) as nat, g::quoted_body(s@, i as int)),
        decreases s.len() - i,
    {
        let c = s[i];
        if c == '\\' {
            if let Some(u) = unicode_escape(s, i) {
                let (d, e) = unicode_char(s, i, u);
                proof {
                    lemma_after_push(out@, (i - p - 1) as nat, d, (e - i) as nat, g::quoted_body(s@, e as int));
                }
                out.push(d);
                i = e;
            } else if i + 1 < s.len() && escaped(s[i + 1]).is_some() {
                let d = escaped(s[i + 1]).unwrap();
                proof {
                    lemma_after_push(out@, (i - p - 1) as nat, d, 2, g::quoted_body(s@, i + 2));
                }
                out.push(d);
                i = i + 2;
            } else {
                return None;
            }
        } else {
            proof {
                lemma_after_push(out@, (i - p - 1) as nat, c, 1, g::quoted_body(s@, i + 1));
            }
            out.push(c);
            i = i + 1;
        }
    }
    if i < s.len() {
        assert(out@ + Seq::<char>::empty() =~= out@);
        Some((string_of(out), i + 1))
    } else {
        None
    }
}

proof fn lemma_views_insert0<T: View>(v: Seq<T>, x: T)
    ensures
        views(v.insert(0, x)) == seq![x@] + views(v),
{
    assert(views(v.insert(0, x)) =~= seq![x@] + views(v));
}

pub(crate) fn function(s: &Vec<char>, p: usize) -> (r: Option<(Function, usize)>)
    requires
        p <= s.len(),
    ensures
        yields(r, s@, p as int, g::function(s@, p as int)),
    decreases s@.len() - p, 0int,
{
    if let Some((f, e1)) = name(s, p) {
        if at_char(s, e1, '(') {
            if let Some((o, e2)) = operand(s, e1 + 1) {
                if at_char(s, e2, ')') {
                    let params = vec![o];
                    let ghost m = params@[0]@;
                    let func = Function { function: f, params };
                    assert(func@->Function_1 =~= seq![m]);
                    return Some((func, e2 + 1));
                }
            }
        }
    }
    None
}

pub(crate) fn operand(s: &Vec<char>, p: usize) -> (r: Option<(Operand, usize)>)
    requires
        p <= s.len(),
    ensures
        yields(r, s@, p as int, g::operand(s@, p as int)),
    decreases s@.len() - p, 1int,
{
    if let Some((f, e)) = function(s, p) {
        let o = Operand::Function(f);
        Some((o, e))
    } else if let Some((b, e)) = boolean(s, p) {
        Some((Operand::Value(Value::Bool(b)), e))
    } else if let Some((t, e)) = number(s, p) {
        Some((Operand::Value(Value::Number(t)), e))
    } else if let Some((c, e)) = column(s, p) {
        Some((Operand::Column(c), e))
    } else {
        None
    }
}

pub(crate) fn equality(s: &Vec<char>, p: usize) -> (r: Option<(Equality, usize)>)
    requires
        p <= s.len(),
    ensures
        yields(r, s@, p as int, g::equality(s@, p as int)),
{
    proof {
        reveal(g::equality);
        reveal_strlit("eq");
        reveal_strlit("neq");
        reveal_strlit("lte");
        reveal_strlit("lt");
        reveal_strlit("gte");
        reveal_strlit("gt");
        reveal_strlit("in");
        reveal_strlit("not_in");
        reveal_strlit("is_not");
        reveal_strlit("is");
        reveal_strlit("like");
        reveal_strlit("ilike");
        reveal_strlit("st");
    }
    if lit_at(s, p, "eq") {
        Some((Equality::Eq, p + 2))
    } else if lit_at(s, p, "neq") {
        Some((Equality::Neq, p + 3))
    } else if lit_at(s, p, "lte") {
        Some((Equality::Lte, p + 3))
    } else if lit_at(s, p, "lt") {
        Some((Equality::Lt, p + 2))
    } else if lit_at(s, p, "gte") {
        Some((Equality::Gte, p + 3))
    } else if lit_at(s, p, "gt") {
        Some((Equality::Gt, p + 2))
    } else if lit_at(s, p, "in") {
        Some((Equality::In, p + 2))
    } else if lit_at(s, p, "not_in") {
        Some((Equality::NotIn, p + 6))
    } else if lit_at(s, p, "is_not") {
        Some((Equality::IsNot, p + 6))
    } else if lit_at(s, p, "is") {
        Some((Equality::Is, p + 2))
    } else if lit_at(s, p, "like") {
        Some((Equality::Like, p + 4))
    } else if lit_at(s, p, "ilike") {
        Some((Equality::Ilike, p + 5))
    } else if lit_at(s, p, "st") {
        Some((Equality::St, p + 2))
    } else {
        None
    }
}

pub(crate) fn condition(s: &Vec<char>, p: usize) -> (r: Option<(Condition, usize)>)
    requires
        p <= s.len(),
    ensures
        yields(r, s@, p as int, g::condition(s@, p as int)),
{
    proof {
        reveal(g::condition);
    }
    if let Some((l, e1)) = operand(s, p) {
        if at_char(s, e1, '=') {
            if let Some((eq, e2)) = equality(s, e1 + 1) {
                if at_char(s, e2, '.') {
                    if let Some((r, e3)) = operand(s, e2 + 1) {
                        return Some((Condition { left: l, equality: eq, right: r }, e3));
                    }
                }
            }
        }
    }
    None
}

pub(crate) fn connector(s: &Vec<char>, p: usize) -> (r: Option<(Connector, usize)>)
    requires
        p <= s.len(),
    ensures
        yields(r, s@, p as int, g::connector(s@, p as int)),
{
    if at_char(s, p, '|') {
        Some((Connector::Or, p + 1))
    } else if at_char(s, p, '&') {
        Some((Connector::And, p + 1))
    } else {
        None
    }
}

fn chain(c: Condition, k: Connector, f: Filter) -> (r: Filter)
    ensures
        r@ == g::chain(c@, k, f@),
{
    let ghost fv = f@;
    let next = Filter { connector: Some(k), condition: f.condition, sub_filters: f.sub_filters };
    assert(next@ == FilterModel {
        connector: Some(k),
        condition: fv.condition,
        sub_filters: fv.sub_filters,
    });
    let ghost nv = next@;
    let r = Filter { connector: None, condition: c, sub_filters: vec![next] };
    assert(r@.sub_filters =~= seq![nv]);
    r
}

fn leaf(c: Condition) -> (r: Filter)
    ensures
        r@ == g::leaf(c@),
{
    let r = Filter { connector: None, condition: c, sub_filters: Vec::new() };
    assert(r@.sub_filters =~= Seq::<FilterModel>::empty());
    r
}

#[verifier::rlimit(30)]
pub(crate) fn filter(s: &Vec<char>, p: usize) -> (r: Option<(Filter, usize)>)
    requires
        p <= s.len(),
    ensures
        yields(r, s@, p as int, g::filter(s@, p as int)),
    decreases s@.len() - p,
{
    proof {
        reveal_with_fuel(g::filter, 1);
    }
    let mut single: Option<(Condition, usize)> = None;
    if let Some((c, e1)) = condition(s, p) {
        if let Some((k, _)) = connector(s, e1) {
            if let Some((f, e2)) = filter(s, e1 + 1) {
                return Some((chain(c, k, f), e2));
            }
        }
        single = Some((c, e1));
    }
    if at_char(s, p, '(') {
        if let Some((f, e)) = filter(s, p + 1) {
            if at_char(s, e, ')') {
                return Some((f, e + 1));
            }
        }
    }
    match single {
        Some((c, e1)) => Some((leaf(c), e1)),
        None => None,
    }
}

pub(crate) fn operand_list(s: &Vec<char>, p: usize) -> (r: Option<(Vec<Operand>, usize)>)
    requires
        p <= s.len(),
    ensures
        yields_all(r, s@, p as int, g::operand_list(s@, p as int)),
    decreases s@.len() - p,
{
    proof {
        reveal_with_fuel(g::operand_list, 1);
    }
    if let Some((x, e)) = operand(s, p) {
        let ghost xv = x@;
        if at_char(s, e, ',') {
            if let Some((mut rest, e2)) = operand_list(s, e + 1) {
                proof {
                    lemma_views_insert0(rest@, x);
                }
                rest.insert(0, x);
                return Some((rest, e2));
            }
        }
        let mut one: Vec<Operand> = Vec::new();
        one.push(x);
        assert(views(one@) =~= seq![xv]);
        Some((one, e))
    } else {
        None
    }
}

pub(crate) fn nulls_where(s: &Vec<char>, p: usize) -> (r: Option<(NullsWhere, usize)>)
    requires
        p <= s.len(),
    ensures
        yields(r, s@, p as int, g::nulls_where(s@, p as int)),
{
    proof {
        reveal(g::nulls_where);
        reveal_strlit("nullsfirst");
        reveal_strlit("nullslast");
    }
    if lit_at(s, p, "nullsfirst") {
        Some((NullsWhere::First, p + 10))
    } else if lit_at(s, p, "nullslast") {
        Some((NullsWhere::Last, p + 9))
    } else {
        None
    }
}

pub(crate) fn order(s: &Vec<char>, p: usize) -> (r: Option<(Order, usize)>)
    requires
        p <= s.len(),
    ensures
        yields(r, s@, p as int, g::order(s@, p as int)),
{
    proof {
        reveal(g::order);
    }
    if let Some((o, e1)) = operand(s, p) {
        if at_char(s, e1, '.') {
            if let Some((d, e2)) = direction(s, e1 + 1) {
                if at_char(s, e2, '.') {
                    if let Some((w, e3)) = nulls_where(s, e2 + 1) {
                        return Some(
                            (Order { operand: o, direction: Some(d), nulls_where: Some(w) }, e3),
                        );
                    }
                }
                return Some((Order { operand: o, direction: Some(d), nulls_where: None }, e2));
            }
        }
    }
    None
}

pub(crate) fn order_list(s: &Vec<char>, p: usize) -> (r: Option<(Vec<Order>, usize)>)
    requires
        p <= s.len(),
    ensures
        yields_all(r, s@, p as int, g::order_list(s@, p as int)),
    decreases s@.len() - p,
{
    proof {
        reveal_with_fuel(g::order_list, 1);
    }
    if let Some((x, e)) = order(s, p) {
        let ghost xv = x@;
        if at_char(s, e, ',') {
            if let Some((mut rest, e2)) = order_list(s, e + 1) {
                proof {
                    lemma_views_insert0(rest@, x);
                }
                rest.insert(0, x);
                return Some((rest, e2));
            }
        }
        let mut one: Vec<Order> = Vec::new();
        one.push(x);
        assert(views(one@) =~= seq![xv]);
        Some((one, e))
    } else {
        None
    }
}

pub(crate) fn equation(s: &Vec<char>, p: usize) -> (r: Option<(Equation, usize)>)
    requires
        p <= s.len(),
    ensures
        yields(r, s@, p as int, g::equation(s@, p as int)),
{
    proof {
        reveal(g::equation);
    }
    if let Some((c, e1)) = column(s, p) {
        if at_char(s, e1, '=') {
            if let Some((v, e2)) = value(s, e1 + 1) {
                return Some((Equation { left: Operand::Column(c), right: Operand::Value(v) }, e2));
            }
        }
    }
    None
}

pub(crate) fn equation_list(s: &Vec<char>, p: usize) -> (r: Option<(Vec<Equation>, usize)>)
    requires
        p <= s.len(),
    ensures
        yields_all(r, s@, p as int, g::equation_list(s@, p as int)),
    decreases s@.len() - p,
{
    proof {
        reveal_with_fuel(g::equation_list, 1);
    }
    if let Some((x, e)) = equation(s, p) {
        let ghost xv = x@;
        if at_char(s, e, '&') {
            if let Some((mut rest, e2)) = equation_list(s, e + 1) {
                proof {
                    lemma_views_insert0(rest@, x);
                }
                rest.insert(0, x);
                return Some((rest, e2));
            }
        }
        let mut one: Vec<Equation> = Vec::new();
        one.push(x);
        assert(views(one@) =~= seq![xv]);
        Some((one, e))
    } else {
        None
    }
}

pub(crate) fn param(s: &Vec<char>, p: usize) -> (r: Option<(Param, usize)>)
    requires
        p <= s.len(),
    ensures
        yields(r, s@, p as int, g::param(s@, p as int)),
{
    proof {
        reveal(g::param);
    }
    if let Some((c, e)) = condition(s, p) {
        Some((Param::Condition(c), e))
    } else if let Some((q, e)) = equation(s, p) {
        Some((Param::Equation(q), e))
    } else {
        None
    }
}

pub(crate) fn from_clause(s: &Vec<char>, p: usize) -> (r: Option<(Vec<Operand>, usize)>)
    requires
        p <= s.len(),
    ensures
        yields_all(r, s@, p as int, g::from_clause(s@, p as int)),
{
    proof {
        reveal(g::from_clause);
        reveal_strlit("from=");
    }
    if lit_at(s, p, "from=") {
        operand_list(s, p + 5)
    } else {
        None
    }
}

pub(crate) fn group_by_clause(s: &Vec<char>, p: usize) -> (r: Option<(Vec<Operand>, usize)>)
    requires
        p <= s.len(),
    ensures
        yields_all(r, s@, p as int, g::group_by_clause(s@, p as int)),
{
    proof {
        reveal(g::group_by_clause);
        reveal_strlit("group_by=");
    }
    if lit_at(s, p, "group_by=") {
        operand_list(s, p + 9)
    } else {
        None
    }
}

pub(crate) fn order_by_clause(s: &Vec<char>, p: usize) -> (r: Option<(Vec<Order>, usize)>)
    requires
        p <= s.len(),
    ensures
        yields_all(r, s@, p as int, g::order_by_clause(s@, p as int)),
{
    proof {
        reveal(g::order_by_clause);
        reveal_strlit("order_by=");
    }
    if lit_at(s, p, "order_by=") {
        order_list(s, p + 9)
    } else {
        None
    }
}

pub(crate) fn having_clause(s: &Vec<char>, p: usize) -> (r: Option<(Vec<Filter>, usize)>)
    requires
        p <= s.len(),
    ensures
        yields_all(r, s@, p as int, g::having_clause(s@, p as int)),
{
    proof {
        reveal(g::having_clause);
        reveal_strlit("having=");
    }
    if lit_at(s, p, "having=") {
        if let Some((f, e)) = filter(s, p + 7) {
            return Some((single(f), e));
        }
    }
    None
}

fn single<T: View>(x: T) -> (r: Vec<T>)
    ensures
        views(r@) == seq![x@],
{
    let ghost xv = x@;
    let mut r: Vec<T> = Vec::new();
    r.push(x);
    assert(views(r@) =~= seq![xv]);
    r
}

pub(crate) fn modifier(s: &Vec<char>, p: usize) -> (r: Option<(Modifier, usize)>)
    requires
        p <= s.len(),
    ensures
        yields(r, s@, p as int, g::modifier(s@, p as int)),
{
    proof {
        reveal(g::modifier);
        reveal_strlit("left");
        reveal_strlit("right");
        reveal_strlit("full");
    }
    if lit_at(s, p, "left") {
        Some((Modifier::Left, p + 4))
    } else if lit_at(s, p, "right") {
        Some((Modifier::Right, p + 5))
    } else if lit_at(s, p, "full") {
        Some((Modifier::Full, p + 4))
    } else {
        None
    }
}

pub(crate) fn join_type(s: &Vec<char>, p: usize) -> (r: Option<(JoinType, usize)>)
    requires
        p <= s.len(),
    ensures
        yields(r, s@, p as int, g::join_type(s@, p as int)),
{
    proof {
        reveal(g::join_type);
        reveal_strlit("inner");
        reveal_strlit("outer");
        reveal_strlit("cross");
        reveal_strlit("natural");
    }
    if lit_at(s, p, "inner") {
        Some((JoinType::Inner, p + 5))
    } else if lit_at(s, p, "outer") {
        Some((JoinType::Outer, p + 5))
    } else if lit_at(s, p, "cross") {
        Some((JoinType::Cross, p + 5))
    } else if lit_at(s, p, "natural") {
        Some((JoinType::Natural, p + 7))
    } else {
        None
    }
}

fn join_kind(s: &Vec<char>, p: usize) -> (r: Option<(Option<Modifier>, Option<JoinType>, usize)>)
    requires
        p <= s.len(),
    ensures
        match r {
            Some((m, j, e)) => p <= e <= s.len() && g::join_kind(s@, p as int) == Some(
                ((m, j), (e - p) as nat),
            ),
            None => g::join_kind(s@, p as int) is None,
        },
{
    proof {
        reveal(g::join_kind);
    }
    if let Some((m, e1)) = modifier(s, p) {
        if at_char(s, e1, '_') {
            if let Some((j, e2)) = join_type(s, e1 + 1) {
                return Some((Some(m), Some(j), e2));
            }
        }
        Some((Some(m), None, e1))
    } else if let Some((j, e)) = join_type(s, p) {
        Some((None, Some(j), e))
    } else {
        None
    }
}

fn on_pair(s: &Vec<char>, p: usize) -> (r: Option<(String, String, usize)>)
    requires
        p <= s.len(),
    ensures
        match r {
            Some((c1, c2, e)) => p <= e <= s.len() && g::on_pair(s@, p as int) == Some(
                ((c1@, c2@), (e - p) as nat),
            ),
            None => g::on_pair(s@, p as int) is None,
        },
{
    proof {
        reveal_strlit("&on=");
    }
    if lit_at(s, p, "&on=") {
        if let Some((c1, e1)) = column(s, p + 4) {
            if at_char(s, e1, '=') {
                if let Some((c2, e2)) = column(s, e1 + 1) {
                    return Some((c1.name, c2.name, e2));
                }
            }
        }
    }
    None
}

fn on_pairs(s: &Vec<char>, p: usize) -> (r: Option<(Vec<String>, Vec<String>, usize)>)
    requires
        p <= s.len(),
    ensures
        match r {
            Some((l1, l2, e)) => p <= e <= s.len() && g::on_pairs(s@, p as int) == Some(
                ((views(l1@), views(l2@)), (e - p) as nat),
            ),
            None => g::on_pairs(s@, p as int) is None,
        },
    decreases s@.len() - p,
{
    proof {
        reveal_with_fuel(g::on_pairs, 1);
        reveal_strlit("&on=");
    }
    if let Some((c1, c2, e)) = on_pair(s, p) {
        let ghost v1 = c1@;
        let ghost v2 = c2@;
        if lit_at(s, e, "&on=") {
            if let Some((mut l1, mut l2, e2)) = on_pairs(s, e) {
                proof {
                    lemma_views_insert0(l1@, c1);
                    lemma_views_insert0(l2@, c2);
                }
                l1.insert(0, c1);
                l2.insert(0, c2);
                return Some((l1, l2, e2));
            }
        }
        Some((single(c1), single(c2), e))
    } else {
        None
    }
}

pub(crate) fn join(s: &Vec<char>, p: usize) -> (r: Option<(Join, usize)>)
    requires
        p <= s.len(),
    ensures
        yields(r, s@, p as int, g::join(s@, p as int)),
{
    proof {
        reveal(g::join);
        reveal_strlit("join=");
    }
    let (modifier, join_type, q0) = match join_kind(s, p) {
        Some((m, j, e)) => (m, j, e),
        None => (None, None, p),
    };
    let q = if at_char(s, q0, '_') {
        q0 + 1
    } else {
        q0
    };
    if lit_at(s, q, "join=") {
        if let Some((table, e1)) = operand(s, q + 5) {
            if let Some((column1, column2, e2)) = on_pairs(s, e1) {
                return Some((Join { modifier, join_type, table, column1, column2 }, e2));
            }
        }
    }
    None
}

pub(crate) fn join_list(s: &Vec<char>, p: usize) -> (r: Option<(Vec<Join>, usize)>)
    requires
        p <= s.len(),
    ensures
        yields_all(r, s@, p as int, g::join_list(s@, p as int)),
    decreases s@.len() - p,
{
    proof {
        reveal_with_fuel(g::join_list, 1);
    }
    if let Some((x, e)) = join(s, p) {
        let ghost xv = x@;
        if at_char(s, e, '&') {
            if let Some((mut rest, e2)) = join_list(s, e + 1) {
                proof {
                    lemma_views_insert0(rest@, x);
                }
                rest.insert(0, x);
                return Some((rest, e2));
            }
        }
        let mut one: Vec<Join> = Vec::new();
        one.push(x);
        assert(views(one@) =~= seq![xv]);
        Some((one, e))
    } else {
        None
    }
}

pub(crate) proof fn lemma_run_in_class(s: Seq<char>, p: int, k: CharClass)
    requires
        0 <= p,
    ensures
        forall|j: int| p <= j < p + g::run(s, p, k) ==> g::in_class(#[trigger] s[j], k),
        p + g::run(s, p, k) <= s.len() || g::run(s, p, k) == 0,
    decreases s.len() - p,
{
    if p < s.len() && g::in_class(s[p], k) {
        lemma_run_in_class(s, p + 1, k);
    }
}

proof fn lemma_digits_grow(s: Seq<char>, p: int, k: nat, m: nat)
    requires
        k <= m,
        forall|j: int| p <= j < p + m ==> g::is_digit(#[trigger] s[j]),
    ensures
        0 <= g::digits_value(s, p, k) <= g::digits_value(s, p, m),
    decreases m,
{
    if m > 0 {
        let k2: nat = if k < m {
            k
        } else {
            (m - 1) as nat
        };
        lemma_digits_grow(s, p, k2, (m - 1) as nat);
        assert(g::is_digit(s[p + m - 1]));
    }
}

pub(crate) fn integer(s: &Vec<char>, p: usize) -> (r: Result<Option<(i64, usize)>, usize>)
    requires
        p <= s.len(),
    ensures
        yields_checked(r, s@, p as int, g::integer(s@, p as int)),
{
    proof {
        reveal(g::integer);
        lemma_run_in_class(s@, p as int, CharClass::Digit);
    }
    let e = run_end(s, p, CharClass::Digit);
    if e == p {
        return Ok(None);
    }
    let mut v: i64 = 0;
    let mut i: usize = p;
    while i < e
        invariant
            p <= i <= e <= s.len(),
            e == p + g::run(s@, p as int, CharClass::Digit),
            forall|j: int| p <= j < e ==> g::is_digit(#[trigger] s@[j]),
            v == g::digits_value(s@, p as int, (i - p) as nat),
            0 <= v,
        decreases e - i,
    {
        let d = (s[i] as u32 - '0' as u32) as i128;
        let w: i128 = v as i128 * 10 + d;
        assert(g::digits_value(s@, p as int, (i + 1 - p) as nat) == w);
        if w > i64::MAX as i128 {
            proof {
                lemma_digits_grow(s@, p as int, (i + 1 - p) as nat, (e - p) as nat);
                reveal(g::integer);
            }
            return Err(p);
        }
        v = w as i64;
        i = i + 1;
    }
    Ok(Some((v, e)))
}

fn keyed_integer(s: &Vec<char>, p: usize, key: &str, amp: bool) -> (r: Result<
    Option<(i64, usize)>,
    usize,
>)
    requires
        p <= s.len(),
    ensures
        yields_checked(r, s@, p as int, g::keyed_integer(s@, p as int, key@, amp)),
{
    proof {
        reveal(g::keyed_integer);
    }
    let q = if at_char(s, p, '&') {
        p + 1
    } else {
        p
    };
    if (q > p || !amp) && lit_at(s, q, key) {
        integer(s, q + key.unicode_len())
    } else {
        Ok(None)
    }
}

fn limit_range(s: &Vec<char>, p: usize) -> (r: Result<Option<(Range, usize)>, usize>)
    requires
        p <= s.len(),
    ensures
        yields_checked(r, s@, p as int, g::limit_range(s@, p as int)),
{
    proof {
        reveal(g::limit_range);
    }
    match keyed_integer(s, p, "limit=", false) {
        Ok(Some((limit, e1))) => match keyed_integer(s, e1, "offset=", true) {
            Ok(Some((offset, e2))) => Ok(Some((Range::Limit(Limit { limit, offset: Some(offset) }), e2))),
            Ok(None) => Ok(Some((Range::Limit(Limit { limit, offset: None }), e1))),
            Err(o) => Err(o),
        },
        Ok(None) => Ok(None),
        Err(o) => Err(o),
    }
}

pub(crate) fn range(s: &Vec<char>, p: usize) -> (r: Result<Option<(Range, usize)>, usize>)
    requires
        p <= s.len(),
    ensures
        yields_checked(r, s@, p as int, g::range(s@, p as int)),
{
    proof {
        reveal(g::range);
    }
    match keyed_integer(s, p, "page=", false) {
        Ok(Some((page, e1))) => match keyed_integer(s, e1, "page_size=", true) {
            Ok(Some((page_size, e2))) => Ok(Some((Range::Page(Page { page, page_size }), e2))),
            Ok(None) => limit_range(s, p),
            Err(o) => Err(o),
        },
        Ok(None) => limit_range(s, p),
        Err(o) => Err(o),
    }
}

fn and_filter(s: &Vec<char>, p: usize) -> (r: Option<(Vec<Filter>, usize)>)
    requires
        p <= s.len(),
    ensures
        yields_all(r, s@, p as int, g::and_filter(s@, p as int)),
{
    proof {
        reveal(g::and_filter);
    }
    let q = if at_char(s, p, '&') {
        p + 1
    } else {
        p
    };
    match filter(s, q) {
        Some((f, e)) => Some((single(f), e)),
        None => None,
    }
}

fn and_equations(s: &Vec<char>, p: usize) -> (r: Option<(Vec<Equation>, usize)>)
    requires
        p <= s.len(),
    ensures
        yields_all(r, s@, p as int, g::and_equations(s@, p as int)),
{
    proof {
        reveal(g::and_equations);
    }
    let q = if at_char(s, p, '&') {
        p + 1
    } else {
        p
    };
    equation_list(s, q)
}

fn and_joins(s: &Vec<char>, p: usize) -> (r: Option<(Vec<Join>, usize)>)
    requires
        p <= s.len(),
    ensures
        yields_all(r, s@, p as int, g::and_joins(s@, p as int)),
{
    proof {
        reveal(g::and_joins);
    }
    let q = if at_char(s, p, '&') {
        p + 1
    } else {
        p
    };
    join_list(s, q)
}

fn and_group_by(s: &Vec<char>, p: usize) -> (r: Option<(Vec<Operand>, usize)>)
    requires
        p <= s.len(),
    ensures
        yields_all(r, s@, p as int, g::and_group_by(s@, p as int)),
{
    proof {
        reveal(g::and_group_by);
    }
    let q = if at_char(s, p, '&') {
        p + 1
    } else {
        p
    };
    group_by_clause(s, q)
}

fn and_having(s: &Vec<char>, p: usize) -> (r: Option<(Vec<Filter>, usize)>)
    requires
        p <= s.len(),
    ensures
        yields_all(r, s@, p as int, g::and_having(s@, p as int)),
{
    proof {
        reveal(g::and_having);
    }
    let q = if at_char(s, p, '&') {
        p + 1
    } else {
        p
    };
    having_clause(s, q)
}

fn and_order_by(s: &Vec<char>, p: usize) -> (r: Option<(Vec<Order>, usize)>)
    requires
        p <= s.len(),
    ensures
        yields_all(r, s@, p as int, g::and_order_by(s@, p as int)),
{
    proof {
        reveal(g::and_order_by);
    }
    let q = if at_char(s, p, '&') {
        p + 1
    } else {
        p
    };
    order_by_clause(s, q)
}

/// The value of an optional part, or an empty one, and the position after it.
fn optional<T: View>(r: Option<(Vec<T>, usize)>, p: usize) -> (o: (Vec<T>, usize))
    ensures
        match r {
            Some((v, e)) => o.1 == e && views(o.0@) == views(v@),
            None => o.1 == p && views(o.0@) == Seq::<T::V>::empty(),
        },
{
    match r {
        Some((v, e)) => (v, e),
        None => {
            let v: Vec<T> = Vec::new();
            assert(views(v@) =~= Seq::<T::V>::empty());
            (v, p)
        },
    }
}

pub(crate) fn params(s: &Vec<char>, p: usize) -> (r: (Params, usize))
    requires
        p <= s.len(),
    ensures
        g::params(s@, p as int) == (r.0@, r.1 as int),
        p <= r.1 <= s.len(),
{
    proof {
        reveal(g::params);
    }
    let (filters, p1) = optional(and_filter(s, p), p);
    let (equations, p2) = optional(and_equations(s, p1), p1);
    (Params { filters, equations }, p2)
}

pub(crate) fn query(s: &Vec<char>, p: usize) -> (r: Result<(Query, usize), usize>)
    requires
        p <= s.len(),
    ensures
        match r {
            Ok((q, e)) => g::query(s@, p as int) == Ok::<(QueryModel, int), int>((q@, e as int))
                && p <= e <= s.len(),
            Err(o) => g::query(s@, p as int) == Err::<(QueryModel, int), int>(o as int) && o
                <= s.len(),
        },
{
    proof {
        reveal(g::query);
    }
    let (from, p1) = optional(from_clause(s, p), p);
    let (join, p2) = optional(and_joins(s, p1), p1);
    let (filters, p3) = optional(and_filter(s, p2), p2);
    let (group_by, p4) = optional(and_group_by(s, p3), p3);
    let (having, p5) = optional(and_having(s, p4), p4);
    let (order_by, p6) = optional(and_order_by(s, p5), p5);
    let (range, p7) = match range(s, p6) {
        Ok(Some((r, e))) => (Some(r), e),
        Ok(None) => (None, p6),
        Err(o) => {
            return Err(o);
        },
    };
    let (equations, p8) = optional(and_equations(s, p7), p7);
    Ok((Query { from, join, filters, group_by, having, order_by, range, equations }, p8))
}

} // verus!
