//! The grammar, rule by rule, as spec functions over the input's characters.
//!
//! Each rule `r(s, p)` tries to match at position `p` of `s` and gives the
//! parsed value together with the number of characters it consumed, or `None`.
//! Alternatives are tried in order and the first that matches wins, as in a
//! parsing expression grammar.
use crate::ast::{
    views,    ConditionModel, Connector, Direction, Equality, EquationModel, FilterModel, JoinModel,
    JoinType, Limit, Modifier, NullsWhere, OperandModel, OrderModel, Page, ParamModel,
    ParamsModel, QueryModel, Range, ValueModel,
};
use vstd::prelude::*;

verus! {

/// An executable rule's result `r`, from position `p`, is what the rule's spec
/// `m` gives: the same value, ending as many characters further.
pub open spec fn yields<T: View>(r: Option<(T, usize)>, s: Seq<char>, p: int, m: Option<(T::V, nat)>) -> bool {
    match r {
        Some((v, e)) => p <= e <= s.len() && m == Some((v@, (e - p) as nat)),
        None => m is None,
    }
}

/// Like `yields`, for a rule that may also fail hard at a position.
pub open spec fn yields_checked<T: View>(
    r: Result<Option<(T, usize)>, usize>,
    s: Seq<char>,
    p: int,
    m: Result<Option<(T::V, nat)>, int>,
) -> bool {
    match r {
        Ok(x) => m is Ok && yields(x, s, p, m->Ok_0),
        Err(o) => m == Err::<Option<(T::V, nat)>, int>(o as int) && p <= o <= s.len(),
    }
}

/// Like `yields`, for a rule that gives a sequence of values.
pub open spec fn yields_all<T: View>(
    r: Option<(Vec<T>, usize)>,
    s: Seq<char>,
    p: int,
    m: Option<(Seq<T::V>, nat)>,
) -> bool {
    match r {
        Some((v, e)) => p <= e <= s.len() && m == Some((views(v@), (e - p) as nat)),
        None => m is None,
    }
}

/// `s` holds character `c` at position `p`.
pub open spec fn at(s: Seq<char>, p: int, c: char) -> bool {
    0 <= p < s.len() && s[p] == c
}

/// `s` holds the text `t` starting at position `p`.
pub open spec fn lit(s: Seq<char>, p: int, t: Seq<char>) -> bool {
    0 <= p && p + t.len() <= s.len() && s.subrange(p, p + t.len()) == t
}

/// The character classes of which the grammar takes maximal runs.
#[derive(Clone, Copy, PartialEq, Eq)]
pub enum CharClass {
    /// `0` to `9`.
    Digit,
    /// ASCII letters, digits and `_`.
    Word,
    /// Anything but `=`, `&`, `(` and `)`.
    Loose,
}

pub open spec fn is_digit(c: char) -> bool {
    '0' <= c <= '9'
}

pub open spec fn is_alpha_or_underscore(c: char) -> bool {
    ('a' <= c <= 'z') || ('A' <= c <= 'Z') || c == '_'
}

pub open spec fn in_class(c: char, k: CharClass) -> bool {
    match k {
        CharClass::Digit => is_digit(c),
        CharClass::Word => is_alpha_or_underscore(c) || is_digit(c),
        CharClass::Loose => c != '=' && c != '&' && c != '(' && c != ')',
    }
}

/// The length of the longest run of characters of class `k` from `p`.
pub open spec fn run(s: Seq<char>, p: int, k: CharClass) -> nat
    decreases s.len() - p,
{
    if 0 <= p < s.len() && in_class(s[p], k) {
        1 + run(s, p + 1, k)
    } else {
        0
    }
}

/// One `&` if there is one at `p`.
pub open spec fn opt_amp(s: Seq<char>, p: int) -> nat {
    if at(s, p, '&') {
        1
    } else {
        0
    }
}

// ---- literal primitives ----

/// A name: one or more word characters.
pub open spec fn name(s: Seq<char>, p: int) -> Option<(Seq<char>, nat)> {
    let n = run(s, p, CharClass::Word);
    if n > 0 {
        Some((s.subrange(p, p + n), n))
    } else {
        None
    }
}

/// The length of an identifier: a letter or `_`, then word characters.
pub open spec fn ident_len(s: Seq<char>, p: int) -> Option<nat> {
    if 0 <= p < s.len() && is_alpha_or_underscore(s[p]) {
        Some(1 + run(s, p + 1, CharClass::Word))
    } else {
        None
    }
}

#[verifier::opaque]
pub open spec fn direction(s: Seq<char>, p: int) -> Option<(Direction, nat)> {
    if lit(s, p, "asc"@) {
        Some((Direction::Asc, 3))
    } else if lit(s, p, "desc"@) {
        Some((Direction::Desc, 4))
    } else {
        None
    }
}

/// The reserved direction keywords, `asc` and `desc`.
pub open spec fn is_direction_word(w: Seq<char>) -> bool {
    w == "asc"@ || w == "desc"@
}

/// A column name: `ident` or `ident.ident`, where the identifier after the dot
/// must not be exactly a direction keyword (`age.asc` is a column and an
/// order, while `age.ascending` is a column).
#[verifier::opaque]
pub open spec fn column(s: Seq<char>, p: int) -> Option<(Seq<char>, nat)> {
    match ident_len(s, p) {
        Some(n1) => {
            let q = p + n1 + 1;
            let n = if at(s, p + n1, '.') && ident_len(s, q) is Some && !is_direction_word(
                s.subrange(q, q + ident_len(s, q)->0),
            ) {
                n1 + 1 + ident_len(s, q)->0
            } else {
                n1
            };
            Some((s.subrange(p, p + n), n))
        },
        None => None,
    }
}

/// The integer part of a number: `0`, or a digit from 1 to 9 and more digits.
pub open spec fn int_part_len(s: Seq<char>, p: int) -> Option<nat> {
    if 0 <= p < s.len() && '1' <= s[p] <= '9' {
        Some(1 + run(s, p + 1, CharClass::Digit))
    } else if at(s, p, '0') {
        Some(1)
    } else {
        None
    }
}

/// An optional fraction: `.` and one or more digits.
pub open spec fn frac_len(s: Seq<char>, p: int) -> nat {
    if at(s, p, '.') && run(s, p + 1, CharClass::Digit) > 0 {
        1 + run(s, p + 1, CharClass::Digit)
    } else {
        0
    }
}

/// An optional exponent: `e` or `E`, an optional sign, one or more digits.
pub open spec fn exp_len(s: Seq<char>, p: int) -> nat {
    if at(s, p, 'e') || at(s, p, 'E') {
        let k: nat = if at(s, p + 1, '+') || at(s, p + 1, '-') {
            1
        } else {
            0
        };
        let d = run(s, p + 1 + k, CharClass::Digit);
        if d > 0 {
            1 + k + d
        } else {
            0
        }
    } else {
        0
    }
}

/// The length of a number in JSON's grammar: an optional `-`, the integer
/// part, an optional fraction, an optional exponent.
pub open spec fn number_len(s: Seq<char>, p: int) -> Option<nat> {
    let m: nat = if at(s, p, '-') {
        1
    } else {
        0
    };
    match int_part_len(s, p + m) {
        Some(i) => {
            let f = frac_len(s, p + m + i);
            let e = exp_len(s, p + m + i + f);
            Some(m + i + f + e)
        },
        None => None,
    }
}

/// A number, given as the text of its literal.
#[verifier::opaque]
pub open spec fn number(s: Seq<char>, p: int) -> Option<(Seq<char>, nat)> {
    match number_len(s, p) {
        Some(n) => Some((s.subrange(p, p + n), n)),
        None => None,
    }
}

#[verifier::opaque]
pub open spec fn boolean(s: Seq<char>, p: int) -> Option<(bool, nat)> {
    if lit(s, p, "true"@) {
        Some((true, 4))
    } else if lit(s, p, "false"@) {
        Some((false, 5))
    } else {
        None
    }
}

/// The fallback string: one or more characters other than `=`, `&`, `(`, `)`.
#[verifier::opaque]
pub open spec fn loose_string(s: Seq<char>, p: int) -> Option<(Seq<char>, nat)> {
    let n = run(s, p, CharClass::Loose);
    if n > 0 {
        Some((s.subrange(p, p + n), n))
    } else {
        None
    }
}

/// A value: `null`, then a boolean, then a number, then the fallback string.
#[verifier::opaque]
pub open spec fn value(s: Seq<char>, p: int) -> Option<(ValueModel, nat)> {
    if lit(s, p, "null"@) {
        Some((ValueModel::Null, 4))
    } else if let Some((b, n)) = boolean(s, p) {
        Some((ValueModel::Bool(b), n))
    } else if let Some((t, n)) = number(s, p) {
        Some((ValueModel::Number(t), n))
    } else if let Some((t, n)) = loose_string(s, p) {
        Some((ValueModel::Str(t), n))
    } else {
        None
    }
}

// ---- quoted strings ----

pub open spec fn hex_value(c: char) -> Option<int> {
    if '0' <= c <= '9' {
        Some(c as int - '0' as int)
    } else if 'a' <= c <= 'f' {
        Some(c as int - 'a' as int + 10)
    } else if 'A' <= c <= 'F' {
        Some(c as int - 'A' as int + 10)
    } else {
        None
    }
}

/// Four hexadecimal digits from `p`, as one UTF-16 code unit.
#[verifier::opaque]
pub open spec fn hex4(s: Seq<char>, p: int) -> Option<int> {
    if 0 <= p && p + 4 <= s.len() && hex_value(s[p]) is Some && hex_value(s[p + 1]) is Some
        && hex_value(s[p + 2]) is Some && hex_value(s[p + 3]) is Some {
        Some(
            hex_value(s[p])->0 * 4096 + hex_value(s[p + 1])->0 * 256 + hex_value(s[p + 2])->0 * 16
                + hex_value(s[p + 3])->0,
        )
    } else {
        None
    }
}

/// A `\uXXXX` escape at `p`, as its code unit.
pub open spec fn unicode_escape(s: Seq<char>, p: int) -> Option<int> {
    if at(s, p, '\\') && at(s, p + 1, 'u') {
        hex4(s, p + 2)
    } else {
        None
    }
}

pub open spec fn is_high_surrogate(u: int) -> bool {
    0xD800 <= u <= 0xDBFF
}

pub open spec fn is_low_surrogate(u: int) -> bool {
    0xDC00 <= u <= 0xDFFF
}

/// The character that a one-letter escape `\c` stands for.
pub open spec fn escaped(c: char) -> Option<char> {
    if c == '\\' || c == '/' || c == '"' {
        Some(c)
    } else if c == 'b' {
        Some('\x08')
    } else if c == 'f' {
        Some('\x0C')
    } else if c == 'n' {
        Some('\n')
    } else if c == 'r' {
        Some('\r')
    } else if c == 't' {
        Some('\t')
    } else {
        None
    }
}

/// The character that a `\uXXXX` escape at `p` decodes to, and the length of
/// the escapes it takes: a high surrogate followed by an escaped low surrogate
/// makes one character of the two; any other surrogate becomes U+FFFD.
#[verifier::opaque]
pub open spec fn unicode_char(s: Seq<char>, p: int, u: int) -> (char, nat) {
    let v = unicode_escape(s, p + 6);
    if is_high_surrogate(u) && v is Some && is_low_surrogate(v->0) {
        ((0x10000 + (u - 0xD800) * 0x400 + (v->0 - 0xDC00)) as char, 12)
    } else if is_high_surrogate(u) || is_low_surrogate(u) {
        ('\u{FFFD}', 6)
    } else {
        (u as char, 6)
    }
}

/// The body of a quoted string from `p` up to its closing quote (which is not
/// counted): the decoded characters and the length of the body.
pub open spec fn quoted_body(s: Seq<char>, p: int) -> Option<(Seq<char>, nat)>
    decreases s.len() - p,
{
    if !(0 <= p < s.len()) {
        None
    } else if s[p] == '"' {
        Some((Seq::empty(), 0))
    } else if s[p] == '\\' {
        if let Some(u) = unicode_escape(s, p) {
            proof {
                reveal(unicode_char);
                reveal(hex4);
            }
            let (c, k) = unicode_char(s, p, u);
            match quoted_body(s, p + k) {
                Some((t, n)) => Some((seq![c] + t, k + n)),
                None => None,
            }
        } else if p + 1 < s.len() && escaped(s[p + 1]) is Some {
            match quoted_body(s, p + 2) {
                Some((t, n)) => Some((seq![escaped(s[p + 1])->0] + t, 2 + n)),
                None => None,
            }
        } else {
            None
        }
    } else {
        match quoted_body(s, p + 1) {
            Some((t, n)) => Some((seq![s[p]] + t, 1 + n)),
            None => None,
        }
    }
}

/// A double-quoted string with its escapes decoded.
pub open spec fn quoted_string(s: Seq<char>, p: int) -> Option<(Seq<char>, nat)> {
    if at(s, p, '"') {
        match quoted_body(s, p + 1) {
            Some((t, n)) => Some((t, n + 2)),
            None => None,
        }
    } else {
        None
    }
}

// ---- operands, conditions, filters ----

/// A function call: a name, `(`, one operand, `)`.
pub open spec fn function(s: Seq<char>, p: int) -> Option<(OperandModel, nat)>
    decreases s.len() - p, 0int,
{
    if let Some((f, n1)) = name(s, p) {
        if at(s, p + n1, '(') {
            if let Some((o, n2)) = operand(s, p + n1 + 1) {
                if at(s, p + n1 + 1 + n2, ')') {
                    Some((OperandModel::Function(f, seq![o]), n1 + n2 + 2))
                } else {
                    None
                }
            } else {
                None
            }
        } else {
            None
        }
    } else {
        None
    }
}

/// An operand: a function call, then a boolean, then a number, then a column.
pub open spec fn operand(s: Seq<char>, p: int) -> Option<(OperandModel, nat)>
    decreases s.len() - p, 1int,
{
    if let Some(r) = function(s, p) {
        Some(r)
    } else if let Some((b, n)) = boolean(s, p) {
        Some((OperandModel::Value(ValueModel::Bool(b)), n))
    } else if let Some((t, n)) = number(s, p) {
        Some((OperandModel::Value(ValueModel::Number(t)), n))
    } else if let Some((c, n)) = column(s, p) {
        Some((OperandModel::Column(c), n))
    } else {
        None
    }
}

/// A comparison operator; a longer keyword is tried before its prefix.
#[verifier::opaque]
pub open spec fn equality(s: Seq<char>, p: int) -> Option<(Equality, nat)> {
    if lit(s, p, "eq"@) {
        Some((Equality::Eq, 2))
    } else if lit(s, p, "neq"@) {
        Some((Equality::Neq, 3))
    } else if lit(s, p, "lte"@) {
        Some((Equality::Lte, 3))
    } else if lit(s, p, "lt"@) {
        Some((Equality::Lt, 2))
    } else if lit(s, p, "gte"@) {
        Some((Equality::Gte, 3))
    } else if lit(s, p, "gt"@) {
        Some((Equality::Gt, 2))
    } else if lit(s, p, "in"@) {
        Some((Equality::In, 2))
    } else if lit(s, p, "not_in"@) {
        Some((Equality::NotIn, 6))
    } else if lit(s, p, "is_not"@) {
        Some((Equality::IsNot, 6))
    } else if lit(s, p, "is"@) {
        Some((Equality::Is, 2))
    } else if lit(s, p, "like"@) {
        Some((Equality::Like, 4))
    } else if lit(s, p, "ilike"@) {
        Some((Equality::Ilike, 5))
    } else if lit(s, p, "st"@) {
        Some((Equality::St, 2))
    } else {
        None
    }
}

/// `operand=equality.operand`
#[verifier::opaque]
pub open spec fn condition(s: Seq<char>, p: int) -> Option<(ConditionModel, nat)> {
    if let Some((l, n1)) = operand(s, p) {
        if at(s, p + n1, '=') {
            if let Some((e, n2)) = equality(s, p + n1 + 1) {
                if at(s, p + n1 + 1 + n2, '.') {
                    if let Some((r, n3)) = operand(s, p + n1 + n2 + 2) {
                        Some((ConditionModel { left: l, equality: e, right: r }, n1 + n2 + n3 + 2))
                    } else {
                        None
                    }
                } else {
                    None
                }
            } else {
                None
            }
        } else {
            None
        }
    } else {
        None
    }
}

pub open spec fn connector(s: Seq<char>, p: int) -> Option<(Connector, nat)> {
    if at(s, p, '|') {
        Some((Connector::Or, 1))
    } else if at(s, p, '&') {
        Some((Connector::And, 1))
    } else {
        None
    }
}

/// The filter made of `c` followed by the chain `f` behind connector `k`.
pub open spec fn chain(c: ConditionModel, k: Connector, f: FilterModel) -> FilterModel {
    FilterModel {
        connector: None,
        condition: c,
        sub_filters: seq![
            FilterModel { connector: Some(k), condition: f.condition, sub_filters: f.sub_filters },
        ],
    }
}

pub open spec fn leaf(c: ConditionModel) -> FilterModel {
    FilterModel { connector: None, condition: c, sub_filters: Seq::empty() }
}

/// A condition, a connector and a filter; else a filter in parentheses; else
/// a single condition.
#[verifier::opaque]
pub open spec fn filter(s: Seq<char>, p: int) -> Option<(FilterModel, nat)>
    decreases s.len() - p,
{
    let chained = if let Some((c, n1)) = condition(s, p) {
        if let Some((k, _)) = connector(s, p + n1) {
            if let Some((f, n2)) = filter(s, p + n1 + 1) {
                Some((chain(c, k, f), n1 + 1 + n2))
            } else {
                None
            }
        } else {
            None
        }
    } else {
        None
    };
    let grouped = if at(s, p, '(') {
        if let Some((f, n)) = filter(s, p + 1) {
            if at(s, p + 1 + n, ')') {
                Some((f, n + 2))
            } else {
                None
            }
        } else {
            None
        }
    } else {
        None
    };
    if chained is Some {
        chained
    } else if grouped is Some {
        grouped
    } else if let Some((c, n)) = condition(s, p) {
        Some((leaf(c), n))
    } else {
        None
    }
}

/// One or more operands separated by `,`.
#[verifier::opaque]
pub open spec fn operand_list(s: Seq<char>, p: int) -> Option<(Seq<OperandModel>, nat)>
    decreases s.len() - p,
{
    if let Some((o, n)) = operand(s, p) {
        if at(s, p + n, ',') && operand_list(s, p + n + 1) is Some {
            let (os, m) = operand_list(s, p + n + 1)->0;
            Some((seq![o] + os, n + 1 + m))
        } else {
            Some((seq![o], n))
        }
    } else {
        None
    }
}

#[verifier::opaque]
pub open spec fn nulls_where(s: Seq<char>, p: int) -> Option<(NullsWhere, nat)> {
    if lit(s, p, "nullsfirst"@) {
        Some((NullsWhere::First, 10))
    } else if lit(s, p, "nullslast"@) {
        Some((NullsWhere::Last, 9))
    } else {
        None
    }
}

/// `operand.direction`, then optionally `.nullsfirst` or `.nullslast`.
#[verifier::opaque]
pub open spec fn order(s: Seq<char>, p: int) -> Option<(OrderModel, nat)> {
    if let Some((o, n1)) = operand(s, p) {
        if at(s, p + n1, '.') {
            if let Some((d, n2)) = direction(s, p + n1 + 1) {
                let q = p + n1 + 1 + n2;
                if at(s, q, '.') && nulls_where(s, q + 1) is Some {
                    let (w, n3) = nulls_where(s, q + 1)->0;
                    Some(
                        (
                            OrderModel { operand: o, direction: Some(d), nulls_where: Some(w) },
                            n1 + n2 + n3 + 2,
                        ),
                    )
                } else {
                    Some(
                        (
                            OrderModel { operand: o, direction: Some(d), nulls_where: None },
                            n1 + n2 + 1,
                        ),
                    )
                }
            } else {
                None
            }
        } else {
            None
        }
    } else {
        None
    }
}

/// One or more orders separated by `,`.
#[verifier::opaque]
pub open spec fn order_list(s: Seq<char>, p: int) -> Option<(Seq<OrderModel>, nat)>
    decreases s.len() - p,
{
    if let Some((o, n)) = order(s, p) {
        if at(s, p + n, ',') && order_list(s, p + n + 1) is Some {
            let (os, m) = order_list(s, p + n + 1)->0;
            Some((seq![o] + os, n + 1 + m))
        } else {
            Some((seq![o], n))
        }
    } else {
        None
    }
}

/// `column=value`
#[verifier::opaque]
pub open spec fn equation(s: Seq<char>, p: int) -> Option<(EquationModel, nat)> {
    if let Some((c, n1)) = column(s, p) {
        if at(s, p + n1, '=') {
            if let Some((v, n2)) = value(s, p + n1 + 1) {
                Some(
                    (
                        EquationModel {
                            left: OperandModel::Column(c),
                            right: OperandModel::Value(v),
                        },
                        n1 + 1 + n2,
                    ),
                )
            } else {
                None
            }
        } else {
            None
        }
    } else {
        None
    }
}

/// One or more equations separated by `&`.
#[verifier::opaque]
pub open spec fn equation_list(s: Seq<char>, p: int) -> Option<(Seq<EquationModel>, nat)>
    decreases s.len() - p,
{
    if let Some((e, n)) = equation(s, p) {
        if at(s, p + n, '&') && equation_list(s, p + n + 1) is Some {
            let (es, m) = equation_list(s, p + n + 1)->0;
            Some((seq![e] + es, n + 1 + m))
        } else {
            Some((seq![e], n))
        }
    } else {
        None
    }
}

/// A condition, else an equation.
#[verifier::opaque]
pub open spec fn param(s: Seq<char>, p: int) -> Option<(ParamModel, nat)> {
    if let Some((c, n)) = condition(s, p) {
        Some((ParamModel::Condition(c), n))
    } else if let Some((e, n)) = equation(s, p) {
        Some((ParamModel::Equation(e), n))
    } else {
        None
    }
}

// ---- clauses ----

/// `from=` and one or more operands.
#[verifier::opaque]
pub open spec fn from_clause(s: Seq<char>, p: int) -> Option<(Seq<OperandModel>, nat)> {
    if lit(s, p, "from="@) {
        if let Some((l, n)) = operand_list(s, p + 5) {
            Some((l, n + 5))
        } else {
            None
        }
    } else {
        None
    }
}

/// `group_by=` and one or more operands.
#[verifier::opaque]
pub open spec fn group_by_clause(s: Seq<char>, p: int) -> Option<(Seq<OperandModel>, nat)> {
    if lit(s, p, "group_by="@) {
        if let Some((l, n)) = operand_list(s, p + 9) {
            Some((l, n + 9))
        } else {
            None
        }
    } else {
        None
    }
}

/// `having=` and a filter.
#[verifier::opaque]
pub open spec fn having_clause(s: Seq<char>, p: int) -> Option<(Seq<FilterModel>, nat)> {
    if lit(s, p, "having="@) {
        if let Some((f, n)) = filter(s, p + 7) {
            Some((seq![f], n + 7))
        } else {
            None
        }
    } else {
        None
    }
}

/// `order_by=` and one or more orders.
#[verifier::opaque]
pub open spec fn order_by_clause(s: Seq<char>, p: int) -> Option<(Seq<OrderModel>, nat)> {
    if lit(s, p, "order_by="@) {
        if let Some((l, n)) = order_list(s, p + 9) {
            Some((l, n + 9))
        } else {
            None
        }
    } else {
        None
    }
}

#[verifier::opaque]
pub open spec fn modifier(s: Seq<char>, p: int) -> Option<(Modifier, nat)> {
    if lit(s, p, "left"@) {
        Some((Modifier::Left, 4))
    } else if lit(s, p, "right"@) {
        Some((Modifier::Right, 5))
    } else if lit(s, p, "full"@) {
        Some((Modifier::Full, 4))
    } else {
        None
    }
}

#[verifier::opaque]
pub open spec fn join_type(s: Seq<char>, p: int) -> Option<(JoinType, nat)> {
    if lit(s, p, "inner"@) {
        Some((JoinType::Inner, 5))
    } else if lit(s, p, "outer"@) {
        Some((JoinType::Outer, 5))
    } else if lit(s, p, "cross"@) {
        Some((JoinType::Cross, 5))
    } else if lit(s, p, "natural"@) {
        Some((JoinType::Natural, 7))
    } else {
        None
    }
}

/// `modifier_jointype`, else `modifier`, else `jointype`.
#[verifier::opaque]
pub open spec fn join_kind(s: Seq<char>, p: int) -> Option<
    ((Option<Modifier>, Option<JoinType>), nat),
> {
    if let Some((m, n1)) = modifier(s, p) {
        if at(s, p + n1, '_') && join_type(s, p + n1 + 1) is Some {
            let (j, n2) = join_type(s, p + n1 + 1)->0;
            Some(((Some(m), Some(j)), n1 + 1 + n2))
        } else {
            Some(((Some(m), None), n1))
        }
    } else if let Some((j, n)) = join_type(s, p) {
        Some(((None, Some(j)), n))
    } else {
        None
    }
}

/// `&on=column=column`
pub open spec fn on_pair(s: Seq<char>, p: int) -> Option<((Seq<char>, Seq<char>), nat)> {
    if lit(s, p, "&on="@) {
        if let Some((c1, n1)) = column(s, p + 4) {
            if at(s, p + 4 + n1, '=') {
                if let Some((c2, n2)) = column(s, p + 5 + n1) {
                    Some(((c1, c2), n1 + n2 + 5))
                } else {
                    None
                }
            } else {
                None
            }
        } else {
            None
        }
    } else {
        None
    }
}

/// One or more `&on=` pairs, as the sequence of left and of right columns.
#[verifier::opaque]
pub open spec fn on_pairs(s: Seq<char>, p: int) -> Option<((Seq<Seq<char>>, Seq<Seq<char>>), nat)>
    decreases s.len() - p,
{
    if let Some(((c1, c2), n)) = on_pair(s, p) {
        if lit(s, p + n, "&on="@) && on_pairs(s, p + n) is Some {
            let ((l1, l2), m) = on_pairs(s, p + n)->0;
            Some(((seq![c1] + l1, seq![c2] + l2), n + m))
        } else {
            Some(((seq![c1], seq![c2]), n))
        }
    } else {
        None
    }
}

/// An optional join kind, an optional `_`, `join=`, the table, and one or more
/// `&on=` pairs.
#[verifier::opaque]
pub open spec fn join(s: Seq<char>, p: int) -> Option<(JoinModel, nat)> {
    let (kind, n0) = if let Some(r) = join_kind(s, p) {
        r
    } else {
        ((None, None), 0)
    };
    let q = p + n0 + opt_underscore(s, p + n0);
    if lit(s, q, "join="@) {
        if let Some((t, n1)) = operand(s, q + 5) {
            if let Some(((l1, l2), n2)) = on_pairs(s, q + 5 + n1) {
                Some(
                    (
                        JoinModel {
                            modifier: kind.0,
                            join_type: kind.1,
                            table: t,
                            column1: l1,
                            column2: l2,
                        },
                        (q + 5 + n1 + n2 - p) as nat,
                    ),
                )
            } else {
                None
            }
        } else {
            None
        }
    } else {
        None
    }
}

/// One `_` if there is one at `p`.
pub open spec fn opt_underscore(s: Seq<char>, p: int) -> nat {
    if at(s, p, '_') {
        1
    } else {
        0
    }
}

/// One or more joins separated by `&`.
#[verifier::opaque]
pub open spec fn join_list(s: Seq<char>, p: int) -> Option<(Seq<JoinModel>, nat)>
    decreases s.len() - p,
{
    if let Some((j, n)) = join(s, p) {
        if at(s, p + n, '&') && join_list(s, p + n + 1) is Some {
            let (js, m) = join_list(s, p + n + 1)->0;
            Some((seq![j] + js, n + 1 + m))
        } else {
            Some((seq![j], n))
        }
    } else {
        None
    }
}

// ---- pagination ----

/// The value of the `n` decimal digits from `p`.
pub open spec fn digits_value(s: Seq<char>, p: int, n: nat) -> int
    decreases n,
{
    if n == 0 {
        0
    } else {
        digits_value(s, p, (n - 1) as nat) * 10 + (s[p + n - 1] as int - '0' as int)
    }
}

/// An integer: one or more digits. Digits whose value does not fit in an
/// `i64` are a failure at the position of the literal (`Err(p)`), which no
/// other alternative can repair; no digits at all is no match (`Ok(None)`).
#[verifier::opaque]
pub open spec fn integer(s: Seq<char>, p: int) -> Result<Option<(i64, nat)>, int> {
    let n = run(s, p, CharClass::Digit);
    if n == 0 {
        Ok(None)
    } else if digits_value(s, p, n) <= i64::MAX {
        Ok(Some((digits_value(s, p, n) as i64, n)))
    } else {
        Err(p)
    }
}

/// The text `key` and an integer, after an optional `&` (a required one when
/// `amp` holds).
#[verifier::opaque]
pub open spec fn keyed_integer(s: Seq<char>, p: int, key: Seq<char>, amp: bool) -> Result<
    Option<(i64, nat)>,
    int,
> {
    let a = opt_amp(s, p);
    if (a == 1 || !amp) && lit(s, p + a, key) {
        match integer(s, p + a + key.len()) {
            Ok(Some((v, n))) => Ok(Some((v, a + key.len() + n))),
            Ok(None) => Ok(None),
            Err(o) => Err(o),
        }
    } else {
        Ok(None)
    }
}

/// `limit=N` with an optional `&offset=M`.
#[verifier::opaque]
pub open spec fn limit_range(s: Seq<char>, p: int) -> Result<Option<(Range, nat)>, int> {
    match keyed_integer(s, p, "limit="@, false) {
        Ok(Some((l, n1))) => match keyed_integer(s, p + n1, "offset="@, true) {
            Ok(Some((o, n2))) => Ok(Some((Range::Limit(Limit { limit: l, offset: Some(o) }), n1 + n2))),
            Ok(None) => Ok(Some((Range::Limit(Limit { limit: l, offset: None }), n1))),
            Err(o) => Err(o),
        },
        Ok(None) => Ok(None),
        Err(o) => Err(o),
    }
}

/// `page=N&page_size=M`, else `limit=N` with an optional `&offset=M`. An
/// integer out of range fails the whole range at the integer's position.
#[verifier::opaque]
pub open spec fn range(s: Seq<char>, p: int) -> Result<Option<(Range, nat)>, int> {
    match keyed_integer(s, p, "page="@, false) {
        Ok(Some((pg, n1))) => match keyed_integer(s, p + n1, "page_size="@, true) {
            Ok(Some((ps, n2))) => Ok(Some((Range::Page(Page { page: pg, page_size: ps }), n1 + n2))),
            Ok(None) => limit_range(s, p),
            Err(o) => Err(o),
        },
        Ok(None) => limit_range(s, p),
        Err(o) => Err(o),
    }
}

// ---- whole inputs ----

/// An optional part: its value and the position after it, or the empty
/// sequence and `p` where it does not match.
pub open spec fn optional<T>(r: Option<(Seq<T>, nat)>, p: int) -> (Seq<T>, int) {
    match r {
        Some((v, n)) => (v, p + n),
        None => (Seq::empty(), p),
    }
}

/// A filter after an optional `&`, as a sequence of at most one.
#[verifier::opaque]
pub open spec fn and_filter(s: Seq<char>, p: int) -> Option<(Seq<FilterModel>, nat)> {
    let a = opt_amp(s, p);
    if let Some((f, n)) = filter(s, p + a) {
        Some((seq![f], a + n))
    } else {
        None
    }
}

/// The equations after an optional `&`.
#[verifier::opaque]
pub open spec fn and_equations(s: Seq<char>, p: int) -> Option<(Seq<EquationModel>, nat)> {
    let a = opt_amp(s, p);
    if let Some((l, n)) = equation_list(s, p + a) {
        Some((l, a + n))
    } else {
        None
    }
}

/// The joins after an optional `&`.
#[verifier::opaque]
pub open spec fn and_joins(s: Seq<char>, p: int) -> Option<(Seq<JoinModel>, nat)> {
    let a = opt_amp(s, p);
    if let Some((l, n)) = join_list(s, p + a) {
        Some((l, a + n))
    } else {
        None
    }
}

/// The `group_by` clause after an optional `&`.
#[verifier::opaque]
pub open spec fn and_group_by(s: Seq<char>, p: int) -> Option<(Seq<OperandModel>, nat)> {
    let a = opt_amp(s, p);
    if let Some((l, n)) = group_by_clause(s, p + a) {
        Some((l, a + n))
    } else {
        None
    }
}

/// The `having` clause after an optional `&`.
#[verifier::opaque]
pub open spec fn and_having(s: Seq<char>, p: int) -> Option<(Seq<FilterModel>, nat)> {
    let a = opt_amp(s, p);
    if let Some((l, n)) = having_clause(s, p + a) {
        Some((l, a + n))
    } else {
        None
    }
}

/// The `order_by` clause after an optional `&`.
#[verifier::opaque]
pub open spec fn and_order_by(s: Seq<char>, p: int) -> Option<(Seq<OrderModel>, nat)> {
    let a = opt_amp(s, p);
    if let Some((l, n)) = order_by_clause(s, p + a) {
        Some((l, a + n))
    } else {
        None
    }
}

/// Optional filters, then optional equations; with the position after them.
#[verifier::opaque]
pub open spec fn params(s: Seq<char>, p: int) -> (ParamsModel, int) {
    let (filters, p1) = optional(and_filter(s, p), p);
    let (equations, p2) = optional(and_equations(s, p1), p1);
    (ParamsModel { filters, equations }, p2)
}

/// The clauses of a query, each optional, in their fixed order; with the
/// position after them. An integer out of range in the range clause fails the
/// query at the integer's position.
#[verifier::opaque]
pub open spec fn query(s: Seq<char>, p: int) -> Result<(QueryModel, int), int> {
    let (from, p1) = optional(from_clause(s, p), p);
    let (join, p2) = optional(and_joins(s, p1), p1);
    let (filters, p3) = optional(and_filter(s, p2), p2);
    let (group_by, p4) = optional(and_group_by(s, p3), p3);
    let (having, p5) = optional(and_having(s, p4), p4);
    let (order_by, p6) = optional(and_order_by(s, p5), p5);
    match range(s, p6) {
        Err(o) => Err(o),
        Ok(r) => {
            let (range, p7) = match r {
                Some((r, n)) => (Some(r), p6 + n),
                None => (None, p6),
            };
            let (equations, p8) = optional(and_equations(s, p7), p7);
            Ok(
                (
                    QueryModel { from, join, filters, group_by, having, order_by, range, equations },
                    p8,
                ),
            )
        },
    }
}

} // verus!
