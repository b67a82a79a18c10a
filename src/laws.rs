//! Properties of the grammar as a whole.
use crate::ast::{OperandModel, ParseError, Query};
use crate::entry::complete_whole_checked;
use crate::grammar as g;
use vstd::prelude::*;

verus! {

/// Parsing has no hidden state: any two results that `parse_query` may give
/// for the same input are the same.
pub proof fn parsing_is_deterministic(
    s: Seq<char>,
    r1: Result<Query, ParseError>,
    r2: Result<Query, ParseError>,
)
    requires
        complete_whole_checked(r1, s, g::query(s, 0)),
        complete_whole_checked(r2, s, g::query(s, 0)),
    ensures
        match r1 {
            Ok(a) => r2 matches Ok(b) && a@ == b@,
            Err(e) => r2 == Err::<Query, ParseError>(e),
        },
{
}

/// A `\uXXXX` escape of a surrogate that is not the high half of a pair
/// followed by its low half decodes to U+FFFD, and the string goes on after it.
pub proof fn lone_surrogate_becomes_replacement(s: Seq<char>, p: int)
    requires
        g::unicode_escape(s, p) is Some,
        g::is_high_surrogate(g::unicode_escape(s, p)->0) || g::is_low_surrogate(
            g::unicode_escape(s, p)->0,
        ),
        !(g::is_high_surrogate(g::unicode_escape(s, p)->0) && g::unicode_escape(s, p + 6) is Some
            && g::is_low_surrogate(g::unicode_escape(s, p + 6)->0)),
    ensures
        g::quoted_body(s, p) == match g::quoted_body(s, p + 6) {
            Some((t, n)) => Some((seq!['\u{FFFD}'] + t, n + 6)),
            None => None,
        },
{
    reveal(g::unicode_char);
}

/// `s` holds from `p` an identifier, a dot, and an identifier that is exactly
/// `asc` or `desc`.
pub open spec fn ident_dot_direction(s: Seq<char>, p: int) -> bool {
    let q = p + g::ident_len(s, p)->0 + 1;
    &&& g::ident_len(s, p) is Some
    &&& g::at(s, q - 1, '.')
    &&& g::ident_len(s, q) is Some
    &&& g::is_direction_word(s.subrange(q, q + g::ident_len(s, q)->0))
}

/// In a column, a dot followed by exactly `asc` or `desc` ends the name:
/// `age.asc` is the column `age`, never `age.asc`.
pub proof fn direction_suffix_is_not_column(s: Seq<char>, p: int)
    requires
        ident_dot_direction(s, p),
    ensures
        g::column(s, p) == Some(
            (s.subrange(p, p + g::ident_len(s, p)->0), g::ident_len(s, p)->0),
        ),
{
    reveal(g::column);
}

/// A dot followed by an identifier that only starts with `asc` or `desc`
/// belongs to the column: `t.ascending` is the column `t.ascending`.
pub proof fn longer_suffix_is_column(s: Seq<char>, p: int)
    requires
        g::ident_len(s, p) is Some,
        g::at(s, p + g::ident_len(s, p)->0, '.'),
        g::ident_len(s, p + g::ident_len(s, p)->0 + 1) is Some,
        g::ident_len(s, p + g::ident_len(s, p)->0 + 1)->0 > 4,
    ensures
        g::column(s, p) == Some(
            (
                s.subrange(
                    p,
                    p + g::ident_len(s, p)->0 + 1 + g::ident_len(s, p + g::ident_len(s, p)->0 + 1)->0,
                ),
                g::ident_len(s, p)->0 + 1 + g::ident_len(s, p + g::ident_len(s, p)->0 + 1)->0,
            ),
        ),
{
    reveal(g::column);
    reveal_strlit("asc");
    reveal_strlit("desc");
    let q = p + g::ident_len(s, p)->0 + 1;
    crate::parser::lemma_run_in_class(s, q + 1, g::CharClass::Word);
    assert(s.subrange(q, q + g::ident_len(s, q)->0).len() == g::ident_len(s, q)->0);
}

/// In an order, a column followed by `.asc` or `.desc` is that column, sorted
/// in that direction.
pub proof fn direction_suffix_orders_column(s: Seq<char>, p: int)
    requires
        ident_dot_direction(s, p),
        g::boolean(s, p) is None,
    ensures
        match (g::order(s, p), g::direction(s, p + g::ident_len(s, p)->0 + 1)) {
            (Some((o, _)), Some((d, _))) => o.operand == OperandModel::Column(
                s.subrange(p, p + g::ident_len(s, p)->0),
            ) && o.direction == Some(d),
            _ => false,
        },
{
    reveal(g::order);
    reveal(g::boolean);
    reveal(g::number);
    reveal(g::direction);
    reveal_strlit("asc");
    reveal_strlit("desc");
    direction_suffix_is_not_column(s, p);
    let q = p + g::ident_len(s, p)->0 + 1;
    crate::parser::lemma_run_in_class(s, q + 1, g::CharClass::Word);
    let w = s.subrange(q, q + g::ident_len(s, q)->0);
    assert(w.len() == g::ident_len(s, q)->0);
    if w == "asc"@ {
        assert(g::lit(s, q, "asc"@));
    } else {
        assert(g::lit(s, q, "desc"@));
    }
    assert(g::name(s, p) is Some);
    assert(g::function(s, p) is None);
}

/// A parsed filter is a chain nested to the right: its root has no connector
/// and each further condition is the single sub-filter of its predecessor,
/// carrying the connector between them.
pub proof fn filters_chain_to_the_right(s: Seq<char>, p: int)
    ensures
        g::filter(s, p) matches Some((f, _)) ==> f.is_chain(),
    decreases s.len() - p,
{
    reveal_with_fuel(g::filter, 1);
    if let Some((c, n1)) = g::condition(s, p) {
        if g::connector(s, p + n1) is Some {
            filters_chain_to_the_right(s, p + n1 + 1);
        }
    }
    if g::at(s, p, '(') {
        filters_chain_to_the_right(s, p + 1);
    }
}

proof fn on_pairs_pair_their_columns(s: Seq<char>, p: int)
    ensures
        g::on_pairs(s, p) matches Some(((l1, l2), _)) ==> l1.len() == l2.len() >= 1,
    decreases s.len() - p,
{
    reveal_with_fuel(g::on_pairs, 1);
    if let Some((_, n)) = g::on_pair(s, p) {
        if g::lit(s, p + n, "&on="@) {
            on_pairs_pair_their_columns(s, p + n);
        }
    }
}

/// A parsed join links its columns in pairs: as many left columns as right
/// ones, and at least one of each.
pub proof fn joins_pair_their_columns(s: Seq<char>, p: int)
    ensures
        g::join(s, p) matches Some((j, _)) ==> j.column1.len() == j.column2.len() >= 1,
{
    reveal(g::join);
    let (_, n0) = if let Some(r) = g::join_kind(s, p) {
        r
    } else {
        ((None, None), 0)
    };
    let q = p + n0 + g::opt_underscore(s, p + n0);
    if let Some((_, n1)) = g::operand(s, q + 5) {
        on_pairs_pair_their_columns(s, q + 5 + n1);
    }
}

} // verus!
