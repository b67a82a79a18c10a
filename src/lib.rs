//! A parser for a query language written in the shape of a URL query string:
//! filters chained with `&` and `|`, joins, grouping, ordering, pagination and
//! bare `column=value` assignments, turned into a typed syntax tree.
//!
//! Every rule of the grammar is stated as a spec function over the input's
//! characters (module `grammar`); each executable parser is proved to return
//! exactly what its rule describes.

mod ast;
mod entry;
pub mod grammar;
mod laws;
mod parser;
mod scan;

pub use ast::{
    Column, Condition, ConditionModel, Connector, Direction, Equality, Equation, EquationModel,
    ErrorKind, Filter, FilterModel, Function, Join, JoinModel, JoinType, Limit, Modifier,
    NullsWhere, Operand, OperandModel, Order, OrderModel, Page, Param, ParamModel, Params,
    ParamsModel, ParseError, Query, QueryModel, Range, Select, Value, ValueModel,
};
pub use entry::{
    complete, complete_all, complete_checked, complete_whole, complete_whole_checked, parse_bool, parse_column, parse_condition,
    parse_connector, parse_direction, parse_equality, parse_equation, parse_filter, parse_from,
    parse_function, parse_group_by, parse_having, parse_join, parse_name, parse_number,
    parse_operand, parse_order, parse_order_by, parse_param, parse_params, parse_quoted_string,
    parse_query, parse_range, parse_string, parse_value,
};
pub use laws::{
    direction_suffix_is_not_column, direction_suffix_orders_column, ident_dot_direction,
    longer_suffix_is_column, filters_chain_to_the_right, joins_pair_their_columns,
    lone_surrogate_becomes_replacement, parsing_is_deterministic,
};
