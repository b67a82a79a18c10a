use vstd::prelude::*;

verus! {

/// A column reference, possibly qualified by its table (`person.age`).
#[derive(Debug, PartialEq)]
pub struct Column {
    pub name: String,
}

/// A call of a named function on its parameters (`sum(age)`).
#[derive(Debug, PartialEq)]
pub struct Function {
    pub function: String,
    pub params: Vec<Operand>,
}

/// A literal value. A number keeps the text of its literal, which follows the
/// JSON number grammar; turning it into a binary float is left to the caller.
#[derive(Debug, PartialEq)]
pub enum Value {
    Null,
    String(String),
    Number(String),
    Bool(bool),
}

/// Anything that produces a value: a column, a function call or a literal.
#[derive(Debug, PartialEq)]
pub enum Operand {
    Column(Column),
    Function(Function),
    Value(Value),
}

/// A bare assignment `column=value`, as opposed to a comparison.
#[derive(Debug, PartialEq)]
pub struct Equation {
    pub left: Operand,
    pub right: Operand,
}

#[derive(Debug, Clone, Copy, PartialEq, Eq)]
pub enum Connector {
    And,
    Or,
}

#[derive(Debug, Clone, Copy, PartialEq, Eq)]
pub enum Direction {
    Asc,
    Desc,
}

#[derive(Debug, Clone, Copy, PartialEq, Eq)]
pub enum NullsWhere {
    First,
    Last,
}

/// The comparison operators of a condition.
#[derive(Debug, Clone, Copy, PartialEq, Eq)]
pub enum Equality {
    Eq,
    Neq,
    Lt,
    Lte,
    Gt,
    Gte,
    In,
    NotIn,
    Is,
    IsNot,
    Like,
    Ilike,
    St,
}

/// One comparison `left <equality> right`.
#[derive(Debug, PartialEq)]
pub struct Condition {
    pub left: Operand,
    pub equality: Equality,
    pub right: Operand,
}

/// A chain of conditions. The root has no connector; each continuation of the
/// chain is the single entry of `sub_filters`, carrying the connector that links
/// it to its predecessor.
#[derive(Debug, PartialEq)]
pub struct Filter {
    pub connector: Option<Connector>,
    pub condition: Condition,
    pub sub_filters: Vec<Filter>,
}

#[derive(Debug, PartialEq)]
pub struct Order {
    pub operand: Operand,
    pub direction: Option<Direction>,
    pub nulls_where: Option<NullsWhere>,
}

#[derive(Debug, Clone, Copy, PartialEq, Eq, Default)]
pub struct Page {
    pub page: i64,
    pub page_size: i64,
}

#[derive(Debug, Clone, Copy, PartialEq, Eq, Default)]
pub struct Limit {
    pub limit: i64,
    pub offset: Option<i64>,
}

/// Pagination: either by page or by limit and offset.
#[derive(Debug, Clone, Copy, PartialEq, Eq)]
pub enum Range {
    Page(Page),
    Limit(Limit),
}

#[derive(Debug, Clone, Copy, PartialEq, Eq)]
pub enum JoinType {
    Cross,
    Inner,
    Outer,
    Natural,
}

#[derive(Debug, Clone, Copy, PartialEq, Eq)]
pub enum Modifier {
    Left,
    Right,
    Full,
}

/// A joined table; `column1[i]` is linked to `column2[i]`.
#[derive(Debug, PartialEq)]
pub struct Join {
    pub modifier: Option<Modifier>,
    pub join_type: Option<JoinType>,
    pub table: Operand,
    pub column1: Vec<String>,
    pub column2: Vec<String>,
}

/// A single query parameter: a comparison or an assignment.
#[derive(Debug, PartialEq)]
pub enum Param {
    Condition(Condition),
    Equation(Equation),
}

/// Filters followed by assignments.
#[derive(Debug, PartialEq, Default)]
pub struct Params {
    pub filters: Vec<Filter>,
    pub equations: Vec<Equation>,
}

/// A whole query, its clauses in their fixed order.
#[derive(Debug, PartialEq, Default)]
pub struct Query {
    pub from: Vec<Operand>,
    pub join: Vec<Join>,
    pub filters: Vec<Filter>,
    pub group_by: Vec<Operand>,
    pub having: Vec<Filter>,
    pub order_by: Vec<Order>,
    pub range: Option<Range>,
    pub equations: Vec<Equation>,
}

/// Another name for a whole query.
pub type Select = Query;

/// Why a parse failed.
#[derive(Debug, Clone, Copy, PartialEq, Eq)]
pub enum ErrorKind {
    /// The input does not match at the offset: at the start, where the rule
    /// does not match there, or at an integer literal whose value does not
    /// fit in an `i64`.
    NoMatch,
    /// The rule matched a prefix, but input remains after it.
    TrailingInput,
}

/// A failed parse: where it stopped, and why.
#[derive(Debug, Clone, Copy, PartialEq, Eq)]
pub struct ParseError {
    pub offset: usize,
    pub kind: ErrorKind,
}

// ---- mathematical models of the syntax tree ----

pub enum ValueModel {
    Null,
    Str(Seq<char>),
    Number(Seq<char>),
    Bool(bool),
}

pub enum OperandModel {
    Column(Seq<char>),
    Function(Seq<char>, Seq<OperandModel>),
    Value(ValueModel),
}

pub struct EquationModel {
    pub left: OperandModel,
    pub right: OperandModel,
}

pub struct ConditionModel {
    pub left: OperandModel,
    pub equality: Equality,
    pub right: OperandModel,
}

pub struct FilterModel {
    pub connector: Option<Connector>,
    pub condition: ConditionModel,
    pub sub_filters: Seq<FilterModel>,
}

impl FilterModel {
    /// A link of a chain: it carries the connector to its predecessor, and
    /// continues with at most one further link.
    pub open spec fn is_link(self) -> bool
        decreases self,
    {
        &&& self.connector is Some
        &&& self.sub_filters.len() <= 1
        &&& self.sub_filters.len() == 1 ==> self.sub_filters[0].is_link()
    }

    /// A whole chain: its root has no connector, and continues with at most one
    /// link.
    pub open spec fn is_chain(self) -> bool {
        &&& self.connector is None
        &&& self.sub_filters.len() <= 1
        &&& self.sub_filters.len() == 1 ==> self.sub_filters[0].is_link()
    }
}

pub struct OrderModel {
    pub operand: OperandModel,
    pub direction: Option<Direction>,
    pub nulls_where: Option<NullsWhere>,
}

pub struct JoinModel {
    pub modifier: Option<Modifier>,
    pub join_type: Option<JoinType>,
    pub table: OperandModel,
    pub column1: Seq<Seq<char>>,
    pub column2: Seq<Seq<char>>,
}

pub enum ParamModel {
    Condition(ConditionModel),
    Equation(EquationModel),
}

pub struct ParamsModel {
    pub filters: Seq<FilterModel>,
    pub equations: Seq<EquationModel>,
}

pub struct QueryModel {
    pub from: Seq<OperandModel>,
    pub join: Seq<JoinModel>,
    pub filters: Seq<FilterModel>,
    pub group_by: Seq<OperandModel>,
    pub having: Seq<FilterModel>,
    pub order_by: Seq<OrderModel>,
    pub range: Option<Range>,
    pub equations: Seq<EquationModel>,
}

/// The views of the elements of a sequence.
pub open spec fn views<T: View>(v: Seq<T>) -> Seq<T::V> {
    Seq::new(v.len(), |i: int| v[i]@)
}

impl View for Connector {
    type V = Connector;

    open spec fn view(&self) -> Connector {
        *self
    }
}

impl View for Direction {
    type V = Direction;

    open spec fn view(&self) -> Direction {
        *self
    }
}

impl View for NullsWhere {
    type V = NullsWhere;

    open spec fn view(&self) -> NullsWhere {
        *self
    }
}

impl View for Equality {
    type V = Equality;

    open spec fn view(&self) -> Equality {
        *self
    }
}

impl View for Range {
    type V = Range;

    open spec fn view(&self) -> Range {
        *self
    }
}

impl View for JoinType {
    type V = JoinType;

    open spec fn view(&self) -> JoinType {
        *self
    }
}

impl View for Modifier {
    type V = Modifier;

    open spec fn view(&self) -> Modifier {
        *self
    }
}

impl View for Column {
    type V = Seq<char>;

    open spec fn view(&self) -> Seq<char> {
        self.name@
    }
}

impl View for Value {
    type V = ValueModel;

    open spec fn view(&self) -> ValueModel {
        match self {
            Value::Null => ValueModel::Null,
            Value::String(s) => ValueModel::Str(s@),
            Value::Number(n) => ValueModel::Number(n@),
            Value::Bool(b) => ValueModel::Bool(*b),
        }
    }
}

impl View for Operand {
    type V = OperandModel;

    open spec fn view(&self) -> OperandModel
        decreases self,
    {
        match self {
            Operand::Column(c) => OperandModel::Column(c.name@),
            Operand::Function(f) => f.view(),
            Operand::Value(v) => OperandModel::Value(v@),
        }
    }
}

impl View for Function {
    type V = OperandModel;

    /// A function is viewed as the operand that calls it.
    open spec fn view(&self) -> OperandModel
        decreases self,
    {
        OperandModel::Function(
            self.function@,
            Seq::new(
                self.params.len() as nat,
                |i: int|
                    if 0 <= i < self.params.len() {
                        self.params[i].view()
                    } else {
                        OperandModel::Column(Seq::empty())
                    },
            ),
        )
    }
}

impl View for Equation {
    type V = EquationModel;

    open spec fn view(&self) -> EquationModel {
        EquationModel { left: self.left@, right: self.right@ }
    }
}

impl View for Condition {
    type V = ConditionModel;

    open spec fn view(&self) -> ConditionModel {
        ConditionModel { left: self.left@, equality: self.equality, right: self.right@ }
    }
}

impl View for Filter {
    type V = FilterModel;

    open spec fn view(&self) -> FilterModel
        decreases self,
    {
        FilterModel {
            connector: self.connector,
            condition: self.condition@,
            sub_filters: Seq::new(
                self.sub_filters.len() as nat,
                |i: int|
                    if 0 <= i < self.sub_filters.len() {
                        self.sub_filters[i].view()
                    } else {
                        FilterModel {
                            connector: None,
                            condition: self.condition@,
                            sub_filters: Seq::empty(),
                        }
                    },
            ),
        }
    }
}

impl View for Order {
    type V = OrderModel;

    open spec fn view(&self) -> OrderModel {
        OrderModel {
            operand: self.operand@,
            direction: self.direction,
            nulls_where: self.nulls_where,
        }
    }
}

impl View for Join {
    type V = JoinModel;

    open spec fn view(&self) -> JoinModel {
        JoinModel {
            modifier: self.modifier,
            join_type: self.join_type,
            table: self.table@,
            column1: views(self.column1@),
            column2: views(self.column2@),
        }
    }
}

impl View for Param {
    type V = ParamModel;

    open spec fn view(&self) -> ParamModel {
        match self {
            Param::Condition(c) => ParamModel::Condition(c@),
            Param::Equation(e) => ParamModel::Equation(e@),
        }
    }
}

impl View for Params {
    type V = ParamsModel;

    open spec fn view(&self) -> ParamsModel {
        ParamsModel { filters: views(self.filters@), equations: views(self.equations@) }
    }
}

impl View for Query {
    type V = QueryModel;

    open spec fn view(&self) -> QueryModel {
        QueryModel {
            from: views(self.from@),
            join: views(self.join@),
            filters: views(self.filters@),
            group_by: views(self.group_by@),
            having: views(self.having@),
            order_by: views(self.order_by@),
            range: self.range,
            equations: views(self.equations@),
        }
    }
}

} // verus!
