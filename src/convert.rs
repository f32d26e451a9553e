//! Moving statements between the SQL parser's syntax tree and the tree of [`crate::tree`].
//!
//! The parser's nodes are taken apart one level at a time; the walk over the levels
//! is written here and bounded by a nesting depth, so that a pathologically nested
//! statement is refused instead of exhausting the stack.
use vstd::prelude::*;
use sqlparser::ast;
use crate::tree::{
    ExprNode, JoinNode, QueryNode, SelectNode, SetExprNode, StatementNode, TableFactorNode,
    TableWithJoinsNode, ValueNode,
};

verus! {

/// How deeply nodes may nest in a statement that [`StatementNode::from_ast`] accepts.
pub const MAX_DEPTH: usize = 512;

/// Why a parsed statement could not be brought into the tree.
pub enum ConvertError {
    /// The statement nests deeper than the depth that was allowed.
    TooDeep,
}

/// One level of a parser query body.
pub(crate) enum RawSetExpr {
    Select(Box<ast::Select>),
    Query(Box<ast::Query>),
    SetOperation { op: ast::SetOperator, all: bool, left: Box<ast::SetExpr>, right: Box<ast::SetExpr> },
    Other(ast::SetExpr),
}

/// One level of a parser table factor.
pub(crate) enum RawTableFactor {
    Derived { lateral: bool, subquery: Box<ast::Query>, alias: Option<ast::TableAlias> },
    Other(ast::TableFactor),
}

/// One level of a parser expression.
pub(crate) enum RawExpr {
    Identifier(ast::Ident),
    Value(ast::Value),
    Nested(Box<ast::Expr>),
    Between { expr: Box<ast::Expr>, negated: bool, low: Box<ast::Expr>, high: Box<ast::Expr> },
    BinaryOp { left: Box<ast::Expr>, op: ast::BinaryOperator, right: Box<ast::Expr> },
    Other(ast::Expr),
}

/// Relies on `ast::SetExpr::Values` and `ast::Values`: an empty VALUES list, used to
/// fill a body slot whose content has been moved out.
#[verifier::external_body]
pub(crate) fn empty_body() -> ast::SetExpr {
    ast::SetExpr::Values(ast::Values(Vec::new()))
}

/// Relies on the variants of `ast::Statement`: a query statement gives up its query.
#[verifier::external_body]
fn split_statement(s: ast::Statement) -> Result<Box<ast::Query>, ast::Statement> {
    match s {
        ast::Statement::Query(q) => Ok(q),
        other => Err(other),
    }
}

/// Relies on `ast::Statement::Query`.
#[verifier::external_body]
fn query_statement(q: Box<ast::Query>) -> ast::Statement {
    ast::Statement::Query(q)
}

/// Relies on the public fields of `ast::Query`: moves its body out, leaving an empty
/// VALUES list in its place.
#[verifier::external_body]
fn split_query(q: ast::Query) -> (ast::SetExpr, ast::Query) {
    let mut q = q;
    let body = std::mem::replace(&mut q.body, ast::SetExpr::Values(ast::Values(Vec::new())));
    (body, q)
}

/// Relies on the public fields of `ast::Query`: puts a body into the query's slot.
#[verifier::external_body]
fn join_query(body: ast::SetExpr, shell: ast::Query) -> ast::Query {
    ast::Query { body, ..shell }
}

/// Relies on the variants of `ast::SetExpr`.
#[verifier::external_body]
fn split_set_expr(b: ast::SetExpr) -> RawSetExpr {
    match b {
        ast::SetExpr::Select(s) => RawSetExpr::Select(s),
        ast::SetExpr::Query(q) => RawSetExpr::Query(q),
        ast::SetExpr::SetOperation { op, all, left, right } =>
            RawSetExpr::SetOperation { op, all, left, right },
        other => RawSetExpr::Other(other),
    }
}

/// Relies on the variants of `ast::SetExpr`.
#[verifier::external_body]
fn join_set_expr(b: RawSetExpr) -> ast::SetExpr {
    match b {
        RawSetExpr::Select(s) => ast::SetExpr::Select(s),
        RawSetExpr::Query(q) => ast::SetExpr::Query(q),
        RawSetExpr::SetOperation { op, all, left, right } =>
            ast::SetExpr::SetOperation { op, all, left, right },
        RawSetExpr::Other(other) => other,
    }
}

/// Relies on the public fields of `ast::Select`: moves its WHERE clause and FROM list out.
#[verifier::external_body]
fn split_select(s: ast::Select) -> (Option<ast::Expr>, Vec<ast::TableWithJoins>, ast::Select) {
    let mut s = s;
    let selection = s.selection.take();
    let from = std::mem::take(&mut s.from);
    (selection, from, s)
}

/// Relies on the public fields of `ast::Select`: puts a WHERE clause and FROM list back.
#[verifier::external_body]
fn join_select(selection: Option<ast::Expr>, from: Vec<ast::TableWithJoins>, shell: ast::Select) -> ast::Select {
    ast::Select { selection, from, ..shell }
}

/// Relies on the public fields of `ast::TableWithJoins`.
#[verifier::external_body]
fn split_table_with_joins(t: ast::TableWithJoins) -> (ast::TableFactor, Vec<ast::Join>) {
    (t.relation, t.joins)
}

/// Relies on the public fields of `ast::TableWithJoins`.
#[verifier::external_body]
fn join_table_with_joins(relation: ast::TableFactor, joins: Vec<ast::Join>) -> ast::TableWithJoins {
    ast::TableWithJoins { relation, joins }
}

/// Relies on the public fields of `ast::Join`.
#[verifier::external_body]
fn split_join(j: ast::Join) -> (ast::TableFactor, ast::JoinOperator) {
    (j.relation, j.join_operator)
}

/// Relies on the public fields of `ast::Join`.
#[verifier::external_body]
fn join_join(relation: ast::TableFactor, join_operator: ast::JoinOperator) -> ast::Join {
    ast::Join { relation, join_operator }
}

/// Relies on the variants of `ast::TableFactor`.
#[verifier::external_body]
fn split_table_factor(f: ast::TableFactor) -> RawTableFactor {
    match f {
        ast::TableFactor::Derived { lateral, subquery, alias } =>
            RawTableFactor::Derived { lateral, subquery, alias },
        other => RawTableFactor::Other(other),
    }
}

/// Relies on `ast::TableFactor::Derived`.
#[verifier::external_body]
fn derived_table_factor(lateral: bool, subquery: Box<ast::Query>, alias: Option<ast::TableAlias>) -> ast::TableFactor {
    ast::TableFactor::Derived { lateral, subquery, alias }
}

/// Relies on the variants of `ast::Expr`.
#[verifier::external_body]
fn split_expr(e: ast::Expr) -> RawExpr {
    match e {
        ast::Expr::Identifier(i) => RawExpr::Identifier(i),
        ast::Expr::Value(v) => RawExpr::Value(v),
        ast::Expr::Nested(x) => RawExpr::Nested(x),
        ast::Expr::Between { expr, negated, low, high } => RawExpr::Between { expr, negated, low, high },
        ast::Expr::BinaryOp { left, op, right } => RawExpr::BinaryOp { left, op, right },
        other => RawExpr::Other(other),
    }
}

/// Relies on the variants of `ast::Expr`.
#[verifier::external_body]
fn join_expr(e: RawExpr) -> ast::Expr {
    match e {
        RawExpr::Identifier(i) => ast::Expr::Identifier(i),
        RawExpr::Value(v) => ast::Expr::Value(v),
        RawExpr::Nested(x) => ast::Expr::Nested(x),
        RawExpr::Between { expr, negated, low, high } => ast::Expr::Between { expr, negated, low, high },
        RawExpr::BinaryOp { left, op, right } => ast::Expr::BinaryOp { left, op, right },
        RawExpr::Other(other) => other,
    }
}

/// Relies on the variants of `ast::Value`.
#[verifier::external_body]
fn split_value(v: ast::Value) -> ValueNode {
    match v {
        ast::Value::Placeholder(s) => ValueNode::Placeholder(s),
        ast::Value::Number(s, flag) => ValueNode::Number(s, flag),
        ast::Value::SingleQuotedString(s) => ValueNode::SingleQuotedString(s),
        ast::Value::Boolean(b) => ValueNode::Boolean(b),
        other => ValueNode::Other(other),
    }
}

/// Relies on the variants of `ast::Value`.
#[verifier::external_body]
fn join_value(v: ValueNode) -> ast::Value {
    match v {
        ValueNode::Placeholder(s) => ast::Value::Placeholder(s),
        ValueNode::Number(s, flag) => ast::Value::Number(s, flag),
        ValueNode::SingleQuotedString(s) => ast::Value::SingleQuotedString(s),
        ValueNode::Boolean(b) => ast::Value::Boolean(b),
        ValueNode::Other(other) => other,
    }
}

// ---------------------------------------------------------------------------
// From the parser's tree, one level per unit of depth.

fn expr_from_ast(e: ast::Expr, depth: usize) -> (r: Result<ExprNode, ConvertError>)
    ensures
        depth == 0 ==> r is Err,
    decreases depth,
{
    if depth == 0 {
        return Err(ConvertError::TooDeep);
    }
    let d = depth - 1;
    match split_expr(e) {
        RawExpr::Identifier(i) => Ok(ExprNode::Identifier(i)),
        RawExpr::Value(v) => Ok(ExprNode::Value(split_value(v))),
        RawExpr::Nested(x) => {
            let x = expr_from_ast(*x, d)?;
            Ok(ExprNode::Nested(Box::new(x)))
        },
        RawExpr::Between { expr, negated, low, high } => {
            let expr = expr_from_ast(*expr, d)?;
            let low = expr_from_ast(*low, d)?;
            let high = expr_from_ast(*high, d)?;
            Ok(ExprNode::Between { expr: Box::new(expr), negated, low: Box::new(low), high: Box::new(high) })
        },
        RawExpr::BinaryOp { left, op, right } => {
            let left = expr_from_ast(*left, d)?;
            let right = expr_from_ast(*right, d)?;
            Ok(ExprNode::BinaryOp { left: Box::new(left), op, right: Box::new(right) })
        },
        RawExpr::Other(other) => Ok(ExprNode::Other(other)),
    }
}

fn table_factor_from_ast(f: ast::TableFactor, depth: usize) -> (r: Result<TableFactorNode, ConvertError>)
    ensures
        depth == 0 ==> r is Err,
    decreases depth,
{
    if depth == 0 {
        return Err(ConvertError::TooDeep);
    }
    match split_table_factor(f) {
        RawTableFactor::Derived { lateral, subquery, alias } => {
            let q = query_from_ast(*subquery, depth - 1)?;
            Ok(TableFactorNode::Derived { lateral, subquery: Box::new(q), alias })
        },
        RawTableFactor::Other(other) => Ok(TableFactorNode::Other(other)),
    }
}

fn table_with_joins_from_ast(t: ast::TableWithJoins, depth: usize) -> (r: Result<TableWithJoinsNode, ConvertError>)
    ensures
        depth == 0 ==> r is Err,
    decreases depth,
{
    if depth == 0 {
        return Err(ConvertError::TooDeep);
    }
    let (relation, joins) = split_table_with_joins(t);
    let relation = table_factor_from_ast(relation, depth - 1)?;
    let mut rest = joins;
    let mut out: Vec<JoinNode> = Vec::new();
    while rest.len() > 0
        invariant
            depth > 0,
        decreases rest.len(),
    {
        let (jr, join_operator) = split_join(rest.remove(0));
        let relation = table_factor_from_ast(jr, depth - 1)?;
        out.push(JoinNode { relation, join_operator });
    }
    Ok(TableWithJoinsNode { relation, joins: out })
}

fn select_from_ast(s: ast::Select, depth: usize) -> (r: Result<SelectNode, ConvertError>)
    ensures
        depth == 0 ==> r is Err,
    decreases depth,
{
    if depth == 0 {
        return Err(ConvertError::TooDeep);
    }
    let (selection, from, shell) = split_select(s);
    let selection = match selection {
        Some(x) => Some(expr_from_ast(x, depth - 1)?),
        None => None,
    };
    let mut rest = from;
    let mut out: Vec<TableWithJoinsNode> = Vec::new();
    while rest.len() > 0
        invariant
            depth > 0,
        decreases rest.len(),
    {
        let t = table_with_joins_from_ast(rest.remove(0), depth - 1)?;
        out.push(t);
    }
    Ok(SelectNode { selection, from: out, shell })
}

fn set_expr_from_ast(b: ast::SetExpr, depth: usize) -> (r: Result<SetExprNode, ConvertError>)
    ensures
        depth == 0 ==> r is Err,
    decreases depth,
{
    if depth == 0 {
        return Err(ConvertError::TooDeep);
    }
    let d = depth - 1;
    match split_set_expr(b) {
        RawSetExpr::Select(s) => Ok(SetExprNode::Select(Box::new(select_from_ast(*s, d)?))),
        RawSetExpr::Query(q) => Ok(SetExprNode::Query(Box::new(query_from_ast(*q, d)?))),
        RawSetExpr::SetOperation { op, all, left, right } => {
            let left = set_expr_from_ast(*left, d)?;
            let right = set_expr_from_ast(*right, d)?;
            Ok(SetExprNode::SetOperation { op, all, left: Box::new(left), right: Box::new(right) })
        },
        RawSetExpr::Other(other) => Ok(SetExprNode::Other(other)),
    }
}

fn query_from_ast(q: ast::Query, depth: usize) -> (r: Result<QueryNode, ConvertError>)
    ensures
        depth == 0 ==> r is Err,
    decreases depth,
{
    if depth == 0 {
        return Err(ConvertError::TooDeep);
    }
    let (body, shell) = split_query(q);
    let body = set_expr_from_ast(body, depth - 1)?;
    Ok(QueryNode { body, shell })
}

// ---------------------------------------------------------------------------
// Back to the parser's tree.

fn expr_to_ast(e: ExprNode) -> ast::Expr
    decreases e,
{
    let raw = match e {
        ExprNode::Identifier(i) => RawExpr::Identifier(i),
        ExprNode::Value(v) => RawExpr::Value(join_value(v)),
        ExprNode::Nested(x) => RawExpr::Nested(Box::new(expr_to_ast(*x))),
        ExprNode::Between { expr, negated, low, high } => RawExpr::Between {
            expr: Box::new(expr_to_ast(*expr)),
            negated,
            low: Box::new(expr_to_ast(*low)),
            high: Box::new(expr_to_ast(*high)),
        },
        ExprNode::BinaryOp { left, op, right } => RawExpr::BinaryOp {
            left: Box::new(expr_to_ast(*left)),
            op,
            right: Box::new(expr_to_ast(*right)),
        },
        ExprNode::Other(other) => RawExpr::Other(other),
    };
    join_expr(raw)
}

fn table_factor_to_ast(f: TableFactorNode) -> ast::TableFactor
    decreases f,
{
    match f {
        TableFactorNode::Derived { lateral, subquery, alias } =>
            derived_table_factor(lateral, Box::new(query_to_ast(*subquery)), alias),
        TableFactorNode::Other(other) => other,
    }
}

fn table_with_joins_to_ast(t: TableWithJoinsNode) -> ast::TableWithJoins
    decreases t,
{
    let TableWithJoinsNode { relation, joins } = t;
    let ghost orig = joins@;
    let relation = table_factor_to_ast(relation);
    let mut rest = joins;
    let mut out: Vec<ast::Join> = Vec::new();
    while rest.len() > 0
        invariant
            decreases_to!(t => orig),
            rest@ == orig.skip(out.len() as int),
            out.len() + rest.len() == orig.len(),
        decreases rest.len(),
    {
        let ghost i = out.len() as int;
        let j = rest.remove(0);
        assert(j == orig[i]);
        let JoinNode { relation: jr, join_operator } = j;
        out.push(join_join(table_factor_to_ast(jr), join_operator));
    }
    join_table_with_joins(relation, out)
}

fn select_to_ast(s: SelectNode) -> ast::Select
    decreases s,
{
    let SelectNode { selection, from, shell } = s;
    let ghost orig = from@;
    let selection = match selection {
        Some(x) => Some(expr_to_ast(x)),
        None => None,
    };
    let mut rest = from;
    let mut out: Vec<ast::TableWithJoins> = Vec::new();
    while rest.len() > 0
        invariant
            decreases_to!(s => orig),
            rest@ == orig.skip(out.len() as int),
            out.len() + rest.len() == orig.len(),
        decreases rest.len(),
    {
        let ghost i = out.len() as int;
        let t = rest.remove(0);
        assert(t == orig[i]);
        out.push(table_with_joins_to_ast(t));
    }
    join_select(selection, out, shell)
}

fn set_expr_to_ast(b: SetExprNode) -> ast::SetExpr
    decreases b,
{
    let raw = match b {
        SetExprNode::Select(s) => RawSetExpr::Select(Box::new(select_to_ast(*s))),
        SetExprNode::Query(q) => RawSetExpr::Query(Box::new(query_to_ast(*q))),
        SetExprNode::SetOperation { op, all, left, right } => RawSetExpr::SetOperation {
            op,
            all,
            left: Box::new(set_expr_to_ast(*left)),
            right: Box::new(set_expr_to_ast(*right)),
        },
        SetExprNode::Other(other) => RawSetExpr::Other(other),
    };
    join_set_expr(raw)
}

fn query_to_ast(q: QueryNode) -> ast::Query
    decreases q,
{
    let QueryNode { body, shell } = q;
    join_query(set_expr_to_ast(body), shell)
}

impl StatementNode {
    /// Brings a parsed statement into the tree, refusing one whose nodes nest deeper
    /// than `depth`.
    pub fn from_ast_with_depth(s: ast::Statement, depth: usize) -> (r: Result<StatementNode, ConvertError>)
        ensures
            depth == 0 ==> r is Err,
    {
        if depth == 0 {
            return Err(ConvertError::TooDeep);
        }
        match split_statement(s) {
            Ok(q) => {
                let q = query_from_ast(*q, depth - 1)?;
                Ok(StatementNode::Query(Box::new(q)))
            },
            Err(other) => Ok(StatementNode::Other(other)),
        }
    }

    /// Brings a parsed statement into the tree, refusing one that nests deeper than
    /// [`MAX_DEPTH`].
    pub fn from_ast(s: ast::Statement) -> Result<StatementNode, ConvertError> {
        Self::from_ast_with_depth(s, MAX_DEPTH)
    }

    /// The parser's statement that this tree stands for.
    pub fn into_ast(self) -> ast::Statement {
        match self {
            StatementNode::Query(q) => query_statement(Box::new(query_to_ast(*q))),
            StatementNode::Other(other) => other,
        }
    }
}

} // verus!
