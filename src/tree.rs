//! The statement tree that binding walks, and what binding means on it.
//!
//! Each node kind that binding can look through is modelled here; everything the
//! walk never enters is kept as the parser's own value and carried through unchanged.
use vstd::prelude::*;
use crate::binder::{PlaceholderValue, is_literal_of};

verus! {

broadcast use vstd::seq::axiom_seq_index_decreases, vstd::seq::axiom_seq_subrange_decreases,
    vstd::std_specs::vec::axiom_vec_decreases_to_view;

/// A literal or placeholder.
pub enum ValueNode {
    /// A positional parameter marker such as `$1`.
    Placeholder(String),
    /// A numeric literal, with its flag.
    Number(String, bool),
    /// A string literal, written between single quotes.
    SingleQuotedString(String),
    Boolean(bool),
    /// Any other literal.
    Other(sqlparser::ast::Value),
}

pub enum ExprNode {
    Identifier(sqlparser::ast::Ident),
    Value(ValueNode),
    /// An expression in parentheses.
    Nested(Box<ExprNode>),
    Between { expr: Box<ExprNode>, negated: bool, low: Box<ExprNode>, high: Box<ExprNode> },
    BinaryOp { left: Box<ExprNode>, op: sqlparser::ast::BinaryOperator, right: Box<ExprNode> },
    /// An expression kind that binding does not enter.
    Other(sqlparser::ast::Expr),
}

pub enum TableFactorNode {
    /// A subquery in the FROM clause.
    Derived {
        lateral: bool,
        subquery: Box<QueryNode>,
        alias: Option<sqlparser::ast::TableAlias>,
    },
    /// A table reference or another factor that binding does not enter.
    Other(sqlparser::ast::TableFactor),
}

pub struct JoinNode {
    pub relation: TableFactorNode,
    pub join_operator: sqlparser::ast::JoinOperator,
}

pub struct TableWithJoinsNode {
    pub relation: TableFactorNode,
    pub joins: Vec<JoinNode>,
}

/// A SELECT; `shell` holds its other clauses, with its WHERE clause and FROM list empty.
pub struct SelectNode {
    pub selection: Option<ExprNode>,
    pub from: Vec<TableWithJoinsNode>,
    pub shell: sqlparser::ast::Select,
}

pub enum SetExprNode {
    Select(Box<SelectNode>),
    /// A parenthesized query.
    Query(Box<QueryNode>),
    /// UNION, INTERSECT or EXCEPT of two query bodies.
    SetOperation {
        op: sqlparser::ast::SetOperator,
        all: bool,
        left: Box<SetExprNode>,
        right: Box<SetExprNode>,
    },
    /// A body kind that binding does not enter, such as a VALUES list.
    Other(sqlparser::ast::SetExpr),
}

/// A query; `shell` holds its other clauses (WITH, ORDER BY, LIMIT, ...), and its own
/// body slot holds an empty VALUES list.
pub struct QueryNode {
    pub body: SetExprNode,
    pub shell: sqlparser::ast::Query,
}

pub enum StatementNode {
    Query(Box<QueryNode>),
    /// A statement kind that binding leaves alone (INSERT, UPDATE, ...).
    Other(sqlparser::ast::Statement),
}

// ---------------------------------------------------------------------------
// How many placeholders the walk finds.

pub open spec fn value_count(v: ValueNode) -> nat {
    if v is Placeholder { 1 } else { 0 }
}

pub open spec fn expr_count(e: ExprNode) -> nat
    decreases e,
{
    match e {
        ExprNode::Value(v) => value_count(v),
        ExprNode::Nested(inner) => expr_count(*inner),
        ExprNode::Between { expr, low, high, .. } =>
            expr_count(*expr) + expr_count(*low) + expr_count(*high),
        ExprNode::BinaryOp { left, right, .. } => expr_count(*left) + expr_count(*right),
        _ => 0,
    }
}

pub open spec fn opt_expr_count(e: Option<ExprNode>) -> nat {
    match e {
        Some(x) => expr_count(x),
        None => 0,
    }
}

pub open spec fn factor_count(f: TableFactorNode) -> nat
    decreases f,
{
    match f {
        TableFactorNode::Derived { subquery, .. } => query_count(*subquery),
        TableFactorNode::Other(_) => 0,
    }
}

pub open spec fn joins_count(s: Seq<JoinNode>) -> nat
    decreases s,
{
    if s.len() == 0 {
        0
    } else {
        joins_count(s.drop_last()) + factor_count(s.last().relation)
    }
}

pub open spec fn twj_count(t: TableWithJoinsNode) -> nat
    decreases t,
{
    factor_count(t.relation) + joins_count(t.joins@)
}

pub open spec fn twjs_count(s: Seq<TableWithJoinsNode>) -> nat
    decreases s,
{
    if s.len() == 0 {
        0
    } else {
        twjs_count(s.drop_last()) + twj_count(s.last())
    }
}

pub open spec fn select_count(s: SelectNode) -> nat
    decreases s,
{
    opt_expr_count(s.selection) + twjs_count(s.from@)
}

pub open spec fn set_expr_count(b: SetExprNode) -> nat
    decreases b,
{
    match b {
        SetExprNode::Select(s) => select_count(*s),
        SetExprNode::Query(q) => query_count(*q),
        SetExprNode::SetOperation { left, right, .. } => set_expr_count(*left) + set_expr_count(*right),
        SetExprNode::Other(_) => 0,
    }
}

pub open spec fn query_count(q: QueryNode) -> nat
    decreases q,
{
    set_expr_count(q.body)
}

pub open spec fn statement_count(s: StatementNode) -> nat {
    match s {
        StatementNode::Query(q) => query_count(*q),
        StatementNode::Other(_) => 0,
    }
}


// ---------------------------------------------------------------------------
// What binding makes of a tree.
//
// `x_bound(a, b, lits)` holds when `b` is `a` with its placeholders, in walk order,
// replaced by the literal forms of `lits[0]`, `lits[1]`, ...; every other node of
// `b` is the node of `a` itself.

pub open spec fn value_bound(a: ValueNode, b: ValueNode, lits: Seq<PlaceholderValue>) -> bool {
    if a is Placeholder {
        lits.len() > 0 && is_literal_of(b, lits[0])
    } else {
        b == a
    }
}

pub open spec fn expr_bound(a: ExprNode, b: ExprNode, lits: Seq<PlaceholderValue>) -> bool
    decreases a,
{
    match a {
        ExprNode::Value(v) => match b {
            ExprNode::Value(w) => value_bound(v, w, lits),
            _ => false,
        },
        ExprNode::Nested(x) => match b {
            ExprNode::Nested(y) => expr_bound(*x, *y, lits),
            _ => false,
        },
        ExprNode::Between { expr, negated, low, high } => match b {
            ExprNode::Between { expr: e2, negated: n2, low: l2, high: h2 } => {
                &&& n2 == negated
                &&& expr_bound(*expr, *e2, lits)
                &&& expr_bound(*low, *l2, lits.skip(expr_count(*expr) as int))
                &&& expr_bound(*high, *h2, lits.skip((expr_count(*expr) + expr_count(*low)) as int))
            },
            _ => false,
        },
        ExprNode::BinaryOp { left, op, right } => match b {
            ExprNode::BinaryOp { left: l2, op: o2, right: r2 } => {
                &&& o2 == op
                &&& expr_bound(*left, *l2, lits)
                &&& expr_bound(*right, *r2, lits.skip(expr_count(*left) as int))
            },
            _ => false,
        },
        _ => b == a,
    }
}

pub open spec fn opt_expr_bound(a: Option<ExprNode>, b: Option<ExprNode>, lits: Seq<PlaceholderValue>) -> bool {
    match a {
        Some(x) => match b {
            Some(y) => expr_bound(x, y, lits),
            None => false,
        },
        None => b is None,
    }
}

pub open spec fn factor_bound(a: TableFactorNode, b: TableFactorNode, lits: Seq<PlaceholderValue>) -> bool
    decreases a,
{
    match a {
        TableFactorNode::Derived { lateral, subquery, alias } => match b {
            TableFactorNode::Derived { lateral: l2, subquery: q2, alias: a2 } => {
                &&& l2 == lateral
                &&& a2 == alias
                &&& query_bound(*subquery, *q2, lits)
            },
            _ => false,
        },
        TableFactorNode::Other(_) => b == a,
    }
}

pub open spec fn joins_bound(a: Seq<JoinNode>, b: Seq<JoinNode>, lits: Seq<PlaceholderValue>) -> bool
    decreases a,
{
    &&& b.len() == a.len()
    &&& a.len() > 0 ==> {
        &&& joins_bound(a.drop_last(), b.drop_last(), lits)
        &&& b.last().join_operator == a.last().join_operator
        &&& factor_bound(a.last().relation, b.last().relation, lits.skip(joins_count(a.drop_last()) as int))
    }
}

pub open spec fn twj_bound(a: TableWithJoinsNode, b: TableWithJoinsNode, lits: Seq<PlaceholderValue>) -> bool
    decreases a,
{
    &&& factor_bound(a.relation, b.relation, lits)
    &&& joins_bound(a.joins@, b.joins@, lits.skip(factor_count(a.relation) as int))
}

pub open spec fn twjs_bound(a: Seq<TableWithJoinsNode>, b: Seq<TableWithJoinsNode>, lits: Seq<PlaceholderValue>) -> bool
    decreases a,
{
    &&& b.len() == a.len()
    &&& a.len() > 0 ==> {
        &&& twjs_bound(a.drop_last(), b.drop_last(), lits)
        &&& twj_bound(a.last(), b.last(), lits.skip(twjs_count(a.drop_last()) as int))
    }
}

pub open spec fn select_bound(a: SelectNode, b: SelectNode, lits: Seq<PlaceholderValue>) -> bool
    decreases a,
{
    &&& b.shell == a.shell
    &&& opt_expr_bound(a.selection, b.selection, lits)
    &&& twjs_bound(a.from@, b.from@, lits.skip(opt_expr_count(a.selection) as int))
}

pub open spec fn set_expr_bound(a: SetExprNode, b: SetExprNode, lits: Seq<PlaceholderValue>) -> bool
    decreases a,
{
    match a {
        SetExprNode::Select(s) => match b {
            SetExprNode::Select(s2) => select_bound(*s, *s2, lits),
            _ => false,
        },
        SetExprNode::Query(q) => match b {
            SetExprNode::Query(q2) => query_bound(*q, *q2, lits),
            _ => false,
        },
        SetExprNode::SetOperation { op, all, left, right } => match b {
            SetExprNode::SetOperation { op: o2, all: a2, left: l2, right: r2 } => {
                &&& o2 == op
                &&& a2 == all
                &&& set_expr_bound(*left, *l2, lits)
                &&& set_expr_bound(*right, *r2, lits.skip(set_expr_count(*left) as int))
            },
            _ => false,
        },
        SetExprNode::Other(_) => b == a,
    }
}

pub open spec fn query_bound(a: QueryNode, b: QueryNode, lits: Seq<PlaceholderValue>) -> bool
    decreases a,
{
    &&& b.shell == a.shell
    &&& set_expr_bound(a.body, b.body, lits)
}

pub open spec fn statement_bound(a: StatementNode, b: StatementNode, lits: Seq<PlaceholderValue>) -> bool {
    match a {
        StatementNode::Query(q) => match b {
            StatementNode::Query(q2) => query_bound(*q, *q2, lits),
            _ => false,
        },
        StatementNode::Other(_) => b == a,
    }
}

// ---------------------------------------------------------------------------
// Counting placeholders, up to a cap.

/// `c`, or `cap` where `c` is larger.
pub open spec fn capped(c: nat, cap: u128) -> nat {
    if c < cap { c } else { cap as nat }
}

pub fn count_expr(e: &ExprNode, cap: u128) -> (r: u128)
    ensures
        r == capped(expr_count(*e), cap),
    decreases e,
{
    match e {
        ExprNode::Value(v) => {
            if matches!(v, ValueNode::Placeholder(_)) && cap > 0 { 1 } else { 0 }
        },
        ExprNode::Nested(x) => count_expr(x, cap),
        ExprNode::Between { expr, low, high, .. } => {
            let a = count_expr(expr, cap);
            let b = count_expr(low, cap - a);
            let c = count_expr(high, cap - a - b);
            a + b + c
        },
        ExprNode::BinaryOp { left, right, .. } => {
            let a = count_expr(left, cap);
            let b = count_expr(right, cap - a);
            a + b
        },
        _ => 0,
    }
}

pub fn count_table_factor(f: &TableFactorNode, cap: u128) -> (r: u128)
    ensures
        r == capped(factor_count(*f), cap),
    decreases f,
{
    match f {
        TableFactorNode::Derived { subquery, .. } => count_query(subquery, cap),
        TableFactorNode::Other(_) => 0,
    }
}

pub fn count_table_with_joins(t: &TableWithJoinsNode, cap: u128) -> (r: u128)
    ensures
        r == capped(twj_count(*t), cap),
    decreases t,
{
    let a = count_table_factor(&t.relation, cap);
    let mut acc = a;
    let mut i: usize = 0;
    while i < t.joins.len()
        invariant
            i <= t.joins.len(),
            acc == capped(factor_count(t.relation) + joins_count(t.joins@.take(i as int)), cap),
            decreases_to!(t => t.joins@),
        decreases t.joins.len() - i,
    {
        proof {
            assert(t.joins@.take(i + 1).drop_last() =~= t.joins@.take(i as int));
        }
        let b = count_table_factor(&t.joins[i].relation, cap - acc);
        acc = acc + b;
        i = i + 1;
    }
    proof {
        assert(t.joins@.take(i as int) =~= t.joins@);
    }
    acc
}

pub fn count_select(s: &SelectNode, cap: u128) -> (r: u128)
    ensures
        r == capped(select_count(*s), cap),
    decreases s,
{
    let mut acc: u128 = match &s.selection {
        Some(x) => count_expr(x, cap),
        None => 0,
    };
    let mut i: usize = 0;
    while i < s.from.len()
        invariant
            i <= s.from.len(),
            acc == capped(opt_expr_count(s.selection) + twjs_count(s.from@.take(i as int)), cap),
            decreases_to!(s => s.from@),
        decreases s.from.len() - i,
    {
        proof {
            assert(s.from@.take(i + 1).drop_last() =~= s.from@.take(i as int));
        }
        let b = count_table_with_joins(&s.from[i], cap - acc);
        acc = acc + b;
        i = i + 1;
    }
    proof {
        assert(s.from@.take(i as int) =~= s.from@);
    }
    acc
}

pub fn count_set_expr(b: &SetExprNode, cap: u128) -> (r: u128)
    ensures
        r == capped(set_expr_count(*b), cap),
    decreases b,
{
    match b {
        SetExprNode::Select(s) => count_select(s, cap),
        SetExprNode::Query(q) => count_query(q, cap),
        SetExprNode::SetOperation { left, right, .. } => {
            let a = count_set_expr(left, cap);
            let c = count_set_expr(right, cap - a);
            a + c
        },
        SetExprNode::Other(_) => 0,
    }
}

pub fn count_query(q: &QueryNode, cap: u128) -> (r: u128)
    ensures
        r == capped(query_count(*q), cap),
    decreases q,
{
    count_set_expr(&q.body, cap)
}

/// How many placeholders the walk finds in `s`, or `cap` where there are more.
pub fn count_statement(s: &StatementNode, cap: u128) -> (r: u128)
    ensures
        r == capped(statement_count(*s), cap),
{
    match s {
        StatementNode::Query(q) => count_query(q, cap),
        StatementNode::Other(_) => 0,
    }
}

} // verus!
