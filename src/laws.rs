//! Properties of binding, proved over the model of [`crate::tree`].
use vstd::prelude::*;
use crate::binder::{PlaceholderValue, is_literal_of};
use crate::tree::{
    ExprNode, JoinNode, QueryNode, SelectNode, SetExprNode, StatementNode, TableFactorNode,
    TableWithJoinsNode, ValueNode, expr_bound, expr_count, factor_bound, factor_count,
    joins_bound, joins_count, opt_expr_count, query_bound, query_count,
    select_bound, select_count, set_expr_bound, set_expr_count, statement_bound,
    statement_count, twj_bound, twj_count, twjs_bound, twjs_count,
};

verus! {

broadcast use vstd::seq::axiom_seq_index_decreases, vstd::seq::axiom_seq_subrange_decreases,
    vstd::std_specs::vec::axiom_vec_decreases_to_view;

// ---------------------------------------------------------------------------
// A bound tree holds no placeholder that the walk can find.

pub proof fn lemma_expr_fully_bound(a: ExprNode, b: ExprNode, lits: Seq<PlaceholderValue>)
    requires
        expr_bound(a, b, lits),
        expr_count(a) <= lits.len(),
    ensures
        expr_count(b) == 0,
    decreases a,
{
    match a {
        ExprNode::Nested(x) => {
            if let ExprNode::Nested(y) = b {
                lemma_expr_fully_bound(*x, *y, lits);
            }
        },
        ExprNode::Between { expr, negated, low, high } => {
            if let ExprNode::Between { expr: e2, negated: n2, low: l2, high: h2 } = b {
                let (ce, cl) = (expr_count(*expr) as int, expr_count(*low) as int);
                lemma_expr_fully_bound(*expr, *e2, lits);
                lemma_expr_fully_bound(*low, *l2, lits.skip(ce));
                lemma_expr_fully_bound(*high, *h2, lits.skip(ce + cl));
            }
        },
        ExprNode::BinaryOp { left, op, right } => {
            if let ExprNode::BinaryOp { left: l2, op: o2, right: r2 } = b {
                lemma_expr_fully_bound(*left, *l2, lits);
                lemma_expr_fully_bound(*right, *r2, lits.skip(expr_count(*left) as int));
            }
        },
        _ => {},
    }
}

pub proof fn lemma_factor_fully_bound(a: TableFactorNode, b: TableFactorNode, lits: Seq<PlaceholderValue>)
    requires
        factor_bound(a, b, lits),
        factor_count(a) <= lits.len(),
    ensures
        factor_count(b) == 0,
    decreases a,
{
    if let TableFactorNode::Derived { subquery, .. } = a {
        if let TableFactorNode::Derived { subquery: q2, .. } = b {
            lemma_query_fully_bound(*subquery, *q2, lits);
        }
    }
}

pub proof fn lemma_joins_fully_bound(a: Seq<JoinNode>, b: Seq<JoinNode>, lits: Seq<PlaceholderValue>)
    requires
        joins_bound(a, b, lits),
        joins_count(a) <= lits.len(),
    ensures
        joins_count(b) == 0,
    decreases a,
{
    if a.len() > 0 {
        lemma_joins_fully_bound(a.drop_last(), b.drop_last(), lits);
        lemma_factor_fully_bound(
            a.last().relation,
            b.last().relation,
            lits.skip(joins_count(a.drop_last()) as int),
        );
    }
}

pub proof fn lemma_twj_fully_bound(a: TableWithJoinsNode, b: TableWithJoinsNode, lits: Seq<PlaceholderValue>)
    requires
        twj_bound(a, b, lits),
        twj_count(a) <= lits.len(),
    ensures
        twj_count(b) == 0,
    decreases a,
{
    lemma_factor_fully_bound(a.relation, b.relation, lits);
    lemma_joins_fully_bound(a.joins@, b.joins@, lits.skip(factor_count(a.relation) as int));
}

pub proof fn lemma_twjs_fully_bound(a: Seq<TableWithJoinsNode>, b: Seq<TableWithJoinsNode>, lits: Seq<PlaceholderValue>)
    requires
        twjs_bound(a, b, lits),
        twjs_count(a) <= lits.len(),
    ensures
        twjs_count(b) == 0,
    decreases a,
{
    if a.len() > 0 {
        lemma_twjs_fully_bound(a.drop_last(), b.drop_last(), lits);
        lemma_twj_fully_bound(a.last(), b.last(), lits.skip(twjs_count(a.drop_last()) as int));
    }
}

pub proof fn lemma_select_fully_bound(a: SelectNode, b: SelectNode, lits: Seq<PlaceholderValue>)
    requires
        select_bound(a, b, lits),
        select_count(a) <= lits.len(),
    ensures
        select_count(b) == 0,
    decreases a,
{
    if let Some(x) = a.selection {
        if let Some(y) = b.selection {
            lemma_expr_fully_bound(x, y, lits);
        }
    }
    lemma_twjs_fully_bound(a.from@, b.from@, lits.skip(opt_expr_count(a.selection) as int));
}

pub proof fn lemma_set_expr_fully_bound(a: SetExprNode, b: SetExprNode, lits: Seq<PlaceholderValue>)
    requires
        set_expr_bound(a, b, lits),
        set_expr_count(a) <= lits.len(),
    ensures
        set_expr_count(b) == 0,
    decreases a,
{
    match a {
        SetExprNode::Select(s) => {
            if let SetExprNode::Select(s2) = b {
                lemma_select_fully_bound(*s, *s2, lits);
            }
        },
        SetExprNode::Query(q) => {
            if let SetExprNode::Query(q2) = b {
                lemma_query_fully_bound(*q, *q2, lits);
            }
        },
        SetExprNode::SetOperation { left, right, .. } => {
            if let SetExprNode::SetOperation { left: l2, right: r2, .. } = b {
                lemma_set_expr_fully_bound(*left, *l2, lits);
                lemma_set_expr_fully_bound(*right, *r2, lits.skip(set_expr_count(*left) as int));
            }
        },
        SetExprNode::Other(_) => {},
    }
}

pub proof fn lemma_query_fully_bound(a: QueryNode, b: QueryNode, lits: Seq<PlaceholderValue>)
    requires
        query_bound(a, b, lits),
        query_count(a) <= lits.len(),
    ensures
        query_count(b) == 0,
    decreases a,
{
    lemma_set_expr_fully_bound(a.body, b.body, lits);
}

/// Once a statement is bound to at least as many values as it has placeholders, the
/// walk finds no placeholder left in it: every placeholder it could discover was
/// replaced.
pub proof fn lemma_statement_fully_bound(a: StatementNode, b: StatementNode, lits: Seq<PlaceholderValue>)
    requires
        statement_bound(a, b, lits),
        statement_count(a) <= lits.len(),
    ensures
        statement_count(b) == 0,
{
    if let StatementNode::Query(q) = a {
        if let StatementNode::Query(q2) = b {
            lemma_query_fully_bound(*q, *q2, lits);
        }
    }
}

// ---------------------------------------------------------------------------
// Which value goes where.

/// `e` is a bare placeholder.
pub open spec fn is_placeholder(e: ExprNode) -> bool {
    e matches ExprNode::Value(ValueNode::Placeholder(_))
}

/// `e` is the literal form of `v`.
pub open spec fn holds_literal_of(e: ExprNode, v: PlaceholderValue) -> bool {
    e matches ExprNode::Value(w) && is_literal_of(w, v)
}

/// In `x BETWEEN $1 AND $2`, where `x` holds no placeholder, the low bound takes the
/// first value and the high bound the second.
pub proof fn lemma_between_order(
    x: ExprNode,
    negated: bool,
    low: ExprNode,
    high: ExprNode,
    b: ExprNode,
    lits: Seq<PlaceholderValue>,
)
    requires
        expr_count(x) == 0,
        is_placeholder(low),
        is_placeholder(high),
        expr_bound(
            (ExprNode::Between { expr: Box::new(x), negated, low: Box::new(low), high: Box::new(high) }),
            b,
            lits,
        ),
    ensures
        lits.len() >= 2,
        b matches ExprNode::Between { low: l2, high: h2, .. }
            && holds_literal_of(*l2, lits[0]) && holds_literal_of(*h2, lits[1]),
{
    assert(lits.skip(0) =~= lits);
    if let ExprNode::Between { low: l2, high: h2, .. } = b {
        assert(expr_bound(low, *l2, lits));
        assert(lits.len() >= 1);
        assert(expr_bound(high, *h2, lits.skip(1)));
        assert(lits.skip(1)[0] == lits[1]);
    }
}

/// In `a = $1 AND b = $2`, where `a` and `b` hold no placeholder, `$1` takes the first
/// value and `$2` the second, whatever the two operators are.
pub proof fn lemma_binary_order(
    a: ExprNode,
    op_a: sqlparser::ast::BinaryOperator,
    p: ExprNode,
    op: sqlparser::ast::BinaryOperator,
    c: ExprNode,
    op_c: sqlparser::ast::BinaryOperator,
    q: ExprNode,
    b: ExprNode,
    lits: Seq<PlaceholderValue>,
)
    requires
        expr_count(a) == 0,
        expr_count(c) == 0,
        is_placeholder(p),
        is_placeholder(q),
        expr_bound(
            (ExprNode::BinaryOp {
                left: Box::new(ExprNode::BinaryOp { left: Box::new(a), op: op_a, right: Box::new(p) }),
                op,
                right: Box::new(ExprNode::BinaryOp { left: Box::new(c), op: op_c, right: Box::new(q) }),
            }),
            b,
            lits,
        ),
    ensures
        lits.len() >= 2,
        b matches ExprNode::BinaryOp { left: l2, right: r2, .. }
            && *l2 matches ExprNode::BinaryOp { right: p2, .. }
            && *r2 matches ExprNode::BinaryOp { right: q2, .. }
            && holds_literal_of(*p2, lits[0]) && holds_literal_of(*q2, lits[1]),
{
    assert(lits.skip(0) =~= lits);
    let left = ExprNode::BinaryOp { left: Box::new(a), op: op_a, right: Box::new(p) };
    let right = ExprNode::BinaryOp { left: Box::new(c), op: op_c, right: Box::new(q) };
    assert(expr_count(p) == 1);
    assert(expr_count(left) == 1);
    if let ExprNode::BinaryOp { left: l2, right: r2, .. } = b {
        assert(expr_bound(left, *l2, lits));
        if let ExprNode::BinaryOp { right: p2, .. } = *l2 {
            assert(expr_bound(p, *p2, lits));
        }
        assert(lits.len() >= 1);
        assert(lits.skip(1).skip(0) =~= lits.skip(1));
        assert(expr_bound(right, *r2, lits.skip(1)));
        if let ExprNode::BinaryOp { right: q2, .. } = *r2 {
            assert(expr_bound(q, *q2, lits.skip(1)));
        }
        assert(lits.skip(1)[0] == lits[1]);
    }
}

/// In a set operation of two bodies with one placeholder each, the left body is bound
/// from the first value and the right body from the second.
pub proof fn lemma_set_operation_order(
    op: sqlparser::ast::SetOperator,
    all: bool,
    left: SetExprNode,
    right: SetExprNode,
    b: SetExprNode,
    lits: Seq<PlaceholderValue>,
)
    requires
        set_expr_count(left) == 1,
        set_expr_count(right) == 1,
        set_expr_bound(
            (SetExprNode::SetOperation { op, all, left: Box::new(left), right: Box::new(right) }),
            b,
            lits,
        ),
    ensures
        b matches SetExprNode::SetOperation { left: l2, right: r2, .. }
            && set_expr_bound(left, *l2, lits) && set_expr_bound(right, *r2, lits.skip(1)),
{
}

/// A placeholder in a subquery of the FROM clause is found: in
/// `SELECT ... FROM (subquery)` the subquery's placeholders are those of the select,
/// and binding the select binds the subquery.
pub proof fn lemma_derived_subquery_bound(
    s: SelectNode,
    lateral: bool,
    q: QueryNode,
    alias: Option<sqlparser::ast::TableAlias>,
    b: SelectNode,
    lits: Seq<PlaceholderValue>,
)
    requires
        s.selection is None,
        s.from@.len() == 1,
        s.from@[0].joins@.len() == 0,
        s.from@[0].relation == (TableFactorNode::Derived { lateral, subquery: Box::new(q), alias }),
        select_bound(s, b, lits),
    ensures
        select_count(s) == query_count(q),
        b.from@.len() == 1,
        b.from@[0].relation matches TableFactorNode::Derived { subquery: q2, .. }
            && query_bound(q, *q2, lits),
{
    let f = s.from@;
    assert(f.drop_last().len() == 0);
    assert(f.last() == f[0]);
    assert(b.from@.last() == b.from@[0]);
    assert(lits.skip(0) =~= lits);
}

// ---------------------------------------------------------------------------
// Binding touches placeholders only.
//
// `x_same_shape(a, b)` holds when `b` has the nodes of `a`, in the same places and the
// same order, except that a placeholder of `a` may stand for any value in `b`.

pub open spec fn expr_same_shape(a: ExprNode, b: ExprNode) -> bool
    decreases a,
{
    match a {
        ExprNode::Value(v) => b matches ExprNode::Value(w) && (v is Placeholder || w == v),
        ExprNode::Nested(x) => match b {
            ExprNode::Nested(y) => expr_same_shape(*x, *y),
            _ => false,
        },
        ExprNode::Between { expr, negated, low, high } => match b {
            ExprNode::Between { expr: e2, negated: n2, low: l2, high: h2 } => {
                &&& n2 == negated
                &&& expr_same_shape(*expr, *e2)
                &&& expr_same_shape(*low, *l2)
                &&& expr_same_shape(*high, *h2)
            },
            _ => false,
        },
        ExprNode::BinaryOp { left, op, right } => match b {
            ExprNode::BinaryOp { left: l2, op: o2, right: r2 } => {
                &&& o2 == op
                &&& expr_same_shape(*left, *l2)
                &&& expr_same_shape(*right, *r2)
            },
            _ => false,
        },
        _ => b == a,
    }
}

pub open spec fn factor_same_shape(a: TableFactorNode, b: TableFactorNode) -> bool
    decreases a,
{
    match a {
        TableFactorNode::Derived { lateral, subquery, alias } => match b {
            TableFactorNode::Derived { lateral: l2, subquery: q2, alias: a2 } =>
                l2 == lateral && a2 == alias && query_same_shape(*subquery, *q2),
            _ => false,
        },
        TableFactorNode::Other(_) => b == a,
    }
}

pub open spec fn joins_same_shape(a: Seq<JoinNode>, b: Seq<JoinNode>) -> bool
    decreases a,
{
    &&& b.len() == a.len()
    &&& a.len() > 0 ==> {
        &&& joins_same_shape(a.drop_last(), b.drop_last())
        &&& b.last().join_operator == a.last().join_operator
        &&& factor_same_shape(a.last().relation, b.last().relation)
    }
}

pub open spec fn twjs_same_shape(a: Seq<TableWithJoinsNode>, b: Seq<TableWithJoinsNode>) -> bool
    decreases a,
{
    &&& b.len() == a.len()
    &&& a.len() > 0 ==> {
        &&& twjs_same_shape(a.drop_last(), b.drop_last())
        &&& factor_same_shape(a.last().relation, b.last().relation)
        &&& joins_same_shape(a.last().joins@, b.last().joins@)
    }
}

pub open spec fn select_same_shape(a: SelectNode, b: SelectNode) -> bool
    decreases a,
{
    &&& b.shell == a.shell
    &&& match a.selection {
        Some(x) => b.selection matches Some(y) && expr_same_shape(x, y),
        None => b.selection is None,
    }
    &&& twjs_same_shape(a.from@, b.from@)
}

pub open spec fn set_expr_same_shape(a: SetExprNode, b: SetExprNode) -> bool
    decreases a,
{
    match a {
        SetExprNode::Select(s) => match b {
            SetExprNode::Select(s2) => select_same_shape(*s, *s2),
            _ => false,
        },
        SetExprNode::Query(q) => match b {
            SetExprNode::Query(q2) => query_same_shape(*q, *q2),
            _ => false,
        },
        SetExprNode::SetOperation { op, all, left, right } => match b {
            SetExprNode::SetOperation { op: o2, all: a2, left: l2, right: r2 } => {
                &&& o2 == op
                &&& a2 == all
                &&& set_expr_same_shape(*left, *l2)
                &&& set_expr_same_shape(*right, *r2)
            },
            _ => false,
        },
        SetExprNode::Other(_) => b == a,
    }
}

pub open spec fn query_same_shape(a: QueryNode, b: QueryNode) -> bool
    decreases a,
{
    b.shell == a.shell && set_expr_same_shape(a.body, b.body)
}

pub open spec fn statement_same_shape(a: StatementNode, b: StatementNode) -> bool {
    match a {
        StatementNode::Query(q) => match b {
            StatementNode::Query(q2) => query_same_shape(*q, *q2),
            _ => false,
        },
        StatementNode::Other(_) => b == a,
    }
}

pub proof fn lemma_expr_same_shape(a: ExprNode, b: ExprNode, lits: Seq<PlaceholderValue>)
    requires
        expr_bound(a, b, lits),
    ensures
        expr_same_shape(a, b),
    decreases a,
{
    match a {
        ExprNode::Nested(x) => {
            if let ExprNode::Nested(y) = b {
                lemma_expr_same_shape(*x, *y, lits);
            }
        },
        ExprNode::Between { expr, negated, low, high } => {
            if let ExprNode::Between { expr: e2, negated: n2, low: l2, high: h2 } = b {
                let (ce, cl) = (expr_count(*expr) as int, expr_count(*low) as int);
                lemma_expr_same_shape(*expr, *e2, lits);
                lemma_expr_same_shape(*low, *l2, lits.skip(ce));
                lemma_expr_same_shape(*high, *h2, lits.skip(ce + cl));
            }
        },
        ExprNode::BinaryOp { left, op, right } => {
            if let ExprNode::BinaryOp { left: l2, op: o2, right: r2 } = b {
                lemma_expr_same_shape(*left, *l2, lits);
                lemma_expr_same_shape(*right, *r2, lits.skip(expr_count(*left) as int));
            }
        },
        _ => {},
    }
}

pub proof fn lemma_factor_same_shape(a: TableFactorNode, b: TableFactorNode, lits: Seq<PlaceholderValue>)
    requires
        factor_bound(a, b, lits),
    ensures
        factor_same_shape(a, b),
    decreases a,
{
    if let TableFactorNode::Derived { subquery, .. } = a {
        if let TableFactorNode::Derived { subquery: q2, .. } = b {
            lemma_query_same_shape(*subquery, *q2, lits);
        }
    }
}

pub proof fn lemma_joins_same_shape(a: Seq<JoinNode>, b: Seq<JoinNode>, lits: Seq<PlaceholderValue>)
    requires
        joins_bound(a, b, lits),
    ensures
        joins_same_shape(a, b),
    decreases a,
{
    if a.len() > 0 {
        lemma_joins_same_shape(a.drop_last(), b.drop_last(), lits);
        lemma_factor_same_shape(
            a.last().relation,
            b.last().relation,
            lits.skip(joins_count(a.drop_last()) as int),
        );
    }
}

pub proof fn lemma_twjs_same_shape(a: Seq<TableWithJoinsNode>, b: Seq<TableWithJoinsNode>, lits: Seq<PlaceholderValue>)
    requires
        twjs_bound(a, b, lits),
    ensures
        twjs_same_shape(a, b),
    decreases a,
{
    if a.len() > 0 {
        let t = a.last();
        let l = lits.skip(twjs_count(a.drop_last()) as int);
        lemma_twjs_same_shape(a.drop_last(), b.drop_last(), lits);
        assert(twj_bound(t, b.last(), l));
        lemma_factor_same_shape(t.relation, b.last().relation, l);
        lemma_joins_same_shape(t.joins@, b.last().joins@, l.skip(factor_count(t.relation) as int));
    }
}

pub proof fn lemma_select_same_shape(a: SelectNode, b: SelectNode, lits: Seq<PlaceholderValue>)
    requires
        select_bound(a, b, lits),
    ensures
        select_same_shape(a, b),
    decreases a,
{
    if let Some(x) = a.selection {
        if let Some(y) = b.selection {
            lemma_expr_same_shape(x, y, lits);
        }
    }
    lemma_twjs_same_shape(a.from@, b.from@, lits.skip(opt_expr_count(a.selection) as int));
}

pub proof fn lemma_set_expr_same_shape(a: SetExprNode, b: SetExprNode, lits: Seq<PlaceholderValue>)
    requires
        set_expr_bound(a, b, lits),
    ensures
        set_expr_same_shape(a, b),
    decreases a,
{
    match a {
        SetExprNode::Select(s) => {
            if let SetExprNode::Select(s2) = b {
                lemma_select_same_shape(*s, *s2, lits);
            }
        },
        SetExprNode::Query(q) => {
            if let SetExprNode::Query(q2) = b {
                lemma_query_same_shape(*q, *q2, lits);
            }
        },
        SetExprNode::SetOperation { left, right, .. } => {
            if let SetExprNode::SetOperation { left: l2, right: r2, .. } = b {
                lemma_set_expr_same_shape(*left, *l2, lits);
                lemma_set_expr_same_shape(*right, *r2, lits.skip(set_expr_count(*left) as int));
            }
        },
        SetExprNode::Other(_) => {},
    }
}

pub proof fn lemma_query_same_shape(a: QueryNode, b: QueryNode, lits: Seq<PlaceholderValue>)
    requires
        query_bound(a, b, lits),
    ensures
        query_same_shape(a, b),
    decreases a,
{
    lemma_set_expr_same_shape(a.body, b.body, lits);
}

/// Binding changes no node but the placeholders: the bound statement has every other
/// node of the statement, in the same place and order, whatever the values were.
pub proof fn lemma_binding_keeps_shape(a: StatementNode, b: StatementNode, lits: Seq<PlaceholderValue>)
    requires
        statement_bound(a, b, lits),
    ensures
        statement_same_shape(a, b),
{
    if let StatementNode::Query(q) = a {
        if let StatementNode::Query(q2) = b {
            lemma_query_same_shape(*q, *q2, lits);
        }
    }
}

} // verus!
