//! The parameter values and the binder that substitutes them.
use vstd::prelude::*;
use crate::tree::{
    ExprNode, JoinNode, QueryNode, SelectNode, SetExprNode, StatementNode, TableFactorNode,
    TableWithJoinsNode, ValueNode, expr_bound, expr_count, factor_bound, factor_count,
    joins_bound, joins_count, opt_expr_count, query_bound, query_count,
    select_bound, select_count, set_expr_bound, set_expr_count, statement_bound,
    statement_count, count_statement, twj_bound, twj_count, twjs_bound, twjs_count, value_bound, value_count,
};
use crate::convert::empty_body;
use crate::decimal::{int_text, u64_text, i64_text};

verus! {

/// A typed parameter value, as decoded from a bind message.
pub enum PlaceholderValue {
    String(String),
    Int64(i64),
    UInt64(u64),
    Bool(bool),
}

/// `lit` is the literal form of `v`: a quoted string for a string, a number for an
/// integer (flagged when it is negative), a boolean for a boolean.
pub open spec fn is_literal_of(lit: ValueNode, v: PlaceholderValue) -> bool {
    match v {
        PlaceholderValue::String(s) => match lit {
            ValueNode::SingleQuotedString(t) => t@ == s@,
            _ => false,
        },
        PlaceholderValue::Int64(n) => match lit {
            ValueNode::Number(t, neg) => t@ == int_text(n as int) && neg == (n < 0),
            _ => false,
        },
        PlaceholderValue::UInt64(n) => match lit {
            ValueNode::Number(t, neg) => t@ == int_text(n as int) && !neg,
            _ => false,
        },
        PlaceholderValue::Bool(b) => match lit {
            ValueNode::Boolean(c) => c == b,
            _ => false,
        },
    }
}

impl PlaceholderValue {
    /// The literal node that stands for this value in a statement.
    pub fn to_literal(&self) -> (r: ValueNode)
        ensures
            is_literal_of(r, *self),
    {
        match self {
            PlaceholderValue::String(s) => ValueNode::SingleQuotedString(s.clone()),
            PlaceholderValue::Int64(n) => ValueNode::Number(i64_text(*n), *n < 0),
            PlaceholderValue::UInt64(n) => ValueNode::Number(u64_text(*n), false),
            PlaceholderValue::Bool(b) => ValueNode::Boolean(*b),
        }
    }
}


/// Why a bind failed.
pub enum BindError {
    /// The statement has more placeholders than there are values.
    InsufficientParameters,
    /// Values are left over once every placeholder has one.
    ExcessParameters,
}

/// Substitutes an ordered list of values for the placeholders of a statement, in the
/// order in which the walk meets them.
pub struct StatementBinder {
    position: usize,
    values: Vec<PlaceholderValue>,
}

pub proof fn lemma_skip_skip<A>(s: Seq<A>, a: int, b: int)
    requires
        0 <= a,
        0 <= b,
        a + b <= s.len(),
    ensures
        s.skip(a).skip(b) == s.skip(a + b),
{
    assert(s.skip(a).skip(b) =~= s.skip(a + b));
}

pub proof fn lemma_twjs_prefix(s: Seq<TableWithJoinsNode>, i: int)
    requires
        0 <= i <= s.len(),
    ensures
        twjs_count(s.take(i)) <= twjs_count(s),
    decreases s.len(),
{
    if i < s.len() {
        assert(s.drop_last().take(i) =~= s.take(i));
        lemma_twjs_prefix(s.drop_last(), i);
    } else {
        assert(s.take(i) =~= s);
    }
}

pub proof fn lemma_joins_prefix(s: Seq<JoinNode>, i: int)
    requires
        0 <= i <= s.len(),
    ensures
        joins_count(s.take(i)) <= joins_count(s),
    decreases s.len(),
{
    if i < s.len() {
        assert(s.drop_last().take(i) =~= s.take(i));
        lemma_joins_prefix(s.drop_last(), i);
    } else {
        assert(s.take(i) =~= s);
    }
}

impl StatementBinder {
    /// The values, in the order in which they are consumed.
    pub closed spec fn vals(&self) -> Seq<PlaceholderValue> {
        self.values@
    }

    /// How many values have been consumed so far.
    pub closed spec fn pos(&self) -> nat {
        self.position as nat
    }

    /// The values that have not been consumed yet.
    pub open spec fn remaining(&self) -> Seq<PlaceholderValue> {
        self.vals().skip(self.pos() as int)
    }

    pub closed spec fn wf(&self) -> bool {
        self.position <= self.values.len()
    }

    pub fn new(values: Vec<PlaceholderValue>) -> (r: Self)
        ensures
            r.wf(),
            r.vals() == values@,
            r.pos() == 0,
    {
        StatementBinder { position: 0, values }
    }

    /// Replaces a placeholder with the literal form of the next value.
    fn visit_value(&mut self, v: ValueNode) -> (r: ValueNode)
        requires
            old(self).wf(),
            old(self).pos() + value_count(v) <= old(self).vals().len(),
        ensures
            final(self).wf(),
            final(self).vals() == old(self).vals(),
            final(self).pos() == old(self).pos() + value_count(v),
            value_bound(v, r, old(self).remaining()),
    {
        if matches!(v, ValueNode::Placeholder(_)) {
            let lit = self.values[self.position].to_literal();
            self.position = self.position + 1;
            lit
        } else {
            v
        }
    }

    fn visit_expr(&mut self, e: ExprNode) -> (r: ExprNode)
        requires
            old(self).wf(),
            old(self).pos() + expr_count(e) <= old(self).vals().len(),
        ensures
            final(self).wf(),
            final(self).vals() == old(self).vals(),
            final(self).pos() == old(self).pos() + expr_count(e),
            expr_bound(e, r, old(self).remaining()),
        decreases e,
    {
        let ghost start = self.pos() as int;
        let ghost vs = self.vals();
        match e {
            ExprNode::Value(v) => ExprNode::Value(self.visit_value(v)),
            ExprNode::Nested(x) => ExprNode::Nested(Box::new(self.visit_expr(*x))),
            ExprNode::Between { expr, negated, low, high } => {
                let ghost (ce, cl) = (expr_count(*expr) as int, expr_count(*low) as int);
                let e2 = self.visit_expr(*expr);
                let l2 = self.visit_expr(*low);
                let h2 = self.visit_expr(*high);
                proof {
                    lemma_skip_skip(vs, start, ce);
                    lemma_skip_skip(vs, start, ce + cl);
                }
                ExprNode::Between { expr: Box::new(e2), negated, low: Box::new(l2), high: Box::new(h2) }
            },
            ExprNode::BinaryOp { left, op, right } => {
                let ghost cl = expr_count(*left) as int;
                let l2 = self.visit_expr(*left);
                let r2 = self.visit_expr(*right);
                proof {
                    lemma_skip_skip(vs, start, cl);
                }
                ExprNode::BinaryOp { left: Box::new(l2), op, right: Box::new(r2) }
            },
            other => other,
        }
    }

    fn visit_table_factor(&mut self, f: TableFactorNode) -> (r: TableFactorNode)
        requires
            old(self).wf(),
            old(self).pos() + factor_count(f) <= old(self).vals().len(),
        ensures
            final(self).wf(),
            final(self).vals() == old(self).vals(),
            final(self).pos() == old(self).pos() + factor_count(f),
            factor_bound(f, r, old(self).remaining()),
        decreases f,
    {
        match f {
            TableFactorNode::Derived { lateral, subquery, alias } => {
                let q2 = self.visit_query(*subquery);
                TableFactorNode::Derived { lateral, subquery: Box::new(q2), alias }
            },
            other => other,
        }
    }

    fn visit_joins(&mut self, joins: Vec<JoinNode>) -> (r: Vec<JoinNode>)
        requires
            old(self).wf(),
            old(self).pos() + joins_count(joins@) <= old(self).vals().len(),
        ensures
            final(self).wf(),
            final(self).vals() == old(self).vals(),
            final(self).pos() == old(self).pos() + joins_count(joins@),
            joins_bound(joins@, r@, old(self).remaining()),
        decreases joins,
    {
        let ghost orig = joins@;
        let ghost start = self.pos() as int;
        let ghost vs = self.vals();
        let mut rest = joins;
        let mut out: Vec<JoinNode> = Vec::new();
        while rest.len() > 0
            invariant
                out.len() + rest.len() == orig.len(),
                rest@ == orig.skip(out.len() as int),
                self.wf(),
                self.vals() == vs,
                start == old(self).pos(),
                vs == old(self).vals(),
                self.pos() == start + joins_count(orig.take(out.len() as int)),
                start + joins_count(orig) <= vs.len(),
                joins_bound(orig.take(out.len() as int), out@, vs.skip(start)),
                decreases_to!(joins => orig),
            decreases rest.len(),
        {
            let ghost i = out.len() as int;
            let ghost before = out@;
            let j = rest.remove(0);
            proof {
                assert(j == orig[i]);
                assert(orig.take(i + 1).drop_last() =~= orig.take(i));
                lemma_joins_prefix(orig, i + 1);
                lemma_skip_skip(vs, start, joins_count(orig.take(i)) as int);
            }
            let JoinNode { relation, join_operator } = j;
            let relation = self.visit_table_factor(relation);
            out.push(JoinNode { relation, join_operator });
            proof {
                assert(out@.drop_last() =~= before);
            }
        }
        proof {
            assert(orig.take(orig.len() as int) =~= orig);
        }
        out
    }

    fn visit_table_with_joins(&mut self, t: TableWithJoinsNode) -> (r: TableWithJoinsNode)
        requires
            old(self).wf(),
            old(self).pos() + twj_count(t) <= old(self).vals().len(),
        ensures
            final(self).wf(),
            final(self).vals() == old(self).vals(),
            final(self).pos() == old(self).pos() + twj_count(t),
            twj_bound(t, r, old(self).remaining()),
        decreases t,
    {
        let ghost start = self.pos() as int;
        let ghost vs = self.vals();
        let TableWithJoinsNode { relation, joins } = t;
        let ghost c = factor_count(relation) as int;
        let relation = self.visit_table_factor(relation);
        let joins = self.visit_joins(joins);
        proof {
            lemma_skip_skip(vs, start, c);
        }
        TableWithJoinsNode { relation, joins }
    }

    fn visit_from(&mut self, from: Vec<TableWithJoinsNode>) -> (r: Vec<TableWithJoinsNode>)
        requires
            old(self).wf(),
            old(self).pos() + twjs_count(from@) <= old(self).vals().len(),
        ensures
            final(self).wf(),
            final(self).vals() == old(self).vals(),
            final(self).pos() == old(self).pos() + twjs_count(from@),
            twjs_bound(from@, r@, old(self).remaining()),
        decreases from,
    {
        let ghost orig = from@;
        let ghost start = self.pos() as int;
        let ghost vs = self.vals();
        let mut rest = from;
        let mut out: Vec<TableWithJoinsNode> = Vec::new();
        while rest.len() > 0
            invariant
                out.len() + rest.len() == orig.len(),
                rest@ == orig.skip(out.len() as int),
                self.wf(),
                self.vals() == vs,
                start == old(self).pos(),
                vs == old(self).vals(),
                self.pos() == start + twjs_count(orig.take(out.len() as int)),
                start + twjs_count(orig) <= vs.len(),
                twjs_bound(orig.take(out.len() as int), out@, vs.skip(start)),
                decreases_to!(from => orig),
            decreases rest.len(),
        {
            let ghost i = out.len() as int;
            let ghost before = out@;
            let t = rest.remove(0);
            proof {
                assert(t == orig[i]);
                assert(orig.take(i + 1).drop_last() =~= orig.take(i));
                lemma_twjs_prefix(orig, i + 1);
                lemma_skip_skip(vs, start, twjs_count(orig.take(i)) as int);
            }
            let t2 = self.visit_table_with_joins(t);
            out.push(t2);
            proof {
                assert(out@.drop_last() =~= before);
            }
        }
        proof {
            assert(orig.take(orig.len() as int) =~= orig);
        }
        out
    }

    fn visit_select(&mut self, s: SelectNode) -> (r: SelectNode)
        requires
            old(self).wf(),
            old(self).pos() + select_count(s) <= old(self).vals().len(),
        ensures
            final(self).wf(),
            final(self).vals() == old(self).vals(),
            final(self).pos() == old(self).pos() + select_count(s),
            select_bound(s, r, old(self).remaining()),
        decreases s,
    {
        let ghost start = self.pos() as int;
        let ghost vs = self.vals();
        let SelectNode { selection, from, shell } = s;
        let ghost c = opt_expr_count(selection) as int;
        let selection = match selection {
            Some(x) => Some(self.visit_expr(x)),
            None => None,
        };
        let from = self.visit_from(from);
        proof {
            lemma_skip_skip(vs, start, c);
        }
        SelectNode { selection, from, shell }
    }

    fn visit_set_expr(&mut self, b: SetExprNode) -> (r: SetExprNode)
        requires
            old(self).wf(),
            old(self).pos() + set_expr_count(b) <= old(self).vals().len(),
        ensures
            final(self).wf(),
            final(self).vals() == old(self).vals(),
            final(self).pos() == old(self).pos() + set_expr_count(b),
            set_expr_bound(b, r, old(self).remaining()),
        decreases b,
    {
        let ghost start = self.pos() as int;
        let ghost vs = self.vals();
        match b {
            SetExprNode::Select(s) => SetExprNode::Select(Box::new(self.visit_select(*s))),
            SetExprNode::Query(q) => SetExprNode::Query(Box::new(self.visit_query(*q))),
            SetExprNode::SetOperation { op, all, left, right } => {
                let ghost c = set_expr_count(*left) as int;
                let l2 = self.visit_set_expr(*left);
                let r2 = self.visit_set_expr(*right);
                proof {
                    lemma_skip_skip(vs, start, c);
                }
                SetExprNode::SetOperation { op, all, left: Box::new(l2), right: Box::new(r2) }
            },
            other => other,
        }
    }

    fn visit_statement(&mut self, stmt: &mut StatementNode)
        requires
            old(self).wf(),
            old(self).pos() + statement_count(*old(stmt)) <= old(self).vals().len(),
        ensures
            final(self).wf(),
            final(self).vals() == old(self).vals(),
            final(self).pos() == old(self).pos() + statement_count(*old(stmt)),
            statement_bound(*old(stmt), *final(stmt), old(self).remaining()),
    {
        match stmt {
            StatementNode::Query(q) => {
                let mut body = SetExprNode::Other(empty_body());
                core::mem::swap(&mut q.body, &mut body);
                let body = self.visit_set_expr(body);
                q.body = body;
            },
            StatementNode::Other(_) => {},
        }
    }

    /// Replaces every placeholder that the walk finds in `stmt` with the literal form
    /// of the next value.
    ///
    /// The number of placeholders is checked against the values that remain before
    /// the statement is touched: where they differ, the statement is left as it was
    /// and the error says which side is short.
    pub fn bind(&mut self, stmt: &mut StatementNode) -> (r: Result<(), BindError>)
        requires
            old(self).wf(),
        ensures
            final(self).wf(),
            final(self).vals() == old(self).vals(),
            (statement_count(*old(stmt)) > old(self).remaining().len())
                <==> r == Err::<(), BindError>(BindError::InsufficientParameters),
            (statement_count(*old(stmt)) < old(self).remaining().len())
                <==> r == Err::<(), BindError>(BindError::ExcessParameters),
            r is Err ==> *final(stmt) == *old(stmt) && final(self).pos() == old(self).pos(),
            r is Ok ==> statement_bound(*old(stmt), *final(stmt), old(self).remaining()),
            r is Ok ==> final(self).pos() == final(self).vals().len(),
    {
        let remaining: usize = self.values.len() - self.position;
        let n = count_statement(stmt, remaining as u128 + 1);
        if n > remaining as u128 {
            return Err(BindError::InsufficientParameters);
        }
        if n < remaining as u128 {
            return Err(BindError::ExcessParameters);
        }
        self.visit_statement(stmt);
        Ok(())
    }

    fn visit_query(&mut self, q: QueryNode) -> (r: QueryNode)
        requires
            old(self).wf(),
            old(self).pos() + query_count(q) <= old(self).vals().len(),
        ensures
            final(self).wf(),
            final(self).vals() == old(self).vals(),
            final(self).pos() == old(self).pos() + query_count(q),
            query_bound(q, r, old(self).remaining()),
        decreases q,
    {
        let QueryNode { body, shell } = q;
        let body = self.visit_set_expr(body);
        QueryNode { body, shell }
    }
}

} // verus!
