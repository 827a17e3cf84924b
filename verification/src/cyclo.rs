//! The cyclomatic-complexity counter: one independent traversal of the
//! tree, counting decision points. The file-level complexity is one more
//! than the number of decision points: `if`, `for`, `for-in`/`for-of`,
//! `while`, `do-while`, non-default `case` labels, `catch` clauses,
//! ternary conditionals, and short-circuiting logical operator
//! occurrences (`&&`, `||`, `??`). Nested function bodies count within
//! the same single traversal.
use vstd::prelude::*;

use crate::ast::{BinOp, SourceUnit, Node};
use crate::halstead::{clip, sat_add};

verus! {

/// Whether one node is a decision point.
pub open spec fn is_decision(n: Node) -> bool {
    ||| n is Cond
    ||| n is IfStmt
    ||| n is ForStmt
    ||| n is ForInOf
    ||| n is WhileStmt
    ||| n is DoWhileStmt
    ||| n is CatchClause
    ||| (n matches Node::CaseClause { test, .. } && test is Some)
    ||| (n matches Node::Binary { op, .. } && (op == BinOp::LogicalAnd || op == BinOp::LogicalOr
        || op == BinOp::NullishCoalescing))
}


/// The number of decision points in a subtree.
pub open spec fn tree_decisions(n: Node) -> nat
    decreases n,
{
    (if is_decision(n) { 1nat } else { 0nat }) + match n {
        Node::Ident { .. } => 0nat,
        Node::This => 0nat,
        Node::Lit { .. } => 0nat,
        Node::Tpl { exprs, .. } => seq_decisions(exprs@),
        Node::TaggedTpl { tag, exprs, .. } => tree_decisions(*tag) + seq_decisions(exprs@),
        Node::Binary { left, right, .. } => tree_decisions(*left) + tree_decisions(*right),
        Node::Unary { arg, .. } => tree_decisions(*arg),
        Node::Assign { left, right, .. } => tree_decisions(*left) + tree_decisions(*right),
        Node::Update { arg, .. } => tree_decisions(*arg),
        Node::Call { callee, args } => tree_decisions(*callee) + seq_decisions(args@),
        Node::New { callee, args } => tree_decisions(*callee) + seq_decisions(args@),
        Node::Cond { test, cons, alt } => tree_decisions(*test) + tree_decisions(*cons) + tree_decisions(*alt),
        Node::SeqExpr { exprs } => seq_decisions(exprs@),
        Node::Arrow { params, body } => seq_decisions(params@) + seq_decisions(body@),
        Node::AwaitExpr { arg } => tree_decisions(*arg),
        Node::YieldExpr { arg, .. } => opt_decisions(arg),
        Node::SpreadEl { arg } => tree_decisions(*arg),
        Node::Member { obj, prop, .. } => tree_decisions(*obj) + tree_decisions(*prop),
        Node::MetaProp => 0nat,
        Node::NonNull { arg } => tree_decisions(*arg),
        Node::AsExpr { arg } => tree_decisions(*arg),
        Node::TypeAssertion { arg } => tree_decisions(*arg),
        Node::IfStmt { test, cons, alt } => tree_decisions(*test) + tree_decisions(*cons) + opt_decisions(alt),
        Node::ForStmt { init, test, update, body } => opt_decisions(init) + opt_decisions(test) + opt_decisions(update) + tree_decisions(*body),
        Node::ForInOf { left, right, body } => tree_decisions(*left) + tree_decisions(*right) + tree_decisions(*body),
        Node::WhileStmt { test, body } => tree_decisions(*test) + tree_decisions(*body),
        Node::DoWhileStmt { body, test } => tree_decisions(*body) + tree_decisions(*test),
        Node::SwitchStmt { disc, cases } => tree_decisions(*disc) + seq_decisions(cases@),
        Node::CaseClause { test, body } => opt_decisions(test) + seq_decisions(body@),
        Node::TryStmt { block, handler, finalizer } => seq_decisions(block@) + opt_decisions(handler) + seq_decisions(finalizer@),
        Node::CatchClause { param, body } => opt_decisions(param) + seq_decisions(body@),
        Node::Block { stmts } => seq_decisions(stmts@),
        Node::Return { arg } => opt_decisions(arg),
        Node::Break => 0nat,
        Node::Continue => 0nat,
        Node::Throw { arg } => tree_decisions(*arg),
        Node::FnDecl { params, body, .. } => seq_decisions(params@) + seq_decisions(body@),
        Node::ClassDecl { body, .. } => seq_decisions(body@),
        Node::Namespace { body, .. } => seq_decisions(body@),
        Node::ExportDecl { items } => seq_decisions(items@),
        Node::ImportDecl { names, .. } => seq_decisions(names@),
        Node::VarDecl { decls } => seq_decisions(decls@),
        Node::Declarator { name, init } => tree_decisions(*name) + opt_decisions(init),
        Node::MappedType => 0nat,
        Node::IndexedAccessType => 0nat,
        Node::TypeOperator { .. } => 0nat,
        Node::QualifiedName { left, right } => tree_decisions(*left) + tree_decisions(*right),
        Node::Group { children } => seq_decisions(children@),
    }
}

pub open spec fn opt_decisions(o: Option<Box<Node>>) -> nat
    decreases o,
{
    match o {
        Some(b) => tree_decisions(*b),
        None => 0nat,
    }
}

pub open spec fn seq_decisions(s: Seq<Node>) -> nat
    decreases s,
{
    if s.len() == 0 {
        0nat
    } else {
        seq_decisions(s.drop_last()) + tree_decisions(s.last())
    }
}

/// The file-level cyclomatic complexity of one compilation unit: the base
/// complexity `1` plus one per decision point.
pub open spec fn spec_cyclo(m: SourceUnit) -> usize {
    clip(1 + seq_decisions(m.body@) as int)
}

/// Counts the decision points of one subtree.
fn count_node(n: &Node) -> (r: usize)
    ensures
        r == clip(tree_decisions(*n) as int),
    decreases *n,
{
    match n {
        Node::Ident { .. }
        | Node::This
        | Node::Lit { .. }
        | Node::MetaProp
        | Node::Break
        | Node::Continue
        | Node::MappedType
        | Node::IndexedAccessType
        | Node::TypeOperator { .. } => 0,
        Node::Tpl { exprs, .. } => count_list(exprs),
        Node::TaggedTpl { tag, exprs, .. } => {
            let mut c: usize = 0;
            c = sat_add(c, count_node(&**tag));
            c = sat_add(c, count_list(exprs));
            proof {
                assert(c == clip(tree_decisions(*n) as int));
            }
            c
        }
        Node::Binary { op, left, right } => {
            let mut c: usize = if *op == BinOp::LogicalAnd || *op == BinOp::LogicalOr
                || *op == BinOp::NullishCoalescing {
                1
            } else {
                0
            };
            c = sat_add(c, count_node(&**left));
            c = sat_add(c, count_node(&**right));
            proof {
                assert(c == clip(tree_decisions(*n) as int));
            }
            c
        }
        Node::Unary { arg, .. } => count_node(&**arg),
        Node::Assign { left, right, .. } => {
            let mut c: usize = 0;
            c = sat_add(c, count_node(&**left));
            c = sat_add(c, count_node(&**right));
            proof {
                assert(c == clip(tree_decisions(*n) as int));
            }
            c
        }
        Node::Update { arg, .. } => count_node(&**arg),
        Node::Call { callee, args } => {
            let mut c: usize = 0;
            c = sat_add(c, count_node(&**callee));
            c = sat_add(c, count_list(args));
            proof {
                assert(c == clip(tree_decisions(*n) as int));
            }
            c
        }
        Node::New { callee, args } => {
            let mut c: usize = 0;
            c = sat_add(c, count_node(&**callee));
            c = sat_add(c, count_list(args));
            proof {
                assert(c == clip(tree_decisions(*n) as int));
            }
            c
        }
        Node::Cond { test, cons, alt } => {
            let mut c: usize = 1;
            c = sat_add(c, count_node(&**test));
            c = sat_add(c, count_node(&**cons));
            c = sat_add(c, count_node(&**alt));
            proof {
                assert(c == clip(tree_decisions(*n) as int));
            }
            c
        }
        Node::SeqExpr { exprs } => count_list(exprs),
        Node::Arrow { params, body } => {
            let mut c: usize = 0;
            c = sat_add(c, count_list(params));
            c = sat_add(c, count_list(body));
            proof {
                assert(c == clip(tree_decisions(*n) as int));
            }
            c
        }
        Node::AwaitExpr { arg } => count_node(&**arg),
        Node::YieldExpr { arg, .. } => count_opt(arg),
        Node::SpreadEl { arg } => count_node(&**arg),
        Node::Member { obj, prop, .. } => {
            let mut c: usize = 0;
            c = sat_add(c, count_node(&**obj));
            c = sat_add(c, count_node(&**prop));
            proof {
                assert(c == clip(tree_decisions(*n) as int));
            }
            c
        }
        Node::NonNull { arg } => count_node(&**arg),
        Node::AsExpr { arg } => count_node(&**arg),
        Node::TypeAssertion { arg } => count_node(&**arg),
        Node::IfStmt { test, cons, alt } => {
            let mut c: usize = 1;
            c = sat_add(c, count_node(&**test));
            c = sat_add(c, count_node(&**cons));
            c = sat_add(c, count_opt(alt));
            proof {
                assert(c == clip(tree_decisions(*n) as int));
            }
            c
        }
        Node::ForStmt { init, test, update, body } => {
            let mut c: usize = 1;
            c = sat_add(c, count_opt(init));
            c = sat_add(c, count_opt(test));
            c = sat_add(c, count_opt(update));
            c = sat_add(c, count_node(&**body));
            proof {
                assert(c == clip(tree_decisions(*n) as int));
            }
            c
        }
        Node::ForInOf { left, right, body } => {
            let mut c: usize = 1;
            c = sat_add(c, count_node(&**left));
            c = sat_add(c, count_node(&**right));
            c = sat_add(c, count_node(&**body));
            proof {
                assert(c == clip(tree_decisions(*n) as int));
            }
            c
        }
        Node::WhileStmt { test, body } => {
            let mut c: usize = 1;
            c = sat_add(c, count_node(&**test));
            c = sat_add(c, count_node(&**body));
            proof {
                assert(c == clip(tree_decisions(*n) as int));
            }
            c
        }
        Node::DoWhileStmt { body, test } => {
            let mut c: usize = 1;
            c = sat_add(c, count_node(&**body));
            c = sat_add(c, count_node(&**test));
            proof {
                assert(c == clip(tree_decisions(*n) as int));
            }
            c
        }
        Node::SwitchStmt { disc, cases } => {
            let mut c: usize = 0;
            c = sat_add(c, count_node(&**disc));
            c = sat_add(c, count_list(cases));
            proof {
                assert(c == clip(tree_decisions(*n) as int));
            }
            c
        }
        Node::CaseClause { test, body } => {
            let mut c: usize = if test.is_some() {
                1
            } else {
                0
            };
            c = sat_add(c, count_opt(test));
            c = sat_add(c, count_list(body));
            proof {
                assert(c == clip(tree_decisions(*n) as int));
            }
            c
        }
        Node::TryStmt { block, handler, finalizer } => {
            let mut c: usize = 0;
            c = sat_add(c, count_list(block));
            c = sat_add(c, count_opt(handler));
            c = sat_add(c, count_list(finalizer));
            proof {
                assert(c == clip(tree_decisions(*n) as int));
            }
            c
        }
        Node::CatchClause { param, body } => {
            let mut c: usize = 1;
            c = sat_add(c, count_opt(param));
            c = sat_add(c, count_list(body));
            proof {
                assert(c == clip(tree_decisions(*n) as int));
            }
            c
        }
        Node::Block { stmts } => count_list(stmts),
        Node::Return { arg } => count_opt(arg),
        Node::Throw { arg } => count_node(&**arg),
        Node::FnDecl { params, body, .. } => {
            let mut c: usize = 0;
            c = sat_add(c, count_list(params));
            c = sat_add(c, count_list(body));
            proof {
                assert(c == clip(tree_decisions(*n) as int));
            }
            c
        }
        Node::ClassDecl { body, .. } => count_list(body),
        Node::Namespace { body, .. } => count_list(body),
        Node::ExportDecl { items } => count_list(items),
        Node::ImportDecl { names, .. } => count_list(names),
        Node::VarDecl { decls } => count_list(decls),
        Node::Declarator { name, init } => {
            let mut c: usize = 0;
            c = sat_add(c, count_node(&**name));
            c = sat_add(c, count_opt(init));
            proof {
                assert(c == clip(tree_decisions(*n) as int));
            }
            c
        }
        Node::QualifiedName { left, right } => {
            let mut c: usize = 0;
            c = sat_add(c, count_node(&**left));
            c = sat_add(c, count_node(&**right));
            proof {
                assert(c == clip(tree_decisions(*n) as int));
            }
            c
        }
        Node::Group { children } => count_list(children),
    }
}

/// Counts the decision points of an optional child.
fn count_opt(o: &Option<Box<Node>>) -> (r: usize)
    ensures
        r == clip(opt_decisions(*o) as int),
    decreases *o,
{
    match o {
        Some(b) => count_node(&**b),
        None => 0,
    }
}

/// Counts the decision points of a list of children.
#[verifier::loop_isolation(false)]
fn count_list(v: &Vec<Node>) -> (r: usize)
    ensures
        r == clip(seq_decisions(v@) as int),
    decreases v@,
{
    let mut c: usize = 0;
    let mut i: usize = 0;
    while i < v.len()
        invariant
            i <= v.len(),
            c == clip(seq_decisions(v@.subrange(0, i as int)) as int),
        decreases v.len() - i,
    {
        let d = count_node(&v[i]);
        c = sat_add(c, d);
        proof {
            assert(v@.subrange(0, i as int + 1).drop_last() =~= v@.subrange(0, i as int));
            assert(v@.subrange(0, i as int + 1).last() == v@[i as int]);
        }
        i = i + 1;
    }
    proof {
        assert(v@.subrange(0, v.len() as int) =~= v@);
    }
    c
}

/// Walks the whole tree once and returns the file-level cyclomatic
/// complexity, one aggregate number for the compilation unit, at least 1.
pub fn cyclomatic_complexity(module: &SourceUnit) -> (r: usize)
    ensures
        r == spec_cyclo(*module),
        r >= 1,
{
    let d = count_list(&module.body);
    sat_add(1, d)
}

/// A tree with no branching constructs yields the base complexity `1`;
/// in particular an empty compilation unit does.
pub proof fn lemma_empty_module_cyclo(m: SourceUnit)
    requires
        m.body@.len() == 0,
    ensures
        spec_cyclo(m) == 1,
{
}

/// The counter is pure: the complexity is a function of the tree alone,
/// so re-running it on an unchanged tree yields an identical result.
pub proof fn lemma_cyclo_deterministic(m1: SourceUnit, m2: SourceUnit)
    requires
        m1 == m2,
    ensures
        spec_cyclo(m1) == spec_cyclo(m2),
{
}

} // verus!
