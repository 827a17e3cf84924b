//! The Halstead metrics engine: the token classifier and the accumulator
//! that reduces one traversal of a syntax tree into the standard Halstead
//! quantities.
//!
//! The model is a pair of token streams. `node_ops` / `node_opnds` form the
//! classification table: the tokens a single node directly contributes,
//! not counting its children. `ops_tree` / `opnds_tree` extend the table
//! over whole subtrees in visit order. Composite conventions — a call's
//! callee counting as an operand when it is a bare name, a `case` label's
//! literal counting as an operand — arise from the children themselves:
//! every identifier reference and literal is an operand wherever it
//! stands, so the table stays per-node and total.
//!
//! Two tokens are the same unique token exactly when their lexeme keys are
//! equal, wherever and however often they occur; every occurrence counts
//! towards the totals either way. Comments and whitespace never reach the
//! tree, so they produce no tokens.
use vstd::prelude::*;

use crate::ast::{BinOp, SourceUnit, Node, OperandKind, TypeOpKind, UnaryOp, AssignOp, UpdateOp};
use crate::structs::HalsteadMetrics;

verus! {

broadcast use {
    vstd::seq_lib::lemma_seq_contains_after_push,
    vstd::seq_lib::lemma_seq_empty_contains_nothing,
    vstd::seq_lib::lemma_seq_concat_contains_all_elements,
};

/// The lexeme key of an operator token. Each variant stands for one
/// distinct operator lexeme: the symbol itself for binary, unary,
/// assignment and update operators, the introducing keyword or symbol for
/// declarations (`function`, `class`, `namespace`, `export`, `import`),
/// the composite `?:` for a ternary, a call or `new` marker, `.`/`?.` for
/// member access, `${}` for a template interpolation boundary, and the
/// keyword itself for `await`, `yield`, `switch`, `case`, `default` and
/// the type-level operators.
#[derive(Clone, Copy, PartialEq, Eq, Structural, Debug)]
pub enum OpKey {
    Bin(BinOp),
    Un(UnaryOp),
    Asn(AssignOp),
    Upd(UpdateOp),
    Call,
    New,
    Ternary,
    Comma,
    Arrow,
    Await,
    Yield,
    YieldStar,
    Spread,
    Dot,
    OptDot,
    MetaProp,
    NonNull,
    As,
    TypeAssert,
    TplBoundary,
    TaggedTpl,
    Switch,
    Case,
    Default,
    Function,
    Class,
    Namespace,
    Export,
    Import,
    Mapped,
    IndexedAccess,
    TypeOp(TypeOpKind),
    QualifiedDot,
}

/// The lexeme key of an operand token: its category and its textual part.
pub struct OperandKey {
    pub kind: OperandKind,
    pub text: String,
}

/// The mathematical value of an operand key: the category together with
/// the character sequence of the textual part.
pub ghost struct OperandKeyV {
    pub kind: OperandKind,
    pub text: Seq<char>,
}

impl View for OperandKey {
    type V = OperandKeyV;

    open spec fn view(&self) -> OperandKeyV {
        OperandKeyV { kind: self.kind, text: self.text@ }
    }
}

impl PartialEq for OperandKey {
    fn eq(&self, other: &OperandKey) -> (r: bool) {
        self.kind == other.kind && self.text == other.text
    }
}

impl vstd::std_specs::cmp::PartialEqSpecImpl for OperandKey {
    open spec fn obeys_eq_spec() -> bool {
        true
    }

    open spec fn eq_spec(&self, other: &OperandKey) -> bool {
        self@ == other@
    }
}

/// The mathematical values of a stream of operand keys.
pub open spec fn key_views(s: Seq<OperandKey>) -> Seq<OperandKeyV> {
    s.map_values(|k: OperandKey| k@)
}

/// `k` interpolation-boundary operator tokens, one per interpolated
/// expression of a template literal.
pub open spec fn boundary_ops(k: nat) -> Seq<OpKey> {
    Seq::new(k, |i: int| OpKey::TplBoundary)
}

/// One operand key per static string segment of a template literal.
pub open spec fn quasi_operands(qs: Seq<String>) -> Seq<OperandKeyV> {
    qs.map_values(|q: String| OperandKeyV { kind: OperandKind::TplStr, text: q@ })
}

/// Caps an unbounded count at the largest representable value. Every
/// physically realizable tree stays below the cap, where `clip` is the
/// identity.
pub open spec fn clip(n: int) -> usize {
    if n > usize::MAX {
        usize::MAX
    } else {
        n as usize
    }
}

/// Saturating addition, exactly `clip` of the mathematical sum.
pub fn sat_add(a: usize, b: usize) -> (r: usize)
    ensures
        r == clip(a + b),
{
    if a > usize::MAX - b {
        usize::MAX
    } else {
        a + b
    }
}

/// The classification table, operator side: the operator tokens one node
/// directly contributes, not counting its children.
pub open spec fn node_ops(n: Node) -> Seq<OpKey> {
    match n {
        Node::Ident { .. } => Seq::empty(),
        Node::This => Seq::empty(),
        Node::Lit { .. } => Seq::empty(),
        Node::Tpl { exprs, .. } => boundary_ops(exprs@.len()),
        Node::TaggedTpl { exprs, .. } => seq![OpKey::TaggedTpl] + boundary_ops(exprs@.len()),
        Node::Binary { op, .. } => seq![OpKey::Bin(op)],
        Node::Unary { op, .. } => seq![OpKey::Un(op)],
        Node::Assign { op, .. } => seq![OpKey::Asn(op)],
        Node::Update { op, .. } => seq![OpKey::Upd(op)],
        Node::Call { .. } => seq![OpKey::Call],
        Node::New { .. } => seq![OpKey::New],
        Node::Cond { .. } => seq![OpKey::Ternary],
        Node::SeqExpr { .. } => seq![OpKey::Comma],
        Node::Arrow { .. } => seq![OpKey::Arrow],
        Node::AwaitExpr { .. } => seq![OpKey::Await],
        Node::YieldExpr { delegate, .. } => (if delegate { seq![OpKey::YieldStar] } else { seq![OpKey::Yield] }),
        Node::SpreadEl { .. } => seq![OpKey::Spread],
        Node::Member { optional, .. } => (if optional { seq![OpKey::OptDot] } else { seq![OpKey::Dot] }),
        Node::MetaProp => seq![OpKey::MetaProp],
        Node::NonNull { .. } => seq![OpKey::NonNull],
        Node::AsExpr { .. } => seq![OpKey::As],
        Node::TypeAssertion { .. } => seq![OpKey::TypeAssert],
        Node::IfStmt { .. } => Seq::empty(),
        Node::ForStmt { .. } => Seq::empty(),
        Node::ForInOf { .. } => Seq::empty(),
        Node::WhileStmt { .. } => Seq::empty(),
        Node::DoWhileStmt { .. } => Seq::empty(),
        Node::SwitchStmt { .. } => seq![OpKey::Switch],
        Node::CaseClause { test, .. } => (if test is Some { seq![OpKey::Case] } else { seq![OpKey::Default] }),
        Node::TryStmt { .. } => Seq::empty(),
        Node::CatchClause { .. } => Seq::empty(),
        Node::Block { .. } => Seq::empty(),
        Node::Return { .. } => Seq::empty(),
        Node::Break => Seq::empty(),
        Node::Continue => Seq::empty(),
        Node::Throw { .. } => Seq::empty(),
        Node::FnDecl { .. } => seq![OpKey::Function],
        Node::ClassDecl { .. } => seq![OpKey::Class],
        Node::Namespace { .. } => seq![OpKey::Namespace],
        Node::ExportDecl { .. } => seq![OpKey::Export],
        Node::ImportDecl { .. } => seq![OpKey::Import],
        Node::VarDecl { .. } => Seq::empty(),
        Node::Declarator { .. } => Seq::empty(),
        Node::MappedType => seq![OpKey::Mapped],
        Node::IndexedAccessType => seq![OpKey::IndexedAccess],
        Node::TypeOperator { op } => seq![OpKey::TypeOp(op)],
        Node::QualifiedName { .. } => seq![OpKey::QualifiedDot],
        Node::Group { .. } => Seq::empty(),
    }
}

/// The classification table, operand side: the operand keys one node
/// directly contributes, not counting its children.
pub open spec fn node_opnds(n: Node) -> Seq<OperandKeyV> {
    match n {
        Node::Ident { name } => seq![OperandKeyV { kind: OperandKind::Ident, text: name@ }],
        Node::This => seq![OperandKeyV { kind: OperandKind::This, text: Seq::empty() }],
        Node::Lit { kind, value } => seq![OperandKeyV { kind: kind, text: value@ }],
        Node::Tpl { quasis, .. } => quasi_operands(quasis@),
        Node::TaggedTpl { quasis, .. } => quasi_operands(quasis@),
        Node::Binary { .. } => Seq::empty(),
        Node::Unary { .. } => Seq::empty(),
        Node::Assign { .. } => Seq::empty(),
        Node::Update { .. } => Seq::empty(),
        Node::Call { .. } => Seq::empty(),
        Node::New { .. } => Seq::empty(),
        Node::Cond { .. } => Seq::empty(),
        Node::SeqExpr { .. } => Seq::empty(),
        Node::Arrow { .. } => Seq::empty(),
        Node::AwaitExpr { .. } => Seq::empty(),
        Node::YieldExpr { .. } => Seq::empty(),
        Node::SpreadEl { .. } => Seq::empty(),
        Node::Member { .. } => Seq::empty(),
        Node::MetaProp => Seq::empty(),
        Node::NonNull { .. } => Seq::empty(),
        Node::AsExpr { .. } => Seq::empty(),
        Node::TypeAssertion { .. } => Seq::empty(),
        Node::IfStmt { .. } => Seq::empty(),
        Node::ForStmt { .. } => Seq::empty(),
        Node::ForInOf { .. } => Seq::empty(),
        Node::WhileStmt { .. } => Seq::empty(),
        Node::DoWhileStmt { .. } => Seq::empty(),
        Node::SwitchStmt { .. } => Seq::empty(),
        Node::CaseClause { .. } => Seq::empty(),
        Node::TryStmt { .. } => Seq::empty(),
        Node::CatchClause { .. } => Seq::empty(),
        Node::Block { .. } => Seq::empty(),
        Node::Return { .. } => Seq::empty(),
        Node::Break => Seq::empty(),
        Node::Continue => Seq::empty(),
        Node::Throw { .. } => Seq::empty(),
        Node::FnDecl { name, .. } => (match name { Some(nm) => seq![OperandKeyV { kind: OperandKind::Ident, text: nm@ }], None => Seq::empty() }),
        Node::ClassDecl { name, .. } => (match name { Some(nm) => seq![OperandKeyV { kind: OperandKind::Ident, text: nm@ }], None => Seq::empty() }),
        Node::Namespace { name, .. } => seq![OperandKeyV { kind: OperandKind::Ident, text: name@ }],
        Node::ExportDecl { .. } => Seq::empty(),
        Node::ImportDecl { source, .. } => seq![OperandKeyV { kind: OperandKind::Str, text: source@ }],
        Node::VarDecl { .. } => Seq::empty(),
        Node::Declarator { .. } => Seq::empty(),
        Node::MappedType => Seq::empty(),
        Node::IndexedAccessType => Seq::empty(),
        Node::TypeOperator { .. } => Seq::empty(),
        Node::QualifiedName { .. } => Seq::empty(),
        Node::Group { .. } => Seq::empty(),
    }
}

/// All operator tokens of a subtree, in visit order.
pub open spec fn ops_tree(n: Node) -> Seq<OpKey>
    decreases n,
{
    match n {
        Node::Ident { .. } => node_ops(n),
        Node::This => node_ops(n),
        Node::Lit { .. } => node_ops(n),
        Node::Tpl { exprs, .. } => node_ops(n) + ops_seq(exprs@),
        Node::TaggedTpl { tag, exprs, .. } => node_ops(n) + ops_tree(*tag) + ops_seq(exprs@),
        Node::Binary { left, right, .. } => node_ops(n) + ops_tree(*left) + ops_tree(*right),
        Node::Unary { arg, .. } => node_ops(n) + ops_tree(*arg),
        Node::Assign { left, right, .. } => node_ops(n) + ops_tree(*left) + ops_tree(*right),
        Node::Update { arg, .. } => node_ops(n) + ops_tree(*arg),
        Node::Call { callee, args } => node_ops(n) + ops_tree(*callee) + ops_seq(args@),
        Node::New { callee, args } => node_ops(n) + ops_tree(*callee) + ops_seq(args@),
        Node::Cond { test, cons, alt } => node_ops(n) + ops_tree(*test) + ops_tree(*cons) + ops_tree(*alt),
        Node::SeqExpr { exprs } => node_ops(n) + ops_seq(exprs@),
        Node::Arrow { params, body } => node_ops(n) + ops_seq(params@) + ops_seq(body@),
        Node::AwaitExpr { arg } => node_ops(n) + ops_tree(*arg),
        Node::YieldExpr { arg, .. } => node_ops(n) + ops_opt(arg),
        Node::SpreadEl { arg } => node_ops(n) + ops_tree(*arg),
        Node::Member { obj, prop, .. } => node_ops(n) + ops_tree(*obj) + ops_tree(*prop),
        Node::MetaProp => node_ops(n),
        Node::NonNull { arg } => node_ops(n) + ops_tree(*arg),
        Node::AsExpr { arg } => node_ops(n) + ops_tree(*arg),
        Node::TypeAssertion { arg } => node_ops(n) + ops_tree(*arg),
        Node::IfStmt { test, cons, alt } => node_ops(n) + ops_tree(*test) + ops_tree(*cons) + ops_opt(alt),
        Node::ForStmt { init, test, update, body } => node_ops(n) + ops_opt(init) + ops_opt(test) + ops_opt(update) + ops_tree(*body),
        Node::ForInOf { left, right, body } => node_ops(n) + ops_tree(*left) + ops_tree(*right) + ops_tree(*body),
        Node::WhileStmt { test, body } => node_ops(n) + ops_tree(*test) + ops_tree(*body),
        Node::DoWhileStmt { body, test } => node_ops(n) + ops_tree(*body) + ops_tree(*test),
        Node::SwitchStmt { disc, cases } => node_ops(n) + ops_tree(*disc) + ops_seq(cases@),
        Node::CaseClause { test, body } => node_ops(n) + ops_opt(test) + ops_seq(body@),
        Node::TryStmt { block, handler, finalizer } => node_ops(n) + ops_seq(block@) + ops_opt(handler) + ops_seq(finalizer@),
        Node::CatchClause { param, body } => node_ops(n) + ops_opt(param) + ops_seq(body@),
        Node::Block { stmts } => node_ops(n) + ops_seq(stmts@),
        Node::Return { arg } => node_ops(n) + ops_opt(arg),
        Node::Break => node_ops(n),
        Node::Continue => node_ops(n),
        Node::Throw { arg } => node_ops(n) + ops_tree(*arg),
        Node::FnDecl { params, body, .. } => node_ops(n) + ops_seq(params@) + ops_seq(body@),
        Node::ClassDecl { body, .. } => node_ops(n) + ops_seq(body@),
        Node::Namespace { body, .. } => node_ops(n) + ops_seq(body@),
        Node::ExportDecl { items } => node_ops(n) + ops_seq(items@),
        Node::ImportDecl { names, .. } => node_ops(n) + ops_seq(names@),
        Node::VarDecl { decls } => node_ops(n) + ops_seq(decls@),
        Node::Declarator { name, init } => node_ops(n) + ops_tree(*name) + ops_opt(init),
        Node::MappedType => node_ops(n),
        Node::IndexedAccessType => node_ops(n),
        Node::TypeOperator { .. } => node_ops(n),
        Node::QualifiedName { left, right } => node_ops(n) + ops_tree(*left) + ops_tree(*right),
        Node::Group { children } => node_ops(n) + ops_seq(children@),
    }
}

pub open spec fn ops_opt(o: Option<Box<Node>>) -> Seq<OpKey>
    decreases o,
{
    match o {
        Some(b) => ops_tree(*b),
        None => Seq::empty(),
    }
}

pub open spec fn ops_seq(s: Seq<Node>) -> Seq<OpKey>
    decreases s,
{
    if s.len() == 0 {
        Seq::empty()
    } else {
        ops_seq(s.drop_last()) + ops_tree(s.last())
    }
}

/// All operand keys of a subtree, in visit order.
pub open spec fn opnds_tree(n: Node) -> Seq<OperandKeyV>
    decreases n,
{
    match n {
        Node::Ident { .. } => node_opnds(n),
        Node::This => node_opnds(n),
        Node::Lit { .. } => node_opnds(n),
        Node::Tpl { exprs, .. } => node_opnds(n) + opnds_seq(exprs@),
        Node::TaggedTpl { tag, exprs, .. } => node_opnds(n) + opnds_tree(*tag) + opnds_seq(exprs@),
        Node::Binary { left, right, .. } => node_opnds(n) + opnds_tree(*left) + opnds_tree(*right),
        Node::Unary { arg, .. } => node_opnds(n) + opnds_tree(*arg),
        Node::Assign { left, right, .. } => node_opnds(n) + opnds_tree(*left) + opnds_tree(*right),
        Node::Update { arg, .. } => node_opnds(n) + opnds_tree(*arg),
        Node::Call { callee, args } => node_opnds(n) + opnds_tree(*callee) + opnds_seq(args@),
        Node::New { callee, args } => node_opnds(n) + opnds_tree(*callee) + opnds_seq(args@),
        Node::Cond { test, cons, alt } => node_opnds(n) + opnds_tree(*test) + opnds_tree(*cons) + opnds_tree(*alt),
        Node::SeqExpr { exprs } => node_opnds(n) + opnds_seq(exprs@),
        Node::Arrow { params, body } => node_opnds(n) + opnds_seq(params@) + opnds_seq(body@),
        Node::AwaitExpr { arg } => node_opnds(n) + opnds_tree(*arg),
        Node::YieldExpr { arg, .. } => node_opnds(n) + opnds_opt(arg),
        Node::SpreadEl { arg } => node_opnds(n) + opnds_tree(*arg),
        Node::Member { obj, prop, .. } => node_opnds(n) + opnds_tree(*obj) + opnds_tree(*prop),
        Node::MetaProp => node_opnds(n),
        Node::NonNull { arg } => node_opnds(n) + opnds_tree(*arg),
        Node::AsExpr { arg } => node_opnds(n) + opnds_tree(*arg),
        Node::TypeAssertion { arg } => node_opnds(n) + opnds_tree(*arg),
        Node::IfStmt { test, cons, alt } => node_opnds(n) + opnds_tree(*test) + opnds_tree(*cons) + opnds_opt(alt),
        Node::ForStmt { init, test, update, body } => node_opnds(n) + opnds_opt(init) + opnds_opt(test) + opnds_opt(update) + opnds_tree(*body),
        Node::ForInOf { left, right, body } => node_opnds(n) + opnds_tree(*left) + opnds_tree(*right) + opnds_tree(*body),
        Node::WhileStmt { test, body } => node_opnds(n) + opnds_tree(*test) + opnds_tree(*body),
        Node::DoWhileStmt { body, test } => node_opnds(n) + opnds_tree(*body) + opnds_tree(*test),
        Node::SwitchStmt { disc, cases } => node_opnds(n) + opnds_tree(*disc) + opnds_seq(cases@),
        Node::CaseClause { test, body } => node_opnds(n) + opnds_opt(test) + opnds_seq(body@),
        Node::TryStmt { block, handler, finalizer } => node_opnds(n) + opnds_seq(block@) + opnds_opt(handler) + opnds_seq(finalizer@),
        Node::CatchClause { param, body } => node_opnds(n) + opnds_opt(param) + opnds_seq(body@),
        Node::Block { stmts } => node_opnds(n) + opnds_seq(stmts@),
        Node::Return { arg } => node_opnds(n) + opnds_opt(arg),
        Node::Break => node_opnds(n),
        Node::Continue => node_opnds(n),
        Node::Throw { arg } => node_opnds(n) + opnds_tree(*arg),
        Node::FnDecl { params, body, .. } => node_opnds(n) + opnds_seq(params@) + opnds_seq(body@),
        Node::ClassDecl { body, .. } => node_opnds(n) + opnds_seq(body@),
        Node::Namespace { body, .. } => node_opnds(n) + opnds_seq(body@),
        Node::ExportDecl { items } => node_opnds(n) + opnds_seq(items@),
        Node::ImportDecl { names, .. } => node_opnds(n) + opnds_seq(names@),
        Node::VarDecl { decls } => node_opnds(n) + opnds_seq(decls@),
        Node::Declarator { name, init } => node_opnds(n) + opnds_tree(*name) + opnds_opt(init),
        Node::MappedType => node_opnds(n),
        Node::IndexedAccessType => node_opnds(n),
        Node::TypeOperator { .. } => node_opnds(n),
        Node::QualifiedName { left, right } => node_opnds(n) + opnds_tree(*left) + opnds_tree(*right),
        Node::Group { children } => node_opnds(n) + opnds_seq(children@),
    }
}

pub open spec fn opnds_opt(o: Option<Box<Node>>) -> Seq<OperandKeyV>
    decreases o,
{
    match o {
        Some(b) => opnds_tree(*b),
        None => Seq::empty(),
    }
}

pub open spec fn opnds_seq(s: Seq<Node>) -> Seq<OperandKeyV>
    decreases s,
{
    if s.len() == 0 {
        Seq::empty()
    } else {
        opnds_seq(s.drop_last()) + opnds_tree(s.last())
    }
}

/// The executable token classifier: appends the tokens that `n` itself
/// contributes (per the classification table) to the two token streams.
#[verifier::loop_isolation(false)]
fn classify_node(n: &Node, ops: &mut Vec<OpKey>, opnds: &mut Vec<OperandKey>)
    ensures
        final(ops)@ == old(ops)@ + node_ops(*n),
        key_views(final(opnds)@) == key_views(old(opnds)@) + node_opnds(*n),
{
    match n {
        Node::Ident { name } => {
            opnds.push(OperandKey { kind: OperandKind::Ident, text: name.clone() });
            proof {
                assert(ops@ =~= old(ops)@ + node_ops(*n));
                assert(key_views(opnds@) =~= key_views(old(opnds)@) + node_opnds(*n));
            }
        }
        Node::This => {
            opnds.push(OperandKey { kind: OperandKind::This, text: String::new() });
            proof {
                assert(ops@ =~= old(ops)@ + node_ops(*n));
                assert(key_views(opnds@) =~= key_views(old(opnds)@) + node_opnds(*n));
            }
        }
        Node::Lit { kind, value } => {
            opnds.push(OperandKey { kind: *kind, text: value.clone() });
            proof {
                assert(ops@ =~= old(ops)@ + node_ops(*n));
                assert(key_views(opnds@) =~= key_views(old(opnds)@) + node_opnds(*n));
            }
        }
        Node::Tpl { quasis, exprs } => {
            let ghost ops_before = ops@;
            let mut i: usize = 0;
            while i < exprs.len()
                invariant
                    i <= exprs.len(),
                    ops@ == ops_before + boundary_ops(i as nat),
                decreases exprs.len() - i,
            {
                ops.push(OpKey::TplBoundary);
                proof {
                    assert(ops@ =~= ops_before + boundary_ops((i + 1) as nat));
                }
                i = i + 1;
            }
            let ghost opnds_before = key_views(opnds@);
            let mut j: usize = 0;
            while j < quasis.len()
                invariant
                    j <= quasis.len(),
                    key_views(opnds@) == opnds_before + quasi_operands(quasis@.subrange(0, j as int)),
                decreases quasis.len() - j,
            {
                let ghost pre = opnds@;
                opnds.push(OperandKey { kind: OperandKind::TplStr, text: quasis[j].clone() });
                proof {
                    assert(quasi_operands(quasis@.subrange(0, j as int + 1)) =~= quasi_operands(
                        quasis@.subrange(0, j as int),
                    ).push(OperandKeyV { kind: OperandKind::TplStr, text: quasis@[j as int]@ }));
                    assert(key_views(opnds@) =~= key_views(pre).push(
                        OperandKeyV { kind: OperandKind::TplStr, text: quasis@[j as int]@ },
                    ));
                    assert(key_views(opnds@) =~= opnds_before + quasi_operands(
                        quasis@.subrange(0, j as int + 1),
                    ));
                }
                j = j + 1;
            }
            proof {
                assert(quasis@.subrange(0, quasis@.len() as int) =~= quasis@);
            }
            proof {
                assert(ops@ =~= old(ops)@ + node_ops(*n));
                assert(key_views(opnds@) =~= key_views(old(opnds)@) + node_opnds(*n));
            }
        }
        Node::TaggedTpl { quasis, exprs, .. } => {
            ops.push(OpKey::TaggedTpl);
            let ghost ops_before = ops@;
            let mut i: usize = 0;
            while i < exprs.len()
                invariant
                    i <= exprs.len(),
                    ops@ == ops_before + boundary_ops(i as nat),
                decreases exprs.len() - i,
            {
                ops.push(OpKey::TplBoundary);
                proof {
                    assert(ops@ =~= ops_before + boundary_ops((i + 1) as nat));
                }
                i = i + 1;
            }
            let ghost opnds_before = key_views(opnds@);
            let mut j: usize = 0;
            while j < quasis.len()
                invariant
                    j <= quasis.len(),
                    key_views(opnds@) == opnds_before + quasi_operands(quasis@.subrange(0, j as int)),
                decreases quasis.len() - j,
            {
                let ghost pre = opnds@;
                opnds.push(OperandKey { kind: OperandKind::TplStr, text: quasis[j].clone() });
                proof {
                    assert(quasi_operands(quasis@.subrange(0, j as int + 1)) =~= quasi_operands(
                        quasis@.subrange(0, j as int),
                    ).push(OperandKeyV { kind: OperandKind::TplStr, text: quasis@[j as int]@ }));
                    assert(key_views(opnds@) =~= key_views(pre).push(
                        OperandKeyV { kind: OperandKind::TplStr, text: quasis@[j as int]@ },
                    ));
                    assert(key_views(opnds@) =~= opnds_before + quasi_operands(
                        quasis@.subrange(0, j as int + 1),
                    ));
                }
                j = j + 1;
            }
            proof {
                assert(quasis@.subrange(0, quasis@.len() as int) =~= quasis@);
            }
            proof {
                assert(ops@ =~= old(ops)@ + node_ops(*n));
                assert(key_views(opnds@) =~= key_views(old(opnds)@) + node_opnds(*n));
            }
        }
        Node::Binary { op, .. } => {
            ops.push(OpKey::Bin(*op));
            proof {
                assert(ops@ =~= old(ops)@ + node_ops(*n));
                assert(key_views(opnds@) =~= key_views(old(opnds)@) + node_opnds(*n));
            }
        }
        Node::Unary { op, .. } => {
            ops.push(OpKey::Un(*op));
            proof {
                assert(ops@ =~= old(ops)@ + node_ops(*n));
                assert(key_views(opnds@) =~= key_views(old(opnds)@) + node_opnds(*n));
            }
        }
        Node::Assign { op, .. } => {
            ops.push(OpKey::Asn(*op));
            proof {
                assert(ops@ =~= old(ops)@ + node_ops(*n));
                assert(key_views(opnds@) =~= key_views(old(opnds)@) + node_opnds(*n));
            }
        }
        Node::Update { op, .. } => {
            ops.push(OpKey::Upd(*op));
            proof {
                assert(ops@ =~= old(ops)@ + node_ops(*n));
                assert(key_views(opnds@) =~= key_views(old(opnds)@) + node_opnds(*n));
            }
        }
        Node::Call { .. } => {
            ops.push(OpKey::Call);
            proof {
                assert(ops@ =~= old(ops)@ + node_ops(*n));
                assert(key_views(opnds@) =~= key_views(old(opnds)@) + node_opnds(*n));
            }
        }
        Node::New { .. } => {
            ops.push(OpKey::New);
            proof {
                assert(ops@ =~= old(ops)@ + node_ops(*n));
                assert(key_views(opnds@) =~= key_views(old(opnds)@) + node_opnds(*n));
            }
        }
        Node::Cond { .. } => {
            ops.push(OpKey::Ternary);
            proof {
                assert(ops@ =~= old(ops)@ + node_ops(*n));
                assert(key_views(opnds@) =~= key_views(old(opnds)@) + node_opnds(*n));
            }
        }
        Node::SeqExpr { .. } => {
            ops.push(OpKey::Comma);
            proof {
                assert(ops@ =~= old(ops)@ + node_ops(*n));
                assert(key_views(opnds@) =~= key_views(old(opnds)@) + node_opnds(*n));
            }
        }
        Node::Arrow { .. } => {
            ops.push(OpKey::Arrow);
            proof {
                assert(ops@ =~= old(ops)@ + node_ops(*n));
                assert(key_views(opnds@) =~= key_views(old(opnds)@) + node_opnds(*n));
            }
        }
        Node::AwaitExpr { .. } => {
            ops.push(OpKey::Await);
            proof {
                assert(ops@ =~= old(ops)@ + node_ops(*n));
                assert(key_views(opnds@) =~= key_views(old(opnds)@) + node_opnds(*n));
            }
        }
        Node::YieldExpr { delegate, .. } => {
            if *delegate {
                ops.push(OpKey::YieldStar);
            } else {
                ops.push(OpKey::Yield);
            }
            proof {
                assert(ops@ =~= old(ops)@ + node_ops(*n));
                assert(key_views(opnds@) =~= key_views(old(opnds)@) + node_opnds(*n));
            }
        }
        Node::SpreadEl { .. } => {
            ops.push(OpKey::Spread);
            proof {
                assert(ops@ =~= old(ops)@ + node_ops(*n));
                assert(key_views(opnds@) =~= key_views(old(opnds)@) + node_opnds(*n));
            }
        }
        Node::Member { optional, .. } => {
            if *optional {
                ops.push(OpKey::OptDot);
            } else {
                ops.push(OpKey::Dot);
            }
            proof {
                assert(ops@ =~= old(ops)@ + node_ops(*n));
                assert(key_views(opnds@) =~= key_views(old(opnds)@) + node_opnds(*n));
            }
        }
        Node::MetaProp => {
            ops.push(OpKey::MetaProp);
            proof {
                assert(ops@ =~= old(ops)@ + node_ops(*n));
                assert(key_views(opnds@) =~= key_views(old(opnds)@) + node_opnds(*n));
            }
        }
        Node::NonNull { .. } => {
            ops.push(OpKey::NonNull);
            proof {
                assert(ops@ =~= old(ops)@ + node_ops(*n));
                assert(key_views(opnds@) =~= key_views(old(opnds)@) + node_opnds(*n));
            }
        }
        Node::AsExpr { .. } => {
            ops.push(OpKey::As);
            proof {
                assert(ops@ =~= old(ops)@ + node_ops(*n));
                assert(key_views(opnds@) =~= key_views(old(opnds)@) + node_opnds(*n));
            }
        }
        Node::TypeAssertion { .. } => {
            ops.push(OpKey::TypeAssert);
            proof {
                assert(ops@ =~= old(ops)@ + node_ops(*n));
                assert(key_views(opnds@) =~= key_views(old(opnds)@) + node_opnds(*n));
            }
        }
        Node::IfStmt { .. } => {
            proof {
                assert(ops@ =~= old(ops)@ + node_ops(*n));
                assert(key_views(opnds@) =~= key_views(old(opnds)@) + node_opnds(*n));
            }
        }
        Node::ForStmt { .. } => {
            proof {
                assert(ops@ =~= old(ops)@ + node_ops(*n));
                assert(key_views(opnds@) =~= key_views(old(opnds)@) + node_opnds(*n));
            }
        }
        Node::ForInOf { .. } => {
            proof {
                assert(ops@ =~= old(ops)@ + node_ops(*n));
                assert(key_views(opnds@) =~= key_views(old(opnds)@) + node_opnds(*n));
            }
        }
        Node::WhileStmt { .. } => {
            proof {
                assert(ops@ =~= old(ops)@ + node_ops(*n));
                assert(key_views(opnds@) =~= key_views(old(opnds)@) + node_opnds(*n));
            }
        }
        Node::DoWhileStmt { .. } => {
            proof {
                assert(ops@ =~= old(ops)@ + node_ops(*n));
                assert(key_views(opnds@) =~= key_views(old(opnds)@) + node_opnds(*n));
            }
        }
        Node::SwitchStmt { .. } => {
            ops.push(OpKey::Switch);
            proof {
                assert(ops@ =~= old(ops)@ + node_ops(*n));
                assert(key_views(opnds@) =~= key_views(old(opnds)@) + node_opnds(*n));
            }
        }
        Node::CaseClause { test, .. } => {
            if test.is_some() {
                ops.push(OpKey::Case);
            } else {
                ops.push(OpKey::Default);
            }
            proof {
                assert(ops@ =~= old(ops)@ + node_ops(*n));
                assert(key_views(opnds@) =~= key_views(old(opnds)@) + node_opnds(*n));
            }
        }
        Node::TryStmt { .. } => {
            proof {
                assert(ops@ =~= old(ops)@ + node_ops(*n));
                assert(key_views(opnds@) =~= key_views(old(opnds)@) + node_opnds(*n));
            }
        }
        Node::CatchClause { .. } => {
            proof {
                assert(ops@ =~= old(ops)@ + node_ops(*n));
                assert(key_views(opnds@) =~= key_views(old(opnds)@) + node_opnds(*n));
            }
        }
        Node::Block { .. } => {
            proof {
                assert(ops@ =~= old(ops)@ + node_ops(*n));
                assert(key_views(opnds@) =~= key_views(old(opnds)@) + node_opnds(*n));
            }
        }
        Node::Return { .. } => {
            proof {
                assert(ops@ =~= old(ops)@ + node_ops(*n));
                assert(key_views(opnds@) =~= key_views(old(opnds)@) + node_opnds(*n));
            }
        }
        Node::Break => {
            proof {
                assert(ops@ =~= old(ops)@ + node_ops(*n));
                assert(key_views(opnds@) =~= key_views(old(opnds)@) + node_opnds(*n));
            }
        }
        Node::Continue => {
            proof {
                assert(ops@ =~= old(ops)@ + node_ops(*n));
                assert(key_views(opnds@) =~= key_views(old(opnds)@) + node_opnds(*n));
            }
        }
        Node::Throw { .. } => {
            proof {
                assert(ops@ =~= old(ops)@ + node_ops(*n));
                assert(key_views(opnds@) =~= key_views(old(opnds)@) + node_opnds(*n));
            }
        }
        Node::FnDecl { name, .. } => {
            ops.push(OpKey::Function);
            match name {
                Some(nm) => opnds.push(OperandKey { kind: OperandKind::Ident, text: nm.clone() }),
                None => (),
            }
            proof {
                assert(ops@ =~= old(ops)@ + node_ops(*n));
                assert(key_views(opnds@) =~= key_views(old(opnds)@) + node_opnds(*n));
            }
        }
        Node::ClassDecl { name, .. } => {
            ops.push(OpKey::Class);
            match name {
                Some(nm) => opnds.push(OperandKey { kind: OperandKind::Ident, text: nm.clone() }),
                None => (),
            }
            proof {
                assert(ops@ =~= old(ops)@ + node_ops(*n));
                assert(key_views(opnds@) =~= key_views(old(opnds)@) + node_opnds(*n));
            }
        }
        Node::Namespace { name, .. } => {
            ops.push(OpKey::Namespace);
            opnds.push(OperandKey { kind: OperandKind::Ident, text: name.clone() });
            proof {
                assert(ops@ =~= old(ops)@ + node_ops(*n));
                assert(key_views(opnds@) =~= key_views(old(opnds)@) + node_opnds(*n));
            }
        }
        Node::ExportDecl { .. } => {
            ops.push(OpKey::Export);
            proof {
                assert(ops@ =~= old(ops)@ + node_ops(*n));
                assert(key_views(opnds@) =~= key_views(old(opnds)@) + node_opnds(*n));
            }
        }
        Node::ImportDecl { source, .. } => {
            ops.push(OpKey::Import);
            opnds.push(OperandKey { kind: OperandKind::Str, text: source.clone() });
            proof {
                assert(ops@ =~= old(ops)@ + node_ops(*n));
                assert(key_views(opnds@) =~= key_views(old(opnds)@) + node_opnds(*n));
            }
        }
        Node::VarDecl { .. } => {
            proof {
                assert(ops@ =~= old(ops)@ + node_ops(*n));
                assert(key_views(opnds@) =~= key_views(old(opnds)@) + node_opnds(*n));
            }
        }
        Node::Declarator { .. } => {
            proof {
                assert(ops@ =~= old(ops)@ + node_ops(*n));
                assert(key_views(opnds@) =~= key_views(old(opnds)@) + node_opnds(*n));
            }
        }
        Node::MappedType => {
            ops.push(OpKey::Mapped);
            proof {
                assert(ops@ =~= old(ops)@ + node_ops(*n));
                assert(key_views(opnds@) =~= key_views(old(opnds)@) + node_opnds(*n));
            }
        }
        Node::IndexedAccessType => {
            ops.push(OpKey::IndexedAccess);
            proof {
                assert(ops@ =~= old(ops)@ + node_ops(*n));
                assert(key_views(opnds@) =~= key_views(old(opnds)@) + node_opnds(*n));
            }
        }
        Node::TypeOperator { op } => {
            ops.push(OpKey::TypeOp(*op));
            proof {
                assert(ops@ =~= old(ops)@ + node_ops(*n));
                assert(key_views(opnds@) =~= key_views(old(opnds)@) + node_opnds(*n));
            }
        }
        Node::QualifiedName { .. } => {
            ops.push(OpKey::QualifiedDot);
            proof {
                assert(ops@ =~= old(ops)@ + node_ops(*n));
                assert(key_views(opnds@) =~= key_views(old(opnds)@) + node_opnds(*n));
            }
        }
        Node::Group { .. } => {
            proof {
                assert(ops@ =~= old(ops)@ + node_ops(*n));
                assert(key_views(opnds@) =~= key_views(old(opnds)@) + node_opnds(*n));
            }
        }
    }
}

/// One traversal step: classifies `n`, then walks its children, appending
/// every token of the subtree in visit order.
#[verifier::rlimit(80)]
fn walk(n: &Node, ops: &mut Vec<OpKey>, opnds: &mut Vec<OperandKey>)
    ensures
        final(ops)@ == old(ops)@ + ops_tree(*n),
        key_views(final(opnds)@) == key_views(old(opnds)@) + opnds_tree(*n),
    decreases *n,
{
    classify_node(n, ops, opnds);
    match n {
        Node::Ident { .. } => {
            proof {
                assert(ops@ =~= old(ops)@ + ops_tree(*n));
                assert(key_views(opnds@) =~= key_views(old(opnds)@) + opnds_tree(*n));
            }
        }
        Node::This => {
            proof {
                assert(ops@ =~= old(ops)@ + ops_tree(*n));
                assert(key_views(opnds@) =~= key_views(old(opnds)@) + opnds_tree(*n));
            }
        }
        Node::Lit { .. } => {
            proof {
                assert(ops@ =~= old(ops)@ + ops_tree(*n));
                assert(key_views(opnds@) =~= key_views(old(opnds)@) + opnds_tree(*n));
            }
        }
        Node::Tpl { exprs, .. } => {
            walk_list(exprs, ops, opnds);
            proof {
                assert(ops@ =~= old(ops)@ + ops_tree(*n));
                assert(key_views(opnds@) =~= key_views(old(opnds)@) + opnds_tree(*n));
            }
        }
        Node::TaggedTpl { tag, exprs, .. } => {
            walk(&**tag, ops, opnds);
            walk_list(exprs, ops, opnds);
            proof {
                assert(ops@ =~= old(ops)@ + ops_tree(*n));
                assert(key_views(opnds@) =~= key_views(old(opnds)@) + opnds_tree(*n));
            }
        }
        Node::Binary { left, right, .. } => {
            walk(&**left, ops, opnds);
            walk(&**right, ops, opnds);
            proof {
                assert(ops@ =~= old(ops)@ + ops_tree(*n));
                assert(key_views(opnds@) =~= key_views(old(opnds)@) + opnds_tree(*n));
            }
        }
        Node::Unary { arg, .. } => {
            walk(&**arg, ops, opnds);
            proof {
                assert(ops@ =~= old(ops)@ + ops_tree(*n));
                assert(key_views(opnds@) =~= key_views(old(opnds)@) + opnds_tree(*n));
            }
        }
        Node::Assign { left, right, .. } => {
            walk(&**left, ops, opnds);
            walk(&**right, ops, opnds);
            proof {
                assert(ops@ =~= old(ops)@ + ops_tree(*n));
                assert(key_views(opnds@) =~= key_views(old(opnds)@) + opnds_tree(*n));
            }
        }
        Node::Update { arg, .. } => {
            walk(&**arg, ops, opnds);
            proof {
                assert(ops@ =~= old(ops)@ + ops_tree(*n));
                assert(key_views(opnds@) =~= key_views(old(opnds)@) + opnds_tree(*n));
            }
        }
        Node::Call { callee, args } => {
            walk(&**callee, ops, opnds);
            walk_list(args, ops, opnds);
            proof {
                assert(ops@ =~= old(ops)@ + ops_tree(*n));
                assert(key_views(opnds@) =~= key_views(old(opnds)@) + opnds_tree(*n));
            }
        }
        Node::New { callee, args } => {
            walk(&**callee, ops, opnds);
            walk_list(args, ops, opnds);
            proof {
                assert(ops@ =~= old(ops)@ + ops_tree(*n));
                assert(key_views(opnds@) =~= key_views(old(opnds)@) + opnds_tree(*n));
            }
        }
        Node::Cond { test, cons, alt } => {
            walk(&**test, ops, opnds);
            walk(&**cons, ops, opnds);
            walk(&**alt, ops, opnds);
            proof {
                assert(ops@ =~= old(ops)@ + ops_tree(*n));
                assert(key_views(opnds@) =~= key_views(old(opnds)@) + opnds_tree(*n));
            }
        }
        Node::SeqExpr { exprs } => {
            walk_list(exprs, ops, opnds);
            proof {
                assert(ops@ =~= old(ops)@ + ops_tree(*n));
                assert(key_views(opnds@) =~= key_views(old(opnds)@) + opnds_tree(*n));
            }
        }
        Node::Arrow { params, body } => {
            walk_list(params, ops, opnds);
            walk_list(body, ops, opnds);
            proof {
                assert(ops@ =~= old(ops)@ + ops_tree(*n));
                assert(key_views(opnds@) =~= key_views(old(opnds)@) + opnds_tree(*n));
            }
        }
        Node::AwaitExpr { arg } => {
            walk(&**arg, ops, opnds);
            proof {
                assert(ops@ =~= old(ops)@ + ops_tree(*n));
                assert(key_views(opnds@) =~= key_views(old(opnds)@) + opnds_tree(*n));
            }
        }
        Node::YieldExpr { arg, .. } => {
            walk_opt(arg, ops, opnds);
            proof {
                assert(ops@ =~= old(ops)@ + ops_tree(*n));
                assert(key_views(opnds@) =~= key_views(old(opnds)@) + opnds_tree(*n));
            }
        }
        Node::SpreadEl { arg } => {
            walk(&**arg, ops, opnds);
            proof {
                assert(ops@ =~= old(ops)@ + ops_tree(*n));
                assert(key_views(opnds@) =~= key_views(old(opnds)@) + opnds_tree(*n));
            }
        }
        Node::Member { obj, prop, .. } => {
            walk(&**obj, ops, opnds);
            walk(&**prop, ops, opnds);
            proof {
                assert(ops@ =~= old(ops)@ + ops_tree(*n));
                assert(key_views(opnds@) =~= key_views(old(opnds)@) + opnds_tree(*n));
            }
        }
        Node::MetaProp => {
            proof {
                assert(ops@ =~= old(ops)@ + ops_tree(*n));
                assert(key_views(opnds@) =~= key_views(old(opnds)@) + opnds_tree(*n));
            }
        }
        Node::NonNull { arg } => {
            walk(&**arg, ops, opnds);
            proof {
                assert(ops@ =~= old(ops)@ + ops_tree(*n));
                assert(key_views(opnds@) =~= key_views(old(opnds)@) + opnds_tree(*n));
            }
        }
        Node::AsExpr { arg } => {
            walk(&**arg, ops, opnds);
            proof {
                assert(ops@ =~= old(ops)@ + ops_tree(*n));
                assert(key_views(opnds@) =~= key_views(old(opnds)@) + opnds_tree(*n));
            }
        }
        Node::TypeAssertion { arg } => {
            walk(&**arg, ops, opnds);
            proof {
                assert(ops@ =~= old(ops)@ + ops_tree(*n));
                assert(key_views(opnds@) =~= key_views(old(opnds)@) + opnds_tree(*n));
            }
        }
        Node::IfStmt { test, cons, alt } => {
            walk(&**test, ops, opnds);
            walk(&**cons, ops, opnds);
            walk_opt(alt, ops, opnds);
            proof {
                assert(ops@ =~= old(ops)@ + ops_tree(*n));
                assert(key_views(opnds@) =~= key_views(old(opnds)@) + opnds_tree(*n));
            }
        }
        Node::ForStmt { init, test, update, body } => {
            walk_opt(init, ops, opnds);
            walk_opt(test, ops, opnds);
            walk_opt(update, ops, opnds);
            walk(&**body, ops, opnds);
            proof {
                assert(ops@ =~= old(ops)@ + ops_tree(*n));
                assert(key_views(opnds@) =~= key_views(old(opnds)@) + opnds_tree(*n));
            }
        }
        Node::ForInOf { left, right, body } => {
            walk(&**left, ops, opnds);
            walk(&**right, ops, opnds);
            walk(&**body, ops, opnds);
            proof {
                assert(ops@ =~= old(ops)@ + ops_tree(*n));
                assert(key_views(opnds@) =~= key_views(old(opnds)@) + opnds_tree(*n));
            }
        }
        Node::WhileStmt { test, body } => {
            walk(&**test, ops, opnds);
            walk(&**body, ops, opnds);
            proof {
                assert(ops@ =~= old(ops)@ + ops_tree(*n));
                assert(key_views(opnds@) =~= key_views(old(opnds)@) + opnds_tree(*n));
            }
        }
        Node::DoWhileStmt { body, test } => {
            walk(&**body, ops, opnds);
            walk(&**test, ops, opnds);
            proof {
                assert(ops@ =~= old(ops)@ + ops_tree(*n));
                assert(key_views(opnds@) =~= key_views(old(opnds)@) + opnds_tree(*n));
            }
        }
        Node::SwitchStmt { disc, cases } => {
            walk(&**disc, ops, opnds);
            walk_list(cases, ops, opnds);
            proof {
                assert(ops@ =~= old(ops)@ + ops_tree(*n));
                assert(key_views(opnds@) =~= key_views(old(opnds)@) + opnds_tree(*n));
            }
        }
        Node::CaseClause { test, body } => {
            walk_opt(test, ops, opnds);
            walk_list(body, ops, opnds);
            proof {
                assert(ops@ =~= old(ops)@ + ops_tree(*n));
                assert(key_views(opnds@) =~= key_views(old(opnds)@) + opnds_tree(*n));
            }
        }
        Node::TryStmt { block, handler, finalizer } => {
            walk_list(block, ops, opnds);
            walk_opt(handler, ops, opnds);
            walk_list(finalizer, ops, opnds);
            proof {
                assert(ops@ =~= old(ops)@ + ops_tree(*n));
                assert(key_views(opnds@) =~= key_views(old(opnds)@) + opnds_tree(*n));
            }
        }
        Node::CatchClause { param, body } => {
            walk_opt(param, ops, opnds);
            walk_list(body, ops, opnds);
            proof {
                assert(ops@ =~= old(ops)@ + ops_tree(*n));
                assert(key_views(opnds@) =~= key_views(old(opnds)@) + opnds_tree(*n));
            }
        }
        Node::Block { stmts } => {
            walk_list(stmts, ops, opnds);
            proof {
                assert(ops@ =~= old(ops)@ + ops_tree(*n));
                assert(key_views(opnds@) =~= key_views(old(opnds)@) + opnds_tree(*n));
            }
        }
        Node::Return { arg } => {
            walk_opt(arg, ops, opnds);
            proof {
                assert(ops@ =~= old(ops)@ + ops_tree(*n));
                assert(key_views(opnds@) =~= key_views(old(opnds)@) + opnds_tree(*n));
            }
        }
        Node::Break => {
            proof {
                assert(ops@ =~= old(ops)@ + ops_tree(*n));
                assert(key_views(opnds@) =~= key_views(old(opnds)@) + opnds_tree(*n));
            }
        }
        Node::Continue => {
            proof {
                assert(ops@ =~= old(ops)@ + ops_tree(*n));
                assert(key_views(opnds@) =~= key_views(old(opnds)@) + opnds_tree(*n));
            }
        }
        Node::Throw { arg } => {
            walk(&**arg, ops, opnds);
            proof {
                assert(ops@ =~= old(ops)@ + ops_tree(*n));
                assert(key_views(opnds@) =~= key_views(old(opnds)@) + opnds_tree(*n));
            }
        }
        Node::FnDecl { params, body, .. } => {
            walk_list(params, ops, opnds);
            walk_list(body, ops, opnds);
            proof {
                assert(ops@ =~= old(ops)@ + ops_tree(*n));
                assert(key_views(opnds@) =~= key_views(old(opnds)@) + opnds_tree(*n));
            }
        }
        Node::ClassDecl { body, .. } => {
            walk_list(body, ops, opnds);
            proof {
                assert(ops@ =~= old(ops)@ + ops_tree(*n));
                assert(key_views(opnds@) =~= key_views(old(opnds)@) + opnds_tree(*n));
            }
        }
        Node::Namespace { body, .. } => {
            walk_list(body, ops, opnds);
            proof {
                assert(ops@ =~= old(ops)@ + ops_tree(*n));
                assert(key_views(opnds@) =~= key_views(old(opnds)@) + opnds_tree(*n));
            }
        }
        Node::ExportDecl { items } => {
            walk_list(items, ops, opnds);
            proof {
                assert(ops@ =~= old(ops)@ + ops_tree(*n));
                assert(key_views(opnds@) =~= key_views(old(opnds)@) + opnds_tree(*n));
            }
        }
        Node::ImportDecl { names, .. } => {
            walk_list(names, ops, opnds);
            proof {
                assert(ops@ =~= old(ops)@ + ops_tree(*n));
                assert(key_views(opnds@) =~= key_views(old(opnds)@) + opnds_tree(*n));
            }
        }
        Node::VarDecl { decls } => {
            walk_list(decls, ops, opnds);
            proof {
                assert(ops@ =~= old(ops)@ + ops_tree(*n));
                assert(key_views(opnds@) =~= key_views(old(opnds)@) + opnds_tree(*n));
            }
        }
        Node::Declarator { name, init } => {
            walk(&**name, ops, opnds);
            walk_opt(init, ops, opnds);
            proof {
                assert(ops@ =~= old(ops)@ + ops_tree(*n));
                assert(key_views(opnds@) =~= key_views(old(opnds)@) + opnds_tree(*n));
            }
        }
        Node::MappedType => {
            proof {
                assert(ops@ =~= old(ops)@ + ops_tree(*n));
                assert(key_views(opnds@) =~= key_views(old(opnds)@) + opnds_tree(*n));
            }
        }
        Node::IndexedAccessType => {
            proof {
                assert(ops@ =~= old(ops)@ + ops_tree(*n));
                assert(key_views(opnds@) =~= key_views(old(opnds)@) + opnds_tree(*n));
            }
        }
        Node::TypeOperator { .. } => {
            proof {
                assert(ops@ =~= old(ops)@ + ops_tree(*n));
                assert(key_views(opnds@) =~= key_views(old(opnds)@) + opnds_tree(*n));
            }
        }
        Node::QualifiedName { left, right } => {
            walk(&**left, ops, opnds);
            walk(&**right, ops, opnds);
            proof {
                assert(ops@ =~= old(ops)@ + ops_tree(*n));
                assert(key_views(opnds@) =~= key_views(old(opnds)@) + opnds_tree(*n));
            }
        }
        Node::Group { children } => {
            walk_list(children, ops, opnds);
            proof {
                assert(ops@ =~= old(ops)@ + ops_tree(*n));
                assert(key_views(opnds@) =~= key_views(old(opnds)@) + opnds_tree(*n));
            }
        }
    }
}

/// Walks an optional child.
fn walk_opt(o: &Option<Box<Node>>, ops: &mut Vec<OpKey>, opnds: &mut Vec<OperandKey>)
    ensures
        final(ops)@ == old(ops)@ + ops_opt(*o),
        key_views(final(opnds)@) == key_views(old(opnds)@) + opnds_opt(*o),
    decreases *o,
{
    match o {
        Some(b) => {
            walk(&**b, ops, opnds);
        }
        None => {
            proof {
                assert(ops@ =~= old(ops)@ + ops_opt(*o));
                assert(key_views(opnds@) =~= key_views(old(opnds)@) + opnds_opt(*o));
            }
        }
    }
}

/// Walks a list of children in order.
#[verifier::loop_isolation(false)]
fn walk_list(v: &Vec<Node>, ops: &mut Vec<OpKey>, opnds: &mut Vec<OperandKey>)
    ensures
        final(ops)@ == old(ops)@ + ops_seq(v@),
        key_views(final(opnds)@) == key_views(old(opnds)@) + opnds_seq(v@),
    decreases v@,
{
    let mut i: usize = 0;
    while i < v.len()
        invariant
            i <= v.len(),
            ops@ == old(ops)@ + ops_seq(v@.subrange(0, i as int)),
            key_views(opnds@) == key_views(old(opnds)@) + opnds_seq(v@.subrange(0, i as int)),
        decreases v.len() - i,
    {
        walk(&v[i], ops, opnds);
        proof {
            assert(v@.subrange(0, i as int + 1).drop_last() =~= v@.subrange(0, i as int));
            assert(v@.subrange(0, i as int + 1).last() == v@[i as int]);
            assert(ops@ =~= old(ops)@ + ops_seq(v@.subrange(0, i as int + 1)));
            assert(key_views(opnds@) =~= key_views(old(opnds)@) + opnds_seq(
                v@.subrange(0, i as int + 1),
            ));
        }
        i = i + 1;
    }
    proof {
        assert(v@.subrange(0, v.len() as int) =~= v@);
    }
}

/// Every operator token of a whole compilation unit, in visit order.
pub open spec fn module_ops(m: SourceUnit) -> Seq<OpKey> {
    ops_seq(m.body@)
}

/// Every operand key of a whole compilation unit, in visit order.
pub open spec fn module_opnds(m: SourceUnit) -> Seq<OperandKeyV> {
    opnds_seq(m.body@)
}

/// Whether a sequence of operator tokens holds `k`.
fn contains_op(v: &Vec<OpKey>, k: OpKey) -> (r: bool)
    ensures
        r == v@.contains(k),
{
    let mut i: usize = 0;
    while i < v.len()
        invariant
            i <= v.len(),
            forall|j: int| 0 <= j < i ==> v@[j] != k,
        decreases v.len() - i,
    {
        if v[i] == k {
            return true;
        }
        i = i + 1;
    }
    false
}

/// Whether a sequence of operand keys holds one with `k`'s value.
fn contains_operand(v: &Vec<OperandKey>, k: &OperandKey) -> (r: bool)
    ensures
        r == key_views(v@).contains(k@),
{
    let mut i: usize = 0;
    while i < v.len()
        invariant
            i <= v.len(),
            forall|j: int| 0 <= j < i ==> key_views(v@)[j] != k@,
        decreases v.len() - i,
    {
        if v[i] == *k {
            proof {
                assert(key_views(v@)[i as int] == k@);
            }
            return true;
        }
        i = i + 1;
    }
    false
}

/// Counts the distinct operator lexemes in a token stream.
#[verifier::loop_isolation(false)]
fn distinct_ops(v: &Vec<OpKey>) -> (r: usize)
    ensures
        r == v@.to_set().len(),
{
    let mut seen: Vec<OpKey> = Vec::new();
    let mut i: usize = 0;
    proof {
        assert(v@.subrange(0, 0).to_set() =~= Set::empty());
        assert(seen@.to_set() =~= Set::empty());
    }
    while i < v.len()
        invariant
            i <= v.len(),
            seen@.no_duplicates(),
            seen@.to_set() == v@.subrange(0, i as int).to_set(),
        decreases v.len() - i,
    {
        let k = v[i];
        if !contains_op(&seen, k) {
            let ghost seen_before = seen@;
            seen.push(k);
            proof {
                assert(seen@ =~= seen_before.push(k));
                assert(seen@.to_set() =~= seen_before.to_set().insert(k));
            }
        }
        proof {
            assert(v@.subrange(0, i as int + 1) =~= v@.subrange(0, i as int).push(v@[i as int]));
            assert(v@.subrange(0, i as int + 1).to_set() =~= v@.subrange(0, i as int).to_set().insert(
                v@[i as int],
            ));
            assert(seen@.to_set() =~= v@.subrange(0, i as int + 1).to_set());
        }
        i = i + 1;
    }
    proof {
        assert(v@.subrange(0, v.len() as int) =~= v@);
        seen@.unique_seq_to_set();
    }
    seen.len()
}

/// Counts the distinct operand keys in a token stream.
#[verifier::loop_isolation(false)]
fn distinct_operands(v: &Vec<OperandKey>) -> (r: usize)
    ensures
        r == key_views(v@).to_set().len(),
{
    let mut seen: Vec<OperandKey> = Vec::new();
    let mut i: usize = 0;
    proof {
        assert(key_views(v@.subrange(0, 0)).to_set() =~= Set::empty());
        assert(key_views(seen@).to_set() =~= Set::empty());
    }
    while i < v.len()
        invariant
            i <= v.len(),
            key_views(seen@).no_duplicates(),
            key_views(seen@).to_set() == key_views(v@.subrange(0, i as int)).to_set(),
        decreases v.len() - i,
    {
        let dup = contains_operand(&seen, &v[i]);
        if !dup {
            let ghost seen_before = key_views(seen@);
            seen.push(OperandKey { kind: v[i].kind, text: v[i].text.clone() });
            proof {
                assert(key_views(seen@) =~= seen_before.push(v@[i as int]@));
                assert(key_views(seen@).to_set() =~= seen_before.to_set().insert(v@[i as int]@));
            }
        }
        proof {
            assert(key_views(v@.subrange(0, i as int + 1)) =~= key_views(
                v@.subrange(0, i as int),
            ).push(v@[i as int]@));
            assert(key_views(v@.subrange(0, i as int + 1)).to_set() =~= key_views(
                v@.subrange(0, i as int),
            ).to_set().insert(v@[i as int]@));
            assert(key_views(seen@).to_set() =~= key_views(v@.subrange(0, i as int + 1)).to_set());
        }
        i = i + 1;
    }
    proof {
        assert(v@.subrange(0, v.len() as int) =~= v@);
        assert(key_views(v@.subrange(0, v.len() as int)) =~= key_views(v@));
        key_views(seen@).unique_seq_to_set();
    }
    seen.len()
}

/// The Halstead quantities of one compilation unit, as a function of its
/// token streams: distinct and total counts for operators and operands,
/// and the derived program length and vocabulary size.
pub open spec fn spec_metrics(m: SourceUnit) -> HalsteadMetrics {
    HalsteadMetrics {
        uniq_operators: clip(module_ops(m).to_set().len() as int),
        uniq_operands: clip(module_opnds(m).to_set().len() as int),
        total_operators: clip(module_ops(m).len() as int),
        total_operands: clip(module_opnds(m).len() as int),
        program_length: clip(module_ops(m).len() + module_opnds(m).len() as int),
        vocabulary_size: clip(
            module_ops(m).to_set().len() + module_opnds(m).to_set().len() as int,
        ),
    }
}

/// Walks the whole tree exactly once, classifies every node, and reduces
/// the token streams into the Halstead counts.
pub fn analyze_module(module: &SourceUnit) -> (h: HalsteadMetrics)
    ensures
        h == spec_metrics(*module),
{
    let mut ops: Vec<OpKey> = Vec::new();
    let mut opnds: Vec<OperandKey> = Vec::new();
    walk_list(&module.body, &mut ops, &mut opnds);
    proof {
        assert(ops@ =~= module_ops(*module));
        assert(key_views(opnds@) =~= module_opnds(*module));
    }
    let total_operators = ops.len();
    let total_operands = opnds.len();
    let uniq_operators = distinct_ops(&ops);
    let uniq_operands = distinct_operands(&opnds);
    let program_length = sat_add(total_operators, total_operands);
    let vocabulary_size = sat_add(uniq_operators, uniq_operands);
    HalsteadMetrics {
        uniq_operators,
        uniq_operands,
        total_operators,
        total_operands,
        program_length,
        vocabulary_size,
    }
}

/// For every tree, the counts are well formed: each distinct count is
/// bounded by its total, the vocabulary size is the sum of the distinct
/// counts and the program length the sum of the totals (exactly so
/// whenever the mathematical sums are representable; capped otherwise).
pub proof fn lemma_metrics_well_formed(m: SourceUnit)
    ensures
        spec_metrics(m).uniq_operators <= spec_metrics(m).total_operators,
        spec_metrics(m).uniq_operands <= spec_metrics(m).total_operands,
        spec_metrics(m).vocabulary_size == clip(
            spec_metrics(m).uniq_operators + spec_metrics(m).uniq_operands,
        ),
        spec_metrics(m).program_length == clip(
            spec_metrics(m).total_operators + spec_metrics(m).total_operands,
        ),
        module_ops(m).to_set().len() + module_opnds(m).to_set().len() <= usize::MAX
            ==> spec_metrics(m).vocabulary_size == spec_metrics(m).uniq_operators
            + spec_metrics(m).uniq_operands,
        module_ops(m).len() + module_opnds(m).len() <= usize::MAX ==> spec_metrics(
            m,
        ).program_length == spec_metrics(m).total_operators + spec_metrics(m).total_operands,
{
    module_ops(m).lemma_cardinality_of_set();
    module_opnds(m).lemma_cardinality_of_set();
}

/// An empty compilation unit has every Halstead count equal to zero.
pub proof fn lemma_empty_module(m: SourceUnit)
    requires
        m.body@.len() == 0,
    ensures
        spec_metrics(m) == (HalsteadMetrics {
            uniq_operators: 0,
            uniq_operands: 0,
            total_operators: 0,
            total_operands: 0,
            program_length: 0,
            vocabulary_size: 0,
        }),
{
    assert(module_ops(m).to_set() =~= Set::empty());
    assert(module_opnds(m).to_set() =~= Set::empty());
    assert(Set::<OpKey>::empty().len() == 0);
    assert(Set::<OperandKeyV>::empty().len() == 0);
}

/// The accumulator is pure: the counts are a function of the tree alone,
/// so re-running it on an unchanged tree yields identical results.
pub proof fn lemma_metrics_deterministic(m1: SourceUnit, m2: SourceUnit)
    requires
        m1 == m2,
    ensures
        spec_metrics(m1) == spec_metrics(m2),
{
}

} // verus!
