use fta::ast::{BinOp, Node, OperandKind, SourceUnit};
use fta::cyclo::cyclomatic_complexity;
use fta::halstead::analyze_module;
use fta::structs::HalsteadMetrics;

fn ident(name: &str) -> Node {
    Node::Ident { name: name.to_owned() }
}

fn lit(kind: OperandKind, value: &str) -> Node {
    Node::Lit { kind, value: value.to_owned() }
}

fn console_log(arg: &str) -> Node {
    Node::Call {
        callee: Box::new(Node::Member {
            obj: Box::new(ident("console")),
            prop: Box::new(ident("log")),
            optional: false,
        }),
        args: vec![lit(OperandKind::Str, arg)],
    }
}

/// The `switch` of this fixture has two numbered cases and a `default`,
/// each branch one call with a string-literal argument and a `break`.
fn switch_unit() -> SourceUnit {
    SourceUnit {
        body: vec![Node::SwitchStmt {
            disc: Box::new(ident("x")),
            cases: vec![
                Node::CaseClause {
                    test: Some(Box::new(lit(OperandKind::Num, "0"))),
                    body: vec![console_log("x is 0"), Node::Break],
                },
                Node::CaseClause {
                    test: Some(Box::new(lit(OperandKind::Num, "1"))),
                    body: vec![console_log("x is 1"), Node::Break],
                },
                Node::CaseClause {
                    test: None,
                    body: vec![console_log("x is not 0 or 1")],
                },
            ],
        }],
    }
}

#[test]
fn test_empty_module() {
    let unit = SourceUnit { body: vec![] };
    let expected = HalsteadMetrics {
        uniq_operators: 0,
        uniq_operands: 0,
        total_operators: 0,
        total_operands: 0,
        program_length: 0,
        vocabulary_size: 0,
    };
    assert_eq!(analyze_module(&unit), expected);
}

#[test]
fn test_switch_case() {
    // Operators: `switch`, two `case`s, one `default`, three call markers,
    // three member accesses. Operands: `x`, the literals 0 and 1, three
    // distinct strings, and `console` and `log` three times each.
    let unit = switch_unit();
    let expected = HalsteadMetrics {
        uniq_operators: 5,
        uniq_operands: 8,
        total_operators: 10,
        total_operands: 12,
        program_length: 22,
        vocabulary_size: 13,
    };
    assert_eq!(analyze_module(&unit), expected);
}

#[test]
fn switch_counts_two_case_decision_points() {
    let unit = switch_unit();
    // Base complexity 1, plus one per non-default `case` label; the
    // `default` label adds nothing.
    assert_eq!(cyclomatic_complexity(&unit), 3);
}

#[test]
fn ternary_is_one_operator_and_one_decision() {
    // `true ? "a" : "b"`: one composite `?:` operator; each literal is one
    // operand (the test's `true` included), and one added decision point.
    let unit = SourceUnit {
        body: vec![Node::Cond {
            test: Box::new(lit(OperandKind::Bool, "true")),
            cons: Box::new(lit(OperandKind::Str, "a")),
            alt: Box::new(lit(OperandKind::Str, "b")),
        }],
    };
    let metrics = analyze_module(&unit);
    assert_eq!(metrics.uniq_operators, 1);
    assert_eq!(metrics.total_operators, 1);
    assert_eq!(metrics.uniq_operands, 3);
    assert_eq!(metrics.total_operands, 3);
    assert_eq!(cyclomatic_complexity(&unit), 2);
}

#[test]
fn repeated_runs_are_identical() {
    let unit = switch_unit();
    assert_eq!(analyze_module(&unit), analyze_module(&unit));
    assert_eq!(cyclomatic_complexity(&unit), cyclomatic_complexity(&unit));
}

#[test]
fn repeated_lexemes_collapse_into_one_unique_token() {
    // `a + a + a`: `+` occurs twice but is one unique operator; `a` occurs
    // three times but is one unique operand.
    let unit = SourceUnit {
        body: vec![Node::Binary {
            op: BinOp::Add,
            left: Box::new(Node::Binary {
                op: BinOp::Add,
                left: Box::new(ident("a")),
                right: Box::new(ident("a")),
            }),
            right: Box::new(ident("a")),
        }],
    };
    let metrics = analyze_module(&unit);
    assert_eq!(metrics.uniq_operators, 1);
    assert_eq!(metrics.total_operators, 2);
    assert_eq!(metrics.uniq_operands, 1);
    assert_eq!(metrics.total_operands, 3);
    assert_eq!(metrics.program_length, 5);
    assert_eq!(metrics.vocabulary_size, 2);
}

#[test]
fn template_literal_tokens() {
    // `Hello ${person}!`: two static segments, one interpolation boundary.
    let unit = SourceUnit {
        body: vec![Node::Tpl {
            quasis: vec!["Hello ".to_owned(), "!".to_owned()],
            exprs: vec![ident("person")],
        }],
    };
    let metrics = analyze_module(&unit);
    assert_eq!(metrics.uniq_operators, 1);
    assert_eq!(metrics.total_operators, 1);
    assert_eq!(metrics.uniq_operands, 3);
    assert_eq!(metrics.total_operands, 3);
}

#[test]
fn same_name_in_declaration_and_reference_is_one_operand() {
    // `function foo() { return foo; }` — the declared name and the
    // reference share one lexeme key.
    let unit = SourceUnit {
        body: vec![Node::FnDecl {
            name: Some("foo".to_owned()),
            params: vec![],
            body: vec![Node::Return { arg: Some(Box::new(ident("foo"))) }],
        }],
    };
    let metrics = analyze_module(&unit);
    assert_eq!(metrics.uniq_operators, 1);
    assert_eq!(metrics.uniq_operands, 1);
    assert_eq!(metrics.total_operands, 2);
}

#[test]
fn logical_operators_add_decision_points() {
    // `a && (b || c)` adds two decision points on top of the base 1.
    let unit = SourceUnit {
        body: vec![Node::Binary {
            op: BinOp::LogicalAnd,
            left: Box::new(ident("a")),
            right: Box::new(Node::Group {
                children: vec![Node::Binary {
                    op: BinOp::LogicalOr,
                    left: Box::new(ident("b")),
                    right: Box::new(ident("c")),
                }],
            }),
        }],
    };
    assert_eq!(cyclomatic_complexity(&unit), 3);
}

#[test]
fn straight_line_code_has_complexity_one() {
    let unit = SourceUnit {
        body: vec![Node::VarDecl {
            decls: vec![Node::Declarator {
                name: Box::new(ident("a")),
                init: Some(Box::new(lit(OperandKind::Num, "1"))),
            }],
        }],
    };
    assert_eq!(cyclomatic_complexity(&unit), 1);
}

#[test]
fn counts_are_well_formed_on_a_mixed_tree() {
    let unit = switch_unit();
    let metrics = analyze_module(&unit);
    assert!(metrics.uniq_operators <= metrics.total_operators);
    assert!(metrics.uniq_operands <= metrics.total_operands);
    assert_eq!(
        metrics.program_length,
        metrics.total_operators + metrics.total_operands
    );
    assert_eq!(
        metrics.vocabulary_size,
        metrics.uniq_operators + metrics.uniq_operands
    );
}

#[test]
fn analyze_file_combines_both_counters() {
    let unit = switch_unit();
    let (cyclo, metrics) = fta::analyze_file(&unit);
    assert_eq!(cyclo, cyclomatic_complexity(&unit));
    assert_eq!(metrics, analyze_module(&unit));
}

#[test]
fn optional_and_plain_member_access_are_distinct_operators() {
    // `a.b` and `a?.b` use different operator lexemes.
    let unit = SourceUnit {
        body: vec![
            Node::Member {
                obj: Box::new(ident("a")),
                prop: Box::new(ident("b")),
                optional: false,
            },
            Node::Member {
                obj: Box::new(ident("a")),
                prop: Box::new(ident("b")),
                optional: true,
            },
        ],
    };
    let metrics = analyze_module(&unit);
    assert_eq!(metrics.uniq_operators, 2);
    assert_eq!(metrics.total_operators, 2);
    assert_eq!(metrics.uniq_operands, 2);
    assert_eq!(metrics.total_operands, 4);
}

#[test]
fn literals_with_equal_text_but_different_kinds_stay_distinct() {
    // The string "1" and the number 1 are different operand keys.
    let unit = SourceUnit {
        body: vec![lit(OperandKind::Str, "1"), lit(OperandKind::Num, "1")],
    };
    let metrics = analyze_module(&unit);
    assert_eq!(metrics.uniq_operands, 2);
    assert_eq!(metrics.total_operands, 2);
}

#[test]
fn declarations_contribute_their_keywords_and_names() {
    // `import { useState } from 'react'; export namespace A { class B {} }`
    let unit = SourceUnit {
        body: vec![
            Node::ImportDecl {
                names: vec![ident("useState")],
                source: "react".to_owned(),
            },
            Node::ExportDecl {
                items: vec![Node::Namespace {
                    name: "A".to_owned(),
                    body: vec![Node::ClassDecl { name: Some("B".to_owned()), body: vec![] }],
                }],
            },
        ],
    };
    let metrics = analyze_module(&unit);
    // import, export, namespace, class
    assert_eq!(metrics.uniq_operators, 4);
    assert_eq!(metrics.total_operators, 4);
    // "react", useState, A, B
    assert_eq!(metrics.uniq_operands, 4);
    assert_eq!(metrics.total_operands, 4);
}
