use rune_core::assembly::{Assembly, AssemblyInst};
use rune_core::compiler::{Compiler, Expr, Needs};
use rune_core::inst::Inst;
use rune_core::span::Span;

fn span(at: usize) -> Span {
    Span::new(at, at + 1)
}

fn compiler() -> Compiler {
    Compiler::new(Assembly::new(0))
}

fn raw_insts(c: &Compiler) -> Vec<Inst> {
    c.assembly
        .instructions
        .iter()
        .map(|entry| match entry.0 {
            AssemblyInst::Raw { raw } => raw,
            ref other => panic!("the compiler emitted a symbolic entry: {:?}", other),
        })
        .collect()
}

/// The net stack effect of the emitted instructions, simulated one
/// instruction at a time.
fn net_effect(c: &Compiler) -> i64 {
    raw_insts(c)
        .iter()
        .map(|inst| match inst {
            Inst::Unit => 1,
            Inst::Integer { .. } => 1,
            Inst::Pop => -1,
            Inst::Await => 0,
            Inst::IndexSet => -3,
            Inst::Call { args, .. } => 1 - (*args as i64),
        })
        .sum()
}

#[test]
fn needs_value_is_a_two_way_directive() {
    assert!(Needs::Value.value());
    assert!(!Needs::NoValue.value());
}

#[test]
fn expr_span_is_the_node_span() {
    let e = Expr::Await { expr: Box::new(Expr::Unit { span: span(1) }), span: span(0) };
    assert_eq!(e.span(), span(0));
}

#[test]
fn unit_literal_is_emitted_only_when_needed() {
    let mut c = compiler();
    c.compile(&Expr::Unit { span: span(0) }, Needs::Value).unwrap();
    assert_eq!(raw_insts(&c), vec![Inst::Unit]);

    let mut c = compiler();
    c.compile(&Expr::Unit { span: span(0) }, Needs::NoValue).unwrap();
    assert!(c.assembly.instructions.is_empty());
}

#[test]
fn integer_literal_is_emitted_only_when_needed() {
    let mut c = compiler();
    c.compile(&Expr::Integer { number: 7, span: span(0) }, Needs::Value).unwrap();
    assert_eq!(raw_insts(&c), vec![Inst::Integer { number: 7 }]);

    let mut c = compiler();
    c.compile(&Expr::Integer { number: 7, span: span(0) }, Needs::NoValue).unwrap();
    assert!(c.assembly.instructions.is_empty());
}

#[test]
fn suspend_pops_its_result_when_no_value_is_needed() {
    let operand = || Box::new(Expr::Integer { number: 1, span: span(1) });

    let mut c = compiler();
    c.compile(&Expr::Await { expr: operand(), span: span(0) }, Needs::Value).unwrap();
    assert_eq!(raw_insts(&c), vec![Inst::Integer { number: 1 }, Inst::Await]);

    let mut c = compiler();
    c.compile(&Expr::Await { expr: operand(), span: span(0) }, Needs::NoValue).unwrap();
    assert_eq!(
        raw_insts(&c),
        vec![Inst::Integer { number: 1 }, Inst::Await, Inst::Pop]
    );
}

#[test]
fn suspend_operand_is_always_compiled_for_a_value() {
    // The operand is a unit literal, which emits nothing under NoValue; that
    // it appears even when the suspend's own result is dropped shows the
    // operand was compiled under Needs::Value.
    let mut c = compiler();
    let e = Expr::Await { expr: Box::new(Expr::Unit { span: span(1) }), span: span(0) };
    c.compile(&e, Needs::NoValue).unwrap();
    assert_eq!(raw_insts(&c), vec![Inst::Unit, Inst::Await, Inst::Pop]);
}

#[test]
fn indexed_assignment_compiles_value_then_index_then_target() {
    let e = Expr::IndexSet {
        target: Box::new(Expr::Integer { number: 10, span: span(0) }),
        index: Box::new(Expr::Integer { number: 11, span: span(2) }),
        value: Box::new(Expr::Integer { number: 12, span: span(6) }),
        span: span(0),
    };
    let mut c = compiler();
    c.compile(&e, Needs::NoValue).unwrap();
    assert_eq!(
        raw_insts(&c),
        vec![
            Inst::Integer { number: 12 },
            Inst::Integer { number: 11 },
            Inst::Integer { number: 10 },
            Inst::IndexSet,
        ],
        "value before index before target, in source order"
    );
}

#[test]
fn indexed_assignment_synthesizes_a_unit_when_a_value_is_needed() {
    let e = Expr::IndexSet {
        target: Box::new(Expr::Integer { number: 10, span: span(0) }),
        index: Box::new(Expr::Integer { number: 11, span: span(2) }),
        value: Box::new(Expr::Integer { number: 12, span: span(6) }),
        span: span(0),
    };
    let mut c = compiler();
    c.compile(&e, Needs::Value).unwrap();
    assert_eq!(
        raw_insts(&c),
        vec![
            Inst::Integer { number: 12 },
            Inst::Integer { number: 11 },
            Inst::Integer { number: 10 },
            Inst::IndexSet,
            Inst::Unit,
        ]
    );
}

#[test]
fn net_stack_effect_matches_the_needs_directive() {
    let make = || Expr::IndexSet {
        target: Box::new(Expr::Integer { number: 1, span: span(1) }),
        index: Box::new(Expr::Await {
            expr: Box::new(Expr::Integer { number: 2, span: span(3) }),
            span: span(2),
        }),
        value: Box::new(Expr::Unit { span: span(4) }),
        span: span(0),
    };

    let mut c = compiler();
    c.compile(&make(), Needs::Value).unwrap();
    assert_eq!(net_effect(&c), 1);

    let mut c = compiler();
    c.compile(&make(), Needs::NoValue).unwrap();
    assert_eq!(net_effect(&c), 0);
}

#[test]
fn emitted_instructions_carry_the_node_spans() {
    let e = Expr::Await { expr: Box::new(Expr::Integer { number: 3, span: span(4) }), span: span(9) };
    let mut c = compiler();
    c.compile(&e, Needs::NoValue).unwrap();
    assert_eq!(c.assembly.instructions[0].1, span(4), "the operand keeps its own span");
    assert_eq!(c.assembly.instructions[1].1, span(9), "the suspend carries the node's span");
    assert_eq!(c.assembly.instructions[2].1, span(9), "so does the trimming pop");
}

#[test]
fn compilation_leaves_the_label_books_alone() {
    let mut c = compiler();
    c.compile(&Expr::Unit { span: span(0) }, Needs::Value).unwrap();
    assert!(c.assembly.labels.is_empty());
    assert!(c.assembly.labels_rev.is_empty());
    assert!(c.assembly.comments.is_empty());
    assert!(c.assembly.required_functions.is_empty());
    assert_eq!(c.assembly.label_count, 0);
}
