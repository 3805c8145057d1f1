use rune_core::assembly::{Assembly, AssemblyInst, UnitError};
use rune_core::inst::{FnHash, Inst};
use rune_core::span::Span;

fn span(at: usize) -> Span {
    Span::new(at, at + 1)
}

#[test]
fn new_labels_get_distinct_discriminators() {
    let mut asm_buf = Assembly::new(0);
    let a = asm_buf.new_label("if_branch");
    let b = asm_buf.new_label("if_branch");
    assert_eq!(a.ident, 0);
    assert_eq!(b.ident, 1);
    assert_eq!(a.name, "if_branch");
    assert_eq!(asm_buf.label_count, 2);
}

#[test]
fn label_discriminators_continue_from_the_initial_count() {
    let mut asm_buf = Assembly::new(7);
    let a = asm_buf.new_label("loop_end");
    assert_eq!(a.ident, 7);
    assert_eq!(asm_buf.label_count, 8);
}

#[test]
fn placing_a_label_binds_the_current_offset() {
    let mut asm_buf = Assembly::new(0);
    asm_buf.push(Inst::Unit, span(0));
    let l = asm_buf.new_label("after_unit");
    let placed = asm_buf.label(l).unwrap();
    assert_eq!(placed.ident, l.ident);
    assert_eq!(asm_buf.labels.len(), 1);
    assert_eq!(asm_buf.labels[0].0.ident, l.ident);
    assert_eq!(asm_buf.labels[0].1, 1);
    assert_eq!(asm_buf.labels_rev.len(), 1);
    assert_eq!(asm_buf.labels_rev[0].0, 1);
    assert_eq!(asm_buf.labels_rev[0].1.ident, l.ident);
}

#[test]
fn placing_the_same_label_twice_is_a_duplicate_label_error() {
    let mut asm_buf = Assembly::new(0);
    let l = asm_buf.new_label("once");
    asm_buf.label(l).unwrap();
    let err = asm_buf.label(l).unwrap_err();
    let UnitError::DuplicateLabel { label } = err;
    assert_eq!(label.ident, l.ident);
    assert_eq!(asm_buf.labels.len(), 1, "the failed placement changes nothing");
}

#[test]
fn two_labels_at_one_offset_keep_the_last_in_the_reverse_map() {
    let mut asm_buf = Assembly::new(0);
    let first = asm_buf.new_label("first");
    let second = asm_buf.new_label("second");
    asm_buf.label(first).unwrap();
    asm_buf.label(second).unwrap();
    assert_eq!(asm_buf.labels.len(), 2, "both placements are recorded");
    assert_eq!(asm_buf.labels[0].1, 0);
    assert_eq!(asm_buf.labels[1].1, 0);
    assert_eq!(asm_buf.labels_rev.len(), 1, "the reverse map holds one entry per offset");
    assert_eq!(asm_buf.labels_rev[0].0, 0);
    assert_eq!(asm_buf.labels_rev[0].1.ident, second.ident, "the last placement wins");
}

#[test]
fn jumps_append_symbolic_entries_in_order() {
    let mut asm_buf = Assembly::new(0);
    let l = asm_buf.new_label("target");
    asm_buf.jump(l, span(0));
    asm_buf.jump_if(l, span(1));
    asm_buf.jump_if_not(l, span(2));
    asm_buf.jump_if_branch(4, l, span(3));
    asm_buf.pop_and_jump_if(2, l, span(4));
    asm_buf.pop_and_jump_if_not(3, l, span(5));
    assert_eq!(asm_buf.instructions.len(), 6);
    assert!(matches!(asm_buf.instructions[0].0, AssemblyInst::Jump { label } if label.ident == 0));
    assert!(matches!(asm_buf.instructions[1].0, AssemblyInst::JumpIf { .. }));
    assert!(matches!(asm_buf.instructions[2].0, AssemblyInst::JumpIfNot { .. }));
    assert!(matches!(
        asm_buf.instructions[3].0,
        AssemblyInst::JumpIfBranch { branch: 4, .. }
    ));
    assert!(matches!(asm_buf.instructions[4].0, AssemblyInst::PopAndJumpIf { count: 2, .. }));
    assert!(matches!(asm_buf.instructions[5].0, AssemblyInst::PopAndJumpIfNot { count: 3, .. }));
    assert_eq!(asm_buf.instructions[3].1, span(3));
    assert!(asm_buf.labels.is_empty(), "a jump references a label without placing it");
}

#[test]
fn pushing_a_plain_instruction_requires_nothing() {
    let mut asm_buf = Assembly::new(0);
    asm_buf.push(Inst::Unit, span(0));
    asm_buf.push(Inst::Pop, span(1));
    assert!(asm_buf.required_functions.is_empty());
    assert!(matches!(
        asm_buf.instructions[0].0,
        AssemblyInst::Raw { raw: Inst::Unit }
    ));
}

#[test]
fn two_calls_to_one_hash_share_one_entry() {
    let mut asm_buf = Assembly::new(0);
    let hash = FnHash { value: 42 };
    asm_buf.push(Inst::Call { hash, args: 2 }, span(0));
    asm_buf.push(Inst::Call { hash, args: 2 }, span(5));
    assert_eq!(asm_buf.required_functions.len(), 1, "one hash entry, not two");
    assert_eq!(asm_buf.required_functions[0].0, hash);
    assert_eq!(asm_buf.required_functions[0].1, vec![span(0), span(5)]);
}

#[test]
fn calls_to_distinct_hashes_get_distinct_entries() {
    let mut asm_buf = Assembly::new(0);
    asm_buf.push(Inst::Call { hash: FnHash { value: 1 }, args: 0 }, span(0));
    asm_buf.push(Inst::Call { hash: FnHash { value: 2 }, args: 0 }, span(1));
    asm_buf.push(Inst::Call { hash: FnHash { value: 1 }, args: 0 }, span(2));
    assert_eq!(asm_buf.required_functions.len(), 2);
    assert_eq!(asm_buf.required_functions[0].1, vec![span(0), span(2)]);
    assert_eq!(asm_buf.required_functions[1].1, vec![span(1)]);
}

#[test]
fn a_comment_describes_the_instruction_that_follows_it() {
    let mut asm_buf = Assembly::new(0);
    asm_buf.push(Inst::Unit, span(0));
    asm_buf.push_with_comment(Inst::Pop, span(1), "discard the receiver");
    assert_eq!(asm_buf.instructions.len(), 2);
    assert!(matches!(asm_buf.instructions[1].0, AssemblyInst::Raw { raw: Inst::Pop }));
    assert_eq!(asm_buf.comments.len(), 1);
    assert_eq!(asm_buf.comments[0].0, 1, "the comment is keyed by the pre-push offset");
    assert_eq!(asm_buf.comments[0].1, vec![String::from("discard the receiver")]);
}

#[test]
fn a_commented_call_is_still_required() {
    let mut asm_buf = Assembly::new(0);
    let hash = FnHash { value: 9 };
    asm_buf.push_with_comment(Inst::Call { hash, args: 1 }, span(3), "call the getter");
    assert_eq!(asm_buf.required_functions.len(), 1);
    assert_eq!(asm_buf.required_functions[0].1, vec![span(3)]);
    assert_eq!(asm_buf.comments[0].0, 0);
}
