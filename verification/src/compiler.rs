//! The expression compiler. Every compile call threads a [`Needs`] directive:
//! whether the surrounding expression will consume a produced value. On
//! success the emitted instructions leave the evaluation stack exactly as the
//! directive says: one additional value under [`Needs::Value`], none under
//! [`Needs::NoValue`]. Operands are always compiled under [`Needs::Value`],
//! whatever the parent's own directive, because the parent's instruction
//! consumes their results; only the parent's own final result is padded or
//! trimmed.

use vstd::prelude::*;
use crate::assembly::{bookkeeping_unchanged, Assembly, AssemblyInst};
use crate::inst::{stack_effect, Inst};
use crate::span::Span;

verus! {

/// Whether the surrounding expression needs the compiled expression to leave
/// a value on the evaluation stack.
#[derive(Debug, Clone, Copy, PartialEq, Eq, Structural)]
pub enum Needs {
    /// The caller consumes one produced value: leave exactly one.
    Value,
    /// No result is required: leave the stack as it was.
    NoValue,
}

impl Needs {
    /// Whether a value is needed.
    pub fn value(&self) -> (r: bool)
        ensures
            r == (*self is Value),
    {
        matches!(self, Needs::Value)
    }
}

/// An expression of the source language, as far as the compiler walks it.
/// Each node carries the source range it covers.
#[derive(Debug)]
pub enum Expr {
    /// A unit literal.
    Unit {
        /// The source range of the literal.
        span: Span,
    },
    /// An integer literal.
    Integer {
        /// The literal value.
        number: i64,
        /// The source range of the literal.
        span: Span,
    },
    /// A suspend expression: suspend on the operand's value; at resumption
    /// the value is replaced by the resumed result.
    Await {
        /// The operand suspended on.
        expr: Box<Expr>,
        /// The source range of the whole expression.
        span: Span,
    },
    /// An indexed assignment `target[index] = value`. It has no natural
    /// result value of its own.
    IndexSet {
        /// The expression assigned into.
        target: Box<Expr>,
        /// The index assigned at.
        index: Box<Expr>,
        /// The value assigned.
        value: Box<Expr>,
        /// The source range of the whole expression.
        span: Span,
    },
}

impl Expr {
    /// The source range the expression covers.
    pub open spec fn spec_span(self) -> Span {
        match self {
            Expr::Unit { span } => span,
            Expr::Integer { span, .. } => span,
            Expr::Await { span, .. } => span,
            Expr::IndexSet { span, .. } => span,
        }
    }

    /// The source range the expression covers.
    pub fn span(&self) -> (r: Span)
        ensures
            r == self.spec_span(),
    {
        match self {
            Expr::Unit { span } => *span,
            Expr::Integer { span, .. } => *span,
            Expr::Await { span, .. } => *span,
            Expr::IndexSet { span, .. } => *span,
        }
    }
}

/// A compile failure, carrying the span of the offending node. It propagates
/// verbatim out of nested compilations; every expression kind modelled here
/// compiles, so none of them produces it.
#[derive(Debug, Clone, Copy, PartialEq, Eq, Structural)]
pub enum CompileError {
    /// An expression shape the compiler does not support.
    Unsupported {
        /// The source range of the offending node.
        span: Span,
    },
}

/// Exactly the instruction sequence compiling an expression under a needs
/// directive appends: operands always under [`Needs::Value`], left to right
/// in source order, then the node's own instruction, then the node's result
/// padded (a unit) or trimmed (a pop) to match the directive.
pub open spec fn emitted(e: Expr, needs: Needs) -> Seq<(AssemblyInst, Span)>
    decreases e,
{
    match e {
        Expr::Unit { span } => if needs is Value {
            seq![(AssemblyInst::Raw { raw: Inst::Unit }, span)]
        } else {
            Seq::empty()
        },
        Expr::Integer { number, span } => if needs is Value {
            seq![(AssemblyInst::Raw { raw: Inst::Integer { number } }, span)]
        } else {
            Seq::empty()
        },
        Expr::Await { expr, span } => emitted(*expr, Needs::Value) + seq![
            (AssemblyInst::Raw { raw: Inst::Await }, span),
        ] + if needs is Value {
            Seq::empty()
        } else {
            seq![(AssemblyInst::Raw { raw: Inst::Pop }, span)]
        },
        Expr::IndexSet { target, index, value, span } => emitted(*value, Needs::Value) + emitted(
            *index,
            Needs::Value,
        ) + emitted(*target, Needs::Value) + seq![
            (AssemblyInst::Raw { raw: Inst::IndexSet }, span),
        ] + if needs is Value {
            seq![(AssemblyInst::Raw { raw: Inst::Unit }, span)]
        } else {
            Seq::empty()
        },
    }
}

/// The compiler: the assembly being filled for one function body.
#[derive(Debug, Clone)]
pub struct Compiler {
    /// The assembly the compiled instructions are pushed into.
    pub assembly: Assembly,
}

impl Compiler {
    /// Construct a compiler around a fresh assembly.
    pub fn new(assembly: Assembly) -> (r: Compiler)
        ensures
            r.assembly == assembly,
    {
        Compiler { assembly }
    }

    /// Compile one expression under a needs directive, appending exactly
    /// [`emitted`]`(*expr, needs)` to the assembly. Compilation of every
    /// expression kind succeeds; a failure of a nested compilation would
    /// propagate verbatim.
    pub fn compile(&mut self, expr: &Expr, needs: Needs) -> (r: Result<(), CompileError>)
        requires
            old(self).assembly.wf(),
        ensures
            final(self).assembly.wf(),
            r is Ok,
            final(self).assembly.instructions@ == old(self).assembly.instructions@ + emitted(*expr, needs),
            bookkeeping_unchanged(old(self).assembly, final(self).assembly),
        decreases *expr,
    {
        match expr {
            Expr::Unit { span } => {
                if needs.value() {
                    self.assembly.push(Inst::Unit, *span);
                }
                proof {
                    assert(self.assembly.instructions@ =~= old(self).assembly.instructions@ + emitted(
                        *expr,
                        needs,
                    ));
                }
                Ok(())
            },
            Expr::Integer { number, span } => {
                if needs.value() {
                    self.assembly.push(Inst::Integer { number: *number }, *span);
                }
                proof {
                    assert(self.assembly.instructions@ =~= old(self).assembly.instructions@ + emitted(
                        *expr,
                        needs,
                    ));
                }
                Ok(())
            },
            Expr::Await { expr: operand, span } => {
                self.compile(&**operand, Needs::Value)?;
                self.assembly.push(Inst::Await, *span);
                if !needs.value() {
                    self.assembly.push(Inst::Pop, *span);
                }
                proof {
                    assert(self.assembly.instructions@ =~= old(self).assembly.instructions@ + emitted(
                        *expr,
                        needs,
                    ));
                }
                Ok(())
            },
            Expr::IndexSet { target, index, value, span } => {
                self.compile(&**value, Needs::Value)?;
                self.compile(&**index, Needs::Value)?;
                self.compile(&**target, Needs::Value)?;
                self.assembly.push(Inst::IndexSet, *span);
                if needs.value() {
                    self.assembly.push(Inst::Unit, *span);
                }
                proof {
                    assert(self.assembly.instructions@ =~= old(self).assembly.instructions@ + emitted(
                        *expr,
                        needs,
                    ));
                }
                Ok(())
            },
        }
    }
}

/// The net stack effect of one instruction-buffer entry when it is executed
/// in straight-line order. A symbolic jump moves control, not operands; the
/// sequences the compiler emits hold no jumps at all (see [`all_raw`]).
pub open spec fn entry_stack_effect(entry: AssemblyInst) -> int {
    match entry {
        AssemblyInst::Raw { raw } => stack_effect(raw),
        _ => 0,
    }
}

/// The net stack effect of an instruction sequence: its entries' effects
/// summed.
pub open spec fn seq_stack_effect(s: Seq<(AssemblyInst, Span)>) -> int
    decreases s.len(),
{
    if s.len() == 0 {
        0
    } else {
        seq_stack_effect(s.drop_last()) + entry_stack_effect(s.last().0)
    }
}

/// Every entry of the sequence is a concrete instruction, not a symbolic
/// jump.
pub open spec fn all_raw(s: Seq<(AssemblyInst, Span)>) -> bool {
    forall|i: int| 0 <= i < s.len() ==> (#[trigger] s[i]).0 matches AssemblyInst::Raw { .. }
}

/// Stack effects add over concatenation.
proof fn lemma_seq_stack_effect_add(a: Seq<(AssemblyInst, Span)>, b: Seq<(AssemblyInst, Span)>)
    ensures
        seq_stack_effect(a + b) == seq_stack_effect(a) + seq_stack_effect(b),
    decreases b.len(),
{
    if b.len() == 0 {
        assert(a + b =~= a);
    } else {
        assert((a + b).drop_last() =~= a + b.drop_last());
        assert((a + b).last() == b.last());
        lemma_seq_stack_effect_add(a, b.drop_last());
    }
}

/// Jump-freedom is kept over concatenation.
proof fn lemma_all_raw_add(a: Seq<(AssemblyInst, Span)>, b: Seq<(AssemblyInst, Span)>)
    requires
        all_raw(a),
        all_raw(b),
    ensures
        all_raw(a + b),
{
    assert forall|i: int| 0 <= i < (a + b).len() implies (#[trigger] (a + b)[i]).0 matches
        AssemblyInst::Raw { .. } by {
        if i < a.len() {
            assert((a + b)[i] == a[i]);
        } else {
            assert((a + b)[i] == b[i - a.len()]);
        }
    }
}

/// The effect of a one-entry sequence is its entry's effect.
proof fn lemma_seq_stack_effect_singleton(entry: (AssemblyInst, Span))
    ensures
        seq_stack_effect(seq![entry]) == entry_stack_effect(entry.0),
        all_raw(Seq::<(AssemblyInst, Span)>::empty()),
        (entry.0 matches AssemblyInst::Raw { .. }) ==> all_raw(seq![entry]),
{
    assert(seq![entry].drop_last() =~= Seq::<(AssemblyInst, Span)>::empty());
    assert(seq_stack_effect(seq![entry].drop_last()) == 0);
    assert(seq![entry].last() == entry);
}

/// The needs invariant: whatever the expression kind, the sequence compiled
/// under [`Needs::Value`] has a net stack effect of exactly one, and the
/// sequence compiled under [`Needs::NoValue`] of exactly zero — and it holds
/// no symbolic jumps, so its effect is fully accounted for by simulating
/// each emitted instruction.
pub proof fn lemma_needs_stack_effect(e: Expr, needs: Needs)
    ensures
        all_raw(emitted(e, needs)),
        seq_stack_effect(emitted(e, needs)) == if needs is Value {
            1int
        } else {
            0int
        },
    decreases e,
{
    match e {
        Expr::Unit { span } => {
            if needs is Value {
                lemma_seq_stack_effect_singleton((AssemblyInst::Raw { raw: Inst::Unit }, span));
            }
        },
        Expr::Integer { number, span } => {
            if needs is Value {
                lemma_seq_stack_effect_singleton(
                    (AssemblyInst::Raw { raw: Inst::Integer { number } }, span),
                );
            }
        },
        Expr::Await { expr, span } => {
            lemma_needs_stack_effect(*expr, Needs::Value);
            let operand = emitted(*expr, Needs::Value);
            let suspend = seq![(AssemblyInst::Raw { raw: Inst::Await }, span)];
            let trim = seq![(AssemblyInst::Raw { raw: Inst::Pop }, span)];
            lemma_seq_stack_effect_singleton((AssemblyInst::Raw { raw: Inst::Await }, span));
            lemma_seq_stack_effect_singleton((AssemblyInst::Raw { raw: Inst::Pop }, span));
            lemma_seq_stack_effect_add(operand, suspend);
            lemma_all_raw_add(operand, suspend);
            if needs is Value {
                assert(operand + suspend + Seq::<(AssemblyInst, Span)>::empty() =~= operand
                    + suspend);
            } else {
                lemma_seq_stack_effect_add(operand + suspend, trim);
                lemma_all_raw_add(operand + suspend, trim);
            }
        },
        Expr::IndexSet { target, index, value, span } => {
            lemma_needs_stack_effect(*value, Needs::Value);
            lemma_needs_stack_effect(*index, Needs::Value);
            lemma_needs_stack_effect(*target, Needs::Value);
            let operands = emitted(*value, Needs::Value) + emitted(*index, Needs::Value) + emitted(
                *target,
                Needs::Value,
            );
            let store = seq![(AssemblyInst::Raw { raw: Inst::IndexSet }, span)];
            let pad = seq![(AssemblyInst::Raw { raw: Inst::Unit }, span)];
            lemma_seq_stack_effect_singleton((AssemblyInst::Raw { raw: Inst::IndexSet }, span));
            lemma_seq_stack_effect_singleton((AssemblyInst::Raw { raw: Inst::Unit }, span));
            lemma_seq_stack_effect_add(emitted(*value, Needs::Value), emitted(*index, Needs::Value));
            lemma_all_raw_add(emitted(*value, Needs::Value), emitted(*index, Needs::Value));
            lemma_seq_stack_effect_add(
                emitted(*value, Needs::Value) + emitted(*index, Needs::Value),
                emitted(*target, Needs::Value),
            );
            lemma_all_raw_add(
                emitted(*value, Needs::Value) + emitted(*index, Needs::Value),
                emitted(*target, Needs::Value),
            );
            lemma_seq_stack_effect_add(operands, store);
            lemma_all_raw_add(operands, store);
            if needs is Value {
                lemma_seq_stack_effect_add(operands + store, pad);
                lemma_all_raw_add(operands + store, pad);
            } else {
                assert(operands + store + Seq::<(AssemblyInst, Span)>::empty() =~= operands
                    + store);
            }
        },
    }
}

/// The evaluation-order contract of an indexed assignment: whatever the
/// needs directive, the value's instructions are emitted first, then the
/// index's, then the target's — the fixed left-to-right source order — then
/// the index-set instruction, then a unit placeholder only when a value is
/// needed.
pub proof fn lemma_index_set_evaluation_order(e: Expr, needs: Needs)
    ensures
        e matches Expr::IndexSet { target, index, value, span } ==> emitted(e, needs) == emitted(
            *value,
            Needs::Value,
        ) + emitted(*index, Needs::Value) + emitted(*target, Needs::Value) + seq![
            (AssemblyInst::Raw { raw: Inst::IndexSet }, span),
        ] + if needs is Value {
            seq![(AssemblyInst::Raw { raw: Inst::Unit }, span)]
        } else {
            Seq::empty()
        },
{
}

} // verus!
