//! The virtual-machine instruction vocabulary the compiler emits. The
//! interpreter that executes instructions and the linker that resolves call
//! hashes are external collaborators; the compiler only builds the sequence.

use vstd::prelude::*;

verus! {

/// The identity of a function: the hash under which the linker resolves it
/// against a function table.
#[derive(Debug, Clone, Copy, PartialEq, Eq, Structural)]
pub struct FnHash {
    /// The hash value.
    pub value: u64,
}

/// A concrete instruction. Only the variants the compiler emits or inspects
/// for linking are modelled; each pops its operands from and pushes its
/// result onto the interpreter's evaluation stack.
#[derive(Debug, Clone, Copy, PartialEq, Eq, Structural)]
pub enum Inst {
    /// Push a unit value.
    Unit,
    /// Push an integer literal.
    Integer {
        /// The literal value.
        number: i64,
    },
    /// Pop the top of the stack.
    Pop,
    /// Suspend on the value at the top of the stack; at resumption the value
    /// is replaced by the resumed result.
    Await,
    /// Pop a value, an index and a target, and store the value at the index
    /// of the target, producing nothing.
    IndexSet,
    /// Call the function with the given hash, popping its arguments and
    /// pushing its one result.
    Call {
        /// The callee's identity.
        hash: FnHash,
        /// The number of arguments popped.
        args: usize,
    },
}

/// The net number of evaluation-stack slots an instruction adds when it is
/// executed: what it pushes minus what it pops.
pub open spec fn stack_effect(inst: Inst) -> int {
    match inst {
        Inst::Unit => 1,
        Inst::Integer { .. } => 1,
        Inst::Pop => -1,
        Inst::Await => 0,
        Inst::IndexSet => -3,
        Inst::Call { args, .. } => 1 - args,
    }
}

} // verus!
