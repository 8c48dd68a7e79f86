//! The low-level code representation the lowerer emits: SSA values, stack
//! slots and basic blocks addressed by small integers, and a flat
//! instruction set mirroring the machine-code builder's operations. A
//! downstream emitter replays these instructions one for one.

use crate::target::NativeType;
use vstd::prelude::*;

verus! {

/// Identifies an SSA value of the emitted code.
pub type ValId = u32;

/// Identifies a stack slot of the emitted code.
pub type SlotId = u32;

/// Identifies a basic block of the emitted code.
pub type CodeBlockId = u32;

/// Identifies a finished function within a codegen session.
pub type FuncId = u32;

/// The integer comparison conditions the lowerer emits.
#[derive(Debug, Copy, Clone, PartialEq, Eq, Structural)]
pub enum IntCond {
    Equal,
    NotEqual,
}

/// Flags attached to an emitted memory access. `trusted` marks an access
/// that can neither trap nor alias in a way the optimizer must respect;
/// `readonly` marks a load from memory the function never writes.
#[derive(Debug, Copy, Clone, PartialEq, Eq, Structural)]
pub struct MemFlags {
    pub trusted: bool,
    pub readonly: bool,
}

impl MemFlags {
    /// Plain flags: nothing promised.
    pub fn new() -> (r: MemFlags)
        ensures
            r == (MemFlags { trusted: false, readonly: false }),
    {
        MemFlags { trusted: false, readonly: false }
    }

    /// A trusted access: non-trapping and aligned.
    pub fn trusted() -> (r: MemFlags)
        ensures
            r == (MemFlags { trusted: true, readonly: false }),
    {
        MemFlags { trusted: true, readonly: false }
    }
}

/// One emitted instruction. Value-producing instructions name their result
/// explicitly, so a replay can bind results to builder values one for one.
#[derive(Debug, Clone, PartialEq)]
pub enum Inst {
    /// A typed integer immediate.
    IConst { ty: NativeType, value: i64, result: ValId },
    IAdd { lhs: ValId, rhs: ValId, result: ValId },
    ISub { lhs: ValId, rhs: ValId, result: ValId },
    IMul { lhs: ValId, rhs: ValId, result: ValId },
    ICmp { cond: IntCond, lhs: ValId, rhs: ValId, result: ValId },
    ICmpImm { cond: IntCond, arg: ValId, imm: i64, result: ValId },
    Band { lhs: ValId, rhs: ValId, result: ValId },
    Bor { lhs: ValId, rhs: ValId, result: ValId },
    BandImm { arg: ValId, imm: i64, result: ValId },
    BorImm { arg: ValId, imm: i64, result: ValId },
    /// `result = if cond != 0 { if_true } else { if_false }`.
    Select { cond: ValId, if_true: ValId, if_false: ValId, result: ValId },
    /// A typed load from `addr + offset`.
    Load { ty: NativeType, flags: MemFlags, addr: ValId, offset: u32, result: ValId },
    /// A store of `value` to `addr + offset`.
    Store { flags: MemFlags, value: ValId, addr: ValId, offset: u32 },
    /// A typed load from a stack slot.
    StackLoad { ty: NativeType, slot: SlotId, offset: u32, result: ValId },
    /// A store of `value` into a stack slot.
    StackStore { value: ValId, slot: SlotId, offset: u32 },
    /// The address of a stack slot, as a pointer-typed value.
    StackAddr { slot: SlotId, offset: u32, result: ValId },
    /// A byte-wise copy of `size` bytes from `src` to `dest`, both aligned
    /// to `align`; the ranges do not overlap.
    MemCpy { dest: ValId, src: ValId, size: u64, align: u8 },
    /// Fills `size` bytes at `addr` with `value`, aligned to `align`.
    MemSet { addr: ValId, value: u8, size: u64, align: u8 },
    /// A call of the `string_clone` runtime intrinsic.
    CallStringClone { arg: ValId, result: ValId },
    /// Branch to `target` when `cond` is zero, else fall through.
    Brz { cond: ValId, target: CodeBlockId },
    /// An unconditional jump.
    Jump { target: CodeBlockId },
    /// Return, with or without a value.
    Return { value: Option<ValId> },
}

impl Inst {
    /// The result value this instruction defines, if any.
    pub open spec fn spec_result(self) -> Option<ValId> {
        match self {
            Inst::IConst { result, .. } => Some(result),
            Inst::IAdd { result, .. } => Some(result),
            Inst::ISub { result, .. } => Some(result),
            Inst::IMul { result, .. } => Some(result),
            Inst::ICmp { result, .. } => Some(result),
            Inst::ICmpImm { result, .. } => Some(result),
            Inst::Band { result, .. } => Some(result),
            Inst::Bor { result, .. } => Some(result),
            Inst::BandImm { result, .. } => Some(result),
            Inst::BorImm { result, .. } => Some(result),
            Inst::Select { result, .. } => Some(result),
            Inst::Load { result, .. } => Some(result),
            Inst::StackLoad { result, .. } => Some(result),
            Inst::StackAddr { result, .. } => Some(result),
            Inst::CallStringClone { result, .. } => Some(result),
            _ => None,
        }
    }

    /// Holds when every value, slot and block the instruction references is
    /// in range.
    pub open spec fn wf(self, n_vals: int, n_slots: int, n_blocks: int) -> bool {
        match self {
            Inst::IConst { result, .. } => result < n_vals,
            Inst::IAdd { lhs, rhs, result } => lhs < n_vals && rhs < n_vals && result < n_vals,
            Inst::ISub { lhs, rhs, result } => lhs < n_vals && rhs < n_vals && result < n_vals,
            Inst::IMul { lhs, rhs, result } => lhs < n_vals && rhs < n_vals && result < n_vals,
            Inst::ICmp { lhs, rhs, result, .. } => lhs < n_vals && rhs < n_vals && result < n_vals,
            Inst::ICmpImm { arg, result, .. } => arg < n_vals && result < n_vals,
            Inst::Band { lhs, rhs, result } => lhs < n_vals && rhs < n_vals && result < n_vals,
            Inst::Bor { lhs, rhs, result } => lhs < n_vals && rhs < n_vals && result < n_vals,
            Inst::BandImm { arg, result, .. } => arg < n_vals && result < n_vals,
            Inst::BorImm { arg, result, .. } => arg < n_vals && result < n_vals,
            Inst::Select { cond, if_true, if_false, result } => cond < n_vals && if_true < n_vals
                && if_false < n_vals && result < n_vals,
            Inst::Load { addr, result, .. } => addr < n_vals && result < n_vals,
            Inst::Store { value, addr, .. } => value < n_vals && addr < n_vals,
            Inst::StackLoad { slot, result, .. } => slot < n_slots && result < n_vals,
            Inst::StackStore { value, slot, .. } => value < n_vals && slot < n_slots,
            Inst::StackAddr { slot, result, .. } => slot < n_slots && result < n_vals,
            Inst::MemCpy { dest, src, .. } => dest < n_vals && src < n_vals,
            Inst::MemSet { addr, .. } => addr < n_vals,
            Inst::CallStringClone { arg, result } => arg < n_vals && result < n_vals,
            Inst::Brz { cond, target } => cond < n_vals && target < n_blocks,
            Inst::Jump { target } => target < n_blocks,
            Inst::Return { value } => (value matches Some(v) ==> v < n_vals),
        }
    }
}

/// One basic block of emitted code: a straight sequence of instructions.
#[derive(Debug, Clone, PartialEq)]
pub struct CodeBlock {
    pub insts: Vec<Inst>,
}

/// A whole lowered function: its machine signature (pointer parameters, an
/// optional pointer return), its stack slots (by size in bytes), and its
/// basic blocks. `entry` names the block control starts in; the function's
/// parameters are the first `params.len()` SSA values.
#[derive(Debug, Clone, PartialEq)]
pub struct CodeFunc {
    pub params: Vec<NativeType>,
    pub returns: Option<NativeType>,
    pub slots: Vec<u32>,
    pub blocks: Vec<CodeBlock>,
    pub entry: CodeBlockId,
    pub n_vals: u32,
}

impl CodeFunc {
    /// Holds when every instruction of every block references only values,
    /// slots and blocks that exist.
    pub open spec fn wf(self) -> bool {
        &&& self.entry < self.blocks@.len()
        &&& self.params@.len() <= self.n_vals
        &&& forall|b: int, i: int|
            0 <= b < self.blocks@.len() && 0 <= i < self.blocks@[b].insts@.len() ==> (
            #[trigger] self.blocks@[b].insts@[i]).wf(
                self.n_vals as int,
                self.slots@.len() as int,
                self.blocks@.len() as int,
            )
    }
}

} // verus!
