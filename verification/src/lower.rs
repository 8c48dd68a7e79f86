//! Lowering of IR functions into the low-level code representation: the
//! per-function emission context, the per-expression lowering rules, and
//! the block-worklist driver.

use crate::code::{CodeBlock, CodeBlockId, CodeFunc, Inst, IntCond, MemFlags, SlotId, ValId};
use crate::codegen::{NativeLayoutCache, NullSigil};
use crate::exprs::{BinaryOp, BinaryOpKind, Constant, CopyRowTo, CopyVal, Expr, IsNull, Load, RValue, Select, SetNull, Store};
use crate::function::{Function, InputFlags, Terminator};
use crate::ir::{BlockId, ExprId, LayoutId};
use crate::target::NativeType;
use vstd::prelude::*;

verus! {

/// Why a function could not be lowered. The IR handed to the code
/// generator is expected to be validated already; these errors defend
/// against IR that breaks that contract instead of proceeding into
/// undefined behavior.
#[derive(Debug, Copy, Clone, PartialEq, Eq, Structural)]
pub enum LowerError {
    /// An expression operand was used before any value was recorded for it.
    UndefinedValue,
    /// Two expressions share one identifier.
    DuplicateValue,
    /// A row expression has no layout recorded.
    UndefinedLayout,
    /// A column index is out of range for its row layout.
    InvalidColumn,
    /// A null-flag operation names a column that isn't nullable.
    ColumnNotNullable,
    /// A load or store names a phantom `Unit` column, which holds no bytes.
    PhantomColumn,
    /// A `Unit` constant cannot be materialized as a value.
    UnitConstant,
    /// String constants are not lowered here.
    StringConstant,
    /// Returning a string immediate is not supported.
    StringReturn,
    /// An immediate of an unexpected kind (for instance a non-boolean
    /// `SetNull` immediate).
    InvalidImmediate,
    /// The two rows of a `CopyRowTo` do not share the stated layout.
    LayoutMismatch,
    /// A `Store`, `SetNull` or `CopyRowTo` targets a readonly parameter.
    ReadonlyWrite,
    /// A branch condition must be an expression, not an immediate.
    ImmediateBranch,
    /// The function defines more SSA values than the code can name.
    TooManyValues,
    /// The function uses more basic blocks than the code can name.
    TooManyBlocks,
    /// The function reserves more stack slots than the code can name.
    TooManySlots,
    /// An expression kind that is declared in the IR but given no lowering
    /// here.
    UnsupportedExpr,
}

/// The per-function lowering state: the code under construction, the block
/// being filled, and dense side tables from expression identifiers to
/// values, layouts, stack slots and input flags, and from IR block
/// identifiers to code blocks. All of it is discarded once the function is
/// sealed.
#[derive(Debug)]
pub struct Ctx {
    pub func: CodeFunc,
    pub cur_block: CodeBlockId,
    pub exprs: Vec<Option<ValId>>,
    pub expr_layouts: Vec<Option<LayoutId>>,
    pub stack_slots: Vec<Option<SlotId>>,
    pub function_inputs: Vec<Option<InputFlags>>,
    pub blocks: Vec<Option<CodeBlockId>>,
    pub null_sigil: NullSigil,
}

impl Ctx {
    /// The instructions of the block currently being filled.
    pub open spec fn cur_insts(self) -> Seq<Inst> {
        self.func.blocks@[self.cur_block as int].insts@
    }

    /// The side tables all describe entities that exist: every recorded
    /// value, slot, layout and code block is in range, and the tables are
    /// sized to the function's expression and block counts.
    pub open spec fn wf(self, n_layouts: int) -> bool {
        &&& self.func.wf()
        &&& self.cur_block < self.func.blocks@.len()
        &&& self.expr_layouts@.len() == self.exprs@.len()
        &&& self.stack_slots@.len() == self.exprs@.len()
        &&& self.function_inputs@.len() == self.exprs@.len()
        &&& forall|e: int|
            0 <= e < self.exprs@.len() ==> ((#[trigger] self.exprs@[e]) matches Some(v) ==> v
                < self.func.n_vals)
        &&& forall|e: int|
            0 <= e < self.stack_slots@.len() ==> ((#[trigger] self.stack_slots@[e]) matches Some(s)
                ==> s < self.func.slots@.len())
        &&& forall|e: int|
            0 <= e < self.expr_layouts@.len() ==> ((#[trigger] self.expr_layouts@[e]) matches Some(
            l) ==> l < n_layouts)
        &&& forall|b: int|
            0 <= b < self.blocks@.len() ==> ((#[trigger] self.blocks@[b]) matches Some(cb) ==> cb
                < self.func.blocks@.len())
    }

    /// The side tables of `b` are those of `a`.
    pub open spec fn same_maps(a: Ctx, b: Ctx) -> bool {
        &&& b.exprs@ == a.exprs@
        &&& b.expr_layouts@ == a.expr_layouts@
        &&& b.stack_slots@ == a.stack_slots@
        &&& b.function_inputs@ == a.function_inputs@
        &&& b.blocks@ == a.blocks@
        &&& b.null_sigil == a.null_sigil
    }

    /// The emitted code of `b` is that of `a`: no instruction, slot or
    /// block was added.
    pub open spec fn same_code(a: Ctx, b: Ctx) -> bool {
        &&& b.func.blocks@ == a.func.blocks@
        &&& b.func.slots@ == a.func.slots@
        &&& b.func.params@ == a.func.params@
        &&& b.func.returns == a.func.returns
        &&& b.func.entry == a.func.entry
        &&& b.cur_block == a.cur_block
    }

    /// `b` is `a` with `added` appended to the current block (and possibly
    /// more values named): no other block changed, nothing else moved.
    pub open spec fn code_extended(a: Ctx, b: Ctx, added: Seq<Inst>) -> bool {
        &&& b.func.blocks@.len() == a.func.blocks@.len()
        &&& b.cur_block == a.cur_block
        &&& b.cur_insts() =~= a.cur_insts() + added
        &&& forall|j: int|
            0 <= j < a.func.blocks@.len() && j != a.cur_block ==> (#[trigger] b.func.blocks@[j])
                == a.func.blocks@[j]
        &&& b.func.slots@ == a.func.slots@
        &&& b.func.params@ == a.func.params@
        &&& b.func.returns == a.func.returns
        &&& b.func.entry == a.func.entry
    }

    /// The parts of the context an expression lowering never touches: the
    /// block map, the input flags, the sigil, the current block, the
    /// function's shape, and the side tables' sizes.
    pub open spec fn frames_ok(a: Ctx, b: Ctx) -> bool {
        &&& b.blocks@ == a.blocks@
        &&& b.function_inputs@ == a.function_inputs@
        &&& b.null_sigil == a.null_sigil
        &&& b.cur_block == a.cur_block
        &&& b.func.blocks@.len() == a.func.blocks@.len()
        &&& b.func.params@ == a.func.params@
        &&& b.func.returns == a.func.returns
        &&& b.func.entry == a.func.entry
        &&& b.exprs@.len() == a.exprs@.len()
        &&& b.expr_layouts@.len() == a.expr_layouts@.len()
        &&& b.stack_slots@.len() == a.stack_slots@.len()
    }

    /// Names a fresh SSA value.
    fn fresh_val(&mut self) -> (r: ValId)
        requires
            old(self).func.n_vals < u32::MAX,
        ensures
            r == old(self).func.n_vals,
            final(self).func.n_vals == old(self).func.n_vals + 1,
            Ctx::same_maps(*old(self), *final(self)),
            Ctx::same_code(*old(self), *final(self)),
            forall|nl: int| old(self).wf(nl) ==> final(self).wf(nl),
    {
        let r = self.func.n_vals;
        self.func.n_vals = self.func.n_vals + 1;
        proof {
            assert forall|nl: int| old(self).wf(nl) implies self.wf(nl) by {
                assert forall|b: int, i: int|
                    0 <= b < self.func.blocks@.len() && 0 <= i
                        < self.func.blocks@[b].insts@.len() implies (
                #[trigger] self.func.blocks@[b].insts@[i]).wf(
                    self.func.n_vals as int,
                    self.func.slots@.len() as int,
                    self.func.blocks@.len() as int,
                ) by {
                    lemma_inst_wf_monotone(
                        self.func.blocks@[b].insts@[i],
                        old(self).func.n_vals as int,
                        self.func.slots@.len() as int,
                        self.func.blocks@.len() as int,
                        self.func.n_vals as int,
                        self.func.slots@.len() as int,
                        self.func.blocks@.len() as int,
                    );
                }
            }
        }
        r
    }

    /// Appends one instruction to the current block.
    fn emit(&mut self, inst: Inst)
        requires
            old(self).cur_block < old(self).func.blocks@.len(),
            inst.wf(
                old(self).func.n_vals as int,
                old(self).func.slots@.len() as int,
                old(self).func.blocks@.len() as int,
            ),
        ensures
            Ctx::same_maps(*old(self), *final(self)),
            Ctx::code_extended(*old(self), *final(self), seq![inst]),
            final(self).func.n_vals == old(self).func.n_vals,
            forall|nl: int| old(self).wf(nl) ==> final(self).wf(nl),
    {
        let cur = self.cur_block as usize;
        self.func.blocks[cur].insts.push(inst);
        proof {
            assert(self.cur_insts() =~= old(self).cur_insts() + seq![inst]);
        }
    }

    /// Records the SSA value an expression produced, and the layout of the
    /// row it denotes when it denotes one.
    fn add_expr(&mut self, expr_id: ExprId, value: ValId, layout: Option<LayoutId>)
        requires
            expr_id < old(self).exprs@.len(),
            old(self).exprs@[expr_id as int] is None,
            old(self).expr_layouts@.len() == old(self).exprs@.len(),
            value < old(self).func.n_vals,
        ensures
            final(self).exprs@ == old(self).exprs@.update(expr_id as int, Some(value)),
            final(self).expr_layouts@ == if layout is Some {
                old(self).expr_layouts@.update(expr_id as int, layout)
            } else {
                old(self).expr_layouts@
            },
            final(self).stack_slots@ == old(self).stack_slots@,
            final(self).function_inputs@ == old(self).function_inputs@,
            final(self).blocks@ == old(self).blocks@,
            final(self).null_sigil == old(self).null_sigil,
            final(self).func == old(self).func,
            final(self).cur_block == old(self).cur_block,
            forall|nl: int|
                (old(self).wf(nl) && (layout matches Some(l) ==> l < nl)) ==> final(self).wf(nl),
    {
        self.exprs[expr_id as usize] = Some(value);
        if let Some(layout_id) = layout {
            self.expr_layouts[expr_id as usize] = Some(layout_id);
        }
    }

    /// Reserves a stack slot of `size` bytes for the row an expression
    /// produces.
    fn add_stack_slot(&mut self, expr_id: ExprId, size: u32, layout: LayoutId) -> (r: SlotId)
        requires
            expr_id < old(self).exprs@.len(),
            old(self).stack_slots@.len() == old(self).exprs@.len(),
            old(self).expr_layouts@.len() == old(self).exprs@.len(),
            old(self).stack_slots@[expr_id as int] is None,
            old(self).func.slots@.len() < u32::MAX,
        ensures
            r == old(self).func.slots@.len(),
            final(self).func.slots@ == old(self).func.slots@.push(size),
            final(self).stack_slots@ == old(self).stack_slots@.update(expr_id as int, Some(r)),
            final(self).expr_layouts@ == old(self).expr_layouts@.update(
                expr_id as int,
                Some(layout),
            ),
            final(self).exprs@ == old(self).exprs@,
            final(self).function_inputs@ == old(self).function_inputs@,
            final(self).blocks@ == old(self).blocks@,
            final(self).null_sigil == old(self).null_sigil,
            final(self).func.blocks@ == old(self).func.blocks@,
            final(self).func.params@ == old(self).func.params@,
            final(self).func.returns == old(self).func.returns,
            final(self).func.entry == old(self).func.entry,
            final(self).func.n_vals == old(self).func.n_vals,
            final(self).cur_block == old(self).cur_block,
            forall|nl: int| (old(self).wf(nl) && layout < nl) ==> final(self).wf(nl),
    {
        let slot = self.func.slots.len() as u32;
        self.func.slots.push(size);
        self.stack_slots[expr_id as usize] = Some(slot);
        self.expr_layouts[expr_id as usize] = Some(layout);
        proof {
            assert forall|nl: int| old(self).wf(nl) && layout < nl implies self.wf(nl) by {
                assert forall|b: int, i: int|
                    0 <= b < self.func.blocks@.len() && 0 <= i
                        < self.func.blocks@[b].insts@.len() implies (
                #[trigger] self.func.blocks@[b].insts@[i]).wf(
                    self.func.n_vals as int,
                    self.func.slots@.len() as int,
                    self.func.blocks@.len() as int,
                ) by {
                    lemma_inst_wf_monotone(
                        self.func.blocks@[b].insts@[i],
                        self.func.n_vals as int,
                        old(self).func.slots@.len() as int,
                        self.func.blocks@.len() as int,
                        self.func.n_vals as int,
                        self.func.slots@.len() as int,
                        self.func.blocks@.len() as int,
                    );
                }
            }
        }
        slot
    }

    /// The code block that lowers an IR block, created on first demand.
    fn block(&mut self, block_id: BlockId) -> (r: CodeBlockId)
        requires
            block_id < old(self).blocks@.len(),
            old(self).func.blocks@.len() < u32::MAX,
            forall|b: int|
                0 <= b < old(self).blocks@.len() ==> ((#[trigger] old(self).blocks@[b]) matches
                Some(cb) ==> cb < old(self).func.blocks@.len()),
        ensures
            r < final(self).func.blocks@.len(),
            final(self).blocks@ == if old(self).blocks@[block_id as int] is Some {
                old(self).blocks@
            } else {
                old(self).blocks@.update(block_id as int, Some(r))
            },
            final(self).blocks@[block_id as int] == Some(r),
            old(self).blocks@[block_id as int] matches Some(cb) ==> r == cb
                && final(self).func.blocks@ == old(self).func.blocks@,
            old(self).blocks@[block_id as int] is None ==> r == old(self).func.blocks@.len()
                && final(self).func.blocks@.len() == old(self).func.blocks@.len() + 1
                && final(self).func.blocks@[r as int].insts@ == Seq::<Inst>::empty(),
            final(self).exprs@ == old(self).exprs@,
            final(self).expr_layouts@ == old(self).expr_layouts@,
            final(self).stack_slots@ == old(self).stack_slots@,
            final(self).function_inputs@ == old(self).function_inputs@,
            final(self).null_sigil == old(self).null_sigil,
            final(self).func.slots@ == old(self).func.slots@,
            final(self).func.params@ == old(self).func.params@,
            final(self).func.returns == old(self).func.returns,
            final(self).func.entry == old(self).func.entry,
            final(self).func.n_vals == old(self).func.n_vals,
            final(self).cur_block == old(self).cur_block,
            forall|j: int|
                0 <= j < old(self).func.blocks@.len() ==> (#[trigger] final(self).func.blocks@[j])
                    == old(self).func.blocks@[j],
            forall|nl: int| old(self).wf(nl) ==> final(self).wf(nl),
    {
        let existing = self.blocks[block_id as usize];
        match existing {
            Some(cb) => cb,
            None => {
                let cb = self.func.blocks.len() as u32;
                let fresh_block = CodeBlock { insts: Vec::new() };
                proof {
                    assert(fresh_block.insts@ =~= Seq::<Inst>::empty());
                }
                self.func.blocks.push(fresh_block);
                self.blocks[block_id as usize] = Some(cb);
                proof {
                    assert forall|nl: int| old(self).wf(nl) implies self.wf(nl) by {
                        assert forall|b: int, i: int|
                            0 <= b < self.func.blocks@.len() && 0 <= i
                                < self.func.blocks@[b].insts@.len() implies (
                        #[trigger] self.func.blocks@[b].insts@[i]).wf(
                            self.func.n_vals as int,
                            self.func.slots@.len() as int,
                            self.func.blocks@.len() as int,
                        ) by {
                            if b < old(self).func.blocks@.len() {
                                lemma_inst_wf_monotone(
                                    self.func.blocks@[b].insts@[i],
                                    self.func.n_vals as int,
                                    self.func.slots@.len() as int,
                                    old(self).func.blocks@.len() as int,
                                    self.func.n_vals as int,
                                    self.func.slots@.len() as int,
                                    self.func.blocks@.len() as int,
                                );
                            }
                        }
                    }
                }
                cb
            },
        }
    }

    /// Makes `block_id`'s code block current, creating it on first demand.
    pub(crate) fn switch_to_block(&mut self, block_id: BlockId) -> (r: CodeBlockId)
        requires
            block_id < old(self).blocks@.len(),
            old(self).func.blocks@.len() < u32::MAX,
            forall|b: int|
                0 <= b < old(self).blocks@.len() ==> ((#[trigger] old(self).blocks@[b]) matches
                Some(cb) ==> cb < old(self).func.blocks@.len()),
        ensures
            r < final(self).func.blocks@.len(),
            final(self).cur_block == r,
            final(self).blocks@[block_id as int] == Some(r),
            final(self).blocks@ == if old(self).blocks@[block_id as int] is Some {
                old(self).blocks@
            } else {
                old(self).blocks@.update(block_id as int, Some(r))
            },
            old(self).blocks@[block_id as int] matches Some(cb) ==> r == cb
                && final(self).func.blocks@ == old(self).func.blocks@,
            old(self).blocks@[block_id as int] is None ==> r == old(self).func.blocks@.len()
                && final(self).func.blocks@.len() == old(self).func.blocks@.len() + 1
                && final(self).func.blocks@[r as int].insts@ == Seq::<Inst>::empty(),
            final(self).func.params@ == old(self).func.params@,
            final(self).func.returns == old(self).func.returns,
            final(self).func.entry == old(self).func.entry,
            final(self).exprs@ == old(self).exprs@,
            final(self).expr_layouts@ == old(self).expr_layouts@,
            final(self).stack_slots@ == old(self).stack_slots@,
            final(self).function_inputs@ == old(self).function_inputs@,
            final(self).null_sigil == old(self).null_sigil,
            final(self).func.slots@ == old(self).func.slots@,
            final(self).func.n_vals == old(self).func.n_vals,
            forall|j: int|
                0 <= j < old(self).func.blocks@.len() ==> (#[trigger] final(self).func.blocks@[j])
                    == old(self).func.blocks@[j],
            forall|nl: int| old(self).wf(nl) ==> final(self).wf(nl),
    {
        let cb = self.block(block_id);
        self.cur_block = cb;
        cb
    }

    /// Returns `true` if the given expression is a `readonly` row
    fn is_readonly(&self, expr: ExprId) -> (r: bool)
        requires
            expr < self.function_inputs@.len(),
        ensures
            r == (self.function_inputs@[expr as int] matches Some(f) && f.spec_is_readonly()),
    {
        match &self.function_inputs[expr as usize] {
            Some(flags) => flags.is_readonly(),
            None => false,
        }
    }
}

/// The emitted instruction of an integer binary operation: arithmetic and
/// bitwise kinds map to their instruction, comparisons to `icmp` with the
/// matching condition.
pub open spec fn spec_binop_inst(kind: BinaryOpKind, lhs: ValId, rhs: ValId, result: ValId) -> Inst {
    match kind {
        BinaryOpKind::Add => Inst::IAdd { lhs, rhs, result },
        BinaryOpKind::Sub => Inst::ISub { lhs, rhs, result },
        BinaryOpKind::Mul => Inst::IMul { lhs, rhs, result },
        BinaryOpKind::Eq => Inst::ICmp { cond: IntCond::Equal, lhs, rhs, result },
        BinaryOpKind::Neq => Inst::ICmp { cond: IntCond::NotEqual, lhs, rhs, result },
        BinaryOpKind::And => Inst::Band { lhs, rhs, result },
        BinaryOpKind::Or => Inst::Bor { lhs, rhs, result },
    }
}

/// The scalar type of a lowered constant: booleans and bytes are 8-bit
/// integers, the other integers take their width.
pub open spec fn spec_const_ty(c: Constant) -> NativeType {
    match c {
        Constant::U8(_) | Constant::I8(_) | Constant::Bool(_) => NativeType::I8,
        Constant::U16(_) | Constant::I16(_) => NativeType::I16,
        Constant::U32(_) | Constant::I32(_) => NativeType::I32,
        Constant::U64(_) | Constant::I64(_) => NativeType::I64,
        Constant::Unit | Constant::String(_) => NativeType::I8,
    }
}

/// The immediate bits of a lowered constant: unsigned constants zero-extend,
/// signed constants sign-extend, booleans become 0 or 1, and a 64-bit
/// unsigned constant keeps its bit pattern.
pub open spec fn spec_const_bits(c: Constant) -> i64 {
    match c {
        Constant::U8(x) => x as i64,
        Constant::I8(x) => x as i64,
        Constant::U16(x) => x as i64,
        Constant::I16(x) => x as i64,
        Constant::U32(x) => x as i64,
        Constant::I32(x) => x as i64,
        Constant::U64(x) => x as i64,
        Constant::I64(x) => x,
        Constant::Bool(b) => if b {
            1
        } else {
            0
        },
        Constant::Unit | Constant::String(_) => 0,
    }
}

impl Ctx {
    /// The `readonly` memory flag is set exactly for loads out of readonly
    /// parameter rows, on top of the `trusted` flag every row access gets.
    pub open spec fn spec_load_flags(self, source: int) -> MemFlags {
        MemFlags {
            trusted: true,
            readonly: self.function_inputs@[source] matches Some(f) && f.spec_is_readonly(),
        }
    }

    /// `b` is `a` with expression `expr_id` now bound to value `v`; every
    /// other side table is untouched.
    pub open spec fn maps_extended_expr(a: Ctx, b: Ctx, expr_id: int, v: ValId) -> bool {
        &&& b.exprs@ == a.exprs@.update(expr_id, Some(v))
        &&& b.expr_layouts@ == a.expr_layouts@
        &&& b.stack_slots@ == a.stack_slots@
        &&& b.function_inputs@ == a.function_inputs@
        &&& b.blocks@ == a.blocks@
        &&& b.null_sigil == a.null_sigil
    }

    /// Emits a typed integer immediate.
    fn iconst(&mut self, ty: NativeType, value: i64) -> (r: ValId)
        requires
            old(self).cur_block < old(self).func.blocks@.len(),
            old(self).func.n_vals < u32::MAX,
        ensures
            r == old(self).func.n_vals,
            final(self).func.n_vals == old(self).func.n_vals + 1,
            Ctx::same_maps(*old(self), *final(self)),
            Ctx::code_extended(
                *old(self),
                *final(self),
                seq![Inst::IConst { ty, value, result: r }],
            ),
            forall|nl: int| old(self).wf(nl) ==> final(self).wf(nl),
    {
        let v = self.fresh_val();
        self.emit(Inst::IConst { ty, value, result: v });
        v
    }

    /// Lowers a scalar constant to a typed immediate. `Unit` constants have
    /// no value and string constants take the intrinsic-backed
    /// string-constant path, which is not supported here; both are errors.
    pub fn lower_constant(&mut self, constant: &Constant) -> (r: Result<ValId, LowerError>)
        requires
            old(self).cur_block < old(self).func.blocks@.len(),
            old(self).func.n_vals < u32::MAX,
        ensures
            Ctx::frames_ok(*old(self), *final(self)),
            constant is Unit ==> r == Err::<ValId, LowerError>(LowerError::UnitConstant),
            constant is String ==> r == Err::<ValId, LowerError>(LowerError::StringConstant),
            constant.spec_is_int() || constant is Bool ==> r == Ok::<ValId, LowerError>(
                old(self).func.n_vals,
            ) && final(self).func.n_vals == old(self).func.n_vals + 1 && Ctx::same_maps(
                *old(self),
                *final(self),
            ) && Ctx::code_extended(
                *old(self),
                *final(self),
                seq![
                    Inst::IConst {
                        ty: spec_const_ty(*constant),
                        value: spec_const_bits(*constant),
                        result: old(self).func.n_vals,
                    },
                ],
            ),
            r is Err ==> *final(self) == *old(self),
            forall|nl: int| old(self).wf(nl) ==> final(self).wf(nl),
    {
        match constant {
            Constant::Unit => Err(LowerError::UnitConstant),
            Constant::String(_) => Err(LowerError::StringConstant),
            Constant::U8(x) => Ok(self.iconst(NativeType::I8, *x as i64)),
            Constant::I8(x) => Ok(self.iconst(NativeType::I8, *x as i64)),
            Constant::U16(x) => Ok(self.iconst(NativeType::I16, *x as i64)),
            Constant::I16(x) => Ok(self.iconst(NativeType::I16, *x as i64)),
            Constant::U32(x) => Ok(self.iconst(NativeType::I32, *x as i64)),
            Constant::I32(x) => Ok(self.iconst(NativeType::I32, *x as i64)),
            Constant::U64(x) => Ok(
                self.iconst(NativeType::I64, #[verifier::truncate] (*x as i64)),
            ),
            Constant::I64(x) => Ok(self.iconst(NativeType::I64, *x)),
            Constant::Bool(b) => Ok(
                self.iconst(
                    NativeType::I8,
                    if *b {
                        1
                    } else {
                        0
                    },
                ),
            ),
        }
    }

    /// Lowers an integer binary operation over two already-lowered
    /// operands.
    pub fn lower_binop(&mut self, expr_id: ExprId, binop: &BinaryOp) -> (r: Result<(), LowerError>)
        requires
            old(self).cur_block < old(self).func.blocks@.len(),
            old(self).func.n_vals < u32::MAX,
            expr_id < old(self).exprs@.len(),
            binop.lhs < old(self).exprs@.len(),
            binop.rhs < old(self).exprs@.len(),
            old(self).expr_layouts@.len() == old(self).exprs@.len(),
            forall|e: int|
                0 <= e < old(self).exprs@.len() ==> ((#[trigger] old(self).exprs@[e]) matches Some(
                v) ==> v < old(self).func.n_vals),
        ensures
            Ctx::frames_ok(*old(self), *final(self)),
            old(self).exprs@[expr_id as int] is Some ==> r == Err::<(), LowerError>(
                LowerError::DuplicateValue,
            ),
            old(self).exprs@[expr_id as int] is None && (old(self).exprs@[binop.lhs as int] is None
                || old(self).exprs@[binop.rhs as int] is None) ==> r == Err::<(), LowerError>(
                LowerError::UndefinedValue,
            ),
            r is Ok <==> (old(self).exprs@[expr_id as int] is None
                && old(self).exprs@[binop.lhs as int] is Some
                && old(self).exprs@[binop.rhs as int] is Some),
            old(self).exprs@[expr_id as int] is None && old(self).exprs@[binop.lhs as int] is Some
                && old(self).exprs@[binop.rhs as int] is Some ==> r is Ok
                && final(self).func.n_vals == old(self).func.n_vals + 1
                && Ctx::maps_extended_expr(
                *old(self),
                *final(self),
                expr_id as int,
                old(self).func.n_vals,
            ) && Ctx::code_extended(
                *old(self),
                *final(self),
                seq![
                    spec_binop_inst(
                        binop.kind,
                        old(self).exprs@[binop.lhs as int].unwrap(),
                        old(self).exprs@[binop.rhs as int].unwrap(),
                        old(self).func.n_vals,
                    ),
                ],
            ),
            r is Err ==> *final(self) == *old(self),
            forall|nl: int| old(self).wf(nl) ==> final(self).wf(nl),
    {
        if self.exprs[expr_id as usize].is_some() {
            return Err(LowerError::DuplicateValue);
        }
        let lhs = match self.exprs[binop.lhs as usize] {
            Some(v) => v,
            None => {
                return Err(LowerError::UndefinedValue);
            },
        };
        let rhs = match self.exprs[binop.rhs as usize] {
            Some(v) => v,
            None => {
                return Err(LowerError::UndefinedValue);
            },
        };
        let v = self.fresh_val();
        let inst = match binop.kind {
            BinaryOpKind::Add => Inst::IAdd { lhs, rhs, result: v },
            BinaryOpKind::Sub => Inst::ISub { lhs, rhs, result: v },
            BinaryOpKind::Mul => Inst::IMul { lhs, rhs, result: v },
            BinaryOpKind::Eq => Inst::ICmp { cond: IntCond::Equal, lhs, rhs, result: v },
            BinaryOpKind::Neq => Inst::ICmp { cond: IntCond::NotEqual, lhs, rhs, result: v },
            BinaryOpKind::And => Inst::Band { lhs, rhs, result: v },
            BinaryOpKind::Or => Inst::Bor { lhs, rhs, result: v },
        };
        self.emit(inst);
        self.add_expr(expr_id, v, None);
        Ok(())
    }

    /// Lowers a conditional selection over three already-lowered operands:
    /// the result takes the truthy operand when the condition is non-zero.
    pub fn lower_select(&mut self, expr_id: ExprId, sel: &Select) -> (r: Result<(), LowerError>)
        requires
            old(self).cur_block < old(self).func.blocks@.len(),
            old(self).func.n_vals < u32::MAX,
            expr_id < old(self).exprs@.len(),
            sel.cond < old(self).exprs@.len(),
            sel.if_true < old(self).exprs@.len(),
            sel.if_false < old(self).exprs@.len(),
            old(self).expr_layouts@.len() == old(self).exprs@.len(),
            forall|e: int|
                0 <= e < old(self).exprs@.len() ==> ((#[trigger] old(self).exprs@[e]) matches Some(
                v) ==> v < old(self).func.n_vals),
        ensures
            Ctx::frames_ok(*old(self), *final(self)),
            r is Ok <==> (old(self).exprs@[expr_id as int] is None
                && old(self).exprs@[sel.cond as int] is Some
                && old(self).exprs@[sel.if_true as int] is Some
                && old(self).exprs@[sel.if_false as int] is Some),
            old(self).exprs@[expr_id as int] is Some ==> r == Err::<(), LowerError>(
                LowerError::DuplicateValue,
            ),
            r is Ok ==> final(self).func.n_vals == old(self).func.n_vals + 1
                && Ctx::maps_extended_expr(
                *old(self),
                *final(self),
                expr_id as int,
                old(self).func.n_vals,
            ) && Ctx::code_extended(
                *old(self),
                *final(self),
                seq![
                    Inst::Select {
                        cond: old(self).exprs@[sel.cond as int].unwrap(),
                        if_true: old(self).exprs@[sel.if_true as int].unwrap(),
                        if_false: old(self).exprs@[sel.if_false as int].unwrap(),
                        result: old(self).func.n_vals,
                    },
                ],
            ),
            r is Err ==> *final(self) == *old(self),
            forall|nl: int| old(self).wf(nl) ==> final(self).wf(nl),
    {
        if self.exprs[expr_id as usize].is_some() {
            return Err(LowerError::DuplicateValue);
        }
        let cond = match self.exprs[sel.cond as usize] {
            Some(v) => v,
            None => {
                return Err(LowerError::UndefinedValue);
            },
        };
        let if_true = match self.exprs[sel.if_true as usize] {
            Some(v) => v,
            None => {
                return Err(LowerError::UndefinedValue);
            },
        };
        let if_false = match self.exprs[sel.if_false as usize] {
            Some(v) => v,
            None => {
                return Err(LowerError::UndefinedValue);
            },
        };
        let v = self.fresh_val();
        self.emit(Inst::Select { cond, if_true, if_false, result: v });
        self.add_expr(expr_id, v, None);
        Ok(())
    }
}

impl Ctx {
    /// Lowers a column load: resolves the column's physical offset and type
    /// through the layout cache, then reads from the row's stack slot when
    /// the row was materialized in the function, or from the row pointer
    /// with a trusted (and, for readonly parameters, readonly) access.
    pub fn lower_load(
        &mut self,
        cache: &mut NativeLayoutCache,
        expr_id: ExprId,
        load: &Load,
    ) -> (r: Result<(), LowerError>)
        requires
            old(cache).wf(),
            old(self).wf(old(cache).layout_cache.spec_layouts().len() as int),
            old(self).func.n_vals < u32::MAX,
            expr_id < old(self).exprs@.len(),
            load.source < old(self).exprs@.len(),
        ensures
            Ctx::frames_ok(*old(self), *final(self)),
            forall|i: int|
                0 <= i < old(cache).layouts@.len() && old(cache).layouts@[i] is Some
                    ==> final(cache).layouts@[i] == old(cache).layouts@[i],
            final(cache).wf(),
            final(cache).layout_cache == old(cache).layout_cache,
            final(cache).frontend_config == old(cache).frontend_config,
            final(self).wf(old(cache).layout_cache.spec_layouts().len() as int),
            old(self).exprs@[expr_id as int] is Some ==> r == Err::<(), LowerError>(
                LowerError::DuplicateValue,
            ),
            r is Ok <==> ({
                let lid_opt = old(self).expr_layouts@[load.source as int];
                &&& old(self).exprs@[expr_id as int] is None
                &&& (old(self).stack_slots@[load.source as int] is Some
                    || old(self).exprs@[load.source as int] is Some)
                &&& lid_opt is Some
                &&& (final(cache).layouts@[lid_opt.unwrap() as int] matches Some(l)
                    && load.column < l.index_mappings@.len()
                    && l.index_mappings@[load.column as int] < l.types@.len())
            }),
            r is Ok ==> ({
                let lid = old(self).expr_layouts@[load.source as int].unwrap();
                let l = final(cache).layouts@[lid as int].unwrap();
                let pidx = l.index_mappings@[load.column as int] as int;
                let ty = l.types@[pidx].spec_native_type(&old(cache).frontend_config);
                let off = l.offsets@[pidx];
                let v = old(self).func.n_vals;
                &&& old(self).expr_layouts@[load.source as int] is Some
                &&& load.column < l.index_mappings@.len()
                &&& pidx < l.types@.len()
                &&& final(self).func.n_vals == old(self).func.n_vals + 1
                &&& Ctx::maps_extended_expr(*old(self), *final(self), expr_id as int, v)
                &&& if old(self).stack_slots@[load.source as int] is Some {
                    Ctx::code_extended(
                        *old(self),
                        *final(self),
                        seq![
                            Inst::StackLoad {
                                ty,
                                slot: old(self).stack_slots@[load.source as int].unwrap(),
                                offset: off,
                                result: v,
                            },
                        ],
                    )
                } else {
                    Ctx::code_extended(
                        *old(self),
                        *final(self),
                        seq![
                            Inst::Load {
                                ty,
                                flags: old(self).spec_load_flags(load.source as int),
                                addr: old(self).exprs@[load.source as int].unwrap(),
                                offset: off,
                                result: v,
                            },
                        ],
                    )
                }
            }),
            r is Err ==> *final(self) == *old(self),
    {
        if self.exprs[expr_id as usize].is_some() {
            return Err(LowerError::DuplicateValue);
        }
        let has_slot = self.stack_slots[load.source as usize].is_some();
        if !has_slot && self.exprs[load.source as usize].is_none() {
            return Err(LowerError::UndefinedValue);
        }
        let lid = match self.expr_layouts[load.source as usize] {
            Some(l) => l,
            None => {
                return Err(LowerError::UndefinedLayout);
            },
        };
        let layout = cache.compute(lid);
        if load.column >= layout.index_mappings.len() {
            return Err(LowerError::InvalidColumn);
        }
        let pidx = layout.index_mappings[load.column];
        if pidx as usize >= layout.types.len() {
            return Err(LowerError::PhantomColumn);
        }
        let off = layout.offsets[pidx as usize];
        let ty = layout.types[pidx as usize].native_type(&cache.frontend_config);
        let v = self.fresh_val();
        match self.stack_slots[load.source as usize] {
            Some(slot) => {
                self.emit(Inst::StackLoad { ty, slot, offset: off, result: v });
            },
            None => {
                let addr = match self.exprs[load.source as usize] {
                    Some(a) => a,
                    None => {
                        return vstd::pervasive::unreached();
                    },
                };
                let readonly = self.is_readonly(load.source);
                let flags = MemFlags { trusted: true, readonly };
                self.emit(Inst::Load { ty, flags, addr, offset: off, result: v });
            },
        }
        self.add_expr(expr_id, v, None);
        Ok(())
    }

    /// Lowers a column store, symmetric to the load: an immediate value is
    /// lowered as a constant first. Stores into readonly parameters are
    /// refused.
    pub fn lower_store(
        &mut self,
        cache: &mut NativeLayoutCache,
        store: &Store,
    ) -> (r: Result<(), LowerError>)
        requires
            old(cache).wf(),
            old(self).wf(old(cache).layout_cache.spec_layouts().len() as int),
            old(self).func.n_vals < u32::MAX,
            store.target < old(self).exprs@.len(),
            store.value matches RValue::Expr(e) ==> e < old(self).exprs@.len(),
        ensures
            Ctx::frames_ok(*old(self), *final(self)),
            forall|i: int|
                0 <= i < old(cache).layouts@.len() && old(cache).layouts@[i] is Some
                    ==> final(cache).layouts@[i] == old(cache).layouts@[i],
            final(cache).wf(),
            final(cache).layout_cache == old(cache).layout_cache,
            final(cache).frontend_config == old(cache).frontend_config,
            final(self).wf(old(cache).layout_cache.spec_layouts().len() as int),
            old(self).function_inputs@[store.target as int] matches Some(f)
                && f.spec_is_readonly() ==> r == Err::<(), LowerError>(LowerError::ReadonlyWrite),
            r is Ok <==> ({
                let lid_opt = old(self).expr_layouts@[store.target as int];
                &&& !(old(self).function_inputs@[store.target as int] matches Some(f)
                    && f.spec_is_readonly())
                &&& (old(self).stack_slots@[store.target as int] is Some
                    || old(self).exprs@[store.target as int] is Some)
                &&& lid_opt is Some
                &&& (final(cache).layouts@[lid_opt.unwrap() as int] matches Some(l)
                    && store.column < l.index_mappings@.len()
                    && l.index_mappings@[store.column as int] < l.types@.len())
                &&& (match store.value {
                    RValue::Expr(e) => old(self).exprs@[e as int] is Some,
                    RValue::Imm(c) => c.spec_is_int() || c is Bool,
                })
            }),
            r is Ok ==> ({
                let lid = old(self).expr_layouts@[store.target as int].unwrap();
                let l = final(cache).layouts@[lid as int].unwrap();
                let pidx = l.index_mappings@[store.column as int] as int;
                let off = l.offsets@[pidx];
                &&& final(self).func.n_vals <= old(self).func.n_vals + 1
                &&& old(self).expr_layouts@[store.target as int] is Some
                &&& store.column < l.index_mappings@.len()
                &&& pidx < l.types@.len()
                &&& Ctx::same_maps(*old(self), *final(self))
                &&& ({
                    let value = match store.value {
                        RValue::Expr(e) => old(self).exprs@[e as int].unwrap(),
                        RValue::Imm(_) => old(self).func.n_vals,
                    };
                    let prefix: Seq<Inst> = match store.value {
                        RValue::Imm(c) => seq![
                            Inst::IConst {
                                ty: spec_const_ty(c),
                                value: spec_const_bits(c),
                                result: old(self).func.n_vals,
                            },
                        ],
                        RValue::Expr(_) => Seq::empty(),
                    };
                    if old(self).stack_slots@[store.target as int] is Some {
                        Ctx::code_extended(
                            *old(self),
                            *final(self),
                            prefix + seq![
                                Inst::StackStore {
                                    value,
                                    slot: old(self).stack_slots@[store.target as int].unwrap(),
                                    offset: off,
                                },
                            ],
                        )
                    } else {
                        Ctx::code_extended(
                            *old(self),
                            *final(self),
                            prefix + seq![
                                Inst::Store {
                                    flags: MemFlags { trusted: true, readonly: false },
                                    value,
                                    addr: old(self).exprs@[store.target as int].unwrap(),
                                    offset: off,
                                },
                            ],
                        )
                    }
                })
            }),
            r is Err ==> *final(self) == *old(self),
    {
        if self.is_readonly(store.target) {
            return Err(LowerError::ReadonlyWrite);
        }
        let has_slot = self.stack_slots[store.target as usize].is_some();
        if !has_slot && self.exprs[store.target as usize].is_none() {
            return Err(LowerError::UndefinedValue);
        }
        let lid = match self.expr_layouts[store.target as usize] {
            Some(l) => l,
            None => {
                return Err(LowerError::UndefinedLayout);
            },
        };
        let layout = cache.compute(lid);
        if store.column >= layout.index_mappings.len() {
            return Err(LowerError::InvalidColumn);
        }
        let pidx = layout.index_mappings[store.column];
        if pidx as usize >= layout.types.len() {
            return Err(LowerError::PhantomColumn);
        }
        let off = layout.offsets[pidx as usize];
        let ghost prefix: Seq<Inst> = match &store.value {
            RValue::Imm(c) => seq![
                Inst::IConst {
                    ty: spec_const_ty(*c),
                    value: spec_const_bits(*c),
                    result: old(self).func.n_vals,
                },
            ],
            RValue::Expr(_) => Seq::empty(),
        };
        let value = match &store.value {
            RValue::Expr(e) => match self.exprs[*e as usize] {
                Some(v) => v,
                None => {
                    return Err(LowerError::UndefinedValue);
                },
            },
            RValue::Imm(imm) => match self.lower_constant(imm) {
                Ok(v) => v,
                Err(e) => {
                    return Err(e);
                },
            },
        };
        proof {
            assert(self.cur_insts() =~= old(self).cur_insts() + prefix);
        }
        match self.stack_slots[store.target as usize] {
            Some(slot) => {
                self.emit(Inst::StackStore { value, slot, offset: off });
                proof {
                    assert(self.cur_insts() =~= old(self).cur_insts() + (prefix + seq![
                        Inst::StackStore { value, slot, offset: off },
                    ]));
                }
            },
            None => {
                let addr = match self.exprs[store.target as usize] {
                    Some(a) => a,
                    None => {
                        return vstd::pervasive::unreached();
                    },
                };
                let flags = MemFlags::trusted();
                self.emit(Inst::Store { flags, value, addr, offset: off });
                proof {
                    assert(self.cur_insts() =~= old(self).cur_insts() + (prefix + seq![
                        Inst::Store { flags, value, addr, offset: off },
                    ]));
                }
            },
        }
        Ok(())
    }
}

impl Ctx {
    /// Lowers a null-flag read: loads the bitset byte holding the column's
    /// flag, masks the column's bit, and compares against zero — not-equal
    /// when a set bit means null ([`NullSigil::One`]), equal when an unset
    /// bit does ([`NullSigil::Zero`]).
    pub fn lower_is_null(
        &mut self,
        cache: &mut NativeLayoutCache,
        expr_id: ExprId,
        is_null: &IsNull,
    ) -> (r: Result<(), LowerError>)
        requires
            old(cache).wf(),
            old(self).wf(old(cache).layout_cache.spec_layouts().len() as int),
            old(self).func.n_vals + 3 <= u32::MAX,
            expr_id < old(self).exprs@.len(),
            is_null.target < old(self).exprs@.len(),
        ensures
            Ctx::frames_ok(*old(self), *final(self)),
            forall|i: int|
                0 <= i < old(cache).layouts@.len() && old(cache).layouts@[i] is Some
                    ==> final(cache).layouts@[i] == old(cache).layouts@[i],
            final(cache).wf(),
            final(cache).layout_cache == old(cache).layout_cache,
            final(cache).frontend_config == old(cache).frontend_config,
            final(self).wf(old(cache).layout_cache.spec_layouts().len() as int),
            old(self).exprs@[expr_id as int] is Some ==> r == Err::<(), LowerError>(
                LowerError::DuplicateValue,
            ),
            r is Ok <==> ({
                let lid_opt = old(self).expr_layouts@[is_null.target as int];
                &&& old(self).exprs@[expr_id as int] is None
                &&& (old(self).stack_slots@[is_null.target as int] is Some
                    || old(self).exprs@[is_null.target as int] is Some)
                &&& lid_opt is Some
                &&& (final(cache).layouts@[lid_opt.unwrap() as int] matches Some(l)
                    && is_null.column < l.bitflag_mappings@.len()
                    && l.bitflag_mappings@[is_null.column as int] is Some)
            }),
            r is Ok ==> ({
                let lid = old(self).expr_layouts@[is_null.target as int].unwrap();
                let l = final(cache).layouts@[lid as int].unwrap();
                let p = l.bitflag_mappings@[is_null.column as int].unwrap();
                let off = l.offsets@[p.0 as int];
                let v0 = old(self).func.n_vals;
                let load_inst: Inst = if old(self).stack_slots@[is_null.target as int] is Some {
                    Inst::StackLoad {
                        ty: NativeType::I8,
                        slot: old(self).stack_slots@[is_null.target as int].unwrap(),
                        offset: off,
                        result: v0,
                    }
                } else {
                    Inst::Load {
                        ty: NativeType::I8,
                        flags: old(self).spec_load_flags(is_null.target as int),
                        addr: old(self).exprs@[is_null.target as int].unwrap(),
                        offset: off,
                        result: v0,
                    }
                };
                &&& old(self).expr_layouts@[is_null.target as int] is Some
                &&& is_null.column < l.bitflag_mappings@.len()
                &&& l.bitflag_mappings@[is_null.column as int] is Some
                &&& final(self).func.n_vals == old(self).func.n_vals + 3
                &&& Ctx::maps_extended_expr(
                    *old(self),
                    *final(self),
                    expr_id as int,
                    (old(self).func.n_vals + 2) as ValId,
                )
                &&& Ctx::code_extended(
                    *old(self),
                    *final(self),
                    seq![
                        load_inst,
                        Inst::BandImm {
                            arg: v0,
                            imm: 1i64 << p.1,
                            result: (v0 + 1) as ValId,
                        },
                        Inst::ICmpImm {
                            cond: if old(self).null_sigil is One {
                                IntCond::NotEqual
                            } else {
                                IntCond::Equal
                            },
                            arg: (v0 + 1) as ValId,
                            imm: 0,
                            result: (v0 + 2) as ValId,
                        },
                    ],
                )
            }),
            r is Err ==> *final(self) == *old(self),
    {
        if self.exprs[expr_id as usize].is_some() {
            return Err(LowerError::DuplicateValue);
        }
        let has_slot = self.stack_slots[is_null.target as usize].is_some();
        if !has_slot && self.exprs[is_null.target as usize].is_none() {
            return Err(LowerError::UndefinedValue);
        }
        let lid = match self.expr_layouts[is_null.target as usize] {
            Some(l) => l,
            None => {
                return Err(LowerError::UndefinedLayout);
            },
        };
        let layout = cache.compute(lid);
        if is_null.column >= layout.bitflag_mappings.len() {
            return Err(LowerError::InvalidColumn);
        }
        let (pidx, bit) = match layout.bitflag_mappings[is_null.column] {
            Some(p) => p,
            None => {
                return Err(LowerError::ColumnNotNullable);
            },
        };
        let bitset_ty = layout.types[pidx as usize].native_type(&cache.frontend_config);
        let off = layout.offsets[pidx as usize];
        let v0 = self.fresh_val();
        match self.stack_slots[is_null.target as usize] {
            Some(slot) => {
                self.emit(Inst::StackLoad { ty: bitset_ty, slot, offset: off, result: v0 });
            },
            None => {
                let addr = match self.exprs[is_null.target as usize] {
                    Some(a) => a,
                    None => {
                        return vstd::pervasive::unreached();
                    },
                };
                let readonly = self.is_readonly(is_null.target);
                let flags = MemFlags { trusted: true, readonly };
                self.emit(Inst::Load { ty: bitset_ty, flags, addr, offset: off, result: v0 });
            },
        }
        let v1 = self.fresh_val();
        self.emit(Inst::BandImm { arg: v0, imm: 1i64 << bit, result: v1 });
        let v2 = self.fresh_val();
        let cond = if self.null_sigil.is_one() {
            IntCond::NotEqual
        } else {
            IntCond::Equal
        };
        self.emit(Inst::ICmpImm { cond, arg: v1, imm: 0, result: v2 });
        self.add_expr(expr_id, v2, None);
        Ok(())
    }

    /// The instructions that drive a null-flag bit to its new value within
    /// an already-loaded bitset byte `v0`: `bitset | mask` sets the bit and
    /// `bitset & !mask` clears it. An immediate flag emits the one form the
    /// null sigil calls for; a computed flag (`cond` present) computes both
    /// forms and selects between them, the set-bit form first exactly when
    /// a set bit means null.
    pub open spec fn spec_flag_update_insts(
        v0: ValId,
        bit: u8,
        cond: Option<ValId>,
        set_imm: bool,
        sigil: NullSigil,
        base: ValId,
    ) -> Seq<Inst> {
        let mask = 1i64 << bit;
        // `-mask - 1` is the two's-complement form of the bitwise
        // complement of `mask`.
        let unmask = (-mask - 1) as i64;
        let sel_inst: Inst = if sigil is One {
            Inst::Select {
                cond: cond.unwrap(),
                if_true: base,
                if_false: (base + 1) as ValId,
                result: (base + 2) as ValId,
            }
        } else {
            Inst::Select {
                cond: cond.unwrap(),
                if_true: (base + 1) as ValId,
                if_false: base,
                result: (base + 2) as ValId,
            }
        };
        let imm_inst: Inst = if (sigil is One && set_imm) || (sigil is Zero && !set_imm) {
            Inst::BorImm { arg: v0, imm: mask, result: base }
        } else {
            Inst::BandImm { arg: v0, imm: unmask, result: base }
        };
        if cond is Some {
            seq![
                Inst::BorImm { arg: v0, imm: mask, result: base },
                Inst::BandImm { arg: v0, imm: unmask, result: (base + 1) as ValId },
                sel_inst,
            ]
        } else {
            seq![imm_inst]
        }
    }

    /// Emits the flag-update instructions for one null flag and returns the
    /// value holding the updated bitset byte.
    pub fn emit_flag_update(&mut self, v0: ValId, bit: u8, cond: Option<ValId>, set_imm: bool) -> (r:
        ValId)
        requires
            old(self).cur_block < old(self).func.blocks@.len(),
            old(self).func.n_vals + 3 <= u32::MAX,
            v0 < old(self).func.n_vals,
            cond matches Some(c) ==> c < old(self).func.n_vals,
            bit < 8,
        ensures
            Ctx::frames_ok(*old(self), *final(self)),
            Ctx::same_maps(*old(self), *final(self)),
            Ctx::code_extended(
                *old(self),
                *final(self),
                Ctx::spec_flag_update_insts(
                    v0,
                    bit,
                    cond,
                    set_imm,
                    old(self).null_sigil,
                    old(self).func.n_vals,
                ),
            ),
            final(self).func.n_vals == old(self).func.n_vals + (if cond is Some {
                3int
            } else {
                1int
            }),
            r == old(self).func.n_vals + (if cond is Some {
                2int
            } else {
                0int
            }),
            forall|nl: int| old(self).wf(nl) ==> final(self).wf(nl),
    {
        let mask = 1i64 << bit;
        let unmask = !mask;
        proof {
            assert(!mask == (-mask - 1) as i64) by (bit_vector);
        }
        match cond {
            Some(c) => {
                let set_bit = self.fresh_val();
                self.emit(Inst::BorImm { arg: v0, imm: mask, result: set_bit });
                let unset_bit = self.fresh_val();
                self.emit(Inst::BandImm { arg: v0, imm: unmask, result: unset_bit });
                let chosen = self.fresh_val();
                let sel_inst = if self.null_sigil.is_one() {
                    Inst::Select { cond: c, if_true: set_bit, if_false: unset_bit, result: chosen }
                } else {
                    Inst::Select { cond: c, if_true: unset_bit, if_false: set_bit, result: chosen }
                };
                self.emit(sel_inst);
                chosen
            },
            None => {
                let out = self.fresh_val();
                let flag_inst = if (self.null_sigil.is_one() && set_imm) || (
                self.null_sigil.is_zero() && !set_imm) {
                    Inst::BorImm { arg: v0, imm: mask, result: out }
                } else {
                    Inst::BandImm { arg: v0, imm: unmask, result: out }
                };
                self.emit(flag_inst);
                out
            },
        }
    }

    /// Lowers a null-flag write: loads the bitset byte, drives the column's
    /// bit per the null sigil — directly for an immediate boolean, through
    /// both candidate bytes and a `select` for a computed value — and
    /// stores the byte back. Writes to readonly parameters are refused; a
    /// non-boolean immediate is invalid IR.
    pub fn lower_set_null(
        &mut self,
        cache: &mut NativeLayoutCache,
        set_null: &SetNull,
    ) -> (r: Result<(), LowerError>)
        requires
            old(cache).wf(),
            old(self).wf(old(cache).layout_cache.spec_layouts().len() as int),
            old(self).func.n_vals + 4 <= u32::MAX,
            set_null.target < old(self).exprs@.len(),
            set_null.is_null matches RValue::Expr(e) ==> e < old(self).exprs@.len(),
        ensures
            Ctx::frames_ok(*old(self), *final(self)),
            forall|i: int|
                0 <= i < old(cache).layouts@.len() && old(cache).layouts@[i] is Some
                    ==> final(cache).layouts@[i] == old(cache).layouts@[i],
            final(cache).wf(),
            final(cache).layout_cache == old(cache).layout_cache,
            final(cache).frontend_config == old(cache).frontend_config,
            final(self).wf(old(cache).layout_cache.spec_layouts().len() as int),
            old(self).function_inputs@[set_null.target as int] matches Some(f)
                && f.spec_is_readonly() ==> r == Err::<(), LowerError>(LowerError::ReadonlyWrite),
            r is Ok <==> ({
                let lid_opt = old(self).expr_layouts@[set_null.target as int];
                &&& !(old(self).function_inputs@[set_null.target as int] matches Some(f)
                    && f.spec_is_readonly())
                &&& (old(self).stack_slots@[set_null.target as int] is Some
                    || old(self).exprs@[set_null.target as int] is Some)
                &&& (match set_null.is_null {
                    RValue::Expr(e) => old(self).exprs@[e as int] is Some,
                    RValue::Imm(c) => c is Bool,
                })
                &&& lid_opt is Some
                &&& (final(cache).layouts@[lid_opt.unwrap() as int] matches Some(l)
                    && set_null.column < l.bitflag_mappings@.len()
                    && l.bitflag_mappings@[set_null.column as int] is Some)
            }),
            r is Ok ==> ({
                let lid = old(self).expr_layouts@[set_null.target as int].unwrap();
                let l = final(cache).layouts@[lid as int].unwrap();
                let p = l.bitflag_mappings@[set_null.column as int].unwrap();
                let off = l.offsets@[p.0 as int];
                let v0 = old(self).func.n_vals;
                let on_stack = old(self).stack_slots@[set_null.target as int] is Some;
                let cond: Option<ValId> = if set_null.is_null is Expr {
                    Some(old(self).exprs@[set_null.is_null->Expr_0 as int].unwrap())
                } else {
                    None
                };
                let set_imm: bool = if set_null.is_null is Imm {
                    set_null.is_null->Imm_0->Bool_0
                } else {
                    false
                };
                let load_inst: Inst = if on_stack {
                    Inst::StackLoad {
                        ty: NativeType::I8,
                        slot: old(self).stack_slots@[set_null.target as int].unwrap(),
                        offset: off,
                        result: v0,
                    }
                } else {
                    Inst::Load {
                        ty: NativeType::I8,
                        flags: MemFlags { trusted: false, readonly: false },
                        addr: old(self).exprs@[set_null.target as int].unwrap(),
                        offset: off,
                        result: v0,
                    }
                };
                let middle: Seq<Inst> = Ctx::spec_flag_update_insts(
                    v0,
                    p.1,
                    cond,
                    set_imm,
                    old(self).null_sigil,
                    (v0 + 1) as ValId,
                );
                let masked: ValId = if set_null.is_null is Expr {
                    (v0 + 3) as ValId
                } else {
                    (v0 + 1) as ValId
                };
                let store_inst: Inst = if on_stack {
                    Inst::StackStore {
                        value: masked,
                        slot: old(self).stack_slots@[set_null.target as int].unwrap(),
                        offset: off,
                    }
                } else {
                    Inst::Store {
                        flags: MemFlags { trusted: true, readonly: false },
                        value: masked,
                        addr: old(self).exprs@[set_null.target as int].unwrap(),
                        offset: off,
                    }
                };
                &&& final(self).func.n_vals <= old(self).func.n_vals + 4
                &&& old(self).expr_layouts@[set_null.target as int] is Some
                &&& set_null.column < l.bitflag_mappings@.len()
                &&& l.bitflag_mappings@[set_null.column as int] is Some
                &&& (set_null.is_null is Imm ==> set_null.is_null->Imm_0 is Bool)
                &&& Ctx::same_maps(*old(self), *final(self))
                &&& Ctx::code_extended(
                    *old(self),
                    *final(self),
                    seq![load_inst] + middle + seq![store_inst],
                )
            }),
            r is Err ==> *final(self) == *old(self),
    {
        if self.is_readonly(set_null.target) {
            return Err(LowerError::ReadonlyWrite);
        }
        let has_slot = self.stack_slots[set_null.target as usize].is_some();
        if !has_slot && self.exprs[set_null.target as usize].is_none() {
            return Err(LowerError::UndefinedValue);
        }
        let is_null_val: Option<ValId> = match &set_null.is_null {
            RValue::Expr(e) => match self.exprs[*e as usize] {
                Some(v) => Some(v),
                None => {
                    return Err(LowerError::UndefinedValue);
                },
            },
            RValue::Imm(imm) => {
                if !imm.is_bool() {
                    return Err(LowerError::InvalidImmediate);
                }
                None
            },
        };
        let set_imm = match &set_null.is_null {
            RValue::Imm(Constant::Bool(b)) => *b,
            _ => false,
        };
        let lid = match self.expr_layouts[set_null.target as usize] {
            Some(l) => l,
            None => {
                return Err(LowerError::UndefinedLayout);
            },
        };
        let layout = cache.compute(lid);
        if set_null.column >= layout.bitflag_mappings.len() {
            return Err(LowerError::InvalidColumn);
        }
        let (pidx, bit) = match layout.bitflag_mappings[set_null.column] {
            Some(p) => p,
            None => {
                return Err(LowerError::ColumnNotNullable);
            },
        };
        let bitset_ty = layout.types[pidx as usize].native_type(&cache.frontend_config);
        let off = layout.offsets[pidx as usize];

        // Load the bitset's current value
        let v0 = self.fresh_val();
        match self.stack_slots[set_null.target as usize] {
            Some(slot) => {
                self.emit(Inst::StackLoad { ty: bitset_ty, slot, offset: off, result: v0 });
            },
            None => {
                let addr = match self.exprs[set_null.target as usize] {
                    Some(a) => a,
                    None => {
                        return vstd::pervasive::unreached();
                    },
                };
                let flags = MemFlags::new();
                self.emit(Inst::Load { ty: bitset_ty, flags, addr, offset: off, result: v0 });
            },
        }

        // Drive the flag bit to its new value
        let masked = self.emit_flag_update(v0, bit, is_null_val, set_imm);

        // Store the updated bitset byte back
        match self.stack_slots[set_null.target as usize] {
            Some(slot) => {
                self.emit(Inst::StackStore { value: masked, slot, offset: off });
            },
            None => {
                let addr = match self.exprs[set_null.target as usize] {
                    Some(a) => a,
                    None => {
                        return vstd::pervasive::unreached();
                    },
                };
                let flags = MemFlags::trusted();
                self.emit(Inst::Store { flags, value: masked, addr, offset: off });
            },
        }
        Ok(())
    }
}


impl Ctx {
    /// Lowers a whole-row copy. The source and destination must share the
    /// stated layout; a copy of a row onto itself is a no-op and emits
    /// nothing at all. Otherwise both addresses are resolved (stack-slot
    /// addresses for rows materialized in the function, pointer operands
    /// for parameter rows) and a byte-wise copy of the layout's size at the
    /// layout's alignment is emitted.
    pub fn lower_copy_row_to(
        &mut self,
        cache: &mut NativeLayoutCache,
        copy_row: &CopyRowTo,
    ) -> (r: Result<(), LowerError>)
        requires
            old(cache).wf(),
            old(self).wf(old(cache).layout_cache.spec_layouts().len() as int),
            old(self).func.n_vals + 2 <= u32::MAX,
            copy_row.src < old(self).exprs@.len(),
            copy_row.dest < old(self).exprs@.len(),
        ensures
            Ctx::frames_ok(*old(self), *final(self)),
            forall|i: int|
                0 <= i < old(cache).layouts@.len() && old(cache).layouts@[i] is Some
                    ==> final(cache).layouts@[i] == old(cache).layouts@[i],
            final(cache).wf(),
            final(cache).layout_cache == old(cache).layout_cache,
            final(cache).frontend_config == old(cache).frontend_config,
            final(self).wf(old(cache).layout_cache.spec_layouts().len() as int),
            old(self).function_inputs@[copy_row.dest as int] matches Some(f)
                && f.spec_is_readonly() ==> r == Err::<(), LowerError>(LowerError::ReadonlyWrite),
            r is Ok <==> ({
                &&& !(old(self).function_inputs@[copy_row.dest as int] matches Some(f)
                    && f.spec_is_readonly())
                &&& (copy_row.src == copy_row.dest || ({
                    &&& old(self).expr_layouts@[copy_row.src as int] == Some(copy_row.layout)
                    &&& old(self).expr_layouts@[copy_row.dest as int] == Some(copy_row.layout)
                    &&& (old(self).stack_slots@[copy_row.src as int] is Some
                        || old(self).exprs@[copy_row.src as int] is Some)
                    &&& (old(self).stack_slots@[copy_row.dest as int] is Some
                        || old(self).exprs@[copy_row.dest as int] is Some)
                }))
            }),
            copy_row.src == copy_row.dest && !(old(self).function_inputs@[copy_row.dest as int]
                matches Some(f) && f.spec_is_readonly()) ==> r is Ok && *final(self) == *old(
                self,
            ),
            r is Ok && copy_row.src != copy_row.dest ==> ({
                let l = final(cache).layouts@[copy_row.layout as int].unwrap();
                let on_stack_src = old(self).stack_slots@[copy_row.src as int] is Some;
                let on_stack_dest = old(self).stack_slots@[copy_row.dest as int] is Some;
                let v0 = old(self).func.n_vals;
                let src_val: ValId = if on_stack_src {
                    v0
                } else {
                    old(self).exprs@[copy_row.src as int].unwrap()
                };
                let dest_val: ValId = if on_stack_dest {
                    (if on_stack_src {
                        ((v0 + 1) as ValId)
                    } else {
                        v0
                    })
                } else {
                    old(self).exprs@[copy_row.dest as int].unwrap()
                };
                let src_prefix: Seq<Inst> = if on_stack_src {
                    seq![
                        Inst::StackAddr {
                            slot: old(self).stack_slots@[copy_row.src as int].unwrap(),
                            offset: 0,
                            result: v0,
                        },
                    ]
                } else {
                    Seq::empty()
                };
                let dest_prefix: Seq<Inst> = if on_stack_dest {
                    seq![
                        Inst::StackAddr {
                            slot: old(self).stack_slots@[copy_row.dest as int].unwrap(),
                            offset: 0,
                            result: dest_val,
                        },
                    ]
                } else {
                    Seq::empty()
                };
                &&& final(self).func.n_vals <= old(self).func.n_vals + 2
                &&& old(self).expr_layouts@[copy_row.src as int] == Some(copy_row.layout)
                &&& old(self).expr_layouts@[copy_row.dest as int] == Some(copy_row.layout)
                &&& Ctx::same_maps(*old(self), *final(self))
                &&& Ctx::code_extended(
                    *old(self),
                    *final(self),
                    src_prefix + dest_prefix + seq![
                        Inst::MemCpy {
                            dest: dest_val,
                            src: src_val,
                            size: l.size as u64,
                            align: l.align as u8,
                        },
                    ],
                )
            }),
            r is Err ==> *final(self) == *old(self),
    {
        if self.is_readonly(copy_row.dest) {
            return Err(LowerError::ReadonlyWrite);
        }
        // Ignore noop copies
        if copy_row.src == copy_row.dest {
            return Ok(());
        }
        let src_lid = match self.expr_layouts[copy_row.src as usize] {
            Some(l) => l,
            None => {
                return Err(LowerError::UndefinedLayout);
            },
        };
        let dest_lid = match self.expr_layouts[copy_row.dest as usize] {
            Some(l) => l,
            None => {
                return Err(LowerError::UndefinedLayout);
            },
        };
        if src_lid != dest_lid || src_lid != copy_row.layout {
            return Err(LowerError::LayoutMismatch);
        }
        let src_slot = self.stack_slots[copy_row.src as usize];
        let src_val = self.exprs[copy_row.src as usize];
        let dest_slot = self.stack_slots[copy_row.dest as usize];
        let dest_val = self.exprs[copy_row.dest as usize];
        if src_slot.is_none() && src_val.is_none() {
            return Err(LowerError::UndefinedValue);
        }
        if dest_slot.is_none() && dest_val.is_none() {
            return Err(LowerError::UndefinedValue);
        }
        let ghost v0g: ValId = self.func.n_vals;
        let ghost src_prefix_g: Seq<Inst> = if src_slot is Some {
            seq![
                Inst::StackAddr { slot: src_slot.unwrap(), offset: 0, result: v0g },
            ]
        } else {
            Seq::empty()
        };
        let src = match src_slot {
            Some(slot) => {
                let v = self.fresh_val();
                self.emit(Inst::StackAddr { slot, offset: 0, result: v });
                v
            },
            None => match src_val {
                Some(v) => v,
                None => {
                    return vstd::pervasive::unreached();
                },
            },
        };
        proof {
            assert(self.cur_insts() =~= old(self).cur_insts() + src_prefix_g);
        }
        let ghost dest_addr_g: ValId = if dest_slot is Some {
            self.func.n_vals
        } else {
            dest_val.unwrap()
        };
        let ghost dest_prefix_g: Seq<Inst> = if dest_slot is Some {
            seq![
                Inst::StackAddr { slot: dest_slot.unwrap(), offset: 0, result: dest_addr_g },
            ]
        } else {
            Seq::empty()
        };
        let dest = match dest_slot {
            Some(slot) => {
                let v = self.fresh_val();
                self.emit(Inst::StackAddr { slot, offset: 0, result: v });
                v
            },
            None => match dest_val {
                Some(v) => v,
                None => {
                    return vstd::pervasive::unreached();
                },
            },
        };
        proof {
            assert(self.cur_insts() =~= old(self).cur_insts() + src_prefix_g + dest_prefix_g);
        }
        let layout = cache.compute(copy_row.layout);
        let align = if layout.align > 255 {
            255u8
        } else {
            layout.align as u8
        };
        self.emit(Inst::MemCpy { dest, src, size: layout.size as u64, align });
        proof {
            assert(self.cur_insts() =~= old(self).cur_insts() + (src_prefix_g + dest_prefix_g
                + seq![
                Inst::MemCpy { dest, src, size: layout.size as u64, align },
            ]));
        }
        Ok(())
    }

    /// Lowers a value copy: a no-op for every type but strings, which go
    /// through the `string_clone` intrinsic; the row layout associated with
    /// the value (if any) is propagated to the copy.
    pub fn lower_copy_val(&mut self, expr_id: ExprId, copy_val: &CopyVal) -> (r: Result<
        (),
        LowerError,
    >)
        requires
            old(self).cur_block < old(self).func.blocks@.len(),
            old(self).func.n_vals < u32::MAX,
            expr_id < old(self).exprs@.len(),
            copy_val.value < old(self).exprs@.len(),
            old(self).expr_layouts@.len() == old(self).exprs@.len(),
            forall|e: int|
                0 <= e < old(self).exprs@.len() ==> ((#[trigger] old(self).exprs@[e]) matches Some(
                v) ==> v < old(self).func.n_vals),
        ensures
            Ctx::frames_ok(*old(self), *final(self)),
            old(self).exprs@[expr_id as int] is Some ==> r == Err::<(), LowerError>(
                LowerError::DuplicateValue,
            ),
            r is Ok <==> (old(self).exprs@[expr_id as int] is None
                && old(self).exprs@[copy_val.value as int] is Some),
            r is Ok ==> ({
                let value = old(self).exprs@[copy_val.value as int].unwrap();
                let layout = old(self).expr_layouts@[copy_val.value as int];
                &&& final(self).func.n_vals <= old(self).func.n_vals + 1
                &&& old(self).exprs@[copy_val.value as int] is Some
                &&& if copy_val.value_ty is String {
                    Ctx::code_extended(
                        *old(self),
                        *final(self),
                        seq![
                            Inst::CallStringClone { arg: value, result: old(self).func.n_vals },
                        ],
                    ) && final(self).exprs@ == old(self).exprs@.update(
                        expr_id as int,
                        Some(old(self).func.n_vals),
                    )
                } else {
                    Ctx::same_code(*old(self), *final(self)) && final(self).exprs@ == old(
                        self,
                    ).exprs@.update(expr_id as int, Some(value))
                }
                &&& final(self).expr_layouts@ == if layout is Some {
                    old(self).expr_layouts@.update(expr_id as int, layout)
                } else {
                    old(self).expr_layouts@
                }
                &&& final(self).stack_slots@ == old(self).stack_slots@
                &&& final(self).function_inputs@ == old(self).function_inputs@
                &&& final(self).blocks@ == old(self).blocks@
            }),
            r is Err ==> *final(self) == *old(self),
            forall|nl: int| old(self).wf(nl) ==> final(self).wf(nl),
    {
        if self.exprs[expr_id as usize].is_some() {
            return Err(LowerError::DuplicateValue);
        }
        let value = match self.exprs[copy_val.value as usize] {
            Some(v) => v,
            None => {
                return Err(LowerError::UndefinedValue);
            },
        };
        let layout = self.expr_layouts[copy_val.value as usize];
        if copy_val.value_ty.is_string() {
            let cloned_value = self.fresh_val();
            self.emit(Inst::CallStringClone { arg: value, result: cloned_value });
            self.add_expr(expr_id, cloned_value, layout);
        } else {
            self.add_expr(expr_id, value, layout);
        }
        Ok(())
    }

    /// Lowers a null-row materialization: reserves a stack slot of the
    /// layout's size and fills it with the null sigil's fill byte, so that
    /// every null flag of the row reads as null.
    pub fn lower_null_row(
        &mut self,
        cache: &mut NativeLayoutCache,
        expr_id: ExprId,
        layout_id: LayoutId,
    ) -> (r: Result<(), LowerError>)
        requires
            old(cache).wf(),
            old(self).wf(old(cache).layout_cache.spec_layouts().len() as int),
            old(self).func.n_vals < u32::MAX,
            old(self).func.slots@.len() < u32::MAX,
            expr_id < old(self).exprs@.len(),
            layout_id < old(cache).layout_cache.spec_layouts().len(),
        ensures
            Ctx::frames_ok(*old(self), *final(self)),
            forall|i: int|
                0 <= i < old(cache).layouts@.len() && old(cache).layouts@[i] is Some
                    ==> final(cache).layouts@[i] == old(cache).layouts@[i],
            final(cache).wf(),
            final(cache).layout_cache == old(cache).layout_cache,
            final(cache).frontend_config == old(cache).frontend_config,
            final(self).wf(old(cache).layout_cache.spec_layouts().len() as int),
            old(self).stack_slots@[expr_id as int] is Some ==> r == Err::<(), LowerError>(
                LowerError::DuplicateValue,
            ),
            r is Ok <==> old(self).stack_slots@[expr_id as int] is None,
            r is Ok ==> ({
                let l = final(cache).layouts@[layout_id as int].unwrap();
                let slot = old(self).func.slots@.len() as SlotId;
                &&& final(self).func.n_vals <= old(self).func.n_vals + 1
                &&& final(self).func.blocks@.len() == old(self).func.blocks@.len()
                &&& (forall|j: int|
                    0 <= j < old(self).func.blocks@.len() && j != old(self).cur_block ==> (
                    #[trigger] final(self).func.blocks@[j]) == old(self).func.blocks@[j])
                &&& final(self).func.slots@ == old(self).func.slots@.push(l.size)
                &&& final(self).stack_slots@ == old(self).stack_slots@.update(
                    expr_id as int,
                    Some(slot),
                )
                &&& final(self).expr_layouts@ == old(self).expr_layouts@.update(
                    expr_id as int,
                    Some(layout_id),
                )
                &&& final(self).exprs@ == old(self).exprs@
                &&& final(self).cur_insts() =~= old(self).cur_insts() + seq![
                    Inst::StackAddr { slot, offset: 0, result: old(self).func.n_vals },
                    Inst::MemSet {
                        addr: old(self).func.n_vals,
                        value: old(self).null_sigil.spec_fill_byte(),
                        size: l.size as u64,
                        align: (if l.align > 255 {
                            255u8
                        } else {
                            l.align as u8
                        }),
                    },
                ]
            }),
            r is Err ==> *final(self) == *old(self),
    {
        if self.stack_slots[expr_id as usize].is_some() {
            return Err(LowerError::DuplicateValue);
        }
        let layout = cache.compute(layout_id);
        // Create a stack slot and take its address
        let slot = self.add_stack_slot(expr_id, layout.size, layout_id);
        let addr = self.fresh_val();
        self.emit(Inst::StackAddr { slot, offset: 0, result: addr });
        // Fill the stack slot with whatever our nullish sigil is
        let fill = self.null_sigil.fill_byte();
        let align = if layout.align > 255 {
            255u8
        } else {
            layout.align as u8
        };
        self.emit(Inst::MemSet { addr, value: fill, size: layout.size as u64, align });
        Ok(())
    }

    /// Lowers an uninitialized-row materialization: reserves a stack slot
    /// of the layout's size and leaves its contents undefined.
    pub fn lower_uninit_row(
        &mut self,
        cache: &mut NativeLayoutCache,
        expr_id: ExprId,
        layout_id: LayoutId,
    ) -> (r: Result<(), LowerError>)
        requires
            old(cache).wf(),
            old(self).wf(old(cache).layout_cache.spec_layouts().len() as int),
            old(self).func.slots@.len() < u32::MAX,
            expr_id < old(self).exprs@.len(),
            layout_id < old(cache).layout_cache.spec_layouts().len(),
        ensures
            Ctx::frames_ok(*old(self), *final(self)),
            forall|i: int|
                0 <= i < old(cache).layouts@.len() && old(cache).layouts@[i] is Some
                    ==> final(cache).layouts@[i] == old(cache).layouts@[i],
            final(cache).wf(),
            final(cache).layout_cache == old(cache).layout_cache,
            final(cache).frontend_config == old(cache).frontend_config,
            final(self).wf(old(cache).layout_cache.spec_layouts().len() as int),
            old(self).stack_slots@[expr_id as int] is Some ==> r == Err::<(), LowerError>(
                LowerError::DuplicateValue,
            ),
            r is Ok <==> old(self).stack_slots@[expr_id as int] is None,
            r is Ok ==> ({
                let l = final(cache).layouts@[layout_id as int].unwrap();
                let slot = old(self).func.slots@.len() as SlotId;
                &&& final(self).func.n_vals == old(self).func.n_vals
                &&& final(self).func.slots@ == old(self).func.slots@.push(l.size)
                &&& final(self).stack_slots@ == old(self).stack_slots@.update(
                    expr_id as int,
                    Some(slot),
                )
                &&& final(self).expr_layouts@ == old(self).expr_layouts@.update(
                    expr_id as int,
                    Some(layout_id),
                )
                &&& final(self).exprs@ == old(self).exprs@
                &&& final(self).func.blocks@ == old(self).func.blocks@
            }),
            r is Err ==> *final(self) == *old(self),
    {
        if self.stack_slots[expr_id as usize].is_some() {
            return Err(LowerError::DuplicateValue);
        }
        let layout = cache.compute(layout_id);
        self.add_stack_slot(expr_id, layout.size, layout_id);
        Ok(())
    }
}

impl Ctx {
    /// Lowers a block terminator and enqueues its successors on the
    /// worklist. A `Branch` lowers to "branch to the truthy block when the
    /// condition is zero, else jump to the falsy block"; this polarity is
    /// part of the IR's contract and is preserved bit-for-bit.
    pub fn codegen_terminator(&mut self, terminator: &Terminator, stack: &mut Vec<BlockId>) -> (r:
        Result<(), LowerError>)
        requires
            old(self).cur_block < old(self).func.blocks@.len(),
            old(self).func.wf(),
            old(self).func.n_vals < u32::MAX,
            old(self).func.blocks@.len() + 2 <= u32::MAX,
            old(self).expr_layouts@.len() == old(self).exprs@.len(),
            forall|e: int|
                0 <= e < old(self).exprs@.len() ==> ((#[trigger] old(self).exprs@[e]) matches Some(
                v) ==> v < old(self).func.n_vals),
            forall|b: int|
                0 <= b < old(self).blocks@.len() ==> ((#[trigger] old(self).blocks@[b]) matches
                Some(cb) ==> cb < old(self).func.blocks@.len()),
            terminator matches Terminator::Return(ret) ==> (ret.value matches RValue::Expr(e) ==> e
                < old(self).exprs@.len()),
            terminator matches Terminator::Jump(jump) ==> jump.target < old(self).blocks@.len(),
            terminator matches Terminator::Branch(branch) ==> branch.truthy
                < old(self).blocks@.len() && branch.falsy < old(self).blocks@.len() && (
            branch.cond matches RValue::Expr(e) ==> e < old(self).exprs@.len()),
        ensures
            forall|nl: int| old(self).wf(nl) ==> final(self).wf(nl),
            final(self).exprs@ == old(self).exprs@,
            final(self).expr_layouts@ == old(self).expr_layouts@,
            final(self).stack_slots@ == old(self).stack_slots@,
            final(self).function_inputs@ == old(self).function_inputs@,
            final(self).blocks@.len() == old(self).blocks@.len(),
            final(self).cur_block == old(self).cur_block,
            final(self).func.params@ == old(self).func.params@,
            final(self).func.returns == old(self).func.returns,
            final(self).func.n_vals <= old(self).func.n_vals + 1,
            final(self).func.slots@ == old(self).func.slots@,
            final(self).func.entry == old(self).func.entry,
            final(self).func.blocks@.len() <= old(self).func.blocks@.len() + 2,
            forall|b: int|
                0 <= b < old(self).blocks@.len() && old(self).blocks@[b] is Some ==> (
                #[trigger] final(self).blocks@[b]) == old(self).blocks@[b],
            forall|j: int|
                0 <= j < old(self).func.blocks@.len() ==> (#[trigger] final(self).func.blocks@[j]).insts@.len()
                    >= old(self).func.blocks@[j].insts@.len(),
            r is Ok && old(self).cur_block < old(self).func.blocks@.len()
                ==> final(self).func.blocks@[old(self).cur_block as int].insts@.len()
                > old(self).func.blocks@[old(self).cur_block as int].insts@.len(),
            r is Ok <==> (match *terminator {
                Terminator::Return(ret) => match ret.value {
                    RValue::Expr(e) => old(self).exprs@[e as int] is Some,
                    RValue::Imm(c) => !(c is String),
                },
                Terminator::Jump(_) => true,
                Terminator::Branch(branch) => branch.cond matches RValue::Expr(e)
                    && old(self).exprs@[e as int] is Some,
            }),
            r is Ok ==> (terminator matches Terminator::Return(ret) ==> final(stack)@ == old(
                stack,
            )@ && final(self).blocks@ == old(self).blocks@ && final(self).cur_insts().len() > 0
                && (final(self).cur_insts().last() matches Inst::Return { value } && (match ret.value {
                RValue::Expr(e) => value == Some(old(self).exprs@[e as int].unwrap()),
                RValue::Imm(c) => if c is Unit {
                    value is None
                } else {
                    value == Some(old(self).func.n_vals)
                },
            }))),
            r is Ok ==> (terminator matches Terminator::Jump(jump) ==> ({
                &&& final(stack)@ == old(stack)@.push(jump.target)
                &&& final(self).blocks@[jump.target as int] is Some
                &&& final(self).cur_insts() =~= old(self).cur_insts() + seq![
                    Inst::Jump { target: final(self).blocks@[jump.target as int].unwrap() },
                ]
            })),
            r is Ok ==> (terminator matches Terminator::Branch(branch) ==> ({
                &&& final(stack)@ == old(stack)@.push(branch.truthy).push(branch.falsy)
                &&& final(self).blocks@[branch.truthy as int] is Some
                &&& final(self).blocks@[branch.falsy as int] is Some
                &&& branch.cond is Expr
                &&& final(self).cur_insts() =~= old(self).cur_insts() + seq![
                    Inst::Brz {
                        cond: old(self).exprs@[branch.cond->Expr_0 as int].unwrap(),
                        target: final(self).blocks@[branch.truthy as int].unwrap(),
                    },
                    Inst::Jump { target: final(self).blocks@[branch.falsy as int].unwrap() },
                ]
            })),
            r is Err ==> final(stack)@ == old(stack)@,
    {
        match terminator {
            Terminator::Return(ret) => {
                match ret.value() {
                    RValue::Expr(expr) => {
                        let value = match self.exprs[*expr as usize] {
                            Some(v) => v,
                            None => {
                                return Err(LowerError::UndefinedValue);
                            },
                        };
                        self.emit(Inst::Return { value: Some(value) });
                    },
                    RValue::Imm(imm) => {
                        if imm.is_unit() {
                            self.emit(Inst::Return { value: None });
                        } else if imm.is_string() {
                            // Strings cannot be returned from functions
                            // directly.
                            return Err(LowerError::StringReturn);
                        } else {
                            let value = match self.lower_constant(imm) {
                                Ok(v) => v,
                                Err(e) => {
                                    return Err(e);
                                },
                            };
                            self.emit(Inst::Return { value: Some(value) });
                        }
                    },
                }
                Ok(())
            },
            Terminator::Jump(jump) => {
                let target = self.block(jump.target());
                self.emit(Inst::Jump { target });
                stack.push(jump.target());
                Ok(())
            },
            Terminator::Branch(branch) => {
                let truthy = self.block(branch.truthy());
                let falsy = self.block(branch.falsy());
                let cond = match branch.cond() {
                    RValue::Expr(expr) => match self.exprs[*expr as usize] {
                        Some(v) => v,
                        None => {
                            return Err(LowerError::UndefinedValue);
                        },
                    },
                    RValue::Imm(_) => {
                        return Err(LowerError::ImmediateBranch);
                    },
                };
                self.emit(Inst::Brz { cond, target: truthy });
                self.emit(Inst::Jump { target: falsy });
                stack.push(branch.truthy());
                stack.push(branch.falsy());
                Ok(())
            },
        }
    }

    /// Creates the entry block and binds each function parameter: the
    /// parameter's expression identifier is bound to the matching input
    /// value, its row layout is recorded, and its input flags are kept for
    /// the readonly checks.
    #[verifier::loop_isolation(false)]
    pub fn add_function_params(&mut self, function: &Function)
        requires
            old(self).exprs@.len() == function.exprs@.len(),
            old(self).expr_layouts@.len() == function.exprs@.len(),
            old(self).stack_slots@.len() == function.exprs@.len(),
            old(self).function_inputs@.len() == function.exprs@.len(),
            old(self).blocks@.len() == function.blocks@.len(),
            old(self).func.blocks@.len() == 0,
            old(self).func.n_vals == function.args@.len(),
            function.entry_block < function.blocks@.len(),
            forall|e: int| 0 <= e < old(self).exprs@.len() ==> (#[trigger] old(self).exprs@[e]) is None,
            forall|e: int|
                0 <= e < old(self).expr_layouts@.len() ==> (#[trigger] old(self).expr_layouts@[e]) is None,
            forall|e: int|
                0 <= e < old(self).function_inputs@.len() ==> (#[trigger] old(self).function_inputs@[e]) is None,
            forall|b: int| 0 <= b < old(self).blocks@.len() ==> (#[trigger] old(self).blocks@[b]) is None,
            forall|i: int|
                0 <= i < function.args@.len() ==> (#[trigger] function.args@[i]).1
                    < function.exprs@.len(),
            forall|i: int, j: int|
                0 <= i < j < function.args@.len() ==> (#[trigger] function.args@[i]).1 != (
                #[trigger] function.args@[j]).1,
        ensures
            final(self).cur_block == 0,
            final(self).func.blocks@.len() == 1,
            final(self).func.blocks@[0].insts@ == Seq::<Inst>::empty(),
            final(self).func.entry == old(self).func.entry,
            final(self).blocks@ == old(self).blocks@.update(
                function.entry_block as int,
                Some(0u32),
            ),
            final(self).func.n_vals == old(self).func.n_vals,
            final(self).func.slots@ == old(self).func.slots@,
            final(self).func.params@ == old(self).func.params@,
            final(self).func.returns == old(self).func.returns,
            final(self).stack_slots@ == old(self).stack_slots@,
            final(self).null_sigil == old(self).null_sigil,
            final(self).exprs@.len() == old(self).exprs@.len(),
            final(self).expr_layouts@.len() == old(self).expr_layouts@.len(),
            final(self).function_inputs@.len() == old(self).function_inputs@.len(),
            forall|i: int|
                0 <= i < function.args@.len() ==> final(self).exprs@[(
                #[trigger] function.args@[i]).1 as int] == Some(i as ValId)
                    && final(self).expr_layouts@[function.args@[i].1 as int] == Some(
                    function.args@[i].0,
                ) && final(self).function_inputs@[function.args@[i].1 as int] == Some(
                    function.args@[i].2,
                ),
            forall|e: int|
                0 <= e < final(self).exprs@.len() && (forall|i: int|
                    0 <= i < function.args@.len() ==> (#[trigger] function.args@[i]).1 != e) ==> (
                #[trigger] final(self).exprs@[e]) is None,
            forall|e: int|
                0 <= e < final(self).function_inputs@.len() && (forall|i: int|
                    0 <= i < function.args@.len() ==> (#[trigger] function.args@[i]).1 != e) ==> (
                #[trigger] final(self).function_inputs@[e]) is None,
            forall|e: int|
                0 <= e < final(self).expr_layouts@.len() && (forall|i: int|
                    0 <= i < function.args@.len() ==> (#[trigger] function.args@[i]).1 != e) ==> (
                #[trigger] final(self).expr_layouts@[e]) is None,
            forall|nl: int|
                (old(self).wf(nl) && (forall|i: int|
                    0 <= i < function.args@.len() ==> (#[trigger] function.args@[i]).0 < nl))
                    ==> final(self).wf(nl),
    {
        // Create the entry block
        let entry_block = self.switch_to_block(function.entry_block());
        // Bind each param as an expression and register its input flags
        let args = function.args();
        let n = args.len();
        let mut idx: usize = 0;
        while idx < n
            invariant
                n == function.args@.len(),
                n == old(self).func.n_vals,
                idx <= n,
                self.exprs@.len() == old(self).exprs@.len(),
                self.expr_layouts@.len() == old(self).expr_layouts@.len(),
                self.function_inputs@.len() == old(self).function_inputs@.len(),
                self.stack_slots@ == old(self).stack_slots@,
                self.blocks@ == old(self).blocks@.update(function.entry_block as int, Some(0u32)),
                self.func.n_vals == old(self).func.n_vals,
                self.func.blocks@.len() == 1,
                self.func.blocks@[0].insts@ == Seq::<Inst>::empty(),
                self.func.entry == old(self).func.entry,
                self.func.slots@ == old(self).func.slots@,
                self.func.params@ == old(self).func.params@,
                self.func.returns == old(self).func.returns,
                self.null_sigil == old(self).null_sigil,
                self.cur_block == 0,
                forall|i: int|
                    0 <= i < function.args@.len() ==> (#[trigger] function.args@[i]).1
                        < function.exprs@.len(),
                forall|i: int, j: int|
                    0 <= i < j < function.args@.len() ==> (#[trigger] function.args@[i]).1 != (
                    #[trigger] function.args@[j]).1,
                forall|i: int|
                    0 <= i < idx ==> self.exprs@[(#[trigger] function.args@[i]).1 as int] == Some(
                        i as ValId,
                    ) && self.expr_layouts@[function.args@[i].1 as int] == Some(
                        function.args@[i].0,
                    ) && self.function_inputs@[function.args@[i].1 as int] == Some(
                        function.args@[i].2,
                    ),
                forall|e: int|
                    0 <= e < self.exprs@.len() && (forall|i: int|
                        0 <= i < idx ==> (#[trigger] function.args@[i]).1 != e) ==> (
                    #[trigger] self.exprs@[e]) is None && self.expr_layouts@[e] is None
                        && self.function_inputs@[e] is None,
            decreases n - idx,
        {
            let (layout, expr_id, flags) = args[idx];
            self.exprs[expr_id as usize] = Some(idx as u32);
            self.expr_layouts[expr_id as usize] = Some(layout);
            self.function_inputs[expr_id as usize] = Some(flags);
            idx = idx + 1;
        }
        proof {
            assert forall|e: int|
                0 <= e < self.function_inputs@.len() && (forall|i: int|
                    0 <= i < function.args@.len() ==> (#[trigger] function.args@[i]).1
                        != e) implies (#[trigger] self.function_inputs@[e]) is None by {
                assert(self.exprs@[e] is None);
            }
            assert forall|e: int|
                0 <= e < self.expr_layouts@.len() && (forall|i: int|
                    0 <= i < function.args@.len() ==> (#[trigger] function.args@[i]).1
                        != e) implies (#[trigger] self.expr_layouts@[e]) is None by {
                assert(self.exprs@[e] is None);
            }
        }
    }
}

impl Ctx {
    /// Whether one body expression can be lowered from the given state:
    /// its result identifier is still unbound, its operands' values (or
    /// stack slots) are recorded, the rows it touches have recorded
    /// layouts, their columns exist in the cached layout (non-phantom for
    /// loads and stores, nullable for null-flag operations), writes do not
    /// target readonly parameters, and immediates are of the kind the
    /// operation accepts. `Cast` has no lowering here and is never
    /// admissible.
    pub open spec fn expr_admissible(
        pre: Ctx,
        cache: NativeLayoutCache,
        expr_id: ExprId,
        expr: Expr,
    ) -> bool {
        match expr {
            Expr::BinOp(binop) => pre.exprs@[expr_id as int] is None
                && pre.exprs@[binop.lhs as int] is Some && pre.exprs@[binop.rhs as int] is Some,
            Expr::Select(sel) => pre.exprs@[expr_id as int] is None
                && pre.exprs@[sel.cond as int] is Some && pre.exprs@[sel.if_true as int] is Some
                && pre.exprs@[sel.if_false as int] is Some,
            Expr::Constant(c) => pre.exprs@[expr_id as int] is None && (c.spec_is_int()
                || c is Bool),
            Expr::CopyVal(copy_val) => pre.exprs@[expr_id as int] is None
                && pre.exprs@[copy_val.value as int] is Some,
            Expr::NullRow(_) => pre.stack_slots@[expr_id as int] is None,
            Expr::UninitRow(_) => pre.stack_slots@[expr_id as int] is None,
            Expr::Load(load) => {
                let lid_opt = pre.expr_layouts@[load.source as int];
                &&& pre.exprs@[expr_id as int] is None
                &&& (pre.stack_slots@[load.source as int] is Some
                    || pre.exprs@[load.source as int] is Some)
                &&& lid_opt is Some
                &&& (cache.layouts@[lid_opt.unwrap() as int] matches Some(l) && load.column
                    < l.index_mappings@.len() && l.index_mappings@[load.column as int]
                    < l.types@.len())
            },
            Expr::Store(store) => {
                let lid_opt = pre.expr_layouts@[store.target as int];
                &&& !(pre.function_inputs@[store.target as int] matches Some(f)
                    && f.spec_is_readonly())
                &&& (pre.stack_slots@[store.target as int] is Some
                    || pre.exprs@[store.target as int] is Some)
                &&& lid_opt is Some
                &&& (cache.layouts@[lid_opt.unwrap() as int] matches Some(l) && store.column
                    < l.index_mappings@.len() && l.index_mappings@[store.column as int]
                    < l.types@.len())
                &&& (match store.value {
                    RValue::Expr(e) => pre.exprs@[e as int] is Some,
                    RValue::Imm(c) => c.spec_is_int() || c is Bool,
                })
            },
            Expr::IsNull(is_null) => {
                let lid_opt = pre.expr_layouts@[is_null.target as int];
                &&& pre.exprs@[expr_id as int] is None
                &&& (pre.stack_slots@[is_null.target as int] is Some
                    || pre.exprs@[is_null.target as int] is Some)
                &&& lid_opt is Some
                &&& (cache.layouts@[lid_opt.unwrap() as int] matches Some(l) && is_null.column
                    < l.bitflag_mappings@.len() && l.bitflag_mappings@[is_null.column as int]
                    is Some)
            },
            Expr::SetNull(set_null) => {
                let lid_opt = pre.expr_layouts@[set_null.target as int];
                &&& !(pre.function_inputs@[set_null.target as int] matches Some(f)
                    && f.spec_is_readonly())
                &&& (pre.stack_slots@[set_null.target as int] is Some
                    || pre.exprs@[set_null.target as int] is Some)
                &&& (match set_null.is_null {
                    RValue::Expr(e) => pre.exprs@[e as int] is Some,
                    RValue::Imm(c) => c is Bool,
                })
                &&& lid_opt is Some
                &&& (cache.layouts@[lid_opt.unwrap() as int] matches Some(l) && set_null.column
                    < l.bitflag_mappings@.len() && l.bitflag_mappings@[set_null.column as int]
                    is Some)
            },
            Expr::CopyRowTo(copy_row) => {
                &&& !(pre.function_inputs@[copy_row.dest as int] matches Some(f)
                    && f.spec_is_readonly())
                &&& (copy_row.src == copy_row.dest || ({
                    &&& pre.expr_layouts@[copy_row.src as int] == Some(copy_row.layout)
                    &&& pre.expr_layouts@[copy_row.dest as int] == Some(copy_row.layout)
                    &&& (pre.stack_slots@[copy_row.src as int] is Some
                        || pre.exprs@[copy_row.src as int] is Some)
                    &&& (pre.stack_slots@[copy_row.dest as int] is Some
                        || pre.exprs@[copy_row.dest as int] is Some)
                }))
            },
            Expr::Cast(_) => false,
        }
    }

    /// Dispatches one body expression to its lowering rule. `Cast` is
    /// declared in the IR but given no lowering here and is refused.
    pub fn lower_expr(
        &mut self,
        cache: &mut NativeLayoutCache,
        expr_id: ExprId,
        expr: &Expr,
    ) -> (r: Result<(), LowerError>)
        requires
            old(cache).wf(),
            old(self).wf(old(cache).layout_cache.spec_layouts().len() as int),
            old(self).func.n_vals + 8 <= u32::MAX,
            old(self).func.slots@.len() < u32::MAX,
            expr_id < old(self).exprs@.len(),
            expr.operands_below(old(self).exprs@.len() as int),
            expr.layout_ids_below(old(cache).layout_cache.spec_layouts().len() as int),
        ensures
            final(cache).wf(),
            final(cache).layout_cache == old(cache).layout_cache,
            final(cache).frontend_config == old(cache).frontend_config,
            forall|i: int|
                0 <= i < old(cache).layouts@.len() && old(cache).layouts@[i] is Some
                    ==> final(cache).layouts@[i] == old(cache).layouts@[i],
            final(self).wf(old(cache).layout_cache.spec_layouts().len() as int),
            final(self).exprs@.len() == old(self).exprs@.len(),
            final(self).blocks@ == old(self).blocks@,
            final(self).cur_block == old(self).cur_block,
            final(self).func.blocks@.len() == old(self).func.blocks@.len(),
            final(self).func.params@ == old(self).func.params@,
            final(self).func.returns == old(self).func.returns,
            final(self).func.entry == old(self).func.entry,
            final(self).null_sigil == old(self).null_sigil,
            final(self).func.n_vals <= old(self).func.n_vals + 4,
            final(self).func.slots@.len() <= old(self).func.slots@.len() + 1,
            forall|j: int|
                0 <= j < old(self).func.blocks@.len() && j != old(self).cur_block ==> (
                #[trigger] final(self).func.blocks@[j]) == old(self).func.blocks@[j],
            forall|j: int|
                0 <= j < old(self).func.blocks@.len() ==> (#[trigger] final(self).func.blocks@[j]).insts@.len()
                    >= old(self).func.blocks@[j].insts@.len(),
            forall|e: int|
                0 <= e < old(self).exprs@.len() && old(self).exprs@[e] is Some ==> (
                #[trigger] final(self).exprs@[e]) == old(self).exprs@[e],
            forall|e: int|
                0 <= e < old(self).stack_slots@.len() && old(self).stack_slots@[e] is Some ==> (
                #[trigger] final(self).stack_slots@[e]) == old(self).stack_slots@[e],
            r is Ok <==> Ctx::expr_admissible(*old(self), *final(cache), expr_id, *expr),
            r is Err ==> *final(self) == *old(self),
    {
        match expr {
            Expr::BinOp(binop) => self.lower_binop(expr_id, binop),
            Expr::Select(sel) => self.lower_select(expr_id, sel),
            Expr::Store(store) => self.lower_store(cache, store),
            Expr::Load(load) => self.lower_load(cache, expr_id, load),
            Expr::IsNull(is_null) => self.lower_is_null(cache, expr_id, is_null),
            Expr::SetNull(set_null) => self.lower_set_null(cache, set_null),
            Expr::CopyRowTo(copy_row) => self.lower_copy_row_to(cache, copy_row),
            Expr::CopyVal(copy_val) => self.lower_copy_val(expr_id, copy_val),
            Expr::NullRow(null_row) => self.lower_null_row(cache, expr_id, null_row.layout),
            Expr::UninitRow(uninit_row) => self.lower_uninit_row(
                cache,
                expr_id,
                uninit_row.layout,
            ),
            Expr::Constant(constant) => {
                if self.exprs[expr_id as usize].is_some() {
                    return Err(LowerError::DuplicateValue);
                }
                let value = match self.lower_constant(constant) {
                    Ok(v) => v,
                    Err(e) => {
                        return Err(e);
                    },
                };
                self.add_expr(expr_id, value, None);
                Ok(())
            },
            Expr::Cast(_) => Err(LowerError::UnsupportedExpr),
        }
    }
}

/// An instruction well formed against some bounds stays well formed when
/// the bounds grow.
pub proof fn lemma_inst_wf_monotone(
    inst: Inst,
    n_vals: int,
    n_slots: int,
    n_blocks: int,
    n_vals2: int,
    n_slots2: int,
    n_blocks2: int,
)
    requires
        inst.wf(n_vals, n_slots, n_blocks),
        n_vals <= n_vals2,
        n_slots <= n_slots2,
        n_blocks <= n_blocks2,
    ensures
        inst.wf(n_vals2, n_slots2, n_blocks2),
{
}

} // verus!
