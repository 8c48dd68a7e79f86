//! IR functions: a signature over row layouts, parameters with input flags,
//! and basic blocks holding expression bodies and terminators.

use crate::exprs::{Expr, RValue};
use crate::ir::{BlockId, ExprId, LayoutId};
use vstd::prelude::*;

verus! {

/// Flags attached to a function input: whether the parameter row may be
/// read and whether it may be written.
#[derive(Debug, Copy, Clone, PartialEq, Eq, Structural)]
pub struct InputFlags {
    pub input: bool,
    pub output: bool,
}

impl InputFlags {
    pub fn new(input: bool, output: bool) -> (r: Self)
        ensures
            r == (InputFlags { input, output }),
    {
        InputFlags { input, output }
    }

    pub open spec fn spec_is_readonly(&self) -> bool {
        self.input && !self.output
    }

    /// A parameter that is an input and not an output must never be stored
    /// through.
    #[verifier::when_used_as_spec(spec_is_readonly)]
    pub fn is_readonly(&self) -> (r: bool)
        ensures
            r == self.spec_is_readonly(),
    {
        self.input && !self.output
    }
}

/// The signature of an IR function: the layout of each row argument and of
/// the returned row.
#[derive(Debug, Clone, PartialEq)]
pub struct Signature {
    pub args: Vec<LayoutId>,
    pub ret: LayoutId,
}

impl Signature {
    pub fn new(args: Vec<LayoutId>, ret: LayoutId) -> (r: Self)
        ensures
            r.args@ == args@,
            r.ret == ret,
    {
        Signature { args, ret }
    }

    pub fn args(&self) -> (r: &Vec<LayoutId>)
        ensures
            r@ == self.args@,
    {
        &self.args
    }

    pub fn ret(&self) -> (r: LayoutId)
        ensures
            r == self.ret,
    {
        self.ret
    }
}

/// Returns a value (or nothing) from the function.
#[derive(Debug, Clone, PartialEq)]
pub struct Return {
    pub value: RValue,
}

impl Return {
    pub fn new(value: RValue) -> (r: Self)
        ensures
            r == (Return { value }),
    {
        Return { value }
    }

    pub fn value(&self) -> (r: &RValue)
        ensures
            r == &self.value,
    {
        &self.value
    }
}

/// An unconditional jump to another block.
#[derive(Debug, Copy, Clone, PartialEq, Eq, Structural)]
pub struct Jump {
    pub target: BlockId,
}

impl Jump {
    pub fn new(target: BlockId) -> (r: Self)
        ensures
            r == (Jump { target }),
    {
        Jump { target }
    }

    pub fn target(&self) -> (r: BlockId)
        ensures
            r == self.target,
    {
        self.target
    }
}

/// A conditional branch: control goes to `truthy` when `cond` is zero and
/// to `falsy` otherwise. This polarity is part of the IR's contract and is
/// preserved bit-for-bit by the lowerer.
#[derive(Debug, Clone, PartialEq)]
pub struct Branch {
    pub cond: RValue,
    pub truthy: BlockId,
    pub falsy: BlockId,
}

impl Branch {
    pub fn new(cond: RValue, truthy: BlockId, falsy: BlockId) -> (r: Self)
        ensures
            r == (Branch { cond, truthy, falsy }),
    {
        Branch { cond, truthy, falsy }
    }

    pub fn cond(&self) -> (r: &RValue)
        ensures
            r == &self.cond,
    {
        &self.cond
    }

    pub fn truthy(&self) -> (r: BlockId)
        ensures
            r == self.truthy,
    {
        self.truthy
    }

    pub fn falsy(&self) -> (r: BlockId)
        ensures
            r == self.falsy,
    {
        self.falsy
    }
}

/// What ends a basic block.
#[derive(Debug, Clone, PartialEq)]
pub enum Terminator {
    Return(Return),
    Jump(Jump),
    Branch(Branch),
}

/// One basic block: a body of expressions lowered in source order, then a
/// terminator.
#[derive(Debug, Clone, PartialEq)]
pub struct Block {
    pub body: Vec<ExprId>,
    pub terminator: Terminator,
}

impl Block {
    pub fn new(body: Vec<ExprId>, terminator: Terminator) -> (r: Self)
        ensures
            r.body@ == body@,
            r.terminator == terminator,
    {
        Block { body, terminator }
    }

    pub fn body(&self) -> (r: &Vec<ExprId>)
        ensures
            r@ == self.body@,
    {
        &self.body
    }

    pub fn terminator(&self) -> (r: &Terminator)
        ensures
            r == &self.terminator,
    {
        &self.terminator
    }
}

/// An IR function: parameters (each a row of some layout, bound to an
/// expression identifier, with input flags), dense maps from block and
/// expression identifiers to their definitions, an entry block, and a
/// signature. Expressions form SSA values.
#[derive(Debug, Clone, PartialEq)]
pub struct Function {
    pub args: Vec<(LayoutId, ExprId, InputFlags)>,
    pub entry_block: BlockId,
    pub blocks: Vec<Option<Block>>,
    pub exprs: Vec<Option<Expr>>,
    pub signature: Signature,
}

impl Function {
    pub fn new(
        args: Vec<(LayoutId, ExprId, InputFlags)>,
        entry_block: BlockId,
        blocks: Vec<Option<Block>>,
        exprs: Vec<Option<Expr>>,
        signature: Signature,
    ) -> (r: Self)
        ensures
            r.args@ == args@,
            r.entry_block == entry_block,
            r.blocks@ == blocks@,
            r.exprs@ == exprs@,
            r.signature == signature,
    {
        Function { args, entry_block, blocks, exprs, signature }
    }

    pub fn args(&self) -> (r: &Vec<(LayoutId, ExprId, InputFlags)>)
        ensures
            r@ == self.args@,
    {
        &self.args
    }

    pub fn entry_block(&self) -> (r: BlockId)
        ensures
            r == self.entry_block,
    {
        self.entry_block
    }

    pub fn blocks(&self) -> (r: &Vec<Option<Block>>)
        ensures
            r@ == self.blocks@,
    {
        &self.blocks
    }

    pub fn exprs(&self) -> (r: &Vec<Option<Expr>>)
        ensures
            r@ == self.exprs@,
    {
        &self.exprs
    }

    pub fn signature(&self) -> (r: &Signature)
        ensures
            r == &self.signature,
    {
        &self.signature
    }

    /// Structural well-formedness against a layout cache of `n_layouts`
    /// entries: the entry block exists, every block and expression
    /// identifier mentioned anywhere is in range, every layout identifier
    /// is registered, and the parameters bind distinct expression
    /// identifiers.
    pub open spec fn wf(self, n_layouts: int) -> bool {
        &&& self.entry_block < self.blocks@.len()
        &&& self.blocks@[self.entry_block as int] is Some
        &&& self.signature.args@.len() == self.args@.len()
        &&& forall|i: int|
            0 <= i < self.signature.args@.len() ==> (#[trigger] self.signature.args@[i])
                < n_layouts
        &&& self.signature.ret < n_layouts
        &&& forall|i: int|
            0 <= i < self.args@.len() ==> (#[trigger] self.args@[i]).0 < n_layouts
                && self.args@[i].1 < self.exprs@.len()
        &&& forall|i: int, j: int|
            0 <= i < j < self.args@.len() ==> (#[trigger] self.args@[i]).1 != (
            #[trigger] self.args@[j]).1
        &&& forall|b: int|
            0 <= b < self.blocks@.len() ==> ((#[trigger] self.blocks@[b]) matches Some(blk)
                ==> self.block_wf(blk, n_layouts))
        &&& forall|e: int|
            0 <= e < self.exprs@.len() ==> ((#[trigger] self.exprs@[e]) matches Some(ex)
                ==> self.expr_wf(ex, n_layouts))
    }

    /// The executable form of [`Function::block_wf`].
    pub fn check_block_wf(&self, blk: &Block, n_layouts: u32) -> (r: bool)
        ensures
            r == self.block_wf(*blk, n_layouts as int),
    {
        let n = blk.body.len();
        let mut i: usize = 0;
        while i < n
            invariant
                i <= n,
                n == blk.body@.len(),
                forall|j: int|
                    0 <= j < i ==> (#[trigger] blk.body@[j]) < self.exprs@.len()
                        && self.exprs@[blk.body@[j] as int] is Some,
            decreases n - i,
        {
            let id = blk.body[i];
            if (id as usize) >= self.exprs.len() {
                return false;
            }
            if self.exprs[id as usize].is_none() {
                return false;
            }
            i = i + 1;
        }
        match &blk.terminator {
            Terminator::Return(ret) => match ret.value() {
                RValue::Expr(e) => (*e as usize) < self.exprs.len(),
                RValue::Imm(_) => true,
            },
            Terminator::Jump(jump) => (jump.target as usize) < self.blocks.len()
                && self.blocks[jump.target as usize].is_some(),
            Terminator::Branch(branch) => (branch.truthy as usize) < self.blocks.len()
                && self.blocks[branch.truthy as usize].is_some() && (branch.falsy as usize)
                < self.blocks.len() && self.blocks[branch.falsy as usize].is_some() && (
            match branch.cond() {
                RValue::Expr(e) => (*e as usize) < self.exprs.len(),
                RValue::Imm(_) => true,
            }),
        }
    }

    /// The executable form of [`Function::wf`]: an unverified caller can
    /// test an IR function against the structural conditions the lowerer
    /// requires before handing it in.
    pub fn check_wf(&self, n_layouts: u32) -> (r: bool)
        ensures
            r == self.wf(n_layouts as int),
    {
        if (self.entry_block as usize) >= self.blocks.len() {
            return false;
        }
        if self.blocks[self.entry_block as usize].is_none() {
            return false;
        }
        if self.signature.args.len() != self.args.len() {
            return false;
        }
        let n_sig = self.signature.args.len();
        let mut i: usize = 0;
        while i < n_sig
            invariant
                i <= n_sig,
                n_sig == self.signature.args@.len(),
                forall|j: int|
                    0 <= j < i ==> (#[trigger] self.signature.args@[j]) < n_layouts,
            decreases n_sig - i,
        {
            if self.signature.args[i] >= n_layouts {
                return false;
            }
            i = i + 1;
        }
        if self.signature.ret >= n_layouts {
            return false;
        }
        let n_args = self.args.len();
        let mut i2: usize = 0;
        while i2 < n_args
            invariant
                i2 <= n_args,
                n_args == self.args@.len(),
                forall|j: int|
                    0 <= j < i2 ==> (#[trigger] self.args@[j]).0 < n_layouts && self.args@[j].1
                        < self.exprs@.len(),
                forall|a: int, b: int|
                    0 <= a < b < i2 ==> (#[trigger] self.args@[a]).1 != (
                    #[trigger] self.args@[b]).1,
            decreases n_args - i2,
        {
            let (layout, expr_id, _flags) = self.args[i2];
            if layout >= n_layouts {
                return false;
            }
            if (expr_id as usize) >= self.exprs.len() {
                return false;
            }
            let mut j: usize = 0;
            while j < i2
                invariant
                    j <= i2 < n_args,
                    n_args == self.args@.len(),
                    expr_id == self.args@[i2 as int].1,
                    forall|a: int| 0 <= a < j ==> (#[trigger] self.args@[a]).1 != expr_id,
                decreases i2 - j,
            {
                if self.args[j].1 == expr_id {
                    return false;
                }
                j = j + 1;
            }
            i2 = i2 + 1;
        }
        let n_blocks = self.blocks.len();
        let mut b: usize = 0;
        while b < n_blocks
            invariant
                b <= n_blocks,
                n_blocks == self.blocks@.len(),
                forall|j: int|
                    0 <= j < b ==> ((#[trigger] self.blocks@[j]) matches Some(blk)
                        ==> self.block_wf(blk, n_layouts as int)),
            decreases n_blocks - b,
        {
            match &self.blocks[b] {
                Some(blk) => {
                    if !(self.check_block_wf(blk, n_layouts)) {
                        return false;
                    }
                },
                None => {},
            }
            b = b + 1;
        }
        let n_exprs = self.exprs.len();
        let mut e: usize = 0;
        while e < n_exprs
            invariant
                e <= n_exprs,
                n_exprs == self.exprs@.len(),
                forall|j: int|
                    0 <= j < e ==> ((#[trigger] self.exprs@[j]) matches Some(ex)
                        ==> self.expr_wf(ex, n_layouts as int)),
            decreases n_exprs - e,
        {
            match &self.exprs[e] {
                Some(ex) => {
                    if !(ex.check_bounds(self.exprs.len(), n_layouts)) {
                        return false;
                    }
                },
                None => {},
            }
            e = e + 1;
        }
        true
    }

    /// Whether `e` is one of the function's parameter expressions.
    pub open spec fn is_arg(self, e: ExprId) -> bool {
        exists|k: int| 0 <= k < self.args@.len() && (#[trigger] self.args@[k]).1 == e
    }

    /// A terminator-only control-flow graph: every block exists with an
    /// empty body, and every terminator operand is a parameter. Lowering
    /// such a function always succeeds; this is the base of the success
    /// obligation, which the defensive errors never reach.
    pub open spec fn terminator_only(self) -> bool {
        &&& forall|b: int| 0 <= b < self.blocks@.len() ==> (#[trigger] self.blocks@[b]) is Some
        &&& forall|b: int|
            0 <= b < self.blocks@.len() ==> (#[trigger] self.blocks@[b]).unwrap().body@.len() == 0
        &&& forall|b: int|
            0 <= b < self.blocks@.len() ==> (match (#[trigger] self.blocks@[b]).unwrap().terminator {
                Terminator::Return(ret) => match ret.value {
                    RValue::Expr(e) => self.is_arg(e),
                    RValue::Imm(c) => !(c is String),
                },
                Terminator::Jump(_) => true,
                Terminator::Branch(branch) => branch.cond matches RValue::Expr(e) && self.is_arg(
                    e,
                ),
            })
    }

    /// Every expression in the block's body exists, and the terminator's
    /// targets and operands are in range.
    pub open spec fn block_wf(self, blk: Block, n_layouts: int) -> bool {
        &&& forall|i: int|
            0 <= i < blk.body@.len() ==> (#[trigger] blk.body@[i]) < self.exprs@.len()
                && self.exprs@[blk.body@[i] as int] is Some
        &&& match blk.terminator {
            Terminator::Return(ret) => (ret.value matches RValue::Expr(e) ==> e
                < self.exprs@.len()),
            Terminator::Jump(jump) => jump.target < self.blocks@.len() && self.blocks@[jump.target
                as int] is Some,
            Terminator::Branch(branch) => branch.truthy < self.blocks@.len()
                && self.blocks@[branch.truthy as int] is Some && branch.falsy
                < self.blocks@.len() && self.blocks@[branch.falsy as int] is Some && (branch.cond
                matches RValue::Expr(e) ==> e < self.exprs@.len()),
        }
    }

    /// Every expression identifier and layout identifier an expression
    /// mentions is in range.
    pub open spec fn expr_wf(self, ex: Expr, n_layouts: int) -> bool {
        &&& ex.layout_ids_below(n_layouts)
        &&& ex.operands_below(self.exprs@.len() as int)
    }
}

} // verus!
