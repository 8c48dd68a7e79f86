//! Codegen session state: configuration, the null sigil, and the cache that
//! memoizes synthesized [`Layout`]s by `LayoutId`.

use crate::code::{CodeBlockId, CodeFunc, FuncId, SlotId, ValId};
use crate::function::{Function, InputFlags, Signature};
use crate::ir::{BlockId, LayoutCache, LayoutId, RowLayout};
use crate::layout::Layout;
use crate::lower::{Ctx, LowerError};
use crate::target::{NativeType, TargetConfig};
use vstd::prelude::*;

verus! {

/// The kind of null sigil for us to use
#[derive(Debug, Clone, Copy, PartialEq, Eq, Hash, Structural)]
pub enum NullSigil {
    /// Makes unset bits mean the corresponding row is null
    Zero,
    /// Makes set bits mean the corresponding row is null
    One,
}

impl NullSigil {
    pub open spec fn spec_is_zero(&self) -> bool {
        self is Zero
    }

    /// Returns `true` if the null sigil is [`Zero`].
    ///
    /// [`Zero`]: NullSigil::Zero
    #[verifier::when_used_as_spec(spec_is_zero)]
    pub fn is_zero(&self) -> (r: bool)
        ensures
            r == self.spec_is_zero(),
    {
        matches!(self, NullSigil::Zero)
    }

    pub open spec fn spec_is_one(&self) -> bool {
        self is One
    }

    /// Returns `true` if the null sigil is [`One`].
    ///
    /// [`One`]: NullSigil::One
    #[verifier::when_used_as_spec(spec_is_one)]
    pub fn is_one(&self) -> (r: bool)
        ensures
            r == self.spec_is_one(),
    {
        matches!(self, NullSigil::One)
    }

    /// The byte a null row is filled with: every null flag reads as "null",
    /// whichever bit it occupies.
    pub open spec fn spec_fill_byte(&self) -> u8 {
        if self is One {
            0xFF
        } else {
            0x00
        }
    }

    #[verifier::when_used_as_spec(spec_fill_byte)]
    pub fn fill_byte(&self) -> (r: u8)
        ensures
            r == self.spec_fill_byte(),
    {
        if self.is_one() {
            0xFF
        } else {
            0x00
        }
    }
}

impl Default for NullSigil {
    fn default() -> (r: Self)
        ensures
            r == NullSigil::One,
    {
        NullSigil::One
    }
}

/// Configuration of a codegen session: which bit value marks a column as
/// null, and whether emitted code carries extra runtime checks.
#[derive(Debug, Clone, Copy, PartialEq, Eq, Structural)]
pub struct CodegenConfig {
    pub null_sigil: NullSigil,
    pub debug_assertions: bool,
}

impl CodegenConfig {
    pub fn new(null_sigil: NullSigil, debug_assertions: bool) -> (r: Self)
        ensures
            r.null_sigil == null_sigil,
            r.debug_assertions == debug_assertions,
    {
        CodegenConfig { null_sigil, debug_assertions }
    }

    pub fn debug() -> (r: Self)
        ensures
            r.null_sigil == NullSigil::One,
            r.debug_assertions,
    {
        CodegenConfig { null_sigil: NullSigil::One, debug_assertions: true }
    }

    pub fn release() -> (r: Self)
        ensures
            r.null_sigil == NullSigil::One,
            !r.debug_assertions,
    {
        CodegenConfig { null_sigil: NullSigil::One, debug_assertions: false }
    }
}

impl Default for CodegenConfig {
    fn default() -> (r: Self)
        ensures
            r.null_sigil == NullSigil::One,
            !r.debug_assertions,
    {
        CodegenConfig { null_sigil: NullSigil::One, debug_assertions: false }
    }
}

/// Memoizes the physical layout of each `LayoutId`. Entries are computed on
/// first demand, never evicted and never invalidated.
#[derive(Debug, Clone)]
pub struct NativeLayoutCache {
    pub layout_cache: LayoutCache,
    pub layouts: Vec<Option<Layout>>,
    pub frontend_config: TargetConfig,
}

impl NativeLayoutCache {
    /// One (possibly still empty) slot per registered row layout; every
    /// cached entry is well formed and models its source row layout.
    pub open spec fn wf(self) -> bool {
        &&& self.layout_cache.wf()
        &&& self.layouts@.len() == self.layout_cache.spec_layouts().len()
        &&& forall|i: int|
            0 <= i < self.layout_cache.spec_layouts().len() ==> (
            #[trigger] self.layout_cache.spec_layouts()[i]).spec_rows().len() <= 0x0800_0000
        &&& forall|i: int|
            0 <= i < self.layouts@.len() ==> ((#[trigger] self.layouts@[i]) matches Some(l) ==> (
            l.wf(&self.frontend_config) && l.models(
                self.layout_cache.spec_layouts()[i],
                &self.frontend_config,
            )))
    }

    pub fn new(layout_cache: LayoutCache, frontend_config: TargetConfig) -> (r: Self)
        requires
            layout_cache.wf(),
            forall|i: int|
                0 <= i < layout_cache.spec_layouts().len() ==> (
                #[trigger] layout_cache.spec_layouts()[i]).spec_rows().len() <= 0x0800_0000,
        ensures
            r.wf(),
            r.layout_cache == layout_cache,
            r.frontend_config == frontend_config,
            forall|i: int| 0 <= i < r.layouts@.len() ==> (#[trigger] r.layouts@[i]) is None,
    {
        let n = layout_cache.layouts.len();
        let mut layouts: Vec<Option<Layout>> = Vec::new();
        let mut i: usize = 0;
        while i < n
            invariant
                i <= n,
                n == layout_cache.spec_layouts().len(),
                layouts@.len() == i as int,
                forall|j: int| 0 <= j < i ==> (#[trigger] layouts@[j]) is None,
            decreases n - i,
        {
            layouts.push(None);
            i = i + 1;
        }
        NativeLayoutCache { layout_cache, layouts, frontend_config }
    }

    /// Returns the physical layout of `layout_id`, synthesizing and caching
    /// it on first demand. Once cached, an entry never changes.
    pub fn compute(&mut self, layout_id: LayoutId) -> (r: Layout)
        requires
            old(self).wf(),
            layout_id < old(self).layout_cache.spec_layouts().len(),
        ensures
            final(self).wf(),
            final(self).layout_cache == old(self).layout_cache,
            final(self).frontend_config == old(self).frontend_config,
            final(self).layouts@.len() == old(self).layouts@.len(),
            r.wf(&old(self).frontend_config),
            r.models(
                old(self).layout_cache.spec_layouts()[layout_id as int],
                &old(self).frontend_config,
            ),
            final(self).layouts@[layout_id as int] matches Some(l) && l.size == r.size && l.align
                == r.align && l.types@ == r.types@ && l.offsets@ == r.offsets@ && l.index_mappings@
                == r.index_mappings@ && l.bitflag_mappings@ == r.bitflag_mappings@,
            forall|i: int|
                0 <= i < old(self).layouts@.len() && old(self).layouts@[i] is Some
                    ==> final(self).layouts@[i] == old(self).layouts@[i],
    {
        let missing = self.layouts[layout_id as usize].is_none();
        if missing {
            let row_layout = self.layout_cache.get(layout_id);
            let native_layout = Layout::from_row(row_layout, &self.frontend_config);
            self.layouts[layout_id as usize] = Some(native_layout);
        }
        match &self.layouts[layout_id as usize] {
            Some(l) => l.clone(),
            None => vstd::pervasive::unreached(),
        }
    }

    /// Returns both the physical layout and the source row layout of
    /// `layout_id`, caching the physical layout on first demand.
    pub fn get_layouts(&mut self, layout_id: LayoutId) -> (r: (Layout, RowLayout))
        requires
            old(self).wf(),
            layout_id < old(self).layout_cache.spec_layouts().len(),
        ensures
            final(self).wf(),
            final(self).layout_cache == old(self).layout_cache,
            final(self).frontend_config == old(self).frontend_config,
            r.0.wf(&old(self).frontend_config),
            r.1.spec_rows() == old(self).layout_cache.spec_layouts()[layout_id as int].spec_rows(),
            r.1.spec_nullability() == old(self).layout_cache.spec_layouts()[
                layout_id as int
            ].spec_nullability(),
            r.0.models(r.1, &old(self).frontend_config),
    {
        let native_layout = self.compute(layout_id);
        let row_layout = self.layout_cache.get(layout_id).clone();
        (native_layout, row_layout)
    }

    pub fn row_layout_cache(&self) -> (r: &LayoutCache)
        ensures
            r == &self.layout_cache,
    {
        &self.layout_cache
    }
}

/// The codegen driver: owns the native layout cache, the session
/// configuration, and the functions lowered so far. Each IR function is
/// lowered into a [`CodeFunc`] that a downstream machine-code emitter
/// replays.
#[derive(Debug)]
pub struct Codegen {
    pub layout_cache: NativeLayoutCache,
    pub config: CodegenConfig,
    pub funcs: Vec<CodeFunc>,
}

impl Codegen {
    /// The layout cache is well formed and every finished function is.
    pub open spec fn wf(self) -> bool {
        &&& self.layout_cache.wf()
        &&& forall|i: int| 0 <= i < self.funcs@.len() ==> (#[trigger] self.funcs@[i]).wf()
    }

    pub fn new(layout_cache: LayoutCache, target: TargetConfig, config: CodegenConfig) -> (r: Self)
        requires
            layout_cache.wf(),
            forall|i: int|
                0 <= i < layout_cache.spec_layouts().len() ==> (
                #[trigger] layout_cache.spec_layouts()[i]).spec_rows().len() <= 0x0800_0000,
        ensures
            r.wf(),
            r.layout_cache.layout_cache == layout_cache,
            r.layout_cache.frontend_config == target,
            r.config == config,
            r.funcs@.len() == 0,
    {
        Codegen { layout_cache: NativeLayoutCache::new(layout_cache, target), config, funcs: Vec::new() }
    }

    pub fn native_layout_cache(&self) -> (r: &NativeLayoutCache)
        ensures
            r == &self.layout_cache,
    {
        &self.layout_cache
    }

    /// Seals the session: yields the finalized functions and the native
    /// layout cache to the caller.
    pub fn finalize_definitions(self) -> (r: (Vec<CodeFunc>, NativeLayoutCache))
        ensures
            r.0@ == self.funcs@,
            r.1 == self.layout_cache,
    {
        (self.funcs, self.layout_cache)
    }

    /// Builds the machine signature of an IR signature: one pointer
    /// parameter per row argument, and a pointer return exactly when the
    /// return layout is not zero-sized.
    fn build_signature(&mut self, signature: &Signature) -> (r: (Vec<NativeType>, Option<
        NativeType,
    >))
        requires
            old(self).layout_cache.wf(),
            signature.ret < old(self).layout_cache.layout_cache.spec_layouts().len(),
        ensures
            final(self).layout_cache.wf(),
            final(self).layout_cache.layout_cache == old(self).layout_cache.layout_cache,
            final(self).layout_cache.frontend_config == old(self).layout_cache.frontend_config,
            final(self).config == old(self).config,
            final(self).funcs@ == old(self).funcs@,
            forall|i: int|
                0 <= i < old(self).layout_cache.layouts@.len() && old(self).layout_cache.layouts@[i]
                    is Some ==> final(self).layout_cache.layouts@[i]
                    == old(self).layout_cache.layouts@[i],
            r.0@.len() == signature.args@.len(),
            forall|i: int|
                0 <= i < r.0@.len() ==> (#[trigger] r.0@[i]) == old(
                    self,
                ).layout_cache.frontend_config.spec_pointer_type(),
            final(self).layout_cache.layouts@[signature.ret as int] matches Some(l) && ((r.1
                is Some) <==> l.size != 0) && (r.1 is Some ==> r.1 == Some(
                old(self).layout_cache.frontend_config.spec_pointer_type(),
            )),
    {
        let ret = self.layout_cache.compute(signature.ret());
        let ret_ty = if ret.is_zero_sized() {
            None
        } else {
            Some(self.layout_cache.frontend_config.pointer_type())
        };
        let mut params: Vec<NativeType> = Vec::new();
        let n = signature.args().len();
        let mut i: usize = 0;
        while i < n
            invariant
                i <= n,
                params@.len() == i as int,
                forall|j: int|
                    0 <= j < i ==> (#[trigger] params@[j])
                        == self.layout_cache.frontend_config.spec_pointer_type(),
            decreases n - i,
        {
            params.push(self.layout_cache.frontend_config.pointer_type());
            i = i + 1;
        }
        (params, ret_ty)
    }

    /// Lowers one IR function: builds its machine signature, binds its
    /// parameters, then walks the basic blocks from the entry with a
    /// worklist — lowering each block's body in source order and its
    /// terminator, which enqueues the successors — and stores the finished
    /// code. Returns the identifier the finished function is stored under,
    /// or the reason the IR could not be lowered. The IR handed in is
    /// expected to be validated; on such IR the defensive checks never
    /// fire.
    #[verifier::loop_isolation(false)]
    #[verifier::rlimit(100)]
    pub fn codegen_func(&mut self, function: &Function) -> (r: Result<FuncId, LowerError>)
        requires
            old(self).wf(),
            function.wf(old(self).layout_cache.layout_cache.spec_layouts().len() as int),
            function.exprs@.len() <= 0x0100_0000,
            function.blocks@.len() <= 0x0100_0000,
            function.args@.len() <= 0x0100_0000,
            old(self).funcs@.len() < u32::MAX,
        ensures
            final(self).wf(),
            final(self).layout_cache.layout_cache == old(self).layout_cache.layout_cache,
            final(self).layout_cache.frontend_config == old(self).layout_cache.frontend_config,
            final(self).config == old(self).config,
            r matches Ok(id) ==> ({
                &&& id == old(self).funcs@.len()
                &&& final(self).funcs@.len() == old(self).funcs@.len() + 1
                &&& forall|i: int|
                    0 <= i < old(self).funcs@.len() ==> (#[trigger] final(self).funcs@[i]) == old(
                        self,
                    ).funcs@[i]
                &&& ({
                    let cf = final(self).funcs@[id as int];
                    &&& cf.wf()
                    &&& cf.params@.len() == function.signature.args@.len()
                    &&& forall|i: int|
                        0 <= i < cf.params@.len() ==> (#[trigger] cf.params@[i]) == old(
                            self,
                        ).layout_cache.frontend_config.spec_pointer_type()
                    &&& (final(self).layout_cache.layouts@[function.signature.ret as int] matches
                    Some(l) && ((cf.returns is Some) <==> l.size != 0))
                })
            }),
            function.terminator_only() ==> r is Ok,
            r matches Ok(id) ==> ({
                let cf = final(self).funcs@[id as int];
                cf.blocks@[cf.entry as int].insts@.len() > 0
            }),
            r is Err ==> final(self).funcs@ == old(self).funcs@,
    {
        let ghost nl = self.layout_cache.layout_cache.spec_layouts().len() as int;
        let (params, ret_ty) = self.build_signature(function.signature());
        let n_exprs = function.exprs().len();
        let n_blocks = function.blocks().len();
        let n_args = function.args().len();
        let mut exprs: Vec<Option<ValId>> = Vec::new();
        let mut expr_layouts: Vec<Option<LayoutId>> = Vec::new();
        let mut stack_slots: Vec<Option<SlotId>> = Vec::new();
        let mut function_inputs: Vec<Option<InputFlags>> = Vec::new();
        let mut i: usize = 0;
        while i < n_exprs
            invariant
                i <= n_exprs,
                exprs@.len() == i as int,
                expr_layouts@.len() == i as int,
                stack_slots@.len() == i as int,
                function_inputs@.len() == i as int,
                forall|j: int| 0 <= j < i ==> (#[trigger] exprs@[j]) is None,
                forall|j: int| 0 <= j < i ==> (#[trigger] expr_layouts@[j]) is None,
                forall|j: int| 0 <= j < i ==> (#[trigger] stack_slots@[j]) is None,
                forall|j: int| 0 <= j < i ==> (#[trigger] function_inputs@[j]) is None,
            decreases n_exprs - i,
        {
            exprs.push(None);
            expr_layouts.push(None);
            stack_slots.push(None);
            function_inputs.push(None);
            i = i + 1;
        }
        let mut block_map: Vec<Option<CodeBlockId>> = Vec::new();
        let mut i2: usize = 0;
        while i2 < n_blocks
            invariant
                i2 <= n_blocks,
                block_map@.len() == i2 as int,
                forall|j: int| 0 <= j < i2 ==> (#[trigger] block_map@[j]) is None,
            decreases n_blocks - i2,
        {
            block_map.push(None);
            i2 = i2 + 1;
        }
        let mut ctx = Ctx {
            func: CodeFunc {
                params,
                returns: ret_ty,
                slots: Vec::new(),
                blocks: Vec::new(),
                entry: 0,
                n_vals: n_args as u32,
            },
            cur_block: 0,
            exprs,
            expr_layouts,
            stack_slots,
            function_inputs,
            blocks: block_map,
            null_sigil: self.config.null_sigil,
        };
        ctx.add_function_params(function);
        proof {
            assert forall|e: int|
                0 <= e < ctx.exprs@.len() implies ((#[trigger] ctx.exprs@[e]) matches Some(v)
                ==> v < ctx.func.n_vals) by {
                if ctx.exprs@[e] is Some {
                    assert(!forall|k: int|
                        0 <= k < function.args@.len() ==> (#[trigger] function.args@[k]).1 != e);
                    let k = choose|k: int|
                        0 <= k < function.args@.len() && (#[trigger] function.args@[k]).1 == e;
                    assert(ctx.exprs@[e] == Some(k as ValId));
                }
            }
            assert forall|e: int|
                0 <= e < ctx.expr_layouts@.len() implies ((#[trigger] ctx.expr_layouts@[e]) matches
            Some(l) ==> l < nl) by {
                if ctx.expr_layouts@[e] is Some {
                    assert(!forall|k: int|
                        0 <= k < function.args@.len() ==> (#[trigger] function.args@[k]).1 != e);
                    let k = choose|k: int|
                        0 <= k < function.args@.len() && (#[trigger] function.args@[k]).1 == e;
                    assert(ctx.expr_layouts@[e] == Some(function.args@[k].0));
                }
            }
            assert(ctx.wf(nl));
        }
        let ghost ret_entry = self.layout_cache.layouts@[function.signature.ret as int];
        let ghost params0 = ctx.func.params@;
        let mut visited: Vec<bool> = Vec::new();
        let mut i3: usize = 0;
        while i3 < n_blocks
            invariant
                i3 <= n_blocks,
                visited@.len() == i3 as int,
                forall|j: int| 0 <= j < i3 ==> !(#[trigger] visited@[j]),
            decreases n_blocks - i3,
        {
            visited.push(false);
            i3 = i3 + 1;
        }
        proof {
            assert(crate::ir::seq_nullable_before(visited@, n_blocks as int) == 0) by {
                lemma_count_all_false(visited@, n_blocks as int);
            }
        }
        let mut n_visited: usize = 0;
        let mut worklist: Vec<BlockId> = Vec::new();
        worklist.push(function.entry_block());
        proof {
            assert(worklist@[0] == function.entry_block);
        }
        while worklist.len() > 0
            invariant
                self.layout_cache.wf(),
                self.layout_cache.layout_cache == old(self).layout_cache.layout_cache,
                self.layout_cache.frontend_config == old(self).layout_cache.frontend_config,
                self.layout_cache.layouts@.len() == old(self).layout_cache.layouts@.len(),
                self.layout_cache.layouts@[function.signature.ret as int] == ret_entry,
                ret_entry is Some,
                self.funcs@ == old(self).funcs@,
                self.config == old(self).config,
                ctx.wf(nl),
                ctx.exprs@.len() == function.exprs@.len(),
                ctx.blocks@.len() == function.blocks@.len(),
                ctx.func.params@ == params0,
                ctx.func.returns == ret_ty,
                ctx.func.entry == 0,
                forall|k: int|
                    0 <= k < function.args@.len() ==> ctx.exprs@[(
                    #[trigger] function.args@[k]).1 as int] is Some,
                function.terminator_only() ==> ctx.func.n_vals as int <= function.args@.len()
                    + n_visited as int,
                function.terminator_only() ==> ctx.func.blocks@.len() <= 1 + 3 * n_visited as int,
                function.terminator_only() ==> ctx.func.slots@.len() == 0,
                ctx.func.blocks@.len() > 0,
                ctx.blocks@[function.entry_block as int] == Some(0u32),
                visited@[function.entry_block as int] ==> ctx.func.blocks@[0].insts@.len() > 0,
                visited@[function.entry_block as int] || (exists|k: int|
                    0 <= k < worklist@.len() && worklist@[k] == function.entry_block),
                visited@.len() == function.blocks@.len(),
                n_visited == crate::ir::seq_nullable_before(
                    visited@,
                    function.blocks@.len() as int,
                ),
                n_visited <= function.blocks@.len(),
                forall|k: int|
                    0 <= k < worklist@.len() ==> (#[trigger] worklist@[k])
                        < function.blocks@.len() && function.blocks@[worklist@[k] as int] is Some,
            decreases function.blocks@.len() - n_visited, worklist@.len(),
        {
            let ghost wl0 = worklist@;
            let ghost visited0 = visited@;
            let block_id = match worklist.pop() {
                Some(b) => b,
                None => {
                    return vstd::pervasive::unreached();
                },
            };
            proof {
                if !visited@[function.entry_block as int] {
                    let k = choose|k: int| 0 <= k < wl0.len() && wl0[k] == function.entry_block;
                    if k < wl0.len() - 1 {
                        assert(worklist@[k] == function.entry_block);
                    } else {
                        assert(block_id == function.entry_block);
                    }
                }
            }
            if visited[block_id as usize] {
                continue;
            }
            proof {
                crate::ir::lemma_seq_count_below_len(
                    visited@,
                    block_id as int,
                    function.blocks@.len() as int,
                );
                crate::ir::lemma_seq_count_update(
                    visited@,
                    block_id as int,
                    function.blocks@.len() as int,
                );
            }
            visited[block_id as usize] = true;
            n_visited = n_visited + 1;
            if ctx.func.blocks.len() >= 0xFFFF_0000usize {
                return Err(LowerError::TooManyBlocks);
            }
            let cur_code = ctx.switch_to_block(block_id);
            let block = match &function.blocks[block_id as usize] {
                Some(b) => b,
                None => {
                    return vstd::pervasive::unreached();
                },
            };
            let body = block.body();
            let n_body = body.len();
            let mut bi: usize = 0;
            while bi < n_body
                invariant
                    bi <= n_body,
                    n_body == block.body@.len(),
                    self.layout_cache.wf(),
                    self.layout_cache.layout_cache == old(self).layout_cache.layout_cache,
                    self.layout_cache.frontend_config == old(self).layout_cache.frontend_config,
                    self.layout_cache.layouts@.len() == old(self).layout_cache.layouts@.len(),
                    self.layout_cache.layouts@[function.signature.ret as int] == ret_entry,
                    ret_entry is Some,
                    self.funcs@ == old(self).funcs@,
                    self.config == old(self).config,
                    ctx.wf(nl),
                    ctx.exprs@.len() == function.exprs@.len(),
                    ctx.blocks@.len() == function.blocks@.len(),
                    ctx.func.params@ == params0,
                    ctx.func.returns == ret_ty,
                    ctx.func.entry == 0,
                    forall|k: int|
                        0 <= k < function.args@.len() ==> ctx.exprs@[(
                        #[trigger] function.args@[k]).1 as int] is Some,
                    ctx.cur_block == cur_code,
                    function.terminator_only() ==> n_body == 0,
                    function.terminator_only() ==> ctx.func.n_vals as int <= function.args@.len()
                        + n_visited as int - 1,
                    function.terminator_only() ==> ctx.func.blocks@.len() <= 3 * n_visited as int
                        - 1,
                    function.terminator_only() ==> ctx.func.slots@.len() == 0,
                    ctx.func.blocks@.len() > 0,
                    ctx.blocks@[function.entry_block as int] == Some(0u32),
                    (visited@[function.entry_block as int] && block_id != function.entry_block)
                        ==> ctx.func.blocks@[0].insts@.len() > 0,
                decreases n_body - bi,
            {
                if ctx.func.n_vals > u32::MAX - 8 {
                    return Err(LowerError::TooManyValues);
                }
                if ctx.func.slots.len() >= 0xFFFF_0000usize {
                    return Err(LowerError::TooManySlots);
                }
                let expr_id = body[bi];
                let expr = match &function.exprs[expr_id as usize] {
                    Some(e) => e,
                    None => {
                        return vstd::pervasive::unreached();
                    },
                };
                match ctx.lower_expr(&mut self.layout_cache, expr_id, expr) {
                    Ok(()) => {},
                    Err(e) => {
                        return Err(e);
                    },
                }
                bi = bi + 1;
            }
            if ctx.func.n_vals > u32::MAX - 8 {
                return Err(LowerError::TooManyValues);
            }
            if ctx.func.blocks.len() >= 0xFFFF_0000usize {
                return Err(LowerError::TooManyBlocks);
            }
            let ghost entry_len_pre_term: int = ctx.func.blocks@[0].insts@.len() as int;
            let ghost cur_pre_term = ctx.cur_block;
            match ctx.codegen_terminator(block.terminator(), &mut worklist) {
                Ok(()) => {},
                Err(e) => {
                    return Err(e);
                },
            }
            proof {
                assert(ctx.func.blocks@[0].insts@.len() >= entry_len_pre_term);
                if !visited@[function.entry_block as int] {
                    assert(!visited0[function.entry_block as int]);
                    let k = choose|k: int|
                        0 <= k < wl0.len() && wl0[k] == function.entry_block;
                    if k < wl0.len() - 1 {
                        assert(worklist@[k] == function.entry_block);
                    } else {
                        assert(block_id == function.entry_block);
                        assert(false);
                    }
                }
                if visited@[function.entry_block as int] {
                    if block_id == function.entry_block {
                        assert(cur_pre_term == 0);
                        assert(ctx.func.blocks@[0].insts@.len() > 0);
                    } else {
                        assert(visited0[function.entry_block as int]);
                        assert(entry_len_pre_term > 0);
                        assert(ctx.func.blocks@[0].insts@.len() > 0);
                    }
                }
            }
        }
        let func_id = self.funcs.len() as u32;
        self.funcs.push(ctx.func);
        Ok(func_id)
    }
}

/// A flag sequence of fresh `false` entries counts to zero.
pub proof fn lemma_count_all_false(s: Seq<bool>, upto: int)
    requires
        0 <= upto <= s.len(),
        forall|j: int| 0 <= j < upto ==> !(#[trigger] s[j]),
    ensures
        crate::ir::seq_nullable_before(s, upto) == 0,
    decreases upto,
{
    if upto > 0 {
        lemma_count_all_false(s, upto - 1);
    }
}

} // verus!
