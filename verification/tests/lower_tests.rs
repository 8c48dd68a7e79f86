use dataflow_jit::code::{Inst, IntCond, MemFlags};
use dataflow_jit::codegen::{Codegen, CodegenConfig, NullSigil};
use dataflow_jit::exprs::{
    BinaryOp, BinaryOpKind, Cast, Constant, CopyRowTo, Expr, IsNull, Load, NullRow, RValue,
    Select, SetNull, Store, UninitRow,
};
use dataflow_jit::function::{
    Block, Branch, Function, InputFlags, Jump, Return, Signature, Terminator,
};
use dataflow_jit::ir::{ColumnType, LayoutCache, LayoutId, RowLayoutBuilder, RowType};
use dataflow_jit::lower::LowerError;
use dataflow_jit::target::{CallConv, NativeType, PointerWidth, TargetConfig};

fn default_target() -> TargetConfig {
    TargetConfig { default_call_conv: CallConv::Fast, pointer_width: PointerWidth::U64 }
}

fn session(rows: &[(RowType, bool)]) -> (Codegen, LayoutId, LayoutId) {
    let mut cache = LayoutCache::new();
    let mut builder = RowLayoutBuilder::new();
    for &(ty, nullable) in rows {
        builder = builder.with_row(ty, nullable);
    }
    let lid = cache.add(builder.build());
    let unit_lid = cache.add(RowLayoutBuilder::new().build());
    let codegen = Codegen::new(cache, default_target(), CodegenConfig::release());
    (codegen, lid, unit_lid)
}

fn one_block_func(
    lid: LayoutId,
    unit_lid: LayoutId,
    flags: InputFlags,
    n_exprs: usize,
    body: Vec<(u32, Expr)>,
    terminator: Terminator,
) -> Function {
    let mut exprs: Vec<Option<Expr>> = Vec::new();
    for _ in 0..n_exprs {
        exprs.push(None);
    }
    let mut body_ids: Vec<u32> = Vec::new();
    for (id, expr) in body {
        exprs[id as usize] = Some(expr);
        body_ids.push(id);
    }
    let blocks = vec![Some(Block::new(body_ids, terminator))];
    Function::new(
        vec![(lid, 0, flags)],
        0,
        blocks,
        exprs,
        Signature::new(vec![lid], unit_lid),
    )
}

fn rw() -> InputFlags {
    InputFlags::new(true, true)
}

fn ro() -> InputFlags {
    InputFlags::new(true, false)
}

fn ret_unit() -> Terminator {
    Terminator::Return(Return::new(RValue::Imm(Constant::Unit)))
}

#[test]
fn store_immediate_emits_iconst_then_store() {
    let (mut codegen, lid, unit_lid) = session(&[(RowType::U32, false)]);
    let func = one_block_func(
        lid,
        unit_lid,
        rw(),
        2,
        vec![(
            1,
            Expr::Store(Store::new(0, lid, 0, RValue::Imm(Constant::U32(7)), ColumnType::U32)),
        )],
        ret_unit(),
    );
    let id = codegen.codegen_func(&func).unwrap();
    let (funcs, _cache) = codegen.finalize_definitions();
    let cf = &funcs[id as usize];
    assert_eq!(cf.params, vec![NativeType::I64]);
    assert!(cf.returns.is_none());
    assert_eq!(
        cf.blocks[0].insts,
        vec![
            Inst::IConst { ty: NativeType::I32, value: 7, result: 1 },
            Inst::Store {
                flags: MemFlags { trusted: true, readonly: false },
                value: 1,
                addr: 0,
                offset: 0,
            },
            Inst::Return { value: None },
        ],
    );
}

#[test]
fn load_from_readonly_param_sets_readonly_flag() {
    let (mut codegen, lid, unit_lid) = session(&[(RowType::U16, false)]);
    let func = one_block_func(
        lid,
        unit_lid,
        ro(),
        2,
        vec![(1, Expr::Load(Load::new(0, lid, 0, ColumnType::U16)))],
        Terminator::Return(Return::new(RValue::Expr(1))),
    );
    let id = codegen.codegen_func(&func).unwrap();
    let (funcs, _cache) = codegen.finalize_definitions();
    let cf = &funcs[id as usize];
    assert_eq!(
        cf.blocks[0].insts,
        vec![
            Inst::Load {
                ty: NativeType::I16,
                flags: MemFlags { trusted: true, readonly: true },
                addr: 0,
                offset: 0,
                result: 1,
            },
            Inst::Return { value: Some(1) },
        ],
    );
}

#[test]
fn binop_lowers_to_matching_instruction() {
    let (mut codegen, lid, unit_lid) = session(&[(RowType::I64, false)]);
    let func = one_block_func(
        lid,
        unit_lid,
        rw(),
        5,
        vec![
            (1, Expr::Constant(Constant::I64(2))),
            (2, Expr::Constant(Constant::I64(3))),
            (3, Expr::BinOp(BinaryOp::new(BinaryOpKind::Add, 1, 2))),
            (4, Expr::BinOp(BinaryOp::new(BinaryOpKind::Neq, 1, 2))),
        ],
        ret_unit(),
    );
    let id = codegen.codegen_func(&func).unwrap();
    let (funcs, _cache) = codegen.finalize_definitions();
    let insts = &funcs[id as usize].blocks[0].insts;
    assert_eq!(insts[2], Inst::IAdd { lhs: 1, rhs: 2, result: 3 });
    assert_eq!(insts[3], Inst::ICmp { cond: IntCond::NotEqual, lhs: 1, rhs: 2, result: 4 });
}

#[test]
fn is_null_polarity_follows_sigil() {
    // A set bit means null under sigil One: compare not-equal to zero.
    let (mut codegen, lid, unit_lid) = session(&[(RowType::U64, true)]);
    let func = one_block_func(
        lid,
        unit_lid,
        rw(),
        2,
        vec![(1, Expr::IsNull(IsNull::new(0, lid, 0)))],
        ret_unit(),
    );
    let id = codegen.codegen_func(&func).unwrap();
    let (funcs, _cache) = codegen.finalize_definitions();
    let insts = &funcs[id as usize].blocks[0].insts;
    assert_eq!(
        insts[0],
        Inst::Load {
            ty: NativeType::I8,
            flags: MemFlags { trusted: true, readonly: false },
            addr: 0,
            offset: 8,
            result: 1,
        },
    );
    assert_eq!(insts[1], Inst::BandImm { arg: 1, imm: 1, result: 2 });
    assert_eq!(insts[2], Inst::ICmpImm { cond: IntCond::NotEqual, arg: 2, imm: 0, result: 3 });

    // An unset bit means null under sigil Zero: compare equal to zero.
    let mut cache = LayoutCache::new();
    let lid2 = cache.add(RowLayoutBuilder::new().with_row(RowType::U64, true).build());
    let unit_lid2 = cache.add(RowLayoutBuilder::new().build());
    let mut codegen_zero = Codegen::new(
        cache,
        default_target(),
        CodegenConfig::new(NullSigil::Zero, false),
    );
    let func2 = one_block_func(
        lid2,
        unit_lid2,
        rw(),
        2,
        vec![(1, Expr::IsNull(IsNull::new(0, lid2, 0)))],
        ret_unit(),
    );
    let id2 = codegen_zero.codegen_func(&func2).unwrap();
    let (funcs2, _cache2) = codegen_zero.finalize_definitions();
    let insts2 = &funcs2[id2 as usize].blocks[0].insts;
    assert_eq!(insts2[2], Inst::ICmpImm { cond: IntCond::Equal, arg: 2, imm: 0, result: 3 });
}

#[test]
fn set_null_immediate_drives_bit_directly() {
    let (mut codegen, lid, unit_lid) = session(&[(RowType::U32, true), (RowType::U16, true)]);
    let func = one_block_func(
        lid,
        unit_lid,
        rw(),
        2,
        vec![(
            1,
            Expr::SetNull(SetNull::new(0, lid, 1, RValue::Imm(Constant::Bool(true)))),
        )],
        ret_unit(),
    );
    let id = codegen.codegen_func(&func).unwrap();
    let (funcs, _cache) = codegen.finalize_definitions();
    let insts = &funcs[id as usize].blocks[0].insts;
    // Column 1 holds bit 1 of the bitset byte at offset 6.
    assert_eq!(
        insts[0],
        Inst::Load {
            ty: NativeType::I8,
            flags: MemFlags { trusted: false, readonly: false },
            addr: 0,
            offset: 6,
            result: 1,
        },
    );
    assert_eq!(insts[1], Inst::BorImm { arg: 1, imm: 2, result: 2 });
    assert_eq!(
        insts[2],
        Inst::Store {
            flags: MemFlags { trusted: true, readonly: false },
            value: 2,
            addr: 0,
            offset: 6,
        },
    );
}

#[test]
fn set_null_computed_selects_between_bit_forms() {
    let (mut codegen, lid, unit_lid) = session(&[(RowType::U64, true)]);
    let func = one_block_func(
        lid,
        unit_lid,
        rw(),
        3,
        vec![
            (1, Expr::Constant(Constant::Bool(true))),
            (2, Expr::SetNull(SetNull::new(0, lid, 0, RValue::Expr(1)))),
        ],
        ret_unit(),
    );
    let id = codegen.codegen_func(&func).unwrap();
    let (funcs, _cache) = codegen.finalize_definitions();
    let insts = &funcs[id as usize].blocks[0].insts;
    assert_eq!(insts[1].clone(), Inst::Load {
        ty: NativeType::I8,
        flags: MemFlags { trusted: false, readonly: false },
        addr: 0,
        offset: 8,
        result: 2,
    });
    assert_eq!(insts[2], Inst::BorImm { arg: 2, imm: 1, result: 3 });
    assert_eq!(insts[3], Inst::BandImm { arg: 2, imm: !1, result: 4 });
    // Under sigil One the set-bit form is chosen when the flag is non-zero.
    assert_eq!(insts[4], Inst::Select { cond: 1, if_true: 3, if_false: 4, result: 5 });
}

#[test]
fn copy_row_to_self_emits_nothing() {
    let (mut codegen, lid, unit_lid) = session(&[(RowType::U32, false)]);
    let func = one_block_func(
        lid,
        unit_lid,
        rw(),
        2,
        vec![(1, Expr::CopyRowTo(CopyRowTo::new(0, 0, lid)))],
        ret_unit(),
    );
    let id = codegen.codegen_func(&func).unwrap();
    let (funcs, _cache) = codegen.finalize_definitions();
    let insts = &funcs[id as usize].blocks[0].insts;
    assert_eq!(insts.len(), 1);
    assert_eq!(insts[0], Inst::Return { value: None });
}

#[test]
fn copy_row_between_params_emits_memcpy() {
    let mut cache = LayoutCache::new();
    let lid = cache.add(
        RowLayoutBuilder::new()
            .with_row(RowType::I32, false)
            .with_row(RowType::I64, false)
            .build(),
    );
    let unit_lid = cache.add(RowLayoutBuilder::new().build());
    let mut codegen = Codegen::new(cache, default_target(), CodegenConfig::release());
    let mut exprs: Vec<Option<Expr>> = vec![None, None, None];
    exprs[2] = Some(Expr::CopyRowTo(CopyRowTo::new(0, 1, lid)));
    let func = Function::new(
        vec![(lid, 0, ro()), (lid, 1, rw())],
        0,
        vec![Some(Block::new(vec![2], ret_unit()))],
        exprs,
        Signature::new(vec![lid, lid], unit_lid),
    );
    let id = codegen.codegen_func(&func).unwrap();
    let (funcs, _cache) = codegen.finalize_definitions();
    let insts = &funcs[id as usize].blocks[0].insts;
    assert_eq!(insts[0], Inst::MemCpy { dest: 1, src: 0, size: 16, align: 8 });
}

#[test]
fn null_row_reserves_slot_and_memsets_fill_byte() {
    let (mut codegen, lid, unit_lid) = session(&[(RowType::U64, true)]);
    let func = one_block_func(
        lid,
        unit_lid,
        rw(),
        2,
        vec![(1, Expr::NullRow(NullRow::new(lid)))],
        ret_unit(),
    );
    let id = codegen.codegen_func(&func).unwrap();
    let (funcs, _cache) = codegen.finalize_definitions();
    let cf = &funcs[id as usize];
    assert_eq!(cf.slots, vec![16]);
    assert_eq!(cf.blocks[0].insts[0], Inst::StackAddr { slot: 0, offset: 0, result: 1 });
    assert_eq!(
        cf.blocks[0].insts[1],
        Inst::MemSet { addr: 1, value: 0xFF, size: 16, align: 8 },
    );
}

#[test]
fn uninit_row_reserves_slot_without_code() {
    let (mut codegen, lid, unit_lid) = session(&[(RowType::U32, false)]);
    let func = one_block_func(
        lid,
        unit_lid,
        rw(),
        2,
        vec![(1, Expr::UninitRow(UninitRow::new(lid)))],
        ret_unit(),
    );
    let id = codegen.codegen_func(&func).unwrap();
    let (funcs, _cache) = codegen.finalize_definitions();
    let cf = &funcs[id as usize];
    assert_eq!(cf.slots, vec![4]);
    assert_eq!(cf.blocks[0].insts.len(), 1);
}

#[test]
fn stack_rows_use_stack_loads_and_stores() {
    let (mut codegen, lid, unit_lid) = session(&[(RowType::U32, false)]);
    let func = one_block_func(
        lid,
        unit_lid,
        rw(),
        3,
        vec![
            (1, Expr::UninitRow(UninitRow::new(lid))),
            (
                2,
                Expr::Store(Store::new(1, lid, 0, RValue::Imm(Constant::U32(5)), ColumnType::U32)),
            ),
        ],
        ret_unit(),
    );
    let id = codegen.codegen_func(&func).unwrap();
    let (funcs, _cache) = codegen.finalize_definitions();
    let insts = &funcs[id as usize].blocks[0].insts;
    assert_eq!(insts[0], Inst::IConst { ty: NativeType::I32, value: 5, result: 1 });
    assert_eq!(insts[1], Inst::StackStore { value: 1, slot: 0, offset: 0 });
}

#[test]
fn branch_polarity_brz_truthy_then_jump_falsy() {
    let (mut codegen, lid, unit_lid) = session(&[(RowType::U32, false)]);
    let mut exprs: Vec<Option<Expr>> = vec![None, None];
    exprs[1] = Some(Expr::Constant(Constant::Bool(true)));
    let blocks = vec![
        Some(Block::new(
            vec![1],
            Terminator::Branch(Branch::new(RValue::Expr(1), 1, 2)),
        )),
        Some(Block::new(Vec::new(), ret_unit())),
        Some(Block::new(Vec::new(), Terminator::Jump(Jump::new(1)))),
    ];
    let func = Function::new(
        vec![(lid, 0, rw())],
        0,
        blocks,
        exprs,
        Signature::new(vec![lid], unit_lid),
    );
    let id = codegen.codegen_func(&func).unwrap();
    let (funcs, _cache) = codegen.finalize_definitions();
    let cf = &funcs[id as usize];
    let entry = &cf.blocks[0].insts;
    // "Branch on zero to truthy, else jump to falsy", bit-for-bit.
    assert_eq!(entry[1], Inst::Brz { cond: 1, target: 1 });
    assert_eq!(entry[2], Inst::Jump { target: 2 });
    // Every reachable block is lowered exactly once.
    assert_eq!(cf.blocks.len(), 3);
}

#[test]
fn ret_layout_drives_pointer_return() {
    let mut cache = LayoutCache::new();
    let lid = cache.add(RowLayoutBuilder::new().with_row(RowType::U32, false).build());
    let mut codegen = Codegen::new(cache, default_target(), CodegenConfig::release());
    let func = Function::new(
        vec![(lid, 0, rw())],
        0,
        vec![Some(Block::new(Vec::new(), Terminator::Return(Return::new(RValue::Expr(0)))))],
        vec![None],
        Signature::new(vec![lid], lid),
    );
    let id = codegen.codegen_func(&func).unwrap();
    let (funcs, _cache) = codegen.finalize_definitions();
    assert_eq!(funcs[id as usize].returns, Some(NativeType::I64));
}

#[test]
fn error_readonly_write() {
    let (mut codegen, lid, unit_lid) = session(&[(RowType::U32, false)]);
    let func = one_block_func(
        lid,
        unit_lid,
        ro(),
        2,
        vec![(
            1,
            Expr::Store(Store::new(0, lid, 0, RValue::Imm(Constant::U32(7)), ColumnType::U32)),
        )],
        ret_unit(),
    );
    assert_eq!(codegen.codegen_func(&func), Err(LowerError::ReadonlyWrite));
}

#[test]
fn error_string_return() {
    let (mut codegen, lid, unit_lid) = session(&[(RowType::U32, false)]);
    let func = one_block_func(
        lid,
        unit_lid,
        rw(),
        1,
        Vec::new(),
        Terminator::Return(Return::new(RValue::Imm(Constant::String(String::from("x"))))),
    );
    assert_eq!(codegen.codegen_func(&func), Err(LowerError::StringReturn));
}

#[test]
fn error_immediate_branch() {
    let (mut codegen, lid, unit_lid) = session(&[(RowType::U32, false)]);
    let blocks = vec![
        Some(Block::new(
            Vec::new(),
            Terminator::Branch(Branch::new(RValue::Imm(Constant::Bool(true)), 1, 1)),
        )),
        Some(Block::new(Vec::new(), ret_unit())),
    ];
    let func = Function::new(
        vec![(lid, 0, rw())],
        0,
        blocks,
        vec![None],
        Signature::new(vec![lid], unit_lid),
    );
    assert_eq!(codegen.codegen_func(&func), Err(LowerError::ImmediateBranch));
}

#[test]
fn error_unit_constant_store() {
    let (mut codegen, lid, unit_lid) = session(&[(RowType::U32, false)]);
    let func = one_block_func(
        lid,
        unit_lid,
        rw(),
        2,
        vec![(
            1,
            Expr::Store(Store::new(0, lid, 0, RValue::Imm(Constant::Unit), ColumnType::Unit)),
        )],
        ret_unit(),
    );
    assert_eq!(codegen.codegen_func(&func), Err(LowerError::UnitConstant));
}

#[test]
fn error_string_constant_store() {
    let (mut codegen, lid, unit_lid) = session(&[(RowType::String, false)]);
    let func = one_block_func(
        lid,
        unit_lid,
        rw(),
        2,
        vec![(
            1,
            Expr::Store(Store::new(
                0,
                lid,
                0,
                RValue::Imm(Constant::String(String::from("abc"))),
                ColumnType::String,
            )),
        )],
        ret_unit(),
    );
    assert_eq!(codegen.codegen_func(&func), Err(LowerError::StringConstant));
}

#[test]
fn error_undefined_value() {
    let (mut codegen, lid, unit_lid) = session(&[(RowType::U32, false)]);
    let func = one_block_func(
        lid,
        unit_lid,
        rw(),
        3,
        vec![(2, Expr::BinOp(BinaryOp::new(BinaryOpKind::Add, 1, 1)))],
        ret_unit(),
    );
    assert_eq!(codegen.codegen_func(&func), Err(LowerError::UndefinedValue));
}

#[test]
fn error_column_not_nullable() {
    let (mut codegen, lid, unit_lid) = session(&[(RowType::U32, false)]);
    let func = one_block_func(
        lid,
        unit_lid,
        rw(),
        2,
        vec![(1, Expr::IsNull(IsNull::new(0, lid, 0)))],
        ret_unit(),
    );
    assert_eq!(codegen.codegen_func(&func), Err(LowerError::ColumnNotNullable));
}

#[test]
fn error_phantom_column_load() {
    let (mut codegen, lid, unit_lid) = session(&[(RowType::U32, false), (RowType::Unit, false)]);
    let func = one_block_func(
        lid,
        unit_lid,
        rw(),
        2,
        vec![(1, Expr::Load(Load::new(0, lid, 1, ColumnType::Unit)))],
        ret_unit(),
    );
    assert_eq!(codegen.codegen_func(&func), Err(LowerError::PhantomColumn));
}

#[test]
fn error_layout_mismatch_copy() {
    let mut cache = LayoutCache::new();
    let lid_a = cache.add(RowLayoutBuilder::new().with_row(RowType::U32, false).build());
    let lid_b = cache.add(RowLayoutBuilder::new().with_row(RowType::U64, false).build());
    let unit_lid = cache.add(RowLayoutBuilder::new().build());
    let mut codegen = Codegen::new(cache, default_target(), CodegenConfig::release());
    let mut exprs: Vec<Option<Expr>> = vec![None, None, None];
    exprs[2] = Some(Expr::CopyRowTo(CopyRowTo::new(0, 1, lid_a)));
    let func = Function::new(
        vec![(lid_a, 0, rw()), (lid_b, 1, rw())],
        0,
        vec![Some(Block::new(vec![2], ret_unit()))],
        exprs,
        Signature::new(vec![lid_a, lid_b], unit_lid),
    );
    assert_eq!(codegen.codegen_func(&func), Err(LowerError::LayoutMismatch));
}

#[test]
fn error_unsupported_cast() {
    let (mut codegen, lid, unit_lid) = session(&[(RowType::U32, false)]);
    let func = one_block_func(
        lid,
        unit_lid,
        rw(),
        3,
        vec![
            (1, Expr::Constant(Constant::U32(1))),
            (2, Expr::Cast(Cast::new(1, ColumnType::U32, ColumnType::U64))),
        ],
        ret_unit(),
    );
    assert_eq!(codegen.codegen_func(&func), Err(LowerError::UnsupportedExpr));
}

#[test]
fn error_invalid_set_null_immediate() {
    let (mut codegen, lid, unit_lid) = session(&[(RowType::U32, true)]);
    let func = one_block_func(
        lid,
        unit_lid,
        rw(),
        2,
        vec![(
            1,
            Expr::SetNull(SetNull::new(0, lid, 0, RValue::Imm(Constant::U32(1)))),
        )],
        ret_unit(),
    );
    assert_eq!(codegen.codegen_func(&func), Err(LowerError::InvalidImmediate));
}

#[test]
fn error_duplicate_value() {
    let (mut codegen, lid, unit_lid) = session(&[(RowType::U32, false)]);
    let func = one_block_func(
        lid,
        unit_lid,
        rw(),
        2,
        vec![
            (1, Expr::Constant(Constant::U32(1))),
            (1, Expr::Constant(Constant::U32(2))),
        ],
        ret_unit(),
    );
    assert_eq!(codegen.codegen_func(&func), Err(LowerError::DuplicateValue));
}

#[test]
fn error_undefined_layout() {
    let (mut codegen, lid, unit_lid) = session(&[(RowType::U32, false)]);
    // The store target is a scalar value, not a row: no layout is recorded
    // for it.
    let func = one_block_func(
        lid,
        unit_lid,
        rw(),
        3,
        vec![
            (1, Expr::Constant(Constant::U32(1))),
            (
                2,
                Expr::Store(Store::new(1, lid, 0, RValue::Imm(Constant::U32(7)), ColumnType::U32)),
            ),
        ],
        ret_unit(),
    );
    assert_eq!(codegen.codegen_func(&func), Err(LowerError::UndefinedLayout));
}

#[test]
fn error_invalid_column() {
    let (mut codegen, lid, unit_lid) = session(&[(RowType::U32, false)]);
    let func = one_block_func(
        lid,
        unit_lid,
        rw(),
        2,
        vec![(1, Expr::Load(Load::new(0, lid, 5, ColumnType::U32)))],
        ret_unit(),
    );
    assert_eq!(codegen.codegen_func(&func), Err(LowerError::InvalidColumn));
}

#[test]
fn shared_successor_is_lowered_once() {
    let (mut codegen, lid, unit_lid) = session(&[(RowType::U32, false)]);
    let mut exprs: Vec<Option<Expr>> = vec![None, None];
    exprs[1] = Some(Expr::Constant(Constant::Bool(false)));
    // Both branch edges lead to the same block; the worklist must lower it
    // exactly once.
    let blocks = vec![
        Some(Block::new(
            vec![1],
            Terminator::Branch(Branch::new(RValue::Expr(1), 1, 1)),
        )),
        Some(Block::new(Vec::new(), ret_unit())),
    ];
    let func = Function::new(
        vec![(lid, 0, rw())],
        0,
        blocks,
        exprs,
        Signature::new(vec![lid], unit_lid),
    );
    let id = codegen.codegen_func(&func).unwrap();
    let (funcs, _cache) = codegen.finalize_definitions();
    let cf = &funcs[id as usize];
    assert_eq!(cf.blocks.len(), 2);
    assert_eq!(cf.blocks[1].insts, vec![Inst::Return { value: None }]);
}

#[test]
fn select_lowers_to_select_instruction() {
    let (mut codegen, lid, unit_lid) = session(&[(RowType::U32, false)]);
    let func = one_block_func(
        lid,
        unit_lid,
        rw(),
        5,
        vec![
            (1, Expr::Constant(Constant::Bool(true))),
            (2, Expr::Constant(Constant::U32(10))),
            (3, Expr::Constant(Constant::U32(20))),
            (4, Expr::Select(Select::new(1, 2, 3))),
        ],
        ret_unit(),
    );
    let id = codegen.codegen_func(&func).unwrap();
    let (funcs, _cache) = codegen.finalize_definitions();
    let insts = &funcs[id as usize].blocks[0].insts;
    assert_eq!(insts[3], Inst::Select { cond: 1, if_true: 2, if_false: 3, result: 4 });
}

#[test]
fn check_wf_accepts_valid_and_rejects_broken_ir() {
    let (_codegen, lid, unit_lid) = session(&[(RowType::U32, false)]);
    let good = one_block_func(
        lid,
        unit_lid,
        rw(),
        2,
        vec![(
            1,
            Expr::Store(Store::new(0, lid, 0, RValue::Imm(Constant::U32(7)), ColumnType::U32)),
        )],
        ret_unit(),
    );
    assert!(good.check_wf(2));

    // An out-of-range layout id fails validation.
    let bad_layout = one_block_func(
        99,
        unit_lid,
        rw(),
        1,
        Vec::new(),
        ret_unit(),
    );
    assert!(!bad_layout.check_wf(2));

    // A jump to a missing block fails validation.
    let bad_jump = Function::new(
        vec![(lid, 0, rw())],
        0,
        vec![Some(Block::new(Vec::new(), Terminator::Jump(Jump::new(7))))],
        vec![None],
        Signature::new(vec![lid], unit_lid),
    );
    assert!(!bad_jump.check_wf(2));

    // Two parameters sharing one expression identifier fail validation.
    let bad_args = Function::new(
        vec![(lid, 0, rw()), (lid, 0, rw())],
        0,
        vec![Some(Block::new(Vec::new(), ret_unit()))],
        vec![None],
        Signature::new(vec![lid, lid], unit_lid),
    );
    assert!(!bad_args.check_wf(2));
}
