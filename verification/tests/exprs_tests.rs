use dataflow_jit::codegen::{CodegenConfig, NullSigil};
use dataflow_jit::exprs::{Cast, Constant, Expr, Load, NullRow, RValue, SetNull, Store};
use dataflow_jit::ir::ColumnType;

#[test]
fn cast_validity_rules() {
    // Casts between one and the same type are always valid, strings and
    // units included.
    assert!(Cast::new(0, ColumnType::String, ColumnType::String).is_valid_cast());
    assert!(Cast::new(0, ColumnType::Unit, ColumnType::Unit).is_valid_cast());
    // Integers cast freely among themselves and to floats, dates and
    // timestamps.
    assert!(Cast::new(0, ColumnType::U16, ColumnType::I32).is_valid_cast());
    assert!(Cast::new(0, ColumnType::I64, ColumnType::F64).is_valid_cast());
    assert!(Cast::new(0, ColumnType::F32, ColumnType::F64).is_valid_cast());
    assert!(Cast::new(0, ColumnType::Date, ColumnType::I64).is_valid_cast());
    assert!(Cast::new(0, ColumnType::I32, ColumnType::Timestamp).is_valid_cast());
    // Booleans cast to integers but nothing casts to a boolean.
    assert!(Cast::new(0, ColumnType::Bool, ColumnType::U8).is_valid_cast());
    assert!(!Cast::new(0, ColumnType::U8, ColumnType::Bool).is_valid_cast());
    // Units and strings are otherwise uncastable.
    assert!(!Cast::new(0, ColumnType::Unit, ColumnType::U8).is_valid_cast());
    assert!(!Cast::new(0, ColumnType::String, ColumnType::U64).is_valid_cast());
    assert!(!Cast::new(0, ColumnType::U64, ColumnType::String).is_valid_cast());
    // Floats cannot cast to or from booleans, dates or timestamps.
    assert!(!Cast::new(0, ColumnType::F32, ColumnType::Bool).is_valid_cast());
    assert!(!Cast::new(0, ColumnType::F64, ColumnType::Date).is_valid_cast());
    assert!(!Cast::new(0, ColumnType::Timestamp, ColumnType::F64).is_valid_cast());
}

#[test]
fn constant_classification() {
    assert!(Constant::U8(1).is_int());
    assert!(Constant::U8(1).is_unsigned_int());
    assert!(!Constant::U8(1).is_signed_int());
    assert!(Constant::I16(-1).is_signed_int());
    assert!(Constant::Bool(true).is_bool());
    assert!(Constant::Unit.is_unit());
    assert!(Constant::String(String::from("s")).is_string());
    assert_eq!(Constant::U64(3).column_type(), ColumnType::U64);
    assert_eq!(Constant::Bool(false).column_type(), ColumnType::Bool);
    assert_eq!(Constant::Unit.column_type(), ColumnType::Unit);
}

#[test]
fn rvalue_accessors() {
    let e = RValue::Expr(4);
    assert!(e.is_expr());
    assert!(!e.is_immediate());
    assert_eq!(e.as_expr(), Some(&4));
    assert!(e.as_immediate().is_none());

    let imm = RValue::Imm(Constant::I32(-7));
    assert!(imm.is_immediate());
    assert_eq!(imm.as_immediate(), Some(&Constant::I32(-7)));
    assert!(imm.as_expr().is_none());
}

#[test]
fn expr_getters() {
    let load = Load::new(3, 7, 1, ColumnType::U32);
    assert_eq!(load.source(), 3);
    assert_eq!(load.source_layout(), 7);
    assert_eq!(load.column(), 1);
    assert_eq!(load.column_type(), ColumnType::U32);

    let store = Store::new(2, 9, 0, RValue::Expr(5), ColumnType::I64);
    assert_eq!(store.target(), 2);
    assert_eq!(store.target_layout(), 9);
    assert_eq!(store.column(), 0);
    assert_eq!(store.value(), &RValue::Expr(5));
    assert_eq!(store.value_type(), ColumnType::I64);

    let set_null = SetNull::new(1, 4, 2, RValue::Imm(Constant::Bool(true)));
    assert_eq!(set_null.target(), 1);
    assert_eq!(set_null.target_layout(), 4);
    assert_eq!(set_null.column(), 2);
    assert_eq!(set_null.is_null(), &RValue::Imm(Constant::Bool(true)));
}

#[test]
fn remap_layouts_rewrites_layout_ids() {
    let mappings: Vec<u32> = vec![10, 11, 12];
    let load = Expr::Load(Load::new(0, 2, 0, ColumnType::U32));
    assert_eq!(
        load.clone().remap_layouts(&mappings),
        Expr::Load(Load::new(0, 12, 0, ColumnType::U32)),
    );
    let null_row = Expr::NullRow(NullRow::new(1));
    assert_eq!(null_row.remap_layouts(&mappings), Expr::NullRow(NullRow::new(11)));
    // Expressions without a layout come back unchanged.
    let c = Expr::Constant(Constant::U32(5));
    assert_eq!(c.clone().remap_layouts(&mappings), c);
}

#[test]
fn null_sigil_and_config() {
    assert!(NullSigil::One.is_one());
    assert!(!NullSigil::One.is_zero());
    assert!(NullSigil::Zero.is_zero());
    assert_eq!(NullSigil::default(), NullSigil::One);
    assert_eq!(NullSigil::One.fill_byte(), 0xFF);
    assert_eq!(NullSigil::Zero.fill_byte(), 0x00);

    let debug = CodegenConfig::debug();
    assert_eq!(debug.null_sigil, NullSigil::One);
    assert!(debug.debug_assertions);
    let release = CodegenConfig::release();
    assert!(!release.debug_assertions);
    let default = CodegenConfig::default();
    assert_eq!(default.null_sigil, NullSigil::One);
    assert!(!default.debug_assertions);
    let custom = CodegenConfig::new(NullSigil::Zero, true);
    assert_eq!(custom.null_sigil, NullSigil::Zero);
    assert!(custom.debug_assertions);
}
