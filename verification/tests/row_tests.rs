use dataflow_jit::codegen::NullSigil;
use dataflow_jit::ir::{RowLayoutBuilder, RowType};
use dataflow_jit::layout::Layout;
use dataflow_jit::target::{CallConv, PointerWidth, TargetConfig};

fn default_target() -> TargetConfig {
    TargetConfig { default_call_conv: CallConv::Fast, pointer_width: PointerWidth::U64 }
}

#[test]
fn s5_copy_then_load() {
    let target = default_target();
    let row = RowLayoutBuilder::new()
        .with_row(RowType::I32, false)
        .with_row(RowType::I64, false)
        .build();
    let layout = Layout::from_row(&row, &target);

    let mut a = layout.alloc_row();
    let b = layout.alloc_row();
    let off0 = layout.offset_of(0) as usize;
    let off1 = layout.offset_of(1) as usize;
    let w0 = layout.type_of(0).size(&target) as usize;
    let w1 = layout.type_of(1).size(&target) as usize;
    a.store_le(off0, w0, 7);
    a.store_le(off1, w1, 9);

    let mut b = b;
    b.copy_from(&a);
    assert_eq!(b.load_le(off0, w0), 7);
    assert_eq!(b.load_le(off1, w1), 9);
    // The copy leaves the destination byte-equal to the source over the
    // whole row.
    assert_eq!(a.data, b.data);
}

#[test]
fn s6_null_sigil_switch() {
    let target = default_target();
    let row = RowLayoutBuilder::new().with_row(RowType::Bool, true).build();
    let layout = Layout::from_row(&row, &target);

    // With sigil One a null row is filled with 0xFF and reads as null.
    let ones = layout.null_row(NullSigil::One);
    assert!(ones.data.iter().all(|&b| b == 0xFF));
    assert!(ones.is_null(&layout, &target, 0, NullSigil::One));

    // With sigil Zero a null row is filled with 0x00 and still reads as
    // null: both sigils give the same semantics.
    let zeros = layout.null_row(NullSigil::Zero);
    assert!(zeros.data.iter().all(|&b| b == 0x00));
    assert!(zeros.is_null(&layout, &target, 0, NullSigil::Zero));
}

#[test]
fn set_null_round_trip_both_sigils() {
    let target = default_target();
    let row = RowLayoutBuilder::new()
        .with_row(RowType::U32, true)
        .with_row(RowType::U16, true)
        .build();
    let layout = Layout::from_row(&row, &target);

    for &sigil in &[NullSigil::Zero, NullSigil::One] {
        let mut r = layout.alloc_row();
        for &flag in &[true, false, true, true, false] {
            r.set_null(&layout, &target, 0, sigil, flag);
            assert_eq!(r.is_null(&layout, &target, 0, sigil), flag);
        }
    }
}

#[test]
fn set_null_preserves_other_columns() {
    let target = default_target();
    let row = RowLayoutBuilder::new()
        .with_row(RowType::U32, true)
        .with_row(RowType::U16, true)
        .build();
    let layout = Layout::from_row(&row, &target);

    let mut r = layout.alloc_row();
    r.set_null(&layout, &target, 0, NullSigil::One, true);
    r.set_null(&layout, &target, 1, NullSigil::One, false);
    assert!(r.is_null(&layout, &target, 0, NullSigil::One));
    assert!(!r.is_null(&layout, &target, 1, NullSigil::One));
    r.set_null(&layout, &target, 1, NullSigil::One, true);
    assert!(r.is_null(&layout, &target, 0, NullSigil::One));
    assert!(r.is_null(&layout, &target, 1, NullSigil::One));
}

#[test]
fn set_null_does_not_touch_column_bytes() {
    let target = default_target();
    let row = RowLayoutBuilder::new().with_row(RowType::U64, true).build();
    let layout = Layout::from_row(&row, &target);

    let mut r = layout.alloc_row();
    let off = layout.offset_of(0) as usize;
    r.store_le(off, 8, 0xDEAD_BEEF_0BAD_CAFE);
    r.set_null(&layout, &target, 0, NullSigil::One, true);
    assert_eq!(r.load_le(off, 8), 0xDEAD_BEEF_0BAD_CAFE);
    r.set_null(&layout, &target, 0, NullSigil::One, false);
    assert_eq!(r.load_le(off, 8), 0xDEAD_BEEF_0BAD_CAFE);
}

#[test]
fn copy_row_to_self_value_is_identity() {
    let target = default_target();
    let row = RowLayoutBuilder::new().with_row(RowType::U32, false).build();
    let layout = Layout::from_row(&row, &target);
    let mut r = layout.alloc_row();
    r.store_le(0, 4, 41);
    let before = r.clone();
    let mut r2 = r.clone();
    r2.copy_from(&before);
    assert_eq!(r2, before);
}

#[test]
fn store_load_round_trips() {
    let target = default_target();
    let row = RowLayoutBuilder::new()
        .with_row(RowType::U16, false)
        .with_row(RowType::U64, false)
        .build();
    let layout = Layout::from_row(&row, &target);
    let mut r = layout.alloc_row();
    let off0 = layout.offset_of(0) as usize;
    let off1 = layout.offset_of(1) as usize;
    r.store_le(off0, 2, 0xBEEF);
    r.store_le(off1, 8, u64::MAX);
    assert_eq!(r.load_le(off0, 2), 0xBEEF);
    assert_eq!(r.load_le(off1, 8), u64::MAX);
    r.store_le(off1, 8, 0x0102_0304_0506_0708);
    assert_eq!(r.load_le(off1, 8), 0x0102_0304_0506_0708);
    // Little-endian byte order: the low byte sits at the low offset.
    assert_eq!(r.data[off1], 0x08);
    assert_eq!(r.data[off1 + 7], 0x01);
}
