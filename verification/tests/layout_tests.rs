use dataflow_jit::codegen::NullSigil;
use dataflow_jit::ir::{RowLayoutBuilder, RowType};
use dataflow_jit::layout::{bits_to_bitflags, padding_needed_for, Layout, Type};
use dataflow_jit::target::{CallConv, NativeType, PointerWidth, TargetConfig};

fn default_target() -> TargetConfig {
    TargetConfig { default_call_conv: CallConv::Fast, pointer_width: PointerWidth::U64 }
}

#[test]
fn layout_normalization() {
    let row = RowLayoutBuilder::new()
        .with_row(RowType::U32, false)
        .with_row(RowType::U16, false)
        .with_row(RowType::U64, false)
        .with_row(RowType::U16, false)
        .with_row(RowType::Unit, false)
        .build();

    let layout = Layout::from_row(&row, &default_target());
    assert_eq!(layout.align(), 8);
    assert_eq!(layout.size(), 24);
}

#[test]
fn s1_layout_packing() {
    let row = RowLayoutBuilder::new()
        .with_row(RowType::U32, false)
        .with_row(RowType::U16, false)
        .with_row(RowType::U64, false)
        .with_row(RowType::U16, false)
        .with_row(RowType::Unit, false)
        .build();

    let layout = Layout::from_row(&row, &default_target());
    assert_eq!(layout.align(), 8);
    assert_eq!(layout.size(), 24);
    assert_eq!(layout.offset_of(0), 0);
    assert_eq!(layout.offset_of(1), 4);
    assert_eq!(layout.offset_of(2), 8);
    assert_eq!(layout.offset_of(3), 16);
    assert_eq!(layout.type_of(0), Type::U32);
    assert_eq!(layout.type_of(1), Type::U16);
    assert_eq!(layout.type_of(2), Type::U64);
    assert_eq!(layout.type_of(3), Type::U16);
    assert!(!layout.is_nullable(0));
    assert!(!layout.is_nullable(4));
}

#[test]
fn s2_nullability_reuse() {
    let row = RowLayoutBuilder::new()
        .with_row(RowType::U32, true)
        .with_row(RowType::U16, true)
        .build();

    let layout = Layout::from_row(&row, &default_target());
    assert_eq!(layout.align(), 4);
    assert_eq!(layout.size(), 8);
    assert_eq!(layout.offset_of(0), 0);
    assert_eq!(layout.offset_of(1), 4);
    let (ty0, off0, bit0) = layout.nullability_of(0);
    let (ty1, off1, bit1) = layout.nullability_of(1);
    assert_eq!(ty0, Type::U8);
    assert_eq!(ty1, Type::U8);
    assert_eq!(off0, 6);
    assert_eq!(off1, 6);
    assert_eq!(bit0, 0);
    assert_eq!(bit1, 1);
}

#[test]
fn s3_tail_bitset() {
    let row = RowLayoutBuilder::new().with_row(RowType::U64, true).build();

    let layout = Layout::from_row(&row, &default_target());
    assert_eq!(layout.align(), 8);
    assert_eq!(layout.size(), 16);
    assert_eq!(layout.offset_of(0), 0);
    let (ty, off, bit) = layout.nullability_of(0);
    assert_eq!(ty, Type::U8);
    assert_eq!(off, 8);
    assert_eq!(bit, 0);
}

#[test]
fn s4_all_unit_layout() {
    let row = RowLayoutBuilder::new()
        .with_row(RowType::Unit, false)
        .with_row(RowType::Unit, false)
        .build();

    let layout = Layout::from_row(&row, &default_target());
    assert_eq!(layout.size(), 0);
    assert_eq!(layout.align(), 1);
    assert!(layout.is_zero_sized());
    // The sentinel analogue: allocation succeeds and hands back an empty
    // buffer.
    let sentinel = layout.alloc_row();
    assert_eq!(sentinel.data.len(), 0);
}

#[test]
fn empty_layout_is_zero_sized() {
    let row = RowLayoutBuilder::new().build();
    let layout = Layout::from_row(&row, &default_target());
    assert_eq!(layout.size(), 0);
    assert_eq!(layout.align(), 1);
    assert!(layout.is_zero_sized());
    assert!(layout.columns().is_empty());
}

// The universally quantified layout invariants, checked on a mixed layout:
// aligned offsets, columns inside the row, disjoint byte ranges, and one
// distinct (bitset byte, bit) pair per nullable column with bit below 8.
#[test]
fn layout_invariants_mixed() {
    let target = default_target();
    let row = RowLayoutBuilder::new()
        .with_row(RowType::Bool, true)
        .with_row(RowType::U64, false)
        .with_row(RowType::String, true)
        .with_row(RowType::Unit, true)
        .with_row(RowType::I16, true)
        .with_row(RowType::F32, false)
        .with_row(RowType::I64, true)
        .build();

    let layout = Layout::from_row(&row, &target);
    assert_eq!(layout.size() % layout.align(), 0);
    assert!(layout.align() == 1 || layout.align() == 2 || layout.align() == 4
        || layout.align() == 8);

    let columns = [
        (0usize, true),
        (1, false),
        (2, true),
        (4, true),
        (6, true),
    ];
    let mut ranges: Vec<(u32, u32)> = Vec::new();
    for &(c, _nullable) in &[(0usize, true), (1, false), (2, true), (5, false), (4, true), (6, true)] {
        let off = layout.offset_of(c);
        let size = layout.type_of(c).size(&target);
        assert_eq!(off % layout.type_of(c).align(&target), 0);
        assert!(off + size <= layout.size());
        ranges.push((off, off + size));
    }
    let mut flags: Vec<(u32, u8)> = Vec::new();
    for &(c, nullable) in &columns {
        assert_eq!(layout.is_nullable(c), nullable);
        if nullable {
            let (ty, off, bit) = layout.nullability_of(c);
            assert_eq!(ty, Type::U8);
            assert!(bit < 8);
            assert!(off + 1 <= layout.size());
            // No column may overlap a bitset byte.
            for &(lo, hi) in &ranges {
                assert!(off + 1 <= lo || hi <= off);
            }
            flags.push((off, bit));
        }
    }
    // Exactly one distinct pair per nullable column.
    for i in 0..flags.len() {
        for j in 0..flags.len() {
            if i != j {
                assert_ne!(flags[i], flags[j]);
            }
        }
    }
    // Non-unit columns occupy pairwise disjoint ranges.
    for i in 0..ranges.len() {
        for j in 0..ranges.len() {
            if i != j {
                let (lo1, hi1) = ranges[i];
                let (lo2, hi2) = ranges[j];
                assert!(hi1 <= lo2 || hi2 <= lo1);
            }
        }
    }
}

#[test]
fn pointer_width_drives_string_columns() {
    let target32 = TargetConfig { default_call_conv: CallConv::Fast, pointer_width: PointerWidth::U32 };
    let row = RowLayoutBuilder::new().with_row(RowType::String, false).build();
    let layout = Layout::from_row(&row, &target32);
    assert_eq!(layout.type_of(0), Type::Ptr);
    assert_eq!(layout.size(), 4);
    assert_eq!(layout.align(), 4);
    assert_eq!(layout.type_of(0).native_type(&target32), NativeType::I32);
}

#[test]
fn padding_and_bitflag_helpers() {
    assert_eq!(padding_needed_for(0, 8), 0);
    assert_eq!(padding_needed_for(1, 8), 7);
    assert_eq!(padding_needed_for(6, 2), 0);
    assert_eq!(padding_needed_for(5, 4), 3);
    assert_eq!(bits_to_bitflags(0).len(), 0);
    assert_eq!(bits_to_bitflags(1).len(), 1);
    assert_eq!(bits_to_bitflags(8).len(), 1);
    assert_eq!(bits_to_bitflags(9).len(), 2);
    assert!(bits_to_bitflags(9).iter().all(|t| t.is_u8()));
}

#[test]
fn alloc_array_footprint() {
    let row = RowLayoutBuilder::new()
        .with_row(RowType::I32, false)
        .with_row(RowType::I64, false)
        .build();
    let layout = Layout::from_row(&row, &default_target());
    assert_eq!(layout.size(), 16);
    let arr = layout.alloc_array(3);
    assert_eq!(arr.data.len(), 48);
    let sentinel = layout.alloc_array(0);
    assert_eq!(sentinel.data.len(), 0);
}

#[test]
fn null_row_fill_bytes() {
    let row = RowLayoutBuilder::new().with_row(RowType::Bool, true).build();
    let layout = Layout::from_row(&row, &default_target());
    let ones = layout.null_row(NullSigil::One);
    assert!(ones.data.iter().all(|&b| b == 0xFF));
    let zeros = layout.null_row(NullSigil::Zero);
    assert!(zeros.data.iter().all(|&b| b == 0x00));
}
