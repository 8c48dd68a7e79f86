//! Physical layout synthesis: packing a row's typed, possibly-nullable
//! columns into a byte buffer with correct alignment, deterministic offsets,
//! and nullability flags stored in dispersed one-byte bitsets that reuse
//! natural padding where possible.

use crate::ir::{RowLayout, RowType};
use crate::target::{NativeType, TargetConfig};
use vstd::prelude::*;

verus! {

/// The closed set of physical scalar kinds the code generator understands.
#[derive(Debug, Copy, Clone, PartialEq, Eq, Structural)]
pub enum Type {
    U8,
    I8,
    U16,
    I16,
    U32,
    I32,
    U64,
    I64,
    F32,
    F64,
    Ptr,
    Bool,
    Usize,
}

impl Type {
    /// The scalar type used for values of this kind in the code builder.
    pub open spec fn spec_native_type(&self, target: &TargetConfig) -> NativeType {
        match self {
            Type::Ptr | Type::Usize => target.spec_pointer_type(),
            Type::U64 | Type::I64 => NativeType::I64,
            Type::U32 | Type::I32 => NativeType::I32,
            Type::F64 => NativeType::F64,
            Type::F32 => NativeType::F32,
            Type::U16 | Type::I16 => NativeType::I16,
            Type::U8 | Type::I8 | Type::Bool => NativeType::I8,
        }
    }

    #[verifier::when_used_as_spec(spec_native_type)]
    pub fn native_type(&self, target: &TargetConfig) -> (r: NativeType)
        ensures
            r == self.spec_native_type(target),
    {
        match self {
            Type::Ptr | Type::Usize => target.pointer_type(),
            Type::U64 | Type::I64 => NativeType::I64,
            Type::U32 | Type::I32 => NativeType::I32,
            Type::F64 => NativeType::F64,
            Type::F32 => NativeType::F32,
            Type::U16 | Type::I16 => NativeType::I16,
            Type::U8 | Type::I8 | Type::Bool => NativeType::I8,
        }
    }

    /// The number of bytes a value of this kind occupies.
    pub open spec fn spec_size(&self, target: &TargetConfig) -> u32 {
        match self {
            Type::Ptr | Type::Usize => target.spec_pointer_bytes(),
            Type::U64 | Type::I64 | Type::F64 => 8,
            Type::U32 | Type::I32 | Type::F32 => 4,
            Type::U16 | Type::I16 => 2,
            Type::U8 | Type::I8 | Type::Bool => 1,
        }
    }

    #[verifier::when_used_as_spec(spec_size)]
    pub fn size(&self, target: &TargetConfig) -> (r: u32)
        ensures
            r == self.spec_size(target),
    {
        match self {
            Type::Ptr | Type::Usize => target.pointer_bytes(),
            Type::U64 | Type::I64 | Type::F64 => 8,
            Type::U32 | Type::I32 | Type::F32 => 4,
            Type::U16 | Type::I16 => 2,
            Type::U8 | Type::I8 | Type::Bool => 1,
        }
    }

    /// Every kind has natural alignment: its alignment equals its size.
    pub open spec fn spec_align(&self, target: &TargetConfig) -> u32 {
        self.spec_size(target)
    }

    #[verifier::when_used_as_spec(spec_align)]
    pub fn align(&self, target: &TargetConfig) -> (r: u32)
        ensures
            r == self.spec_align(target),
    {
        self.size(target)
    }

    /// The number of bits a value of this kind occupies.
    pub open spec fn spec_bits(&self, target: &TargetConfig) -> u32 {
        match self {
            Type::Ptr | Type::Usize => target.spec_pointer_bits(),
            Type::U64 | Type::I64 | Type::F64 => 64,
            Type::U32 | Type::I32 | Type::F32 => 32,
            Type::U16 | Type::I16 => 16,
            Type::U8 | Type::I8 | Type::Bool => 8,
        }
    }

    #[verifier::when_used_as_spec(spec_bits)]
    pub fn bits(&self, target: &TargetConfig) -> (r: u32)
        ensures
            r == self.spec_bits(target),
    {
        match self {
            Type::Ptr | Type::Usize => target.pointer_bits(),
            Type::U64 | Type::I64 | Type::F64 => 64,
            Type::U32 | Type::I32 | Type::F32 => 32,
            Type::U16 | Type::I16 => 16,
            Type::U8 | Type::I8 | Type::Bool => 8,
        }
    }

    /// Sizes are always one of 1, 2, 4 or 8 bytes, and alignment equals size.
    pub proof fn lemma_size_facts(self, target: &TargetConfig)
        ensures
            self.spec_size(target) == 1 || self.spec_size(target) == 2 || self.spec_size(target)
                == 4 || self.spec_size(target) == 8,
            self.spec_align(target) == self.spec_size(target),
    {
    }

    pub open spec fn spec_is_u8(&self) -> bool {
        self is U8
    }

    /// Returns `true` if the type is a [`U8`].
    ///
    /// [`U8`]: Type::U8
    #[verifier::when_used_as_spec(spec_is_u8)]
    pub fn is_u8(&self) -> (r: bool)
        ensures
            r == self.spec_is_u8(),
    {
        matches!(self, Type::U8)
    }

    /// The physical type of a logical row type, or `None` for the zero-sized
    /// [`RowType::Unit`].
    pub open spec fn spec_from_row_type(row_type: RowType) -> Option<Type> {
        match row_type {
            RowType::Bool => Some(Type::Bool),
            RowType::U16 => Some(Type::U16),
            RowType::I16 => Some(Type::I16),
            RowType::U32 => Some(Type::U32),
            RowType::I32 => Some(Type::I32),
            RowType::U64 => Some(Type::U64),
            RowType::I64 => Some(Type::I64),
            RowType::F32 => Some(Type::F32),
            RowType::F64 => Some(Type::F64),
            // Strings are represented as a pointer to a length-prefixed string
            RowType::String => Some(Type::Ptr),
            RowType::Unit => None,
        }
    }

    /// Creates a type from the given [`RowType`], returning `None`
    /// if it's a [`RowType::Unit`]
    #[verifier::when_used_as_spec(spec_from_row_type)]
    pub fn from_row_type(row_type: RowType) -> (r: Option<Type>)
        ensures
            r == Type::spec_from_row_type(row_type),
    {
        match row_type {
            RowType::Bool => Some(Type::Bool),
            RowType::U16 => Some(Type::U16),
            RowType::I16 => Some(Type::I16),
            RowType::U32 => Some(Type::U32),
            RowType::I32 => Some(Type::I32),
            RowType::U64 => Some(Type::U64),
            RowType::I64 => Some(Type::I64),
            RowType::F32 => Some(Type::F32),
            RowType::F64 => Some(Type::F64),
            RowType::String => Some(Type::Ptr),
            RowType::Unit => None,
        }
    }
}

/// Configuration of the layout synthesizer: the target to size scalars
/// for, and whether the column-reordering optimization is enabled. The
/// optimized path is not part of this synthesizer; layouts are computed in
/// source order.
#[derive(Debug, Clone, Copy, PartialEq, Eq, Structural)]
pub struct LayoutConfig {
    pub target: TargetConfig,
    /// If true, layouts will be optimized
    pub optimize_layouts: bool,
}

impl LayoutConfig {
    pub fn new(frontend: TargetConfig, optimize_layouts: bool) -> (r: Self)
        ensures
            r.target == frontend,
            r.optimize_layouts == optimize_layouts,
    {
        LayoutConfig { target: frontend, optimize_layouts }
    }
}

/// The padding needed after `size` bytes to reach a multiple of `align`.
pub open spec fn spec_padding_needed(size: int, align: int) -> int {
    if size % align == 0 {
        0
    } else {
        align - size % align
    }
}

/// Computes the padding that advances `size` to the next multiple of `align`.
pub fn padding_needed_for(size: u32, align: u32) -> (r: u32)
    requires
        1 <= align,
    ensures
        r == spec_padding_needed(size as int, align as int),
        r < align,
        (size + r) % (align as int) == 0,
{
    let rem = size % align;
    let r = if rem == 0 {
        0
    } else {
        align - rem
    };
    proof {
        let s = size as int;
        let a = align as int;
        vstd::arithmetic::div_mod::lemma_fundamental_div_mod(s, a);
        if s % a != 0 {
            assert(s + (a - s % a) == a * (s / a + 1)) by {
                vstd::arithmetic::mul::lemma_mul_is_distributive_add(a, s / a, 1);
                assert(s == a * (s / a) + s % a);
            }
            vstd::arithmetic::div_mod::lemma_mod_multiples_basic(s / a + 1, a);
        }
    }
    r
}

/// The number of one-byte bitsets needed to carry `required` nullability
/// flags: the flags are packed eight to a byte.
pub open spec fn spec_bitset_bytes(required: int) -> int {
    (required + 7) / 8
}

/// Nullability flags are stored as bytes which are dispersed throughout the
/// row, used to fill padding bytes or tacked onto the end of the row.
pub fn bits_to_bitflags(required_bitflags: usize) -> (r: Vec<Type>)
    requires
        required_bitflags <= usize::MAX - 7,
    ensures
        r@.len() == spec_bitset_bytes(required_bitflags as int),
        forall|i: int| 0 <= i < r@.len() ==> r@[i] == Type::U8,
{
    let bytes = (required_bitflags / 8) + if required_bitflags % 8 != 0 {
        1
    } else {
        0
    };
    proof {
        let n = required_bitflags as int;
        vstd::arithmetic::div_mod::lemma_fundamental_div_mod(n, 8);
        vstd::arithmetic::div_mod::lemma_fundamental_div_mod(n + 7, 8);
    }
    let mut r: Vec<Type> = Vec::new();
    let mut i: usize = 0;
    while i < bytes
        invariant
            i <= bytes,
            r@.len() == i,
            forall|j: int| 0 <= j < r@.len() ==> r@[j] == Type::U8,
        decreases bytes - i,
    {
        r.push(Type::U8);
        i = i + 1;
    }
    r
}

/// The running state of the source-order packing after the first `upto`
/// columns: the bytes consumed so far, and the bitset bytes still waiting
/// to be placed into padding. A non-`Unit` column first advances to its
/// alignment — bitset bytes fill that padding while any remain — and then
/// consumes its own size; `Unit` columns consume nothing.
pub open spec fn spec_layout_state(
    rows: Seq<RowType>,
    nulls: Seq<bool>,
    target: &TargetConfig,
    upto: int,
) -> (int, int)
    decreases upto,
{
    if upto <= 0 {
        (
            0,
            spec_bitset_bytes(crate::ir::seq_nullable_before(nulls, nulls.len() as int)),
        )
    } else {
        let prev = spec_layout_state(rows, nulls, target, upto - 1);
        match Type::spec_from_row_type(rows[upto - 1]) {
            Some(t) => {
                let p = spec_padding_needed(prev.0, t.spec_align(target) as int);
                let consumed = if p <= prev.1 {
                    p
                } else {
                    prev.1
                };
                (prev.0 + p + t.spec_size(target), prev.1 - consumed)
            },
            None => prev,
        }
    }
}

/// The remaining-bitset count of the packing state never goes negative and
/// never exceeds the initial bitset count.
pub proof fn lemma_layout_state_left_bounds(
    rows: Seq<RowType>,
    nulls: Seq<bool>,
    target: &TargetConfig,
    upto: int,
)
    requires
        upto >= 0,
    ensures
        spec_layout_state(rows, nulls, target, upto).1 >= 0,
        spec_layout_state(rows, nulls, target, upto).1 <= spec_layout_state(rows, nulls, target, 0).1,
        upto > 0 ==> spec_layout_state(rows, nulls, target, upto).1 <= spec_layout_state(
            rows,
            nulls,
            target,
            upto - 1,
        ).1,
    decreases upto,
{
    if upto <= 0 {
        crate::ir::lemma_seq_nullable_before_monotone(nulls, 0, nulls.len() as int);
        vstd::arithmetic::div_mod::lemma_div_pos_is_pos(
            crate::ir::seq_nullable_before(nulls, nulls.len() as int) + 7,
            8,
        );
    }
    if upto > 0 {
        lemma_layout_state_left_bounds(rows, nulls, target, upto - 1);
        let prev = spec_layout_state(rows, nulls, target, upto - 1);
        let cur = spec_layout_state(rows, nulls, target, upto);
        match Type::spec_from_row_type(rows[upto - 1]) {
            Some(t) => {
                t.lemma_size_facts(target);
                let a = t.spec_align(target) as int;
                vstd::arithmetic::div_mod::lemma_mod_division_less_than_divisor(prev.0, a);
                let p = spec_padding_needed(prev.0, a);
                assert(p >= 0);
                let consumed = if p <= prev.1 {
                    p
                } else {
                    prev.1
                };
                assert(cur.1 == prev.1 - consumed);
                assert(0 <= cur.1 <= prev.1);
            },
            None => {
                assert(cur == prev);
            },
        }
    }
}

/// The byte offsets of the bitset bytes placed into padding among the first
/// `upto` columns, in emission order: each non-`Unit` column's padding
/// consumes bitset bytes at consecutive offsets from the column's
/// pre-padding position.
pub open spec fn spec_bitset_offsets_before(
    rows: Seq<RowType>,
    nulls: Seq<bool>,
    target: &TargetConfig,
    upto: int,
) -> Seq<int>
    decreases upto,
{
    if upto <= 0 {
        Seq::empty()
    } else {
        let prev_seq = spec_bitset_offsets_before(rows, nulls, target, upto - 1);
        let prev = spec_layout_state(rows, nulls, target, upto - 1);
        match Type::spec_from_row_type(rows[upto - 1]) {
            Some(t) => {
                let p = spec_padding_needed(prev.0, t.spec_align(target) as int);
                let consumed = if p <= prev.1 {
                    p
                } else {
                    prev.1
                };
                prev_seq + Seq::new(consumed as nat, |i: int| prev.0 + i)
            },
            None => prev_seq,
        }
    }
}

/// The byte offsets of all the bitset bytes, in emission order: those
/// placed into padding, then those appended at the row tail.
pub open spec fn spec_bitset_offsets(
    rows: Seq<RowType>,
    nulls: Seq<bool>,
    target: &TargetConfig,
) -> Seq<int> {
    let st = spec_layout_state(rows, nulls, target, rows.len() as int);
    spec_bitset_offsets_before(rows, nulls, target, rows.len() as int) + Seq::new(
        st.1 as nat,
        |i: int| st.0 + i,
    )
}

/// The padding-placed bitset bytes among the first `upto` columns are
/// exactly the ones no longer waiting in the packing state.
pub proof fn lemma_bitset_offsets_len(
    rows: Seq<RowType>,
    nulls: Seq<bool>,
    target: &TargetConfig,
    upto: int,
)
    requires
        upto >= 0,
    ensures
        spec_bitset_offsets_before(rows, nulls, target, upto).len() == spec_layout_state(
            rows,
            nulls,
            target,
            0,
        ).1 - spec_layout_state(rows, nulls, target, upto).1,
    decreases upto,
{
    if upto > 0 {
        lemma_bitset_offsets_len(rows, nulls, target, upto - 1);
        lemma_layout_state_left_bounds(rows, nulls, target, upto - 1);
    }
}

/// The byte offset the synthesizer assigns to the non-`Unit` column `c`:
/// the bytes consumed before it, plus the padding up to its alignment.
pub open spec fn spec_column_offset(
    rows: Seq<RowType>,
    nulls: Seq<bool>,
    target: &TargetConfig,
    c: int,
) -> int {
    let st = spec_layout_state(rows, nulls, target, c);
    st.0 + spec_padding_needed(
        st.0,
        Type::spec_from_row_type(rows[c]).unwrap().spec_align(target) as int,
    )
}

/// The total size of the synthesized layout: the packed columns, the
/// bitset bytes that found no padding to live in appended at the tail, and
/// trailing padding up to the row alignment.
pub open spec fn spec_layout_size(rows: Seq<RowType>, nulls: Seq<bool>, target: &TargetConfig) -> int {
    let st = spec_layout_state(rows, nulls, target, rows.len() as int);
    let with_tail = st.0 + st.1;
    with_tail + spec_padding_needed(with_tail, spec_row_align(rows, target))
}

/// Holds when the physical entries `types`/`offsets` are placed at
/// nondecreasing, aligned, pairwise disjoint byte ranges that all fit below
/// `size`.
pub open spec fn entries_wf(types: Seq<Type>, offsets: Seq<u32>, size: int, target: &TargetConfig) -> bool {
    &&& types.len() == offsets.len()
    &&& forall|j: int|
        0 <= j < types.len() ==> (#[trigger] offsets[j]) as int % types[j].spec_align(target) as int
            == 0
    &&& forall|j: int| 0 <= j < types.len() ==> (#[trigger] offsets[j]) + types[j].spec_size(target) <= size
    &&& forall|j1: int, j2: int|
        #![trigger offsets[j1], offsets[j2]]
        0 <= j1 < j2 < types.len() ==> offsets[j1] + types[j1].spec_size(target) <= offsets[j2]
}

/// The largest alignment of any non-`Unit` column among the first `upto`
/// columns of `row`, and 1 when there is none.
pub open spec fn spec_row_align_before(rows: Seq<RowType>, target: &TargetConfig, upto: int) -> int
    decreases upto,
{
    if upto <= 0 {
        1
    } else {
        let rest = spec_row_align_before(rows, target, upto - 1);
        match Type::spec_from_row_type(rows[upto - 1]) {
            Some(t) => if t.spec_align(target) as int > rest {
                t.spec_align(target) as int
            } else {
                rest
            },
            None => rest,
        }
    }
}

/// The alignment of a whole row: the largest alignment of any of its
/// non-`Unit` columns, at least 1.
pub open spec fn spec_row_align(rows: Seq<RowType>, target: &TargetConfig) -> int {
    spec_row_align_before(rows, target, rows.len() as int)
}

/// The in-memory encoding chosen for a `RowLayout`: total size (including
/// trailing padding), alignment, the physical entries actually materialized
/// (column fields and nullability bitset bytes) with their byte offsets, the
/// mapping from logical columns to physical entries, and the mapping from
/// nullable columns to the bitset byte and bit that carry their null flag.
#[derive(Debug)]
pub struct Layout {
    pub size: u32,
    pub align: u32,
    pub types: Vec<Type>,
    pub offsets: Vec<u32>,
    /// A mapping from the source `RowLayout`'s indices to the physical
    /// indices values are stored at. `Unit` columns map to the index of
    /// whatever physical entry would have followed them: they are phantom,
    /// consume no bytes, and must never be loaded or stored.
    pub index_mappings: Vec<u32>,
    /// A mapping from the source `RowLayout`'s indices to the physical index
    /// of the bitset byte and the bit within it that carry the column's
    /// null-ness; `None` when the column isn't nullable.
    pub bitflag_mappings: Vec<Option<(u32, u8)>>,
}

impl Clone for Layout {
    fn clone(&self) -> (r: Self)
        ensures
            r.size == self.size,
            r.align == self.align,
            r.types@ == self.types@,
            r.offsets@ == self.offsets@,
            r.index_mappings@ == self.index_mappings@,
            r.bitflag_mappings@ == self.bitflag_mappings@,
    {
        let types = self.types.clone();
        let offsets = self.offsets.clone();
        let index_mappings = self.index_mappings.clone();
        let mut bitflag_mappings: Vec<Option<(u32, u8)>> = Vec::new();
        let mut i: usize = 0;
        while i < self.bitflag_mappings.len()
            invariant
                i <= self.bitflag_mappings@.len(),
                bitflag_mappings@ == self.bitflag_mappings@.take(i as int),
            decreases self.bitflag_mappings@.len() - i,
        {
            bitflag_mappings.push(self.bitflag_mappings[i]);
            proof {
                assert(bitflag_mappings@ =~= self.bitflag_mappings@.take(i + 1));
            }
            i = i + 1;
        }
        proof {
            assert(types@ =~= self.types@);
            assert(offsets@ =~= self.offsets@);
            assert(index_mappings@ =~= self.index_mappings@);
            assert(bitflag_mappings@ =~= self.bitflag_mappings@);
        }
        Layout {
            size: self.size,
            align: self.align,
            types,
            offsets,
            index_mappings,
            bitflag_mappings,
        }
    }
}

impl Layout {
    /// The intrinsic invariants of a synthesized layout: entries are aligned,
    /// disjoint and within bounds; the alignment is a power of two that
    /// divides the size; every null-flag entry points at a bitset byte with a
    /// bit position below 8; and distinct nullable columns hold distinct
    /// `(bitset byte, bit)` pairs.
    pub open spec fn wf(self, target: &TargetConfig) -> bool {
        &&& entries_wf(self.types@, self.offsets@, self.size as int, target)
        &&& (self.align == 1 || self.align == 2 || self.align == 4 || self.align == 8)
        &&& self.size as int % self.align as int == 0
        &&& self.index_mappings@.len() == self.bitflag_mappings@.len()
        &&& forall|c: int|
            0 <= c < self.index_mappings@.len() ==> (#[trigger] self.index_mappings@[c])
                <= self.types@.len()
        &&& forall|c: int|
            0 <= c < self.bitflag_mappings@.len() ==> ((#[trigger] self.bitflag_mappings@[c])
                matches Some(p) ==> p.0 < self.types@.len() && self.types@[p.0 as int] == Type::U8
                && p.1 < 8)
        &&& forall|c1: int, c2: int|
            #![trigger self.bitflag_mappings@[c1], self.bitflag_mappings@[c2]]
            0 <= c1 < c2 < self.bitflag_mappings@.len() ==> !(self.bitflag_mappings@[c1] is Some
                && self.bitflag_mappings@[c1] == self.bitflag_mappings@[c2])
    }

    /// Ties a layout to the `RowLayout` it was synthesized from: each
    /// non-`Unit` column owns its physical entry of the right type, the
    /// column-to-physical map is monotone (phantom `Unit` columns share the
    /// index of the entry that follows them), a column has a null-flag entry
    /// exactly when it is nullable, the k-th nullable column (in source
    /// order) holds bit `k % 8` of the `k / 8`-th bitset byte, bitset bytes
    /// are disjoint from all column entries, the number of physical entries
    /// is exactly the number of non-`Unit` columns plus the number of bitset
    /// bytes, and the alignment is the largest column alignment.
    pub open spec fn models(self, row: RowLayout, target: &TargetConfig) -> bool {
        let rows = row.spec_rows();
        &&& self.index_mappings@.len() == rows.len()
        &&& self.bitflag_mappings@.len() == rows.len()
        &&& forall|c: int|
            0 <= c < rows.len() && !(rows[c] is Unit) ==> (#[trigger] self.index_mappings@[c])
                < self.types@.len() && self.types@[self.index_mappings@[c] as int]
                == Type::spec_from_row_type(rows[c]).unwrap()
        &&& forall|c1: int, c2: int|
            #![trigger self.index_mappings@[c1], self.index_mappings@[c2]]
            0 <= c1 <= c2 < rows.len() ==> self.index_mappings@[c1] <= self.index_mappings@[c2]
        &&& forall|c1: int, c2: int|
            #![trigger self.index_mappings@[c1], self.index_mappings@[c2]]
            0 <= c1 < c2 < rows.len() && !(rows[c1] is Unit) ==> self.index_mappings@[c1]
                < self.index_mappings@[c2]
        &&& forall|c: int|
            0 <= c < rows.len() ==> ((#[trigger] self.bitflag_mappings@[c]) is Some
                <==> row.spec_nullability()[c])
        &&& forall|c: int|
            0 <= c < rows.len() ==> ((#[trigger] self.bitflag_mappings@[c]) matches Some(p) ==> p.1
                as int == row.nullable_rank(c) % 8)
        &&& forall|c1: int, c2: int|
            #![trigger self.bitflag_mappings@[c1], self.bitflag_mappings@[c2]]
            0 <= c1 < rows.len() && 0 <= c2 < rows.len() && self.bitflag_mappings@[c1] is Some
                && self.bitflag_mappings@[c2] is Some ==> (self.bitflag_mappings@[c1].unwrap().0
                == self.bitflag_mappings@[c2].unwrap().0 <==> row.nullable_rank(c1) / 8
                == row.nullable_rank(c2) / 8)
        &&& forall|c1: int, c2: int|
            #![trigger self.bitflag_mappings@[c1], self.index_mappings@[c2]]
            0 <= c1 < rows.len() && 0 <= c2 < rows.len() && !(rows[c2] is Unit) ==> (
            self.bitflag_mappings@[c1] matches Some(p) ==> p.0 != self.index_mappings@[c2])
        &&& self.types@.len() == row.non_unit_before(rows.len() as int) + spec_bitset_bytes(
            row.nullable_count(),
        )
        &&& self.align as int == spec_row_align(rows, target)
        &&& self.size as int == spec_layout_size(rows, row.spec_nullability(), target)
        &&& forall|c: int|
            0 <= c < rows.len() ==> (#[trigger] self.index_mappings@[c]) as int
                == row.non_unit_before(c) + spec_bitset_bytes(row.nullable_count())
                - spec_layout_state(rows, row.spec_nullability(), target, c + 1).1
        &&& forall|c: int|
            0 <= c < rows.len() && !(rows[c] is Unit) ==> self.offsets@[(
            #[trigger] self.index_mappings@[c]) as int] as int == spec_column_offset(
                rows,
                row.spec_nullability(),
                target,
                c,
            )
        &&& forall|c: int|
            0 <= c < rows.len() ==> ((#[trigger] self.bitflag_mappings@[c]) matches Some(p)
                ==> self.offsets@[p.0 as int] as int == spec_bitset_offsets(
                    rows,
                    row.spec_nullability(),
                    target,
                )[row.nullable_rank(c) / 8])
    }

    /// Returns `true` if the given column is nullable
    pub fn is_nullable(&self, column: usize) -> (r: bool)
        requires
            column < self.bitflag_mappings@.len(),
        ensures
            r == self.bitflag_mappings@[column as int] is Some,
    {
        self.bitflag_mappings[column].is_some()
    }

    /// The physical entries of the layout as `(offset, type)` pairs, in
    /// placement order.
    pub fn columns(&self) -> (r: Vec<(u32, Type)>)
        requires
            self.types@.len() == self.offsets@.len(),
        ensures
            r@.len() == self.types@.len(),
            forall|i: int|
                0 <= i < r@.len() ==> (#[trigger] r@[i]) == (self.offsets@[i], self.types@[i]),
    {
        let mut r: Vec<(u32, Type)> = Vec::new();
        let mut i: usize = 0;
        while i < self.offsets.len()
            invariant
                self.types@.len() == self.offsets@.len(),
                i <= self.offsets@.len(),
                r@.len() == i,
                forall|j: int|
                    0 <= j < r@.len() ==> (#[trigger] r@[j]) == (self.offsets@[j], self.types@[j]),
            decreases self.offsets@.len() - i,
        {
            r.push((self.offsets[i], self.types[i]));
            i = i + 1;
        }
        r
    }

    /// Returns the offset of the given column
    pub fn offset_of(&self, column: usize) -> (r: u32)
        requires
            column < self.index_mappings@.len(),
            self.index_mappings@[column as int] < self.offsets@.len(),
        ensures
            r == self.offsets@[self.index_mappings@[column as int] as int],
    {
        self.offsets[self.index_mappings[column] as usize]
    }

    /// Returns the type of the given column
    pub fn type_of(&self, column: usize) -> (r: Type)
        requires
            column < self.index_mappings@.len(),
            self.index_mappings@[column as int] < self.types@.len(),
        ensures
            r == self.types@[self.index_mappings@[column as int] as int],
    {
        self.types[self.index_mappings[column] as usize]
    }

    /// Returns the type, offset and bit position of the given column's
    /// nullability flag. The column must be nullable.
    pub fn nullability_of(&self, column: usize) -> (r: (Type, u32, u8))
        requires
            column < self.bitflag_mappings@.len(),
            self.bitflag_mappings@[column as int] is Some,
            self.bitflag_mappings@[column as int].unwrap().0 < self.types@.len(),
            self.types@.len() == self.offsets@.len(),
        ensures
            ({
                let p = self.bitflag_mappings@[column as int].unwrap();
                r == (self.types@[p.0 as int], self.offsets@[p.0 as int], p.1)
            }),
    {
        let (idx, bit) = self.bitflag_mappings[column].unwrap();
        (self.types[idx as usize], self.offsets[idx as usize], bit)
    }

    pub open spec fn spec_size(&self) -> u32 {
        self.size
    }

    #[verifier::when_used_as_spec(spec_size)]
    pub fn size(&self) -> (r: u32)
        ensures
            r == self.size,
    {
        self.size
    }

    pub open spec fn spec_is_zero_sized(&self) -> bool {
        self.size == 0
    }

    /// Returns `true` if the layout materializes no bytes at all.
    #[verifier::when_used_as_spec(spec_is_zero_sized)]
    pub fn is_zero_sized(&self) -> (r: bool)
        ensures
            r == (self.size == 0),
    {
        self.size == 0
    }

    pub open spec fn spec_align(&self) -> u32 {
        self.align
    }

    #[verifier::when_used_as_spec(spec_align)]
    pub fn align(&self) -> (r: u32)
        ensures
            r == self.align,
    {
        self.align
    }

    /// Synthesizes the physical layout of `layout` in source order. The
    /// bitset bytes needed for the nullability flags are computed up front,
    /// consumed one at a time to fill natural padding in front of a field
    /// where possible and appended at the row tail otherwise; null-flag bits
    /// are then handed out to the nullable columns in source order, eight
    /// per bitset byte. The total size is padded to a multiple of the
    /// alignment. Layout size arithmetic is 32-bit; the bound on the column
    /// count keeps it from overflowing.
    #[verifier::loop_isolation(false)]
    #[verifier::rlimit(100)]
    pub fn from_row(layout: &RowLayout, target: &TargetConfig) -> (r: Layout)
        requires
            layout.wf(),
            layout.spec_rows().len() <= 0x0800_0000,
        ensures
            r.wf(target),
            r.models(*layout, target),
    {
        let n = layout.len();
        let required_bitflags = layout.count_nullable();
        proof {
            layout.lemma_nullable_before_bounds(0, n as int);
        }
        let bitflags = bits_to_bitflags(required_bitflags);
        let total_b = bitflags.len();
        proof {
            let nn = layout.nullable_count();
            if nn >= 1 {
                vstd::arithmetic::div_mod::lemma_div_is_ordered(nn + 7, 8 * nn, 8);
                vstd::arithmetic::div_mod::lemma_div_multiples_vanish(nn, 8);
            }
            assert(total_b <= n);
        }
        let mut bitflags_left: usize = total_b;
        let mut bitflag_indices: Vec<u32> = Vec::new();
        let mut offsets: Vec<u32> = Vec::new();
        let mut types: Vec<Type> = Vec::new();
        let mut index_mappings: Vec<u32> = Vec::new();
        let mut size: u32 = 0;
        let mut align: u32 = 1;
        let mut c: usize = 0;
        while c < n
            invariant
                c <= n,
                index_mappings@.len() == c as int,
                bitflags_left <= total_b,
                bitflag_indices@.len() + bitflags_left == total_b,
                types@.len() == layout.non_unit_before(c as int) + bitflag_indices@.len(),
                entries_wf(types@, offsets@, size as int, target),
                align == spec_row_align_before(layout.spec_rows(), target, c as int),
                align == 1 || align == 2 || align == 4 || align == 8,
                size as int <= 15 * c as int,
                size as int == spec_layout_state(
                    layout.spec_rows(),
                    layout.spec_nullability(),
                    target,
                    c as int,
                ).0,
                bitflags_left as int == spec_layout_state(
                    layout.spec_rows(),
                    layout.spec_nullability(),
                    target,
                    c as int,
                ).1,
                forall|cc: int|
                    0 <= cc < c && !(layout.spec_rows()[cc] is Unit) ==> offsets@[(
                    #[trigger] index_mappings@[cc]) as int] as int == spec_column_offset(
                        layout.spec_rows(),
                        layout.spec_nullability(),
                        target,
                        cc,
                    ),
                forall|cc: int|
                    0 <= cc < c ==> (#[trigger] index_mappings@[cc]) as int
                        == layout.non_unit_before(cc) + total_b as int - spec_layout_state(
                        layout.spec_rows(),
                        layout.spec_nullability(),
                        target,
                        cc + 1,
                    ).1,
                bitflag_indices@.len() == spec_bitset_offsets_before(
                    layout.spec_rows(),
                    layout.spec_nullability(),
                    target,
                    c as int,
                ).len(),
                forall|k: int|
                    0 <= k < bitflag_indices@.len() ==> offsets@[(#[trigger] bitflag_indices@[k])
                        as int] as int == spec_bitset_offsets_before(
                        layout.spec_rows(),
                        layout.spec_nullability(),
                        target,
                        c as int,
                    )[k],
                forall|k: int|
                    0 <= k < bitflag_indices@.len() ==> (#[trigger] bitflag_indices@[k])
                        < types@.len() && types@[bitflag_indices@[k] as int] == Type::U8,
                forall|k1: int, k2: int|
                    #![trigger bitflag_indices@[k1], bitflag_indices@[k2]]
                    0 <= k1 < k2 < bitflag_indices@.len() ==> bitflag_indices@[k1]
                        < bitflag_indices@[k2],
                forall|cc: int|
                    0 <= cc < c ==> (#[trigger] index_mappings@[cc]) <= types@.len(),
                forall|cc: int|
                    0 <= cc < c && !(layout.spec_rows()[cc] is Unit) ==> (
                    #[trigger] index_mappings@[cc]) < types@.len() && types@[index_mappings@[cc]
                        as int] == Type::spec_from_row_type(layout.spec_rows()[cc]).unwrap(),
                forall|c1: int, c2: int|
                    #![trigger index_mappings@[c1], index_mappings@[c2]]
                    0 <= c1 <= c2 < c ==> index_mappings@[c1] <= index_mappings@[c2],
                forall|c1: int, c2: int|
                    #![trigger index_mappings@[c1], index_mappings@[c2]]
                    0 <= c1 < c2 < c && !(layout.spec_rows()[c1] is Unit) ==> index_mappings@[c1]
                        < index_mappings@[c2],
                forall|k: int, cc: int|
                    #![trigger bitflag_indices@[k], index_mappings@[cc]]
                    0 <= k < bitflag_indices@.len() && 0 <= cc < c && !(layout.spec_rows()[cc]
                        is Unit) ==> bitflag_indices@[k] != index_mappings@[cc],
            decreases n - c,
        {
            proof {
                layout.lemma_non_unit_before_monotone(0, c as int);
            }
            let row = layout.rows()[c];
            match Type::from_row_type(row) {
                None => {
                    index_mappings.push(types.len() as u32);
                },
                Some(ty) => {
                    proof {
                        ty.lemma_size_facts(target);
                    }
                    let field_align = ty.align(target);
                    if field_align > align {
                        align = field_align;
                    }
                    let mut required_padding = padding_needed_for(size, field_align);
                    let ghost size0 = size;
                    let ghost p0 = required_padding;
                    let ghost left0 = bitflags_left;
                    let ghost pre_bi_len = bitflag_indices@.len() as int;
                    while required_padding > 0 && bitflags_left > 0
                        invariant
                            size as int + required_padding as int == size0 as int + p0 as int,
                            required_padding <= p0,
                            bitflags_left as int + (p0 as int - required_padding as int)
                                == left0 as int,
                            bitflag_indices@.len() as int == pre_bi_len + (p0 as int
                                - required_padding as int),
                            forall|k: int|
                                0 <= k < pre_bi_len ==> offsets@[(#[trigger] bitflag_indices@[k])
                                    as int] as int == spec_bitset_offsets_before(
                                    layout.spec_rows(),
                                    layout.spec_nullability(),
                                    target,
                                    c as int,
                                )[k],
                            forall|k: int|
                                pre_bi_len <= k < bitflag_indices@.len() ==> offsets@[(
                                #[trigger] bitflag_indices@[k]) as int] as int == size0 as int + (
                                k - pre_bi_len),
                            forall|cc: int|
                                0 <= cc < c && !(layout.spec_rows()[cc] is Unit) ==> offsets@[(
                                #[trigger] index_mappings@[cc]) as int] as int
                                    == spec_column_offset(
                                    layout.spec_rows(),
                                    layout.spec_nullability(),
                                    target,
                                    cc,
                                ),
                            bitflags_left <= total_b,
                            bitflag_indices@.len() + bitflags_left == total_b,
                            types@.len() == layout.non_unit_before(c as int)
                                + bitflag_indices@.len(),
                            entries_wf(types@, offsets@, size as int, target),
                            forall|k: int|
                                0 <= k < bitflag_indices@.len() ==> (#[trigger] bitflag_indices@[k])
                                    < types@.len() && types@[bitflag_indices@[k] as int]
                                    == Type::U8,
                            forall|k1: int, k2: int|
                                #![trigger bitflag_indices@[k1], bitflag_indices@[k2]]
                                0 <= k1 < k2 < bitflag_indices@.len() ==> bitflag_indices@[k1]
                                    < bitflag_indices@[k2],
                            forall|cc: int|
                                0 <= cc < c ==> (#[trigger] index_mappings@[cc]) <= types@.len(),
                            forall|cc: int|
                                0 <= cc < c && !(layout.spec_rows()[cc] is Unit) ==> (
                                #[trigger] index_mappings@[cc]) < types@.len()
                                    && types@[index_mappings@[cc] as int]
                                    == Type::spec_from_row_type(layout.spec_rows()[cc]).unwrap(),
                            forall|k: int, cc: int|
                                #![trigger bitflag_indices@[k], index_mappings@[cc]]
                                0 <= k < bitflag_indices@.len() && 0 <= cc < c && !(
                                layout.spec_rows()[cc] is Unit) ==> bitflag_indices@[k]
                                    != index_mappings@[cc],
                        decreases required_padding,
                    {
                        bitflag_indices.push(types.len() as u32);
                        offsets.push(size);
                        types.push(Type::U8);
                        size = size + 1;
                        required_padding = required_padding - 1;
                        bitflags_left = bitflags_left - 1;
                    }
                    proof {
                        let rows = layout.spec_rows();
                        let nulls = layout.spec_nullability();
                        assert(spec_bitset_offsets_before(rows, nulls, target, c as int + 1)
                            =~= spec_bitset_offsets_before(rows, nulls, target, c as int)
                            + Seq::new(
                            (p0 as int - required_padding as int) as nat,
                            |i: int| size0 as int + i,
                        ));
                    }
                    size = size + required_padding;
                    index_mappings.push(types.len() as u32);
                    offsets.push(size);
                    types.push(ty);
                    size = size + ty.size(target);
                },
            }
            c = c + 1;
        }
        while bitflags_left > 0
            invariant
                bitflags_left <= total_b,
                bitflag_indices@.len() + bitflags_left == total_b,
                types@.len() == layout.non_unit_before(n as int) + bitflag_indices@.len(),
                entries_wf(types@, offsets@, size as int, target),
                size as int <= 15 * n as int + bitflag_indices@.len(),
                size as int + bitflags_left as int == spec_layout_state(
                    layout.spec_rows(),
                    layout.spec_nullability(),
                    target,
                    n as int,
                ).0 + spec_layout_state(
                    layout.spec_rows(),
                    layout.spec_nullability(),
                    target,
                    n as int,
                ).1,
                forall|cc: int|
                    0 <= cc < n && !(layout.spec_rows()[cc] is Unit) ==> offsets@[(
                    #[trigger] index_mappings@[cc]) as int] as int == spec_column_offset(
                        layout.spec_rows(),
                        layout.spec_nullability(),
                        target,
                        cc,
                    ),
                forall|cc: int|
                    0 <= cc < n ==> (#[trigger] index_mappings@[cc]) as int
                        == layout.non_unit_before(cc) + total_b as int - spec_layout_state(
                        layout.spec_rows(),
                        layout.spec_nullability(),
                        target,
                        cc + 1,
                    ).1,
                bitflag_indices@.len() >= spec_bitset_offsets_before(
                    layout.spec_rows(),
                    layout.spec_nullability(),
                    target,
                    n as int,
                ).len(),
                forall|k: int|
                    0 <= k < spec_bitset_offsets_before(
                        layout.spec_rows(),
                        layout.spec_nullability(),
                        target,
                        n as int,
                    ).len() ==> offsets@[(#[trigger] bitflag_indices@[k]) as int] as int
                        == spec_bitset_offsets_before(
                        layout.spec_rows(),
                        layout.spec_nullability(),
                        target,
                        n as int,
                    )[k],
                forall|k: int|
                    spec_bitset_offsets_before(
                        layout.spec_rows(),
                        layout.spec_nullability(),
                        target,
                        n as int,
                    ).len() <= k < bitflag_indices@.len() ==> offsets@[(
                    #[trigger] bitflag_indices@[k]) as int] as int == spec_layout_state(
                        layout.spec_rows(),
                        layout.spec_nullability(),
                        target,
                        n as int,
                    ).0 + (k - spec_bitset_offsets_before(
                        layout.spec_rows(),
                        layout.spec_nullability(),
                        target,
                        n as int,
                    ).len()),
                forall|k: int|
                    0 <= k < bitflag_indices@.len() ==> (#[trigger] bitflag_indices@[k])
                        < types@.len() && types@[bitflag_indices@[k] as int] == Type::U8,
                forall|k1: int, k2: int|
                    #![trigger bitflag_indices@[k1], bitflag_indices@[k2]]
                    0 <= k1 < k2 < bitflag_indices@.len() ==> bitflag_indices@[k1]
                        < bitflag_indices@[k2],
                forall|cc: int|
                    0 <= cc < n ==> (#[trigger] index_mappings@[cc]) <= types@.len(),
                forall|cc: int|
                    0 <= cc < n && !(layout.spec_rows()[cc] is Unit) ==> (
                    #[trigger] index_mappings@[cc]) < types@.len() && types@[index_mappings@[cc]
                        as int] == Type::spec_from_row_type(layout.spec_rows()[cc]).unwrap(),
                forall|k: int, cc: int|
                    #![trigger bitflag_indices@[k], index_mappings@[cc]]
                    0 <= k < bitflag_indices@.len() && 0 <= cc < n && !(layout.spec_rows()[cc]
                        is Unit) ==> bitflag_indices@[k] != index_mappings@[cc],
            decreases bitflags_left,
        {
            proof {
                layout.lemma_non_unit_before_monotone(0, n as int);
                lemma_bitset_offsets_len(
                    layout.spec_rows(),
                    layout.spec_nullability(),
                    target,
                    n as int,
                );
                lemma_layout_state_left_bounds(
                    layout.spec_rows(),
                    layout.spec_nullability(),
                    target,
                    n as int,
                );
            }
            bitflag_indices.push(types.len() as u32);
            offsets.push(size);
            types.push(Type::U8);
            size = size + 1;
            bitflags_left = bitflags_left - 1;
        }
        size = size + padding_needed_for(size, align);
        let ghost nb_total = bitflag_indices@.len();
        let mut bitflag_mappings: Vec<Option<(u32, u8)>> = Vec::new();
        let mut rank: usize = 0;
        let mut cc: usize = 0;
        while cc < n
            invariant
                cc <= n,
                bitflag_mappings@.len() == cc as int,
                rank == layout.nullable_before(cc as int),
                forall|c2: int|
                    0 <= c2 < cc ==> ((#[trigger] bitflag_mappings@[c2]) is Some
                        <==> layout.spec_nullability()[c2]),
                forall|c2: int|
                    0 <= c2 < cc && layout.spec_nullability()[c2] ==> (
                    #[trigger] bitflag_mappings@[c2]) == Some(
                        (
                            bitflag_indices@[layout.nullable_rank(c2) / 8],
                            (layout.nullable_rank(c2) % 8) as u8,
                        ),
                    ),
            decreases n - cc,
        {
            proof {
                layout.lemma_nullable_before_bounds(0, cc as int);
                layout.lemma_nullable_before_bounds(cc as int, cc as int + 1);
            }
            if layout.nullability()[cc] {
                proof {
                    layout.lemma_rank_lt_count(cc as int);
                    let nn = layout.nullable_count();
                    vstd::arithmetic::div_mod::lemma_div_plus_one(nn - 1, 8);
                    vstd::arithmetic::div_mod::lemma_div_is_ordered(rank as int, nn - 1, 8);
                    assert(rank as int / 8 < nb_total);
                }
                let fi = rank / 8;
                let bit = (rank % 8) as u8;
                bitflag_mappings.push(Some((bitflag_indices[fi], bit)));
                rank = rank + 1;
            } else {
                bitflag_mappings.push(None);
            }
            cc = cc + 1;
        }
        let r = Layout { size, align, types, offsets, index_mappings, bitflag_mappings };
        proof {
            let rows = layout.spec_rows();
            let nulls = layout.spec_nullability();
            let bm = r.bitflag_mappings@;
            let bi = bitflag_indices@;
            lemma_bitset_offsets_len(rows, nulls, target, n as int);
            lemma_layout_state_left_bounds(rows, nulls, target, n as int);
            assert(spec_bitset_offsets(rows, nulls, target).len() == total_b);
            assert forall|k: int|
                0 <= k < total_b implies r.offsets@[(#[trigger] bi[k]) as int] as int
                == spec_bitset_offsets(rows, nulls, target)[k] by {
                let before_len = spec_bitset_offsets_before(rows, nulls, target, n as int).len();
                if k < before_len {
                    assert(spec_bitset_offsets(rows, nulls, target)[k]
                        == spec_bitset_offsets_before(rows, nulls, target, n as int)[k]);
                } else {
                    assert(spec_bitset_offsets(rows, nulls, target)[k] == spec_layout_state(
                        rows,
                        nulls,
                        target,
                        n as int,
                    ).0 + (k - before_len));
                }
            }
            assert forall|c1: int|
                0 <= c1 < rows.len() && bm[c1] is Some implies r.offsets@[bm[c1].unwrap().0
                as int] as int == spec_bitset_offsets(rows, nulls, target)[layout.nullable_rank(
                c1,
            ) / 8] by {
                layout.lemma_rank_lt_count(c1);
                let nn = layout.nullable_count();
                let rk = layout.nullable_rank(c1);
                vstd::arithmetic::div_mod::lemma_div_plus_one(nn - 1, 8);
                vstd::arithmetic::div_mod::lemma_div_is_ordered(rk, nn - 1, 8);
                vstd::arithmetic::div_mod::lemma_div_pos_is_pos(rk, 8);
                assert(bm[c1] == Some((bi[rk / 8], (rk % 8) as u8)));
                assert(r.offsets@[bi[rk / 8] as int] as int == spec_bitset_offsets(
                    rows,
                    nulls,
                    target,
                )[rk / 8]);
            }
            assert forall|c1: int|
                0 <= c1 < rows.len() && bm[c1] is Some implies (bm[c1].unwrap().0 < r.types@.len()
                && r.types@[bm[c1].unwrap().0 as int] == Type::U8 && bm[c1].unwrap().1 < 8) by {
                layout.lemma_rank_lt_count(c1);
                let nn = layout.nullable_count();
                let rk = layout.nullable_rank(c1);
                vstd::arithmetic::div_mod::lemma_div_plus_one(nn - 1, 8);
                vstd::arithmetic::div_mod::lemma_div_is_ordered(rk, nn - 1, 8);
                vstd::arithmetic::div_mod::lemma_div_pos_is_pos(rk, 8);
                vstd::arithmetic::div_mod::lemma_mod_division_less_than_divisor(rk, 8);
                assert(bm[c1] == Some((bi[rk / 8], (rk % 8) as u8)));
                assert(bi[rk / 8] < r.types@.len() && r.types@[bi[rk / 8] as int] == Type::U8);
            }
            assert forall|c1: int, c2: int|
                0 <= c1 < rows.len() && 0 <= c2 < rows.len() && !(rows[c2] is Unit) && bm[c1]
                    is Some implies bm[c1].unwrap().0 != r.index_mappings@[c2] by {
                layout.lemma_rank_lt_count(c1);
                let nn = layout.nullable_count();
                let rk = layout.nullable_rank(c1);
                vstd::arithmetic::div_mod::lemma_div_plus_one(nn - 1, 8);
                vstd::arithmetic::div_mod::lemma_div_is_ordered(rk, nn - 1, 8);
                vstd::arithmetic::div_mod::lemma_div_pos_is_pos(rk, 8);
                assert(bm[c1] == Some((bi[rk / 8], (rk % 8) as u8)));
                assert(bi[rk / 8] != index_mappings@[c2]);
            }
            assert forall|c1: int|
                0 <= c1 < rows.len() && bm[c1] is Some implies bm[c1].unwrap().1 as int
                    == layout.nullable_rank(c1) % 8 by {
                layout.lemma_rank_lt_count(c1);
                let rk = layout.nullable_rank(c1);
                vstd::arithmetic::div_mod::lemma_mod_division_less_than_divisor(rk, 8);
                assert(bm[c1] == Some((bi[rk / 8], (rk % 8) as u8)));
            }
            assert forall|c1: int, c2: int|
                0 <= c1 < rows.len() && 0 <= c2 < rows.len() && bm[c1] is Some
                    && bm[c2] is Some implies (bm[c1].unwrap().0 == bm[c2].unwrap().0
                <==> layout.nullable_rank(c1) / 8 == layout.nullable_rank(c2) / 8) by {
                let r1 = layout.nullable_rank(c1);
                let r2 = layout.nullable_rank(c2);
                layout.lemma_rank_lt_count(c1);
                layout.lemma_rank_lt_count(c2);
                let nn = layout.nullable_count();
                vstd::arithmetic::div_mod::lemma_div_plus_one(nn - 1, 8);
                vstd::arithmetic::div_mod::lemma_div_is_ordered(r1, nn - 1, 8);
                vstd::arithmetic::div_mod::lemma_div_is_ordered(r2, nn - 1, 8);
                vstd::arithmetic::div_mod::lemma_div_pos_is_pos(r1, 8);
                vstd::arithmetic::div_mod::lemma_div_pos_is_pos(r2, 8);
                if r1 / 8 != r2 / 8 {
                    assert(bi[r1 / 8] != bi[r2 / 8]);
                }
            }
            assert forall|c1: int, c2: int|
                0 <= c1 < c2 < rows.len() && bm[c1] is Some implies !(bm[c1] is Some && bm[c1]
                == bm[c2]) by {
                if bm[c2] is Some {
                    layout.lemma_rank_injective(c1, c2);
                    let r1 = layout.nullable_rank(c1);
                    let r2 = layout.nullable_rank(c2);
                    vstd::arithmetic::div_mod::lemma_fundamental_div_mod(r1, 8);
                    vstd::arithmetic::div_mod::lemma_fundamental_div_mod(r2, 8);
                    vstd::arithmetic::div_mod::lemma_mod_division_less_than_divisor(r1, 8);
                    vstd::arithmetic::div_mod::lemma_mod_division_less_than_divisor(r2, 8);
                    if bm[c1] == bm[c2] {
                        assert(r1 / 8 == r2 / 8);
                        assert((r1 % 8) as u8 == (r2 % 8) as u8);
                        assert(r1 % 8 == r2 % 8);
                        assert(r1 == r2);
                    }
                }
            }
        }
        r
    }
}

/// The total size of a well-formed layout is a multiple of its alignment,
/// and the alignment is one of 1, 2, 4 and 8: a power of two no larger than
/// the widest scalar.
pub proof fn lemma_size_multiple_of_align(l: Layout, target: &TargetConfig)
    requires
        l.wf(target),
    ensures
        l.size as int % l.align as int == 0,
        l.align == 1 || l.align == 2 || l.align == 4 || l.align == 8,
{
}

/// Every non-`Unit` column of a synthesized layout sits at an offset aligned
/// to its type, and its bytes lie entirely below the layout's size.
pub proof fn lemma_column_in_bounds(l: Layout, row: RowLayout, target: &TargetConfig, c: int)
    requires
        l.wf(target),
        l.models(row, target),
        0 <= c < row.spec_rows().len(),
        !(row.spec_rows()[c] is Unit),
    ensures
        ({
            let j = l.index_mappings@[c] as int;
            l.offsets@[j] as int % l.types@[j].spec_align(target) as int == 0 && l.offsets@[j]
                + l.types@[j].spec_size(target) <= l.size
        }),
{
}

/// Two distinct non-`Unit` columns of one layout occupy disjoint byte
/// ranges.
pub proof fn lemma_columns_disjoint(
    l: Layout,
    row: RowLayout,
    target: &TargetConfig,
    c1: int,
    c2: int,
)
    requires
        l.wf(target),
        l.models(row, target),
        0 <= c1 < row.spec_rows().len(),
        0 <= c2 < row.spec_rows().len(),
        c1 != c2,
        !(row.spec_rows()[c1] is Unit),
        !(row.spec_rows()[c2] is Unit),
    ensures
        ({
            let j1 = l.index_mappings@[c1] as int;
            let j2 = l.index_mappings@[c2] as int;
            l.offsets@[j1] + l.types@[j1].spec_size(target) <= l.offsets@[j2] || l.offsets@[j2]
                + l.types@[j2].spec_size(target) <= l.offsets@[j1]
        }),
{
}

/// No non-`Unit` column overlaps the byte that carries any column's
/// nullability flag.
pub proof fn lemma_column_bitset_disjoint(
    l: Layout,
    row: RowLayout,
    target: &TargetConfig,
    c: int,
    c2: int,
)
    requires
        l.wf(target),
        l.models(row, target),
        0 <= c < row.spec_rows().len(),
        0 <= c2 < row.spec_rows().len(),
        row.spec_nullability()[c],
        !(row.spec_rows()[c2] is Unit),
    ensures
        ({
            let p = l.bitflag_mappings@[c].unwrap();
            let j = l.index_mappings@[c2] as int;
            l.offsets@[p.0 as int] + 1 <= l.offsets@[j] || l.offsets@[j] + l.types@[
                j
            ].spec_size(target) <= l.offsets@[p.0 as int]
        }),
{
    let p = l.bitflag_mappings@[c].unwrap();
    let j = l.index_mappings@[c2] as int;
    assert(p.0 != l.index_mappings@[c2]);
    assert(l.types@[p.0 as int].spec_size(target) == 1);
}

/// Every nullable column holds exactly one `(bitset byte, bit)` pair, the
/// bit position is below 8, and no two nullable columns share a pair; a
/// non-nullable column holds none.
pub proof fn lemma_null_flags_unique(
    l: Layout,
    row: RowLayout,
    target: &TargetConfig,
    c1: int,
    c2: int,
)
    requires
        l.wf(target),
        l.models(row, target),
        0 <= c1 < row.spec_rows().len(),
        0 <= c2 < row.spec_rows().len(),
        c1 != c2,
        row.spec_nullability()[c1],
        row.spec_nullability()[c2],
    ensures
        l.bitflag_mappings@[c1] is Some,
        l.bitflag_mappings@[c1].unwrap().1 < 8,
        l.bitflag_mappings@[c1] != l.bitflag_mappings@[c2],
{
}

} // verus!
