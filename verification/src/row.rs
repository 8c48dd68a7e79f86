//! Rows as byte buffers conforming to a [`Layout`]: allocation, null-flag
//! reads and writes, little-endian scalar stores and loads, and whole-row
//! copies. These operations are the byte-level meaning of the row
//! instructions the code generator emits.

use crate::codegen::NullSigil;
use crate::layout::Layout;
use crate::target::TargetConfig;
use vstd::prelude::*;

verus! {

/// 256 to the `k`-th power: the place value of the `k`-th byte of a
/// little-endian scalar.
pub open spec fn pow256(k: int) -> int
    decreases k,
{
    if k <= 0 {
        1
    } else {
        256 * pow256(k - 1)
    }
}

pub proof fn lemma_pow256_pos(k: int)
    ensures
        pow256(k) >= 1,
    decreases k,
{
    if k > 0 {
        lemma_pow256_pos(k - 1);
    }
}

pub proof fn lemma_pow256_monotone(i: int, j: int)
    requires
        i <= j,
    ensures
        pow256(i) <= pow256(j),
    decreases j - i,
{
    if i < j {
        lemma_pow256_monotone(i, j - 1);
        lemma_pow256_pos(j - 1);
    }
}

/// The `k`-th little-endian byte of the value `v`.
pub open spec fn spec_le_byte(v: int, k: int) -> u8 {
    (((v / pow256(k)) % 256) as u8)
}

/// The value encoded by `width` little-endian bytes starting at `off`.
pub open spec fn spec_load_le(bytes: Seq<u8>, off: int, width: int) -> int
    decreases width,
{
    if width <= 0 {
        0
    } else {
        bytes[off] + 256 * spec_load_le(bytes, off + 1, width - 1)
    }
}

/// Whether the flag byte `byte` marks a column as null at position `bit`,
/// given the configured null sigil: with [`NullSigil::One`] a set bit means
/// null, with [`NullSigil::Zero`] an unset bit means null.
pub open spec fn spec_bit_is_null(byte: u8, bit: u8, sigil: NullSigil) -> bool {
    if sigil is One {
        byte & (1u8 << bit) != 0
    } else {
        byte & (1u8 << bit) == 0
    }
}

/// The flag byte after the null flag at position `bit` is set to `is_null`:
/// the bit is driven to the sigil value when the column becomes null and to
/// its complement when it becomes non-null.
pub open spec fn spec_set_bit(byte: u8, bit: u8, sigil: NullSigil, is_null: bool) -> u8 {
    if (sigil is One && is_null) || (sigil is Zero && !is_null) {
        byte | (1u8 << bit)
    } else {
        byte & !(1u8 << bit)
    }
}

/// Setting a null flag and reading it back yields the value written, for
/// both values of the flag and both null sigils.
pub proof fn lemma_set_bit_round_trip(byte: u8, bit: u8, sigil: NullSigil, is_null: bool)
    requires
        bit < 8,
    ensures
        spec_bit_is_null(spec_set_bit(byte, bit, sigil, is_null), bit, sigil) == is_null,
{
    assert((byte | (1u8 << bit)) & (1u8 << bit) != 0 && (byte & !(1u8 << bit)) & (1u8 << bit)
        == 0) by (bit_vector)
        requires
            bit < 8,
    ;
}

/// Setting a null flag changes no other flag in the same byte.
pub proof fn lemma_set_bit_frame(byte: u8, bit: u8, other: u8, sigil: NullSigil, is_null: bool)
    requires
        bit < 8,
        other < 8,
        other != bit,
    ensures
        spec_set_bit(byte, bit, sigil, is_null) & (1u8 << other) == byte & (1u8 << other),
{
    assert((byte | (1u8 << bit)) & (1u8 << other) == byte & (1u8 << other) && (byte & !(1u8
        << bit)) & (1u8 << other) == byte & (1u8 << other)) by (bit_vector)
        requires
            bit < 8,
            other < 8,
            other != bit,
    ;
}

/// A row filled with the null sigil's fill byte reads as null at every bit
/// position, under either sigil: the two sigils give the same `IsNull`
/// semantics.
pub proof fn lemma_null_fill_reads_null(bit: u8, sigil: NullSigil)
    requires
        bit < 8,
    ensures
        spec_bit_is_null(sigil.spec_fill_byte(), bit, sigil),
{
    assert(0xFFu8 & (1u8 << bit) != 0 && 0x00u8 & (1u8 << bit) == 0) by (bit_vector)
        requires
            bit < 8,
    ;
}

/// A contiguous byte buffer holding one row (or a dense array of rows) of
/// some layout. A zero-sized layout yields an empty buffer: the analogue of
/// the non-dereferenceable sentinel address.
#[derive(Debug, PartialEq)]
pub struct Row {
    pub data: Vec<u8>,
}

impl Clone for Row {
    fn clone(&self) -> (r: Self)
        ensures
            r.data@ == self.data@,
    {
        let data = self.data.clone();
        proof {
            assert(data@ =~= self.data@);
        }
        Row { data }
    }
}

impl Row {
    /// Holds when the buffer is exactly one row of `layout`.
    pub open spec fn sized_for(self, layout: Layout) -> bool {
        self.data@.len() == layout.size
    }

    /// Reads the null flag of `column`: loads the bitset byte that carries
    /// it, masks the column's bit and compares against zero with the sense
    /// the null sigil dictates.
    pub fn is_null(
        &self,
        layout: &Layout,
        target: &TargetConfig,
        column: usize,
        sigil: NullSigil,
    ) -> (r: bool)
        requires
            layout.wf(target),
            self.sized_for(*layout),
            column < layout.bitflag_mappings@.len(),
            layout.bitflag_mappings@[column as int] is Some,
        ensures
            ({
                let p = layout.bitflag_mappings@[column as int].unwrap();
                let off = layout.offsets@[p.0 as int] as int;
                r == spec_bit_is_null(self.data@[off], p.1, sigil)
            }),
    {
        let (_bitset_ty, bitset_offset, bit) = layout.nullability_of(column);
        let byte = self.data[bitset_offset as usize];
        let masked = byte & (1u8 << bit);
        if sigil.is_one() {
            masked != 0
        } else {
            masked == 0
        }
    }

    /// Writes the null flag of `column`: loads the bitset byte, drives the
    /// column's bit to `is_null` under the null sigil, and stores it back.
    /// No other byte of the row changes.
    pub fn set_null(
        &mut self,
        layout: &Layout,
        target: &TargetConfig,
        column: usize,
        sigil: NullSigil,
        is_null: bool,
    )
        requires
            layout.wf(target),
            old(self).sized_for(*layout),
            column < layout.bitflag_mappings@.len(),
            layout.bitflag_mappings@[column as int] is Some,
        ensures
            ({
                let p = layout.bitflag_mappings@[column as int].unwrap();
                let off = layout.offsets@[p.0 as int] as int;
                final(self).data@ == old(self).data@.update(
                    off,
                    spec_set_bit(old(self).data@[off], p.1, sigil, is_null),
                )
            }),
    {
        let (_bitset_ty, bitset_offset, bit) = layout.nullability_of(column);
        let byte = self.data[bitset_offset as usize];
        let mask = 1u8 << bit;
        let updated = if (sigil.is_one() && is_null) || (sigil.is_zero() && !is_null) {
            byte | mask
        } else {
            byte & !mask
        };
        self.data[bitset_offset as usize] = updated;
    }

    /// Stores the low `width` bytes of `value` at `offset`, little-endian.
    /// Bytes outside `[offset, offset + width)` are untouched.
    pub fn store_le(&mut self, offset: usize, width: usize, value: u64)
        requires
            offset + width <= old(self).data@.len(),
            width <= 8,
        ensures
            final(self).data@.len() == old(self).data@.len(),
            forall|k: int|
                0 <= k < width ==> final(self).data@[offset + k] == spec_le_byte(value as int, k),
            forall|i: int|
                0 <= i < old(self).data@.len() && !(offset <= i < offset + width)
                    ==> final(self).data@[i] == old(self).data@[i],
    {
        let n = self.data.len();
        let mut v: u64 = value;
        let mut k: usize = 0;
        while k < width
            invariant
                k <= width,
                width <= 8,
                n == self.data@.len(),
                offset + width <= n,
                self.data@.len() == old(self).data@.len(),
                v as int == value as int / pow256(k as int),
                forall|j: int|
                    0 <= j < k ==> self.data@[offset + j] == spec_le_byte(value as int, j),
                forall|i: int|
                    0 <= i < old(self).data@.len() && !(offset <= i < offset + k) ==> self.data@[i]
                        == old(self).data@[i],
            decreases width - k,
        {
            let b = (v & 0xFF) as u8;
            proof {
                assert(v & 0xFF == v % 256 && v >> 8u64 == v / 256) by (bit_vector);
                lemma_pow256_pos(k as int);
                vstd::arithmetic::div_mod::lemma_div_denominator(
                    value as int,
                    pow256(k as int),
                    256,
                );
            }
            self.data[offset + k] = b;
            v = v >> 8u64;
            k = k + 1;
        }
    }

    /// Loads `width` bytes at `offset` as a little-endian unsigned value.
    pub fn load_le(&self, offset: usize, width: usize) -> (r: u64)
        requires
            offset + width <= self.data@.len(),
            width <= 8,
        ensures
            r as int == spec_load_le(self.data@, offset as int, width as int),
    {
        let n = self.data.len();
        let mut r: u64 = 0;
        let mut k: usize = width;
        while k > 0
            invariant
                k <= width,
                width <= 8,
                n == self.data@.len(),
                offset + width <= n,
                r as int == spec_load_le(self.data@, offset + k, (width - k) as int),
                (r as int) < pow256((width - k) as int),
            decreases k,
        {
            proof {
                reveal_with_fuel(pow256, 9);
                assert(pow256(7) == 0x100_0000_0000_0000);
                lemma_pow256_monotone((width - k) as int, 7);
            }
            k = k - 1;
            r = r * 256 + (self.data[offset + k] as u64);
        }
        r
    }

    /// Copies the contents of `src` into this row. Both rows must share the
    /// same layout size; afterwards this row is byte-equal to `src` over the
    /// whole buffer.
    pub fn copy_from(&mut self, src: &Row)
        requires
            old(self).data@.len() == src.data@.len(),
        ensures
            final(self).data@ == src.data@,
    {
        let mut data: Vec<u8> = Vec::new();
        let mut i: usize = 0;
        let n = src.data.len();
        while i < n
            invariant
                i <= n,
                n == src.data@.len(),
                data@ == src.data@.take(i as int),
            decreases n - i,
        {
            data.push(src.data[i]);
            proof {
                assert(data@ =~= src.data@.take(i + 1));
            }
            i = i + 1;
        }
        proof {
            assert(data@ =~= src.data@);
        }
        self.data = data;
    }
}

impl Layout {
    /// Allocates one zero-filled row of this layout. A zero-sized layout
    /// yields an empty buffer, the analogue of a well-aligned sentinel.
    pub fn alloc_row(&self) -> (r: Row)
        ensures
            r.data@.len() == self.size,
            forall|i: int| 0 <= i < r.data@.len() ==> r.data@[i] == 0u8,
    {
        let mut data: Vec<u8> = Vec::new();
        let mut i: usize = 0;
        let n = self.size as usize;
        while i < n
            invariant
                i <= n,
                data@.len() == i as int,
                forall|j: int| 0 <= j < i ==> data@[j] == 0u8,
            decreases n - i,
        {
            data.push(0u8);
            i = i + 1;
        }
        Row { data }
    }

    /// Allocates a dense, zero-filled array of `length` rows of this layout.
    /// The total footprint must fit in a `usize`; a zero-sized layout or a
    /// zero length yields an empty buffer.
    pub fn alloc_array(&self, length: usize) -> (r: Row)
        requires
            self.size as int * length as int <= usize::MAX,
        ensures
            r.data@.len() == self.size as int * length as int,
            forall|i: int| 0 <= i < r.data@.len() ==> r.data@[i] == 0u8,
    {
        let total = (self.size as usize) * length;
        let mut data: Vec<u8> = Vec::new();
        let mut i: usize = 0;
        while i < total
            invariant
                i <= total,
                data@.len() == i as int,
                forall|j: int| 0 <= j < i ==> data@[j] == 0u8,
            decreases total - i,
        {
            data.push(0u8);
            i = i + 1;
        }
        Row { data }
    }

    /// Allocates a row with every byte set to the null sigil's fill value:
    /// every null flag of every nullable column then reads as null.
    pub fn null_row(&self, sigil: NullSigil) -> (r: Row)
        ensures
            r.data@.len() == self.size,
            forall|i: int| 0 <= i < r.data@.len() ==> r.data@[i] == sigil.spec_fill_byte(),
    {
        let fill = sigil.fill_byte();
        let mut data: Vec<u8> = Vec::new();
        let mut i: usize = 0;
        let n = self.size as usize;
        while i < n
            invariant
                i <= n,
                fill == sigil.spec_fill_byte(),
                data@.len() == i as int,
                forall|j: int| 0 <= j < i ==> data@[j] == fill,
            decreases n - i,
        {
            data.push(fill);
            i = i + 1;
        }
        Row { data }
    }
}

/// Setting a nullable column's flag with `set_null` and reading it back
/// with `is_null` yields exactly the value written, for both flag values
/// and both null sigils.
pub proof fn lemma_null_flag_round_trip(
    bytes: Seq<u8>,
    layout: Layout,
    target: &TargetConfig,
    column: int,
    sigil: NullSigil,
    is_null: bool,
)
    requires
        layout.wf(target),
        bytes.len() == layout.size,
        0 <= column < layout.bitflag_mappings@.len(),
        layout.bitflag_mappings@[column] is Some,
    ensures
        ({
            let p = layout.bitflag_mappings@[column].unwrap();
            let off = layout.offsets@[p.0 as int] as int;
            spec_bit_is_null(
                bytes.update(off, spec_set_bit(bytes[off], p.1, sigil, is_null))[off],
                p.1,
                sigil,
            ) == is_null
        }),
{
    let p = layout.bitflag_mappings@[column].unwrap();
    lemma_set_bit_round_trip(bytes[layout.offsets@[p.0 as int] as int], p.1, sigil, is_null);
}

/// Every nullable column of a row filled with the null sigil's fill byte
/// reads as null, under either sigil: a null row means "every well-defined
/// `IsNull` returns true", whichever bit value stands for null.
pub proof fn lemma_null_row_reads_null(
    bytes: Seq<u8>,
    layout: Layout,
    target: &TargetConfig,
    column: int,
    sigil: NullSigil,
)
    requires
        layout.wf(target),
        bytes.len() == layout.size,
        forall|i: int| 0 <= i < bytes.len() ==> bytes[i] == sigil.spec_fill_byte(),
        0 <= column < layout.bitflag_mappings@.len(),
        layout.bitflag_mappings@[column] is Some,
    ensures
        ({
            let p = layout.bitflag_mappings@[column].unwrap();
            spec_bit_is_null(bytes[layout.offsets@[p.0 as int] as int], p.1, sigil)
        }),
{
    let p = layout.bitflag_mappings@[column].unwrap();
    lemma_null_fill_reads_null(p.1, sigil);
}

/// Setting one nullable column's flag leaves every other nullable column's
/// flag unchanged, whether it lives in another bitset byte or in another
/// bit of the same byte.
pub proof fn lemma_set_null_preserves_others(
    bytes: Seq<u8>,
    layout: Layout,
    target: &TargetConfig,
    column: int,
    other: int,
    sigil: NullSigil,
    is_null: bool,
)
    requires
        layout.wf(target),
        bytes.len() == layout.size,
        0 <= column < layout.bitflag_mappings@.len(),
        0 <= other < layout.bitflag_mappings@.len(),
        column != other,
        layout.bitflag_mappings@[column] is Some,
        layout.bitflag_mappings@[other] is Some,
    ensures
        ({
            let p = layout.bitflag_mappings@[column].unwrap();
            let q = layout.bitflag_mappings@[other].unwrap();
            let off = layout.offsets@[p.0 as int] as int;
            let off_q = layout.offsets@[q.0 as int] as int;
            let updated = bytes.update(off, spec_set_bit(bytes[off], p.1, sigil, is_null));
            spec_bit_is_null(updated[off_q], q.1, sigil) == spec_bit_is_null(
                bytes[off_q],
                q.1,
                sigil,
            )
        }),
{
    let p = layout.bitflag_mappings@[column].unwrap();
    let q = layout.bitflag_mappings@[other].unwrap();
    let off = layout.offsets@[p.0 as int] as int;
    let off_q = layout.offsets@[q.0 as int] as int;
    if p.0 == q.0 {
        assert(p.1 != q.1);
        let updated_byte = spec_set_bit(bytes[off], p.1, sigil, is_null);
        lemma_set_bit_frame(bytes[off], p.1, q.1, sigil, is_null);
        assert(updated_byte & (1u8 << q.1) == bytes[off_q] & (1u8 << q.1));
    } else {
        assert(off != off_q) by {
            let j1 = p.0 as int;
            let j2 = q.0 as int;
            assert(layout.types@[j1].spec_size(target) == 1);
            assert(layout.types@[j2].spec_size(target) == 1);
            if j1 < j2 {
                assert(layout.offsets@[j1] + 1 <= layout.offsets@[j2]);
            } else {
                assert(layout.offsets@[j2] + 1 <= layout.offsets@[j1]);
            }
        }
    }
}

} // verus!
