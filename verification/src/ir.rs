//! The IR's view of rows: the logical column domain, the source `RowLayout`
//! (an ordered sequence of column types with per-column nullability), and the
//! cache that stores row layouts keyed by `LayoutId`.

use vstd::prelude::*;

verus! {

/// Identifies a `RowLayout` within a [`LayoutCache`].
pub type LayoutId = u32;

/// Identifies an expression within a function.
pub type ExprId = u32;

/// Identifies a basic block within a function.
pub type BlockId = u32;

/// The column domain a source `RowLayout` may draw from. `Unit` is always
/// zero-sized and materializes no bytes; `String` lowers to a pointer to a
/// length-prefixed heap string.
#[derive(Debug, Copy, Clone, PartialEq, Eq, Structural)]
pub enum RowType {
    Unit,
    Bool,
    U16,
    I16,
    U32,
    I32,
    U64,
    I64,
    F32,
    F64,
    String,
}

impl RowType {
    pub open spec fn spec_is_unit(&self) -> bool {
        self is Unit
    }

    /// Returns `true` if the row type is [`Unit`].
    ///
    /// [`Unit`]: RowType::Unit
    #[verifier::when_used_as_spec(spec_is_unit)]
    pub fn is_unit(&self) -> (r: bool)
        ensures
            r == self.spec_is_unit(),
    {
        matches!(self, RowType::Unit)
    }

    pub open spec fn spec_is_string(&self) -> bool {
        self is String
    }

    /// Returns `true` if the row type is [`String`].
    ///
    /// [`String`]: RowType::String
    #[verifier::when_used_as_spec(spec_is_string)]
    pub fn is_string(&self) -> (r: bool)
        ensures
            r == self.spec_is_string(),
    {
        matches!(self, RowType::String)
    }
}

/// The number of `true` flags among the first `upto` entries of `nulls`.
pub open spec fn seq_nullable_before(nulls: Seq<bool>, upto: int) -> int
    decreases upto,
{
    if upto <= 0 {
        0
    } else {
        seq_nullable_before(nulls, upto - 1) + if nulls[upto - 1] {
            1int
        } else {
            0int
        }
    }
}

/// The number of non-`Unit` column types among the first `upto` entries of
/// `rows`.
pub open spec fn seq_non_unit_before(rows: Seq<RowType>, upto: int) -> int
    decreases upto,
{
    if upto <= 0 {
        0
    } else {
        seq_non_unit_before(rows, upto - 1) + if rows[upto - 1] is Unit {
            0int
        } else {
            1int
        }
    }
}

/// Two flag sequences that agree on a prefix count the same over it.
pub proof fn lemma_seq_count_agree(s1: Seq<bool>, s2: Seq<bool>, upto: int)
    requires
        0 <= upto <= s1.len(),
        upto <= s2.len(),
        forall|i: int| 0 <= i < upto ==> s1[i] == s2[i],
    ensures
        seq_nullable_before(s1, upto) == seq_nullable_before(s2, upto),
    decreases upto,
{
    if upto > 0 {
        lemma_seq_count_agree(s1, s2, upto - 1);
    }
}

/// Setting one unset flag raises the count by exactly one.
pub proof fn lemma_seq_count_update(s: Seq<bool>, b: int, upto: int)
    requires
        0 <= b < upto <= s.len(),
        !s[b],
    ensures
        seq_nullable_before(s.update(b, true), upto) == seq_nullable_before(s, upto) + 1,
    decreases upto,
{
    let s2 = s.update(b, true);
    if upto - 1 == b {
        lemma_seq_count_agree(s, s2, b);
    } else {
        lemma_seq_count_update(s, b, upto - 1);
    }
}

/// A sequence with at least one unset flag counts strictly below its
/// length.
pub proof fn lemma_seq_count_below_len(s: Seq<bool>, b: int, upto: int)
    requires
        0 <= b < upto <= s.len(),
        !s[b],
    ensures
        seq_nullable_before(s, upto) <= upto - 1,
    decreases upto,
{
    lemma_seq_nullable_before_monotone(s, 0, b);
    lemma_seq_nullable_before_monotone(s, b + 1, upto);
}

/// The nullable counter is monotone and grows by at most one per column.
pub proof fn lemma_seq_nullable_before_monotone(nulls: Seq<bool>, i: int, j: int)
    requires
        0 <= i <= j,
    ensures
        seq_nullable_before(nulls, i) <= seq_nullable_before(nulls, j),
        seq_nullable_before(nulls, j) - seq_nullable_before(nulls, i) <= j - i,
    decreases j - i,
{
    if i < j {
        lemma_seq_nullable_before_monotone(nulls, i, j - 1);
    }
}

/// The non-`Unit` counter is monotone and grows by at most one per column.
pub proof fn lemma_seq_non_unit_before_monotone(rows: Seq<RowType>, i: int, j: int)
    requires
        0 <= i <= j,
    ensures
        seq_non_unit_before(rows, i) <= seq_non_unit_before(rows, j),
        seq_non_unit_before(rows, j) - seq_non_unit_before(rows, i) <= j - i,
    decreases j - i,
{
    if i < j {
        lemma_seq_non_unit_before_monotone(rows, i, j - 1);
    }
}

/// The IR's full column domain. `Date` and `Timestamp` lower to integer
/// widths; the float kinds exist in the IR but the physical layer does not
/// materialize float values here.
#[derive(Debug, Copy, Clone, PartialEq, Eq, Structural)]
pub enum ColumnType {
    Unit,
    Bool,
    U8,
    I8,
    U16,
    I16,
    U32,
    I32,
    U64,
    I64,
    F32,
    F64,
    String,
    Date,
    Timestamp,
}

impl ColumnType {
    pub open spec fn spec_is_unit(&self) -> bool {
        self is Unit
    }

    /// Returns `true` if the column type is [`Unit`].
    ///
    /// [`Unit`]: ColumnType::Unit
    #[verifier::when_used_as_spec(spec_is_unit)]
    pub fn is_unit(&self) -> (r: bool)
        ensures
            r == self.spec_is_unit(),
    {
        matches!(self, ColumnType::Unit)
    }

    pub open spec fn spec_is_string(&self) -> bool {
        self is String
    }

    /// Returns `true` if the column type is [`String`].
    ///
    /// [`String`]: ColumnType::String
    #[verifier::when_used_as_spec(spec_is_string)]
    pub fn is_string(&self) -> (r: bool)
        ensures
            r == self.spec_is_string(),
    {
        matches!(self, ColumnType::String)
    }

    pub open spec fn spec_is_bool(&self) -> bool {
        self is Bool
    }

    /// Returns `true` if the column type is [`Bool`].
    ///
    /// [`Bool`]: ColumnType::Bool
    #[verifier::when_used_as_spec(spec_is_bool)]
    pub fn is_bool(&self) -> (r: bool)
        ensures
            r == self.spec_is_bool(),
    {
        matches!(self, ColumnType::Bool)
    }

    pub open spec fn spec_is_float(&self) -> bool {
        self is F32 || self is F64
    }

    /// Returns `true` if the column type is [`F32`] or [`F64`].
    ///
    /// [`F32`]: ColumnType::F32
    /// [`F64`]: ColumnType::F64
    #[verifier::when_used_as_spec(spec_is_float)]
    pub fn is_float(&self) -> (r: bool)
        ensures
            r == self.spec_is_float(),
    {
        matches!(self, ColumnType::F32 | ColumnType::F64)
    }

    pub open spec fn spec_is_date(&self) -> bool {
        self is Date
    }

    /// Returns `true` if the column type is [`Date`].
    ///
    /// [`Date`]: ColumnType::Date
    #[verifier::when_used_as_spec(spec_is_date)]
    pub fn is_date(&self) -> (r: bool)
        ensures
            r == self.spec_is_date(),
    {
        matches!(self, ColumnType::Date)
    }

    pub open spec fn spec_is_timestamp(&self) -> bool {
        self is Timestamp
    }

    /// Returns `true` if the column type is [`Timestamp`].
    ///
    /// [`Timestamp`]: ColumnType::Timestamp
    #[verifier::when_used_as_spec(spec_is_timestamp)]
    pub fn is_timestamp(&self) -> (r: bool)
        ensures
            r == self.spec_is_timestamp(),
    {
        matches!(self, ColumnType::Timestamp)
    }
}

/// An ordered sequence of logical column types plus a per-column nullability
/// flag. Immutable once presented to the code generator.
#[derive(Debug, PartialEq)]
pub struct RowLayout {
    pub rows: Vec<RowType>,
    pub nullability: Vec<bool>,
}

impl Clone for RowLayout {
    fn clone(&self) -> (r: Self)
        ensures
            r.spec_rows() == self.spec_rows(),
            r.spec_nullability() == self.spec_nullability(),
    {
        let rows = self.rows.clone();
        let nullability = self.nullability.clone();
        proof {
            assert(rows@ =~= self.rows@);
            assert(nullability@ =~= self.nullability@);
        }
        RowLayout { rows, nullability }
    }
}

impl RowLayout {
    /// A row layout is well formed when it carries one nullability flag per
    /// column.
    pub open spec fn wf(self) -> bool {
        self.rows@.len() == self.nullability@.len()
    }

    pub open spec fn spec_len(&self) -> usize {
        self.rows@.len() as usize
    }

    /// The number of columns.
    #[verifier::when_used_as_spec(spec_len)]
    pub fn len(&self) -> (r: usize)
        ensures
            r == self.spec_len(),
    {
        self.rows.len()
    }

    pub open spec fn spec_rows(self) -> Seq<RowType> {
        self.rows@
    }

    /// The column types, in source order.
    pub fn rows(&self) -> (r: &Vec<RowType>)
        ensures
            r@ == self.spec_rows(),
    {
        &self.rows
    }

    pub open spec fn spec_nullability(self) -> Seq<bool> {
        self.nullability@
    }

    /// The per-column nullability flags, in source order.
    pub fn nullability(&self) -> (r: &Vec<bool>)
        ensures
            r@ == self.spec_nullability(),
    {
        &self.nullability
    }

    /// The number of nullable columns among the first `upto` columns.
    pub open spec fn nullable_before(self, upto: int) -> int {
        seq_nullable_before(self.nullability@, upto)
    }

    /// The number of non-`Unit` columns among the first `upto` columns.
    pub open spec fn non_unit_before(self, upto: int) -> int {
        seq_non_unit_before(self.rows@, upto)
    }

    /// The number of nullable columns.
    pub open spec fn nullable_count(self) -> int {
        self.nullable_before(self.nullability@.len() as int)
    }

    /// The rank of column `c` among the nullable columns: how many nullable
    /// columns precede it in source order.
    pub open spec fn nullable_rank(self, c: int) -> int {
        self.nullable_before(c)
    }

    proof fn lemma_nullable_before_monotone(self, i: int, j: int)
        requires
            0 <= i <= j,
        ensures
            self.nullable_before(i) <= self.nullable_before(j),
            self.nullable_before(j) - self.nullable_before(i) <= j - i,
    {
        lemma_seq_nullable_before_monotone(self.nullability@, i, j);
    }

    /// The non-`Unit` counter grows by at most one per column.
    pub proof fn lemma_non_unit_before_monotone(self, i: int, j: int)
        requires
            0 <= i <= j,
        ensures
            self.non_unit_before(i) <= self.non_unit_before(j),
            self.non_unit_before(j) - self.non_unit_before(i) <= j - i,
    {
        lemma_seq_non_unit_before_monotone(self.rows@, i, j);
    }

    /// The nullable counter grows by at most one per column.
    pub proof fn lemma_nullable_before_bounds(self, i: int, j: int)
        requires
            0 <= i <= j,
        ensures
            self.nullable_before(i) <= self.nullable_before(j),
            self.nullable_before(j) - self.nullable_before(i) <= j - i,
    {
        self.lemma_nullable_before_monotone(i, j);
    }

    /// The rank of a nullable column is strictly below the nullable count.
    pub proof fn lemma_rank_lt_count(self, c: int)
        requires
            0 <= c < self.nullability@.len(),
            self.nullability@[c],
        ensures
            0 <= self.nullable_rank(c),
            self.nullable_rank(c) < self.nullable_count(),
            self.nullable_count() <= self.nullability@.len(),
    {
        self.lemma_nullable_before_monotone(0, c);
        self.lemma_nullable_before_monotone(c + 1, self.nullability@.len() as int);
        self.lemma_nullable_before_monotone(0, self.nullability@.len() as int);
    }

    /// Distinct nullable columns have distinct ranks.
    pub proof fn lemma_rank_injective(self, c1: int, c2: int)
        requires
            0 <= c1 < c2 < self.nullability@.len(),
            self.nullability@[c1],
            self.nullability@[c2],
        ensures
            self.nullable_rank(c1) < self.nullable_rank(c2),
    {
        self.lemma_nullable_before_monotone(c1 + 1, c2);
    }

    /// Counts the nullable columns.
    pub fn count_nullable(&self) -> (r: usize)
        requires
            self.wf(),
        ensures
            r == self.nullable_count(),
    {
        let mut count: usize = 0;
        let mut i: usize = 0;
        while i < self.nullability.len()
            invariant
                self.wf(),
                i <= self.nullability@.len(),
                count == self.nullable_before(i as int),
                count <= i,
            decreases self.nullability@.len() - i,
        {
            if self.nullability[i] {
                count = count + 1;
            }
            i = i + 1;
        }
        count
    }
}

/// Builds a [`RowLayout`] column by column.
#[derive(Debug, Clone)]
pub struct RowLayoutBuilder {
    pub rows: Vec<RowType>,
    pub nullability: Vec<bool>,
}

impl RowLayoutBuilder {
    pub fn new() -> (r: RowLayoutBuilder)
        ensures
            r.rows@ =~= Seq::<RowType>::empty(),
            r.nullability@ =~= Seq::<bool>::empty(),
    {
        RowLayoutBuilder { rows: Vec::new(), nullability: Vec::new() }
    }

    /// Appends a column of type `row` whose nullability is `nullable`.
    pub fn with_row(self, row: RowType, nullable: bool) -> (r: RowLayoutBuilder)
        ensures
            r.rows@ == self.rows@.push(row),
            r.nullability@ == self.nullability@.push(nullable),
    {
        let mut this = self;
        this.rows.push(row);
        this.nullability.push(nullable);
        this
    }

    pub fn build(self) -> (r: RowLayout)
        requires
            self.rows@.len() == self.nullability@.len(),
        ensures
            r.wf(),
            r.spec_rows() == self.rows@,
            r.spec_nullability() == self.nullability@,
    {
        RowLayout { rows: self.rows, nullability: self.nullability }
    }
}

/// Stores the source `RowLayout`s of a codegen session, keyed by `LayoutId`.
/// The code generator consumes it read-only.
#[derive(Debug, Clone)]
pub struct LayoutCache {
    pub layouts: Vec<RowLayout>,
}

impl LayoutCache {
    /// Every stored row layout carries one nullability flag per column.
    pub open spec fn wf(self) -> bool {
        forall|i: int| 0 <= i < self.layouts@.len() ==> (#[trigger] self.layouts@[i]).wf()
    }

    pub open spec fn spec_layouts(self) -> Seq<RowLayout> {
        self.layouts@
    }

    pub fn new() -> (r: LayoutCache)
        ensures
            r.wf(),
            r.spec_layouts() =~= Seq::<RowLayout>::empty(),
    {
        LayoutCache { layouts: Vec::new() }
    }

    pub open spec fn spec_len(&self) -> usize {
        self.layouts@.len() as usize
    }

    #[verifier::when_used_as_spec(spec_len)]
    pub fn len(&self) -> (r: usize)
        ensures
            r == self.spec_len(),
    {
        self.layouts.len()
    }

    /// Registers a row layout and returns the `LayoutId` that identifies it.
    pub fn add(&mut self, layout: RowLayout) -> (r: LayoutId)
        requires
            old(self).wf(),
            layout.wf(),
            old(self).spec_layouts().len() < u32::MAX,
        ensures
            final(self).wf(),
            final(self).spec_layouts() == old(self).spec_layouts().push(layout),
            r == old(self).spec_layouts().len(),
    {
        let id = self.layouts.len() as u32;
        self.layouts.push(layout);
        id
    }

    /// Looks a row layout up by its id.
    pub fn get(&self, id: LayoutId) -> (r: &RowLayout)
        requires
            id < self.spec_layouts().len(),
        ensures
            *r == self.spec_layouts()[id as int],
    {
        &self.layouts[id as usize]
    }
}

} // verus!
