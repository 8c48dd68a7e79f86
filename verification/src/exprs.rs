//! The expressions of the IR: SSA values produced inside a basic block's
//! body. Rows are addressed by small integer identifiers; expressions
//! reference each other by [`ExprId`].

use crate::ir::{ColumnType, ExprId, LayoutId};
use vstd::prelude::*;

verus! {

/// Rewrites the expression identifiers an expression mentions.
pub trait VisitExprMut {
    fn visit_expr_id(&mut self, expr_id: ExprId) -> ExprId {
        expr_id
    }
}

/// An expression within a basic block's body
#[derive(Debug, Clone, PartialEq)]
pub enum Expr {
    Cast(Cast),
    Load(Load),
    Store(Store),
    Select(Select),
    IsNull(IsNull),
    BinOp(BinaryOp),
    CopyVal(CopyVal),
    NullRow(NullRow),
    SetNull(SetNull),
    Constant(Constant),
    CopyRowTo(CopyRowTo),
    UninitRow(UninitRow),
}

impl Expr {
    /// Holds when every `LayoutId` the expression mentions is below `n`.
    pub open spec fn layout_ids_below(self, n: int) -> bool {
        match self {
            Expr::Load(load) => load.source_layout < n,
            Expr::Store(store) => store.target_layout < n,
            Expr::IsNull(is_null) => is_null.target_layout < n,
            Expr::SetNull(set_null) => set_null.target_layout < n,
            Expr::CopyRowTo(copy_row) => copy_row.layout < n,
            Expr::NullRow(null_row) => null_row.layout < n,
            Expr::UninitRow(uninit_row) => uninit_row.layout < n,
            _ => true,
        }
    }

    /// Holds when every expression identifier the expression references is
    /// below `n`.
    pub open spec fn operands_below(self, n: int) -> bool {
        match self {
            Expr::BinOp(binop) => binop.lhs < n && binop.rhs < n,
            Expr::Cast(cast) => cast.value < n,
            Expr::Select(sel) => sel.cond < n && sel.if_true < n && sel.if_false < n,
            Expr::Load(load) => load.source < n,
            Expr::Store(store) => store.target < n && (store.value matches RValue::Expr(e) ==> e
                < n),
            Expr::IsNull(is_null) => is_null.target < n,
            Expr::SetNull(set_null) => set_null.target < n && (set_null.is_null matches
                RValue::Expr(e) ==> e < n),
            Expr::CopyRowTo(copy_row) => copy_row.src < n && copy_row.dest < n,
            Expr::CopyVal(copy_val) => copy_val.value < n,
            _ => true,
        }
    }

    /// Checks that every expression identifier and layout identifier the
    /// expression mentions is in range: the executable form of
    /// [`Expr::operands_below`] and [`Expr::layout_ids_below`] together.
    pub fn check_bounds(&self, n_exprs: usize, n_layouts: u32) -> (r: bool)
        ensures
            r == (self.operands_below(n_exprs as int) && self.layout_ids_below(n_layouts as int)),
    {
        match self {
            Expr::BinOp(binop) => (binop.lhs as usize) < n_exprs && (binop.rhs as usize) < n_exprs,
            Expr::Cast(cast) => (cast.value as usize) < n_exprs,
            Expr::Select(sel) => (sel.cond as usize) < n_exprs && (sel.if_true as usize) < n_exprs
                && (sel.if_false as usize) < n_exprs,
            Expr::Load(load) => (load.source as usize) < n_exprs && load.source_layout < n_layouts,
            Expr::Store(store) => (store.target as usize) < n_exprs && store.target_layout
                < n_layouts && (match &store.value {
                RValue::Expr(e) => (*e as usize) < n_exprs,
                RValue::Imm(_) => true,
            }),
            Expr::IsNull(is_null) => (is_null.target as usize) < n_exprs && is_null.target_layout
                < n_layouts,
            Expr::SetNull(set_null) => (set_null.target as usize) < n_exprs
                && set_null.target_layout < n_layouts && (match &set_null.is_null {
                RValue::Expr(e) => (*e as usize) < n_exprs,
                RValue::Imm(_) => true,
            }),
            Expr::CopyRowTo(copy_row) => (copy_row.src as usize) < n_exprs && (copy_row.dest
                as usize) < n_exprs && copy_row.layout < n_layouts,
            Expr::CopyVal(copy_val) => (copy_val.value as usize) < n_exprs,
            Expr::NullRow(null_row) => null_row.layout < n_layouts,
            Expr::UninitRow(uninit_row) => uninit_row.layout < n_layouts,
            Expr::Constant(_) => true,
        }
    }

    /// The expression with every `LayoutId` it mentions replaced through
    /// `mappings`.
    pub open spec fn spec_remap(self, mappings: Seq<LayoutId>) -> Expr {
        match self {
            Expr::Load(load) => Expr::Load(
                Load { source_layout: mappings[load.source_layout as int], ..load },
            ),
            Expr::Store(store) => Expr::Store(
                Store { target_layout: mappings[store.target_layout as int], ..store },
            ),
            Expr::IsNull(is_null) => Expr::IsNull(
                IsNull { target_layout: mappings[is_null.target_layout as int], ..is_null },
            ),
            Expr::SetNull(set_null) => Expr::SetNull(
                SetNull { target_layout: mappings[set_null.target_layout as int], ..set_null },
            ),
            Expr::CopyRowTo(copy_row) => Expr::CopyRowTo(
                CopyRowTo { layout: mappings[copy_row.layout as int], ..copy_row },
            ),
            Expr::NullRow(null_row) => Expr::NullRow(
                NullRow { layout: mappings[null_row.layout as int] },
            ),
            Expr::UninitRow(uninit_row) => Expr::UninitRow(
                UninitRow { layout: mappings[uninit_row.layout as int] },
            ),
            _ => self,
        }
    }

    /// Replaces every `LayoutId` the expression mentions through `mappings`.
    /// Expressions that carry no `LayoutId` come back unchanged.
    pub fn remap_layouts(self, mappings: &Vec<LayoutId>) -> (r: Expr)
        requires
            self.layout_ids_below(mappings@.len() as int),
        ensures
            r == self.spec_remap(mappings@),
    {
        match self {
            Expr::Load(load) => Expr::Load(
                Load { source_layout: mappings[load.source_layout as usize], ..load },
            ),
            Expr::Store(store) => Expr::Store(
                Store { target_layout: mappings[store.target_layout as usize], ..store },
            ),
            Expr::IsNull(is_null) => Expr::IsNull(
                IsNull { target_layout: mappings[is_null.target_layout as usize], ..is_null },
            ),
            Expr::SetNull(set_null) => Expr::SetNull(
                SetNull { target_layout: mappings[set_null.target_layout as usize], ..set_null },
            ),
            Expr::CopyRowTo(copy_row) => Expr::CopyRowTo(
                CopyRowTo { layout: mappings[copy_row.layout as usize], ..copy_row },
            ),
            Expr::NullRow(null_row) => Expr::NullRow(
                NullRow { layout: mappings[null_row.layout as usize] },
            ),
            Expr::UninitRow(uninit_row) => Expr::UninitRow(
                UninitRow { layout: mappings[uninit_row.layout as usize] },
            ),
            other => other,
        }
    }
}

/// The integer binary operators the lowerer understands.
#[derive(Debug, Copy, Clone, PartialEq, Eq, Structural)]
pub enum BinaryOpKind {
    Add,
    Sub,
    Mul,
    Eq,
    Neq,
    And,
    Or,
}

/// An integer binary operation over two expressions.
#[derive(Debug, Copy, Clone, PartialEq, Eq, Structural)]
pub struct BinaryOp {
    pub kind: BinaryOpKind,
    pub lhs: ExprId,
    pub rhs: ExprId,
}

impl BinaryOp {
    pub fn new(kind: BinaryOpKind, lhs: ExprId, rhs: ExprId) -> (r: Self)
        ensures
            r == (BinaryOp { kind, lhs, rhs }),
    {
        BinaryOp { kind, lhs, rhs }
    }

    pub fn kind(&self) -> (r: BinaryOpKind)
        ensures
            r == self.kind,
    {
        self.kind
    }

    pub fn lhs(&self) -> (r: ExprId)
        ensures
            r == self.lhs,
    {
        self.lhs
    }

    pub fn rhs(&self) -> (r: ExprId)
        ensures
            r == self.rhs,
    {
        self.rhs
    }
}

/// An rvalue (right value) is either a reference to another expression or an
/// immediate constant
#[derive(Debug, Clone, PartialEq)]
pub enum RValue {
    /// An expression
    Expr(ExprId),
    /// An immediate constant value
    Imm(Constant),
}

impl RValue {
    pub open spec fn spec_is_expr(&self) -> bool {
        self is Expr
    }

    /// Returns `true` if the current rvalue is an expression
    #[verifier::when_used_as_spec(spec_is_expr)]
    pub fn is_expr(&self) -> (r: bool)
        ensures
            r == self.spec_is_expr(),
    {
        matches!(self, RValue::Expr(_))
    }

    pub open spec fn spec_is_immediate(&self) -> bool {
        self is Imm
    }

    /// Returns `true` if the current rvalue is an immediate constant
    #[verifier::when_used_as_spec(spec_is_immediate)]
    pub fn is_immediate(&self) -> (r: bool)
        ensures
            r == self.spec_is_immediate(),
    {
        matches!(self, RValue::Imm(_))
    }

    pub fn as_expr(&self) -> (r: Option<&ExprId>)
        ensures
            self is Expr <==> r is Some,
            r matches Some(e) ==> self == RValue::Expr(*e),
    {
        if let RValue::Expr(expr) = self {
            Some(expr)
        } else {
            None
        }
    }

    pub fn as_immediate(&self) -> (r: Option<&Constant>)
        ensures
            self is Imm <==> r is Some,
            r matches Some(c) ==> self == RValue::Imm(*c),
    {
        if let RValue::Imm(immediate) = self {
            Some(immediate)
        } else {
            None
        }
    }
}

/// A conditional selection between two expressions.
#[derive(Debug, Copy, Clone, PartialEq, Eq, Structural)]
pub struct Select {
    pub cond: ExprId,
    pub if_true: ExprId,
    pub if_false: ExprId,
}

impl Select {
    pub fn new(cond: ExprId, if_true: ExprId, if_false: ExprId) -> (r: Self)
        ensures
            r == (Select { cond, if_true, if_false }),
    {
        Select { cond, if_true, if_false }
    }

    pub fn cond(&self) -> (r: ExprId)
        ensures
            r == self.cond,
    {
        self.cond
    }

    pub fn if_true(&self) -> (r: ExprId)
        ensures
            r == self.if_true,
    {
        self.if_true
    }

    pub fn if_false(&self) -> (r: ExprId)
        ensures
            r == self.if_false,
    {
        self.if_false
    }
}

/// Whether a cast from `a` to `b` runs into the float restrictions: floats
/// cannot be cast to or from booleans, dates or timestamps.
pub open spec fn spec_is_weird_float_cast(a: ColumnType, b: ColumnType) -> bool {
    a.spec_is_float() && (b.spec_is_bool() || b.spec_is_date() || b.spec_is_timestamp())
}

/// Whether a cast between the two column types is valid: casts between one
/// and the same type always are; otherwise unit and string types cannot be
/// cast at all, floats cannot be cast to or from booleans, dates or
/// timestamps, and nothing but a boolean can be cast to a boolean.
pub open spec fn spec_is_valid_cast(from: ColumnType, to: ColumnType) -> bool {
    from == to || !(from.spec_is_unit() || to.spec_is_unit() || from.spec_is_string()
        || to.spec_is_string() || spec_is_weird_float_cast(from, to) || spec_is_weird_float_cast(
        to,
        from,
    ) || (!from.spec_is_bool() && to.spec_is_bool()))
}

/// A cast expression, changes the type of the given value
///
/// Changes the type of `value` from `from` to `to`
///
/// # Rules
///
/// - Casts between the same type are always valid
/// - Strings and unit types are not castable (except casts from a type to
///   itself)
/// - Integers (signed and unsigned) can be freely casted between
/// - Floats can be casted between themselves
/// - Integers can be casted to floats and vice versa
/// - Time types (timestamps and dates) can be casted to and from integers
/// - Booleans can be casted to integers (but *not* vice versa)
#[derive(Debug, Copy, Clone, PartialEq, Eq, Structural)]
pub struct Cast {
    /// The source value being casted
    pub value: ExprId,
    /// The source type of `value`
    pub from: ColumnType,
    /// The type to cast `value` into
    pub to: ColumnType,
}

impl Cast {
    pub fn new(value: ExprId, from: ColumnType, to: ColumnType) -> (r: Self)
        ensures
            r == (Cast { value, from, to }),
    {
        Cast { value, from, to }
    }

    pub fn value(&self) -> (r: ExprId)
        ensures
            r == self.value,
    {
        self.value
    }

    pub fn from(&self) -> (r: ColumnType)
        ensures
            r == self.from,
    {
        self.from
    }

    pub fn to(&self) -> (r: ColumnType)
        ensures
            r == self.to,
    {
        self.to
    }

    /// Returns true if the current cast is between valid types
    pub fn is_valid_cast(&self) -> (r: bool)
        ensures
            r == spec_is_valid_cast(self.from, self.to),
    {
        let from = self.from;
        let to = self.to;
        if from == to {
            return true;
        }
        let weird_from_to = from.is_float() && (to.is_bool() || to.is_date() || to.is_timestamp());
        let weird_to_from = to.is_float() && (from.is_bool() || from.is_date()
            || from.is_timestamp());
        let is_invalid_cast = from.is_unit() || to.is_unit() || from.is_string() || to.is_string()
            || weird_from_to || weird_to_from || (!from.is_bool() && to.is_bool());
        !is_invalid_cast
    }
}

/// Copies a value
///
/// For most types this is a noop, however for strings this clones the
/// underlying string and results in the cloned string
#[derive(Debug, Copy, Clone, PartialEq, Eq, Structural)]
pub struct CopyVal {
    /// The value to be copied
    pub value: ExprId,
    /// The type of the value being copied
    pub value_ty: ColumnType,
}

impl CopyVal {
    pub fn new(value: ExprId, value_ty: ColumnType) -> (r: Self)
        ensures
            r == (CopyVal { value, value_ty }),
    {
        CopyVal { value, value_ty }
    }

    pub fn value(&self) -> (r: ExprId)
        ensures
            r == self.value,
    {
        self.value
    }

    pub fn value_ty(&self) -> (r: ColumnType)
        ensures
            r == self.value_ty,
    {
        self.value_ty
    }
}

/// Load a value from the given column of the given row
#[derive(Debug, Copy, Clone, PartialEq, Eq, Structural)]
pub struct Load {
    /// The row to load from
    pub source: ExprId,
    /// The layout of the source row
    pub source_layout: LayoutId,
    /// The index of the column to load from
    pub column: usize,
    /// The type of the value being loaded
    pub column_type: ColumnType,
}

impl Load {
    pub fn new(source: ExprId, source_layout: LayoutId, column: usize, column_type: ColumnType) -> (r:
        Self)
        ensures
            r == (Load { source, source_layout, column, column_type }),
    {
        Load { source, source_layout, column, column_type }
    }

    pub fn source(&self) -> (r: ExprId)
        ensures
            r == self.source,
    {
        self.source
    }

    pub fn source_layout(&self) -> (r: LayoutId)
        ensures
            r == self.source_layout,
    {
        self.source_layout
    }

    pub fn column(&self) -> (r: usize)
        ensures
            r == self.column,
    {
        self.column
    }

    pub fn column_type(&self) -> (r: ColumnType)
        ensures
            r == self.column_type,
    {
        self.column_type
    }
}

/// Store a value to the given column of the given row
#[derive(Debug, Clone, PartialEq)]
pub struct Store {
    /// The row to store into
    pub target: ExprId,
    /// The layout of the target row
    pub target_layout: LayoutId,
    /// The index of the column to store to
    pub column: usize,
    /// The value being stored
    pub value: RValue,
    /// The type of the value being stored
    pub value_type: ColumnType,
}

impl Store {
    pub fn new(
        target: ExprId,
        target_layout: LayoutId,
        column: usize,
        value: RValue,
        value_type: ColumnType,
    ) -> (r: Self)
        ensures
            r == (Store { target, target_layout, column, value, value_type }),
    {
        Store { target, target_layout, column, value, value_type }
    }

    pub fn target(&self) -> (r: ExprId)
        ensures
            r == self.target,
    {
        self.target
    }

    pub fn target_layout(&self) -> (r: LayoutId)
        ensures
            r == self.target_layout,
    {
        self.target_layout
    }

    pub fn column(&self) -> (r: usize)
        ensures
            r == self.column,
    {
        self.column
    }

    pub fn value(&self) -> (r: &RValue)
        ensures
            r == &self.value,
    {
        &self.value
    }

    pub fn value_type(&self) -> (r: ColumnType)
        ensures
            r == self.value_type,
    {
        self.value_type
    }
}

/// Checks if the given column of the target row is null
///
/// Requires that `column` of the target layout is nullable.
/// Returns `true` if the `column`-th column of `target` is currently null
/// and `false` if it's not null
#[derive(Debug, Copy, Clone, PartialEq, Eq, Structural)]
pub struct IsNull {
    /// The row we're checking
    pub target: ExprId,
    /// The layout of the target row
    pub target_layout: LayoutId,
    /// The column of `target` to fetch the null-ness of
    pub column: usize,
}

impl IsNull {
    /// Create a new `IsNull` expression
    ///
    /// - `target` must be a readable row type
    /// - `column` must be a valid column index into `target`
    pub fn new(target: ExprId, target_layout: LayoutId, column: usize) -> (r: Self)
        ensures
            r == (IsNull { target, target_layout, column }),
    {
        IsNull { target, target_layout, column }
    }

    pub fn target(&self) -> (r: ExprId)
        ensures
            r == self.target,
    {
        self.target
    }

    pub fn target_layout(&self) -> (r: LayoutId)
        ensures
            r == self.target_layout,
    {
        self.target_layout
    }

    pub fn column(&self) -> (r: usize)
        ensures
            r == self.column,
    {
        self.column
    }
}

/// Sets the nullness of the `column`-th column of the target row
///
/// Requires that `column` of the target layout is nullable and that
/// `target` is writeable.
#[derive(Debug, Clone, PartialEq)]
pub struct SetNull {
    /// The row that's being manipulated
    pub target: ExprId,
    /// The layout of the target row
    pub target_layout: LayoutId,
    /// The column of `target` that we're setting the null flag of
    pub column: usize,
    /// A boolean value to be stored in `target.column`'s null flag
    pub is_null: RValue,
}

impl SetNull {
    /// Create a new `SetNull` expression
    ///
    /// - `target` must be a writeable row type
    /// - `column` must be a valid column index into `target`
    /// - `is_null` must be a boolean value
    pub fn new(target: ExprId, target_layout: LayoutId, column: usize, is_null: RValue) -> (r: Self)
        ensures
            r == (SetNull { target, target_layout, column, is_null }),
    {
        SetNull { target, target_layout, column, is_null }
    }

    /// Gets the target of the `SetNull`
    pub fn target(&self) -> (r: ExprId)
        ensures
            r == self.target,
    {
        self.target
    }

    pub fn target_layout(&self) -> (r: LayoutId)
        ensures
            r == self.target_layout,
    {
        self.target_layout
    }

    pub fn column(&self) -> (r: usize)
        ensures
            r == self.column,
    {
        self.column
    }

    pub fn is_null(&self) -> (r: &RValue)
        ensures
            r == &self.is_null,
    {
        &self.is_null
    }
}

/// Copies the contents of the source row into the destination row
///
/// Both the `src` and `dest` rows must have the same layout.
#[derive(Debug, Copy, Clone, PartialEq, Eq, Structural)]
pub struct CopyRowTo {
    pub src: ExprId,
    pub dest: ExprId,
    pub layout: LayoutId,
}

impl CopyRowTo {
    /// Creates a new `CopyRowTo` expression, both `src` and `dest` must be
    /// rows of `layout`'s layout
    pub fn new(src: ExprId, dest: ExprId, layout: LayoutId) -> (r: Self)
        ensures
            r == (CopyRowTo { src, dest, layout }),
    {
        CopyRowTo { src, dest, layout }
    }

    /// Returns the source row
    pub fn src(&self) -> (r: ExprId)
        ensures
            r == self.src,
    {
        self.src
    }

    /// Returns the destination row
    pub fn dest(&self) -> (r: ExprId)
        ensures
            r == self.dest,
    {
        self.dest
    }

    /// Returns the layout of the `src` and `dest` rows
    pub fn layout(&self) -> (r: LayoutId)
        ensures
            r == self.layout,
    {
        self.layout
    }
}

/// Creates a row whose contents are uninitialized
///
/// Values within the resulting row should never be read from, only written
/// to; after writing a value to the row you may then read from it.
#[derive(Debug, Copy, Clone, PartialEq, Eq, Structural)]
pub struct UninitRow {
    pub layout: LayoutId,
}

impl UninitRow {
    /// Create a new uninit row
    pub fn new(layout: LayoutId) -> (r: Self)
        ensures
            r == (UninitRow { layout }),
    {
        UninitRow { layout }
    }

    /// Returns the layout of the produced row
    pub fn layout(&self) -> (r: LayoutId)
        ensures
            r == self.layout,
    {
        self.layout
    }
}

/// Creates a row containing all null values
///
/// If the given layout doesn't contain any nullable columns this behaves
/// identically to [`UninitRow`]. `NullRow` only promises that every
/// well-defined `IsNull` call on the row returns `true`, whichever bit
/// value the configured null sigil assigns to "null".
#[derive(Debug, Copy, Clone, PartialEq, Eq, Structural)]
pub struct NullRow {
    pub layout: LayoutId,
}

impl NullRow {
    /// Create a new null row
    pub fn new(layout: LayoutId) -> (r: Self)
        ensures
            r == (NullRow { layout }),
    {
        NullRow { layout }
    }

    /// Returns the layout of the produced row
    pub fn layout(&self) -> (r: LayoutId)
        ensures
            r == self.layout,
    {
        self.layout
    }
}

/// A constant value. Scalar constants lower directly to typed immediates;
/// string constants go through the intrinsic-backed string-constant path.
#[derive(Debug, Clone, PartialEq)]
pub enum Constant {
    Unit,
    U8(u8),
    I8(i8),
    U16(u16),
    I16(i16),
    U32(u32),
    I32(i32),
    U64(u64),
    I64(i64),
    Bool(bool),
    String(String),
}

impl Constant {
    pub open spec fn spec_is_int(&self) -> bool {
        self is U8 || self is I8 || self is U16 || self is I16 || self is U32 || self is I32
            || self is U64 || self is I64
    }

    /// Returns `true` if the constant is an integer (signed or unsigned)
    #[verifier::when_used_as_spec(spec_is_int)]
    pub fn is_int(&self) -> (r: bool)
        ensures
            r == self.spec_is_int(),
    {
        matches!(
            self,
            Constant::U8(_) | Constant::I8(_) | Constant::U16(_) | Constant::I16(_)
                | Constant::U32(_) | Constant::I32(_) | Constant::U64(_) | Constant::I64(_),
        )
    }

    pub open spec fn spec_is_unsigned_int(&self) -> bool {
        self is U8 || self is U16 || self is U32 || self is U64
    }

    /// Returns `true` if the constant is an unsigned integer
    #[verifier::when_used_as_spec(spec_is_unsigned_int)]
    pub fn is_unsigned_int(&self) -> (r: bool)
        ensures
            r == self.spec_is_unsigned_int(),
    {
        matches!(self, Constant::U8(_) | Constant::U16(_) | Constant::U32(_) | Constant::U64(_))
    }

    pub open spec fn spec_is_signed_int(&self) -> bool {
        self is I8 || self is I16 || self is I32 || self is I64
    }

    /// Returns `true` if the constant is a signed integer
    #[verifier::when_used_as_spec(spec_is_signed_int)]
    pub fn is_signed_int(&self) -> (r: bool)
        ensures
            r == self.spec_is_signed_int(),
    {
        matches!(self, Constant::I8(_) | Constant::I16(_) | Constant::I32(_) | Constant::I64(_))
    }

    pub open spec fn spec_is_string(&self) -> bool {
        self is String
    }

    /// Returns `true` if the constant is a string.
    #[verifier::when_used_as_spec(spec_is_string)]
    pub fn is_string(&self) -> (r: bool)
        ensures
            r == self.spec_is_string(),
    {
        matches!(self, Constant::String(..))
    }

    pub open spec fn spec_is_bool(&self) -> bool {
        self is Bool
    }

    /// Returns `true` if the constant is a boolean.
    #[verifier::when_used_as_spec(spec_is_bool)]
    pub fn is_bool(&self) -> (r: bool)
        ensures
            r == self.spec_is_bool(),
    {
        matches!(self, Constant::Bool(..))
    }

    pub open spec fn spec_is_unit(&self) -> bool {
        self is Unit
    }

    /// Returns `true` if the constant is the unit value.
    #[verifier::when_used_as_spec(spec_is_unit)]
    pub fn is_unit(&self) -> (r: bool)
        ensures
            r == self.spec_is_unit(),
    {
        matches!(self, Constant::Unit)
    }

    pub open spec fn spec_column_type(&self) -> ColumnType {
        match self {
            Constant::Unit => ColumnType::Unit,
            Constant::U8(_) => ColumnType::U8,
            Constant::I8(_) => ColumnType::I8,
            Constant::U16(_) => ColumnType::U16,
            Constant::I16(_) => ColumnType::I16,
            Constant::U32(_) => ColumnType::U32,
            Constant::I32(_) => ColumnType::I32,
            Constant::U64(_) => ColumnType::U64,
            Constant::I64(_) => ColumnType::I64,
            Constant::Bool(_) => ColumnType::Bool,
            Constant::String(_) => ColumnType::String,
        }
    }

    /// Returns the [`ColumnType`] of the current constant
    #[verifier::when_used_as_spec(spec_column_type)]
    pub fn column_type(&self) -> (r: ColumnType)
        ensures
            r == self.spec_column_type(),
    {
        match self {
            Constant::Unit => ColumnType::Unit,
            Constant::U8(_) => ColumnType::U8,
            Constant::I8(_) => ColumnType::I8,
            Constant::U16(_) => ColumnType::U16,
            Constant::I16(_) => ColumnType::I16,
            Constant::U32(_) => ColumnType::U32,
            Constant::I32(_) => ColumnType::I32,
            Constant::U64(_) => ColumnType::U64,
            Constant::I64(_) => ColumnType::I64,
            Constant::Bool(_) => ColumnType::Bool,
            Constant::String(_) => ColumnType::String,
        }
    }
}

} // verus!
