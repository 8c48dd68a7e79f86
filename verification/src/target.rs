//! Description of the compilation target: pointer width and default calling
//! convention, plus the scalar widths the code builder works with.

use vstd::prelude::*;

verus! {

/// Width of a pointer on the target machine.
#[derive(Debug, Copy, Clone, PartialEq, Eq, Structural)]
pub enum PointerWidth {
    U16,
    U32,
    U64,
}

impl PointerWidth {
    /// The number of bytes a pointer occupies.
    pub open spec fn spec_bytes(self) -> u32 {
        match self {
            PointerWidth::U16 => 2,
            PointerWidth::U32 => 4,
            PointerWidth::U64 => 8,
        }
    }

    #[verifier::when_used_as_spec(spec_bytes)]
    pub fn bytes(self) -> (r: u32)
        ensures
            r == self.spec_bytes(),
    {
        match self {
            PointerWidth::U16 => 2,
            PointerWidth::U32 => 4,
            PointerWidth::U64 => 8,
        }
    }

    /// The number of bits a pointer occupies.
    pub open spec fn spec_bits(self) -> u32 {
        match self {
            PointerWidth::U16 => 16,
            PointerWidth::U32 => 32,
            PointerWidth::U64 => 64,
        }
    }

    #[verifier::when_used_as_spec(spec_bits)]
    pub fn bits(self) -> (r: u32)
        ensures
            r == self.spec_bits(),
    {
        match self {
            PointerWidth::U16 => 16,
            PointerWidth::U32 => 32,
            PointerWidth::U64 => 64,
        }
    }
}

/// Calling convention used for compiled functions.
#[derive(Debug, Copy, Clone, PartialEq, Eq, Structural)]
pub enum CallConv {
    Fast,
    Cold,
    SystemV,
    WindowsFastcall,
}

/// Everything the code generator needs to know about the machine it targets.
#[derive(Debug, Copy, Clone, PartialEq, Eq, Structural)]
pub struct TargetConfig {
    pub default_call_conv: CallConv,
    pub pointer_width: PointerWidth,
}

impl TargetConfig {
    pub open spec fn spec_pointer_bytes(self) -> u32 {
        self.pointer_width.spec_bytes()
    }

    #[verifier::when_used_as_spec(spec_pointer_bytes)]
    pub fn pointer_bytes(self) -> (r: u32)
        ensures
            r == self.spec_pointer_bytes(),
    {
        self.pointer_width.bytes()
    }

    pub open spec fn spec_pointer_bits(self) -> u32 {
        self.pointer_width.spec_bits()
    }

    #[verifier::when_used_as_spec(spec_pointer_bits)]
    pub fn pointer_bits(self) -> (r: u32)
        ensures
            r == self.spec_pointer_bits(),
    {
        self.pointer_width.bits()
    }

    /// The scalar type of a pointer in the code builder.
    pub open spec fn spec_pointer_type(self) -> NativeType {
        match self.pointer_width {
            PointerWidth::U16 => NativeType::I16,
            PointerWidth::U32 => NativeType::I32,
            PointerWidth::U64 => NativeType::I64,
        }
    }

    #[verifier::when_used_as_spec(spec_pointer_type)]
    pub fn pointer_type(self) -> (r: NativeType)
        ensures
            r == self.spec_pointer_type(),
    {
        match self.pointer_width {
            PointerWidth::U16 => NativeType::I16,
            PointerWidth::U32 => NativeType::I32,
            PointerWidth::U64 => NativeType::I64,
        }
    }
}

/// The scalar types the code builder understands: integer and float widths.
/// Booleans and bytes use the 8-bit integer.
#[derive(Debug, Copy, Clone, PartialEq, Eq, Structural)]
pub enum NativeType {
    I8,
    I16,
    I32,
    I64,
    F32,
    F64,
}

impl NativeType {
    /// The width of the type in bits.
    pub open spec fn spec_bits(self) -> u32 {
        match self {
            NativeType::I8 => 8,
            NativeType::I16 => 16,
            NativeType::I32 => 32,
            NativeType::I64 => 64,
            NativeType::F32 => 32,
            NativeType::F64 => 64,
        }
    }

    #[verifier::when_used_as_spec(spec_bits)]
    pub fn bits(self) -> (r: u32)
        ensures
            r == self.spec_bits(),
    {
        match self {
            NativeType::I8 => 8,
            NativeType::I16 => 16,
            NativeType::I32 => 32,
            NativeType::I64 => 64,
            NativeType::F32 => 32,
            NativeType::F64 => 64,
        }
    }
}

} // verus!
