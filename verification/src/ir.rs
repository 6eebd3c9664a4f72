//! The intermediate type model: the closed set of delegate types whose wire
//! form is a different, simpler transmissible type.

use vstd::prelude::*;

verus! {

/// The transmissible primitive types.
#[derive(PartialEq, Eq, Structural, Clone, Copy, Debug)]
pub enum IrTypePrimitive {
    U8,
    I8,
    U16,
    I16,
    U32,
    I32,
    U64,
    I64,
    Usize,
    Bool,
}

impl IrTypePrimitive {
    /// The primitive's type name in emitted native source.
    pub open spec fn spec_rust_type(self) -> Seq<char> {
        match self {
            IrTypePrimitive::U8 => "u8"@,
            IrTypePrimitive::I8 => "i8"@,
            IrTypePrimitive::U16 => "u16"@,
            IrTypePrimitive::I16 => "i16"@,
            IrTypePrimitive::U32 => "u32"@,
            IrTypePrimitive::I32 => "i32"@,
            IrTypePrimitive::U64 => "u64"@,
            IrTypePrimitive::I64 => "i64"@,
            IrTypePrimitive::Usize => "usize"@,
            IrTypePrimitive::Bool => "bool"@,
        }
    }

    /// The primitive's type name in emitted native source.
    pub fn rust_type(&self) -> (r: &'static str)
        ensures
            r@ == self.spec_rust_type(),
    {
        match self {
            IrTypePrimitive::U8 => "u8",
            IrTypePrimitive::I8 => "i8",
            IrTypePrimitive::U16 => "u16",
            IrTypePrimitive::I16 => "i16",
            IrTypePrimitive::U32 => "u32",
            IrTypePrimitive::I32 => "i32",
            IrTypePrimitive::U64 => "u64",
            IrTypePrimitive::I64 => "i64",
            IrTypePrimitive::Usize => "usize",
            IrTypePrimitive::Bool => "bool",
        }
    }
}

/// The time/duration delegate family.
#[derive(PartialEq, Eq, Structural, Clone, Copy, Debug)]
pub enum IrTypeTime {
    Naive,
    Utc,
    Local,
    Duration,
}

/// An enum declaration the IR refers to: its name, the wrapper name the
/// original declaration may specify, and its variants in declaration order.
#[derive(Clone, Debug)]
pub struct IrEnum {
    pub name: String,
    pub wrapper_name: Option<String>,
    pub variants: Vec<String>,
}

/// A delegate type: its wire form is a more primitive transmissible type.
#[derive(Clone, Debug)]
pub enum IrTypeDelegate {
    /// Wire form: a byte buffer; API form: decoded text.
    Str,
    /// Wire form equals API form; the marker signals the allocation may be
    /// reused directly, without a copy.
    ZeroCopyBufferVecPrimitive(IrTypePrimitive),
    /// Wire form: a fixed-layout struct of a per-element pointer array and a
    /// count.
    StringList,
    /// Wire form: an integer of the representation's width; API form: the
    /// variant at that 0-indexed position in declaration order.
    PrimitiveEnum { ir: IrEnum, repr: IrTypePrimitive },
    /// Wire form: a signed count of sub-second units.
    Time(IrTypeTime),
}

} // verus!
