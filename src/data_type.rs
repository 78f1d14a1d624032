use vstd::prelude::*;

verus! {

/// The element types that the native library accepts, one per native
/// data-type constant.
#[derive(Clone, Copy, Debug, PartialEq, Eq, Structural)]
pub enum DataTypeTag {
    Float,
    Double,
    Half,
    Int8,
    Int32,
    Uint8,
    Int64,
}

/// The native data-type constant of an element type.
pub open spec fn raw_data_type(tag: DataTypeTag) -> i32 {
    match tag {
        DataTypeTag::Float => 0,
        DataTypeTag::Double => 1,
        DataTypeTag::Half => 2,
        DataTypeTag::Int8 => 3,
        DataTypeTag::Int32 => 4,
        DataTypeTag::Uint8 => 6,
        DataTypeTag::Int64 => 10,
    }
}

impl DataTypeTag {
    /// The native constant for this element type.
    pub fn into_raw(self) -> (r: i32)
        ensures
            r == raw_data_type(self),
    {
        match self {
            DataTypeTag::Float => 0,
            DataTypeTag::Double => 1,
            DataTypeTag::Half => 2,
            DataTypeTag::Int8 => 3,
            DataTypeTag::Int32 => 4,
            DataTypeTag::Uint8 => 6,
            DataTypeTag::Int64 => 10,
        }
    }
}

/// A compile-time element type: a marker resolved to its native constant only
/// when a descriptor is configured.
pub trait DataType {
    spec fn spec_tag() -> DataTypeTag;

    fn tag() -> (r: DataTypeTag)
        ensures
            r == Self::spec_tag(),
    ;
}

/// 32-bit floating-point elements.
pub struct Float32;

/// 64-bit floating-point elements.
pub struct Float64;

/// 16-bit floating-point elements.
pub struct Float16;

/// Signed 8-bit integer elements.
pub struct Int8;

/// Signed 32-bit integer elements.
pub struct Int32;

/// Unsigned 8-bit integer elements.
pub struct Uint8;

/// Signed 64-bit integer elements.
pub struct Int64;

impl DataType for Float32 {
    open spec fn spec_tag() -> DataTypeTag {
        DataTypeTag::Float
    }

    fn tag() -> (r: DataTypeTag) {
        DataTypeTag::Float
    }
}

impl DataType for Float64 {
    open spec fn spec_tag() -> DataTypeTag {
        DataTypeTag::Double
    }

    fn tag() -> (r: DataTypeTag) {
        DataTypeTag::Double
    }
}

impl DataType for Float16 {
    open spec fn spec_tag() -> DataTypeTag {
        DataTypeTag::Half
    }

    fn tag() -> (r: DataTypeTag) {
        DataTypeTag::Half
    }
}

impl DataType for Int8 {
    open spec fn spec_tag() -> DataTypeTag {
        DataTypeTag::Int8
    }

    fn tag() -> (r: DataTypeTag) {
        DataTypeTag::Int8
    }
}

impl DataType for Int32 {
    open spec fn spec_tag() -> DataTypeTag {
        DataTypeTag::Int32
    }

    fn tag() -> (r: DataTypeTag) {
        DataTypeTag::Int32
    }
}

impl DataType for Uint8 {
    open spec fn spec_tag() -> DataTypeTag {
        DataTypeTag::Uint8
    }

    fn tag() -> (r: DataTypeTag) {
        DataTypeTag::Uint8
    }
}

impl DataType for Int64 {
    open spec fn spec_tag() -> DataTypeTag {
        DataTypeTag::Int64
    }

    fn tag() -> (r: DataTypeTag) {
        DataTypeTag::Int64
    }
}

} // verus!
