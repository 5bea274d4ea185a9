//! The closed set of twenty type kinds a record header can carry, and the
//! per-kind shape of the trailing byte region.

use vstd::prelude::*;

use crate::raw::spec_kind_tag;

verus! {

/// Discriminator identifying which of the twenty type shapes a record
/// encodes. The on-disk tag values run from 0 (`Void`) to 19 (`Enum64`) in
/// the order listed here.
#[derive(Debug, Clone, Copy, PartialEq, Eq, Hash, Structural)]
pub enum BtfKind {
    /// The C `void` type.
    Void,
    /// An integer.
    Int,
    /// A pointer.
    Ptr,
    /// An array.
    Array,
    /// A struct.
    Struct,
    /// A union.
    Union,
    /// An enum of at most 32 bits.
    Enum,
    /// A forward-declared struct or union.
    Fwd,
    /// A C typedef.
    Typedef,
    /// The `volatile` modifier.
    Volatile,
    /// The `const` modifier.
    Const,
    /// The `restrict` modifier.
    Restrict,
    /// A function.
    Func,
    /// A function prototype.
    FuncProto,
    /// A global variable.
    Var,
    /// An ELF data section.
    DataSec,
    /// A floating point number.
    Float,
    /// A declaration tag.
    DeclTag,
    /// A type tag.
    TypeTag,
    /// An enum of 64 bits.
    Enum64,
}

/// The kind a 5-bit tag value names.
pub open spec fn spec_kind_of_tag(tag: u32) -> BtfKind
    recommends
        tag <= 19,
{
    if tag == 0 {
        BtfKind::Void
    } else if tag == 1 {
        BtfKind::Int
    } else if tag == 2 {
        BtfKind::Ptr
    } else if tag == 3 {
        BtfKind::Array
    } else if tag == 4 {
        BtfKind::Struct
    } else if tag == 5 {
        BtfKind::Union
    } else if tag == 6 {
        BtfKind::Enum
    } else if tag == 7 {
        BtfKind::Fwd
    } else if tag == 8 {
        BtfKind::Typedef
    } else if tag == 9 {
        BtfKind::Volatile
    } else if tag == 10 {
        BtfKind::Const
    } else if tag == 11 {
        BtfKind::Restrict
    } else if tag == 12 {
        BtfKind::Func
    } else if tag == 13 {
        BtfKind::FuncProto
    } else if tag == 14 {
        BtfKind::Var
    } else if tag == 15 {
        BtfKind::DataSec
    } else if tag == 16 {
        BtfKind::Float
    } else if tag == 17 {
        BtfKind::DeclTag
    } else if tag == 18 {
        BtfKind::TypeTag
    } else {
        BtfKind::Enum64
    }
}

/// The kind named by the tag packed into a header's `info` word.
pub open spec fn spec_kind(info: u32) -> BtfKind
    recommends
        spec_kind_tag(info) <= 19,
{
    spec_kind_of_tag(spec_kind_tag(info))
}

/// The exact length in bytes of the trailing region a well-formed record of
/// kind `k` carries after its 12-byte header: nothing for fieldless kinds,
/// one fixed sub-record for the fixed-payload kinds, and `vlen` uniform
/// sub-records for the collection kinds.
pub open spec fn spec_trailing_len(k: BtfKind, vlen: u32) -> int {
    match k {
        BtfKind::Int => 4,
        BtfKind::Array => 12,
        BtfKind::Var => 4,
        BtfKind::DeclTag => 4,
        BtfKind::Struct => vlen * 12,
        BtfKind::Union => vlen * 12,
        BtfKind::Enum => vlen * 8,
        BtfKind::Enum64 => vlen * 12,
        BtfKind::FuncProto => vlen * 8,
        BtfKind::DataSec => vlen * 12,
        _ => 0,
    }
}

} // verus!
