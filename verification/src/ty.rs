//! The generic record view: a type id, the raw 12-byte header fields, and a
//! borrow of the record's trailing bytes.

use vstd::prelude::*;

use crate::kind::BtfKind;
use crate::kind::spec_kind;
use crate::kind::spec_trailing_len;
use crate::raw::spec_kind_flag;
use crate::raw::spec_kind_tag;
use crate::raw::spec_vlen;

verus! {

/// An opaque integer handle naming a record's position in the owning store;
/// 0 conventionally denotes "void"/absence.
#[derive(Debug, Clone, Copy, PartialEq, Eq, Hash, Structural)]
pub struct TypeId(pub u32);

/// A generic, read-only view of one raw type record: the record's id, its
/// three raw header words, and a borrow of the trailing bytes that follow
/// the header inside the owning store's buffer.
///
/// The owning store validates that the trailing region really holds the
/// bytes the header announces before handing a view out; [`BtfType::wf`]
/// states that precondition and this layer never re-checks it.
#[derive(Debug, Clone, Copy, PartialEq, Eq)]
pub struct BtfType<'btf> {
    /// The id under which the owning store indexes this record.
    pub type_id: TypeId,
    /// Header word 0: offset into the external string table, 0 = anonymous.
    pub name_offset: u32,
    /// Header word 1: packed `vlen` (bits 0–15), kind tag (bits 24–28) and
    /// `kind_flag` (bit 31).
    pub info: u32,
    /// Header word 2: a byte size for the sized kinds, a referenced type id
    /// for the referring kinds.
    pub size_or_type: u32,
    /// The record's trailing bytes, borrowed from the owning store's buffer.
    pub data: &'btf [u8],
}

impl<'btf> BtfType<'btf> {
    /// The header's kind tag names one of the twenty known kinds.
    pub open spec fn has_known_kind(self) -> bool {
        spec_kind_tag(self.info) <= 19
    }

    /// The kind this record's header announces.
    pub open spec fn spec_kind(self) -> BtfKind
        recommends
            self.has_known_kind(),
    {
        spec_kind(self.info)
    }

    /// Well-formedness, owed by the owning store: the kind tag is known and
    /// the trailing region holds exactly the bytes that kind and `vlen`
    /// call for.
    pub open spec fn wf(self) -> bool {
        &&& self.has_known_kind()
        &&& self.data@.len() == spec_trailing_len(self.spec_kind(), spec_vlen(self.info))
    }

    /// Assembles a generic view from a record's id, raw header words and
    /// trailing bytes.
    pub fn new(
        type_id: TypeId,
        name_offset: u32,
        info: u32,
        size_or_type: u32,
        data: &'btf [u8],
    ) -> (r: BtfType<'btf>)
        ensures
            r == (BtfType { type_id, name_offset, info, size_or_type, data }),
    {
        BtfType { type_id, name_offset, info, size_or_type, data }
    }

    /// Decodes the kind tag from the header's `info` word.
    pub fn kind(&self) -> (r: BtfKind)
        requires
            self.has_known_kind(),
        ensures
            r == self.spec_kind(),
    {
        let tag = (self.info >> 24) & 0x1f;
        if tag == 0 {
            BtfKind::Void
        } else if tag == 1 {
            BtfKind::Int
        } else if tag == 2 {
            BtfKind::Ptr
        } else if tag == 3 {
            BtfKind::Array
        } else if tag == 4 {
            BtfKind::Struct
        } else if tag == 5 {
            BtfKind::Union
        } else if tag == 6 {
            BtfKind::Enum
        } else if tag == 7 {
            BtfKind::Fwd
        } else if tag == 8 {
            BtfKind::Typedef
        } else if tag == 9 {
            BtfKind::Volatile
        } else if tag == 10 {
            BtfKind::Const
        } else if tag == 11 {
            BtfKind::Restrict
        } else if tag == 12 {
            BtfKind::Func
        } else if tag == 13 {
            BtfKind::FuncProto
        } else if tag == 14 {
            BtfKind::Var
        } else if tag == 15 {
            BtfKind::DataSec
        } else if tag == 16 {
            BtfKind::Float
        } else if tag == 17 {
            BtfKind::DeclTag
        } else if tag == 18 {
            BtfKind::TypeTag
        } else {
            BtfKind::Enum64
        }
    }

    /// Decodes the `kind_flag` bit from the header's `info` word.
    pub fn kind_flag(&self) -> (r: bool)
        ensures
            r == spec_kind_flag(self.info),
    {
        (self.info >> 31) & 1 == 1
    }

    /// Decodes the `vlen` sub-field from the header's `info` word.
    pub fn vlen(&self) -> (r: u32)
        ensures
            r == spec_vlen(self.info),
    {
        self.info & 0xffff
    }
}

} // verus!
