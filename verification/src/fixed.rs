//! Views over the kinds that carry exactly one fixed-size trailing record,
//! regardless of `vlen`: integers, arrays, variables and declaration tags.

use vstd::prelude::*;

use crate::attrs::IntEncoding;
use crate::attrs::Linkage;
use crate::attrs::spec_int_bits;
use crate::attrs::spec_int_encoding;
use crate::attrs::spec_int_offset;
use crate::attrs::spec_linkage;
use crate::kind::BtfKind;
use crate::raw::spec_u32_at;
use crate::raw::u32_at;
use crate::ty::BtfType;
use crate::ty::TypeId;

verus! {

/// An integer. Its single trailing word packs the encoding nibble, a bit
/// offset and a bit width; the header's size-or-type word is the storage's
/// total byte size, independent of the declared bit width.
#[derive(Debug, Clone, Copy)]
pub struct Int<'btf> {
    /// The generic view this concrete view was converted from.
    pub source: BtfType<'btf>,
    /// The encoding of the number.
    pub encoding: IntEncoding,
    /// The offset in bits where the value of this integer starts. Mostly
    /// useful for bitfields in structs.
    pub offset: u8,
    /// The number of bits in the int. (For example, an u8 has 8 bits).
    pub bits: u8,
}

impl<'btf> Int<'btf> {
    /// The source record is well formed, its header carries this kind, and
    /// the decoded fields agree with the trailing word.
    pub open spec fn wf(self) -> bool {
        &&& self.source.wf()
        &&& self.source.spec_kind() == BtfKind::Int
        &&& self.encoding == spec_int_encoding(spec_u32_at(self.source.data@, 0))
        &&& self.offset == spec_int_offset(spec_u32_at(self.source.data@, 0))
        &&& self.bits == spec_int_bits(spec_u32_at(self.source.data@, 0))
    }

    /// Converts a generic view: succeeds exactly when the header's kind tag
    /// names this kind, decoding the trailing word's packed sub-fields, and
    /// hands the view back unchanged otherwise.
    pub fn try_from(t: BtfType<'btf>) -> (r: Result<Int<'btf>, BtfType<'btf>>)
        requires
            t.wf(),
        ensures
            t.spec_kind() == BtfKind::Int ==> (r matches Ok(v) && v.source == t && v.wf()),
            t.spec_kind() != BtfKind::Int ==> (r matches Err(e) && e == t),
    {
        if t.kind() == BtfKind::Int {
            let word = u32_at(t.data, 0);
            let nibble = (word >> 24) & 0xf;
            let encoding = if nibble & 0b1 == 0b1 {
                IntEncoding::Signed
            } else if nibble & 0b10 == 0b10 {
                IntEncoding::Char
            } else if nibble & 0b100 == 0b100 {
                IntEncoding::Bool
            } else {
                IntEncoding::NoEncoding
            };
            proof {
                assert((word >> 16) & 0xff <= 0xff) by (bit_vector);
                assert(word & 0xff <= 0xff) by (bit_vector);
            }
            Ok(
                Int {
                    source: t,
                    encoding,
                    offset: ((word >> 16) & 0xff) as u8,
                    bits: (word & 0xff) as u8,
                },
            )
        } else {
            Err(t)
        }
    }

    /// The byte size of this type, from the header's size-or-type word.
    pub fn size(&self) -> (r: usize)
        ensures
            r == self.source.size_or_type as usize,
    {
        self.source.size_or_type as usize
    }
}

/// An array. Its single trailing record names the element type, the index
/// type and the element count.
#[derive(Debug, Clone, Copy)]
pub struct Array<'btf> {
    /// The generic view this concrete view was converted from.
    pub source: BtfType<'btf>,
}

impl<'btf> Array<'btf> {
    /// The source record is well formed and its header carries this kind.
    pub open spec fn wf(self) -> bool {
        self.source.wf() && self.source.spec_kind() == BtfKind::Array
    }

    /// Converts a generic view: succeeds exactly when the header's kind tag
    /// names this kind, and hands the view back unchanged otherwise.
    pub fn try_from(t: BtfType<'btf>) -> (r: Result<Array<'btf>, BtfType<'btf>>)
        requires
            t.wf(),
        ensures
            t.spec_kind() == BtfKind::Array ==> (r matches Ok(v) && v.source == t && v.wf()),
            t.spec_kind() != BtfKind::Array ==> (r matches Err(e) && e == t),
    {
        if t.kind() == BtfKind::Array {
            Ok(Array { source: t })
        } else {
            Err(t)
        }
    }

    /// The type id of the stored type, from the trailing record's first word.
    pub fn ty(&self) -> (r: TypeId)
        requires
            self.wf(),
        ensures
            r == TypeId(spec_u32_at(self.source.data@, 0)),
    {
        TypeId(u32_at(self.source.data, 0))
    }

    /// The type of index used, from the trailing record's second word.
    pub fn index_ty(&self) -> (r: TypeId)
        requires
            self.wf(),
        ensures
            r == TypeId(spec_u32_at(self.source.data@, 4)),
    {
        TypeId(u32_at(self.source.data, 4))
    }

    /// The capacity of the array, from the trailing record's third word.
    pub fn capacity(&self) -> (r: usize)
        requires
            self.wf(),
        ensures
            r == spec_u32_at(self.source.data@, 8) as usize,
    {
        u32_at(self.source.data, 8) as usize
    }
}

/// A global variable. Its single trailing word is a linkage code, distinct
/// from the way a function reuses its header's `vlen` for the same purpose.
#[derive(Debug, Clone, Copy)]
pub struct Var<'btf> {
    /// The generic view this concrete view was converted from.
    pub source: BtfType<'btf>,
}

impl<'btf> Var<'btf> {
    /// The source record is well formed and its header carries this kind.
    pub open spec fn wf(self) -> bool {
        self.source.wf() && self.source.spec_kind() == BtfKind::Var
    }

    /// Converts a generic view: succeeds exactly when the header's kind tag
    /// names this kind, and hands the view back unchanged otherwise.
    pub fn try_from(t: BtfType<'btf>) -> (r: Result<Var<'btf>, BtfType<'btf>>)
        requires
            t.wf(),
        ensures
            t.spec_kind() == BtfKind::Var ==> (r matches Ok(v) && v.source == t && v.wf()),
            t.spec_kind() != BtfKind::Var ==> (r matches Err(e) && e == t),
    {
        if t.kind() == BtfKind::Var {
            Ok(Var { source: t })
        } else {
            Err(t)
        }
    }

    /// The kind of linkage this variable has, decoded from the trailing
    /// word; codes outside 0–2 decode to `Unknown` and never fail.
    pub fn linkage(&self) -> (r: Linkage)
        requires
            self.wf(),
        ensures
            r == spec_linkage(spec_u32_at(self.source.data@, 0)),
    {
        Linkage::from_code(u32_at(self.source.data, 0))
    }

    /// The type this record refers to, from the header's size-or-type word.
    pub fn referenced_type_id(&self) -> (r: TypeId)
        ensures
            r == TypeId(self.source.size_or_type),
    {
        TypeId(self.source.size_or_type)
    }
}

/// A declaration tag: a custom tag the programmer can attach to a symbol.
#[derive(Debug, Clone, Copy)]
pub struct DeclTag<'btf> {
    /// The generic view this concrete view was converted from.
    pub source: BtfType<'btf>,
}

impl<'btf> DeclTag<'btf> {
    /// The source record is well formed and its header carries this kind.
    pub open spec fn wf(self) -> bool {
        self.source.wf() && self.source.spec_kind() == BtfKind::DeclTag
    }

    /// Converts a generic view: succeeds exactly when the header's kind tag
    /// names this kind, and hands the view back unchanged otherwise.
    pub fn try_from(t: BtfType<'btf>) -> (r: Result<DeclTag<'btf>, BtfType<'btf>>)
        requires
            t.wf(),
        ensures
            t.spec_kind() == BtfKind::DeclTag ==> (r matches Ok(v) && v.source == t && v.wf()),
            t.spec_kind() != BtfKind::DeclTag ==> (r matches Err(e) && e == t),
    {
        if t.kind() == BtfKind::DeclTag {
            Ok(DeclTag { source: t })
        } else {
            Err(t)
        }
    }

    /// The component index is present only when the tag points to a
    /// struct/union member or a function argument, and says which member or
    /// argument this tag refers to. The trailing word is a signed sentinel
    /// field: values with the sign bit set mean the tag applies to the whole
    /// referenced symbol and decode to `None`.
    pub fn component_index(&self) -> (r: Option<u32>)
        requires
            self.wf(),
        ensures
            spec_u32_at(self.source.data@, 0) < 0x8000_0000 ==> r == Some(
                spec_u32_at(self.source.data@, 0),
            ),
            spec_u32_at(self.source.data@, 0) >= 0x8000_0000 ==> r is None,
    {
        let word = u32_at(self.source.data, 0);
        if word < 0x8000_0000 {
            Some(word)
        } else {
            None
        }
    }

    /// The type this record refers to, from the header's size-or-type word.
    pub fn referenced_type_id(&self) -> (r: TypeId)
        ensures
            r == TypeId(self.source.size_or_type),
    {
        TypeId(self.source.size_or_type)
    }
}

} // verus!
