//! Views over the kinds whose trailing region is a `vlen`-counted run of
//! uniform fixed-size sub-records, each decoded into a member structure on
//! access and never eagerly cached.
//!
//! Member names are exposed as raw string-table offsets (0 = anonymous);
//! resolving an offset into a string is the owning store's responsibility.

use vstd::prelude::*;

use crate::attrs::MemberAttr;
use crate::attrs::spec_member_attr;
use crate::kind::BtfKind;
use crate::raw::lemma_vlen_bound;
use crate::raw::spec_kind_flag;
use crate::raw::spec_u32_at;
use crate::raw::spec_vlen;
use crate::raw::u32_at;
use crate::ty::BtfType;
use crate::ty::TypeId;

verus! {

/// A member of a [`Struct`].
#[derive(Debug, Clone, Copy, PartialEq, Eq, Structural)]
pub struct StructMember {
    /// The member's name, as a string-table offset; 0 = anonymous.
    pub name_off: u32,
    /// The member's type.
    pub ty: TypeId,
    /// The attributes of this member.
    pub attr: MemberAttr,
}

/// A member of a [`Union`].
#[derive(Debug, Clone, Copy, PartialEq, Eq, Structural)]
pub struct UnionMember {
    /// The member's name, as a string-table offset; 0 = anonymous.
    pub name_off: u32,
    /// The member's type.
    pub ty: TypeId,
    /// The attributes of this member.
    pub attr: MemberAttr,
}

/// A member of an [`Enum`].
#[derive(Debug, Clone, Copy, PartialEq, Eq, Structural)]
pub struct EnumMember {
    /// The name of this enum variant, as a string-table offset; 0 = anonymous.
    pub name_off: u32,
    /// The numeric value of this enum variant.
    pub value: i32,
}

/// A member of an [`Enum64`].
#[derive(Debug, Clone, Copy, PartialEq, Eq, Structural)]
pub struct Enum64Member {
    /// The name of this enum variant, as a string-table offset; 0 = anonymous.
    pub name_off: u32,
    /// The numeric value of this enum variant.
    pub value: u64,
}

/// A parameter of a [`FuncProto`].
#[derive(Debug, Clone, Copy, PartialEq, Eq, Structural)]
pub struct FuncProtoParam {
    /// The parameter's name, as a string-table offset; 0 = anonymous.
    pub name_off: u32,
    /// The parameter's type.
    pub ty: TypeId,
}

/// Describes one variable inside a [`DataSec`] section.
#[derive(Debug, Clone, Copy, PartialEq, Eq, Structural)]
pub struct VarSecInfo {
    /// The type id of the variable.
    pub ty: TypeId,
    /// The offset in the section.
    pub offset: u32,
    /// The size of the type.
    pub size: usize,
}

/// The `i`-th struct/union member decoded from a trailing region of 12-byte
/// sub-records (name offset, type id, raw offset word), the raw offset word
/// read under the enclosing record's `kind_flag`.
pub open spec fn spec_struct_member(data: Seq<u8>, kflag: bool, i: int) -> StructMember {
    StructMember {
        name_off: spec_u32_at(data, 12 * i),
        ty: TypeId(spec_u32_at(data, 12 * i + 4)),
        attr: spec_member_attr(kflag, spec_u32_at(data, 12 * i + 8)),
    }
}

/// The `i`-th union member; same 12-byte layout as a struct member.
pub open spec fn spec_union_member(data: Seq<u8>, kflag: bool, i: int) -> UnionMember {
    UnionMember {
        name_off: spec_u32_at(data, 12 * i),
        ty: TypeId(spec_u32_at(data, 12 * i + 4)),
        attr: spec_member_attr(kflag, spec_u32_at(data, 12 * i + 8)),
    }
}

/// The `i`-th enum member decoded from a trailing region of 8-byte
/// sub-records (name offset, signed 32-bit value).
pub open spec fn spec_enum_member(data: Seq<u8>, i: int) -> EnumMember {
    EnumMember { name_off: spec_u32_at(data, 8 * i), value: spec_u32_at(data, 8 * i + 4) as i32 }
}

/// The `i`-th 64-bit enum member decoded from a trailing region of 12-byte
/// sub-records (name offset, low half, high half): the value is the high
/// half shifted up 32 bits, or-ed with the low half.
pub open spec fn spec_enum64_member(data: Seq<u8>, i: int) -> Enum64Member {
    Enum64Member {
        name_off: spec_u32_at(data, 12 * i),
        value: ((spec_u32_at(data, 12 * i + 8) as u64) << 32) | (spec_u32_at(data, 12 * i + 4) as u64),
    }
}

/// The `i`-th prototype parameter decoded from a trailing region of 8-byte
/// sub-records (name offset, type id).
pub open spec fn spec_func_proto_param(data: Seq<u8>, i: int) -> FuncProtoParam {
    FuncProtoParam { name_off: spec_u32_at(data, 8 * i), ty: TypeId(spec_u32_at(data, 8 * i + 4)) }
}

/// The `i`-th section entry decoded from a trailing region of 12-byte
/// sub-records (type id, section offset, byte size).
pub open spec fn spec_var_sec_info(data: Seq<u8>, i: int) -> VarSecInfo {
    VarSecInfo {
        ty: TypeId(spec_u32_at(data, 12 * i)),
        offset: spec_u32_at(data, 12 * i + 4),
        size: spec_u32_at(data, 12 * i + 8) as usize,
    }
}

/// A struct.
#[derive(Debug, Clone, Copy)]
pub struct Struct<'btf> {
    /// The generic view this concrete view was converted from.
    pub source: BtfType<'btf>,
}

impl<'btf> Struct<'btf> {
    /// The source record is well formed and its header carries this kind.
    pub open spec fn wf(self) -> bool {
        self.source.wf() && self.source.spec_kind() == BtfKind::Struct
    }

    /// The sequence of all `vlen` members, each decoded from its 12-byte
    /// sub-record under the enclosing record's `kind_flag`.
    pub open spec fn members_view(self) -> Seq<StructMember> {
        Seq::new(
            spec_vlen(self.source.info) as nat,
            |i: int| spec_struct_member(self.source.data@, spec_kind_flag(self.source.info), i),
        )
    }

    /// Converts a generic view: succeeds exactly when the header's kind tag
    /// names this kind, and hands the view back unchanged otherwise.
    pub fn try_from(t: BtfType<'btf>) -> (r: Result<Struct<'btf>, BtfType<'btf>>)
        requires
            t.wf(),
        ensures
            t.spec_kind() == BtfKind::Struct ==> (r matches Ok(v) && v.source == t && v.wf()),
            t.spec_kind() != BtfKind::Struct ==> (r matches Err(e) && e == t),
    {
        if t.kind() == BtfKind::Struct {
            Ok(Struct { source: t })
        } else {
            Err(t)
        }
    }

    /// Whether this type has no members.
    pub fn is_empty(&self) -> (r: bool)
        ensures
            r == (self.members_view().len() == 0),
    {
        self.source.vlen() == 0
    }

    /// How many members this [`Struct`] has.
    pub fn len(&self) -> (r: usize)
        ensures
            r == self.members_view().len(),
    {
        self.source.vlen() as usize
    }

    /// Get a [`StructMember`] at a given index.
    ///
    /// # Errors
    ///
    /// This function returns [`None`] when the index is out of bounds.
    pub fn get(&self, index: usize) -> (r: Option<StructMember>)
        requires
            self.wf(),
        ensures
            index < self.members_view().len() ==> r == Some(self.members_view()[index as int]),
            index >= self.members_view().len() ==> r is None,
    {
        let n = self.source.vlen();
        if index < n as usize {
            proof {
                lemma_vlen_bound(self.source.info);
            }
            let base = index * 12;
            let name_off = u32_at(self.source.data, base);
            let ty = u32_at(self.source.data, base + 4);
            let raw_off = u32_at(self.source.data, base + 8);
            let attr = MemberAttr::decode(self.source.kind_flag(), raw_off);
            Some(StructMember { name_off, ty: TypeId(ty), attr })
        } else {
            None
        }
    }

    /// Decodes every member in order, deriving a fresh sequence from the
    /// same immutable trailing bytes on each invocation.
    pub fn members(&self) -> (r: Vec<StructMember>)
        requires
            self.wf(),
        ensures
            r@ == self.members_view(),
    {
        let n = self.source.vlen() as usize;
        let mut out: Vec<StructMember> = Vec::new();
        let mut i: usize = 0;
        while i < n
            invariant
                self.wf(),
                n == spec_vlen(self.source.info),
                i <= n,
                out@.len() == i,
                forall|j: int| 0 <= j < i ==> out@[j] == self.members_view()[j],
            decreases n - i,
        {
            let m = self.get(i).unwrap();
            out.push(m);
            i = i + 1;
        }
        proof {
            assert(out@ =~= self.members_view());
        }
        out
    }

    /// The byte size of this type, from the header's size-or-type word.
    pub fn size(&self) -> (r: usize)
        ensures
            r == self.source.size_or_type as usize,
    {
        self.source.size_or_type as usize
    }
}

/// Law: a struct view's member sequence has exactly `vlen` entries, and its
/// `i`-th entry is the member decoded at index `i` under the enclosing
/// record's `kind_flag`; no entry exists at or past `vlen`.
pub proof fn lemma_struct_member_sequence<'btf>(s: Struct<'btf>, i: int)
    requires
        0 <= i < spec_vlen(s.source.info),
    ensures
        s.members_view().len() == spec_vlen(s.source.info),
        s.members_view()[i] == spec_struct_member(
            s.source.data@,
            spec_kind_flag(s.source.info),
            i,
        ),
{
}

/// A Union.
#[derive(Debug, Clone, Copy)]
pub struct Union<'btf> {
    /// The generic view this concrete view was converted from.
    pub source: BtfType<'btf>,
}

impl<'btf> Union<'btf> {
    /// The source record is well formed and its header carries this kind.
    pub open spec fn wf(self) -> bool {
        self.source.wf() && self.source.spec_kind() == BtfKind::Union
    }

    /// The sequence of all `vlen` members, each decoded from its 12-byte
    /// sub-record under the enclosing record's `kind_flag`.
    pub open spec fn members_view(self) -> Seq<UnionMember> {
        Seq::new(
            spec_vlen(self.source.info) as nat,
            |i: int| spec_union_member(self.source.data@, spec_kind_flag(self.source.info), i),
        )
    }

    /// Converts a generic view: succeeds exactly when the header's kind tag
    /// names this kind, and hands the view back unchanged otherwise.
    pub fn try_from(t: BtfType<'btf>) -> (r: Result<Union<'btf>, BtfType<'btf>>)
        requires
            t.wf(),
        ensures
            t.spec_kind() == BtfKind::Union ==> (r matches Ok(v) && v.source == t && v.wf()),
            t.spec_kind() != BtfKind::Union ==> (r matches Err(e) && e == t),
    {
        if t.kind() == BtfKind::Union {
            Ok(Union { source: t })
        } else {
            Err(t)
        }
    }

    /// Whether this type has no members.
    pub fn is_empty(&self) -> (r: bool)
        ensures
            r == (self.members_view().len() == 0),
    {
        self.source.vlen() == 0
    }

    /// How many members this [`Union`] has.
    pub fn len(&self) -> (r: usize)
        ensures
            r == self.members_view().len(),
    {
        self.source.vlen() as usize
    }

    /// Get a [`UnionMember`] at a given index.
    ///
    /// # Errors
    ///
    /// This function returns [`None`] when the index is out of bounds.
    pub fn get(&self, index: usize) -> (r: Option<UnionMember>)
        requires
            self.wf(),
        ensures
            index < self.members_view().len() ==> r == Some(self.members_view()[index as int]),
            index >= self.members_view().len() ==> r is None,
    {
        let n = self.source.vlen();
        if index < n as usize {
            proof {
                lemma_vlen_bound(self.source.info);
            }
            let base = index * 12;
            let name_off = u32_at(self.source.data, base);
            let ty = u32_at(self.source.data, base + 4);
            let raw_off = u32_at(self.source.data, base + 8);
            let attr = MemberAttr::decode(self.source.kind_flag(), raw_off);
            Some(UnionMember { name_off, ty: TypeId(ty), attr })
        } else {
            None
        }
    }

    /// Decodes every member in order, deriving a fresh sequence from the
    /// same immutable trailing bytes on each invocation.
    pub fn members(&self) -> (r: Vec<UnionMember>)
        requires
            self.wf(),
        ensures
            r@ == self.members_view(),
    {
        let n = self.source.vlen() as usize;
        let mut out: Vec<UnionMember> = Vec::new();
        let mut i: usize = 0;
        while i < n
            invariant
                self.wf(),
                n == spec_vlen(self.source.info),
                i <= n,
                out@.len() == i,
                forall|j: int| 0 <= j < i ==> out@[j] == self.members_view()[j],
            decreases n - i,
        {
            let m = self.get(i).unwrap();
            out.push(m);
            i = i + 1;
        }
        proof {
            assert(out@ =~= self.members_view());
        }
        out
    }

    /// The byte size of this type, from the header's size-or-type word.
    pub fn size(&self) -> (r: usize)
        ensures
            r == self.source.size_or_type as usize,
    {
        self.source.size_or_type as usize
    }
}

/// Law: a union view's member sequence has exactly `vlen` entries, and its
/// `i`-th entry is the member decoded at index `i` under the enclosing
/// record's `kind_flag`; no entry exists at or past `vlen`.
pub proof fn lemma_union_member_sequence<'btf>(s: Union<'btf>, i: int)
    requires
        0 <= i < spec_vlen(s.source.info),
    ensures
        s.members_view().len() == spec_vlen(s.source.info),
        s.members_view()[i] == spec_union_member(s.source.data@, spec_kind_flag(s.source.info), i),
{
}

/// An Enum of at most 32 bits.
#[derive(Debug, Clone, Copy)]
pub struct Enum<'btf> {
    /// The generic view this concrete view was converted from.
    pub source: BtfType<'btf>,
}

impl<'btf> Enum<'btf> {
    /// The source record is well formed and its header carries this kind.
    pub open spec fn wf(self) -> bool {
        self.source.wf() && self.source.spec_kind() == BtfKind::Enum
    }

    /// The sequence of all `vlen` members, each decoded from its 8-byte
    /// sub-record.
    pub open spec fn members_view(self) -> Seq<EnumMember> {
        Seq::new(
            spec_vlen(self.source.info) as nat,
            |i: int| spec_enum_member(self.source.data@, i),
        )
    }

    /// Converts a generic view: succeeds exactly when the header's kind tag
    /// names this kind, and hands the view back unchanged otherwise.
    pub fn try_from(t: BtfType<'btf>) -> (r: Result<Enum<'btf>, BtfType<'btf>>)
        requires
            t.wf(),
        ensures
            t.spec_kind() == BtfKind::Enum ==> (r matches Ok(v) && v.source == t && v.wf()),
            t.spec_kind() != BtfKind::Enum ==> (r matches Err(e) && e == t),
    {
        if t.kind() == BtfKind::Enum {
            Ok(Enum { source: t })
        } else {
            Err(t)
        }
    }

    /// Whether this type has no members.
    pub fn is_empty(&self) -> (r: bool)
        ensures
            r == (self.members_view().len() == 0),
    {
        self.source.vlen() == 0
    }

    /// How many members this [`Enum`] has.
    pub fn len(&self) -> (r: usize)
        ensures
            r == self.members_view().len(),
    {
        self.source.vlen() as usize
    }

    /// Get an [`EnumMember`] at a given index.
    ///
    /// # Errors
    ///
    /// This function returns [`None`] when the index is out of bounds.
    pub fn get(&self, index: usize) -> (r: Option<EnumMember>)
        requires
            self.wf(),
        ensures
            index < self.members_view().len() ==> r == Some(self.members_view()[index as int]),
            index >= self.members_view().len() ==> r is None,
    {
        let n = self.source.vlen();
        if index < n as usize {
            proof {
                lemma_vlen_bound(self.source.info);
            }
            let base = index * 8;
            let name_off = u32_at(self.source.data, base);
            let raw_val = u32_at(self.source.data, base + 4);
            Some(EnumMember { name_off, value: #[verifier::truncate] (raw_val as i32) })
        } else {
            None
        }
    }

    /// Decodes every member in order, deriving a fresh sequence from the
    /// same immutable trailing bytes on each invocation.
    pub fn members(&self) -> (r: Vec<EnumMember>)
        requires
            self.wf(),
        ensures
            r@ == self.members_view(),
    {
        let n = self.source.vlen() as usize;
        let mut out: Vec<EnumMember> = Vec::new();
        let mut i: usize = 0;
        while i < n
            invariant
                self.wf(),
                n == spec_vlen(self.source.info),
                i <= n,
                out@.len() == i,
                forall|j: int| 0 <= j < i ==> out@[j] == self.members_view()[j],
            decreases n - i,
        {
            let m = self.get(i).unwrap();
            out.push(m);
            i = i + 1;
        }
        proof {
            assert(out@ =~= self.members_view());
        }
        out
    }

    /// The byte size of this type, from the header's size-or-type word.
    pub fn size(&self) -> (r: usize)
        ensures
            r == self.source.size_or_type as usize,
    {
        self.source.size_or_type as usize
    }
}

/// Law: an enum view's member sequence has exactly `vlen` entries, and its
/// `i`-th entry is the member decoded at index `i`; no entry exists at or
/// past `vlen`.
pub proof fn lemma_enum_member_sequence<'btf>(s: Enum<'btf>, i: int)
    requires
        0 <= i < spec_vlen(s.source.info),
    ensures
        s.members_view().len() == spec_vlen(s.source.info),
        s.members_view()[i] == spec_enum_member(s.source.data@, i),
{
}

/// An Enum of 64 bits.
#[derive(Debug, Clone, Copy)]
pub struct Enum64<'btf> {
    /// The generic view this concrete view was converted from.
    pub source: BtfType<'btf>,
}

impl<'btf> Enum64<'btf> {
    /// The source record is well formed and its header carries this kind.
    pub open spec fn wf(self) -> bool {
        self.source.wf() && self.source.spec_kind() == BtfKind::Enum64
    }

    /// The sequence of all `vlen` members, each decoded from its 12-byte
    /// sub-record.
    pub open spec fn members_view(self) -> Seq<Enum64Member> {
        Seq::new(
            spec_vlen(self.source.info) as nat,
            |i: int| spec_enum64_member(self.source.data@, i),
        )
    }

    /// Converts a generic view: succeeds exactly when the header's kind tag
    /// names this kind, and hands the view back unchanged otherwise.
    pub fn try_from(t: BtfType<'btf>) -> (r: Result<Enum64<'btf>, BtfType<'btf>>)
        requires
            t.wf(),
        ensures
            t.spec_kind() == BtfKind::Enum64 ==> (r matches Ok(v) && v.source == t && v.wf()),
            t.spec_kind() != BtfKind::Enum64 ==> (r matches Err(e) && e == t),
    {
        if t.kind() == BtfKind::Enum64 {
            Ok(Enum64 { source: t })
        } else {
            Err(t)
        }
    }

    /// Whether this type has no members.
    pub fn is_empty(&self) -> (r: bool)
        ensures
            r == (self.members_view().len() == 0),
    {
        self.source.vlen() == 0
    }

    /// How many members this [`Enum64`] has.
    pub fn len(&self) -> (r: usize)
        ensures
            r == self.members_view().len(),
    {
        self.source.vlen() as usize
    }

    /// Get an [`Enum64Member`] at a given index.
    ///
    /// # Errors
    ///
    /// This function returns [`None`] when the index is out of bounds.
    pub fn get(&self, index: usize) -> (r: Option<Enum64Member>)
        requires
            self.wf(),
        ensures
            index < self.members_view().len() ==> r == Some(self.members_view()[index as int]),
            index >= self.members_view().len() ==> r is None,
    {
        let n = self.source.vlen();
        if index < n as usize {
            proof {
                lemma_vlen_bound(self.source.info);
            }
            let base = index * 12;
            let name_off = u32_at(self.source.data, base);
            let lo = u32_at(self.source.data, base + 4);
            let hi = u32_at(self.source.data, base + 8);
            let value = ((hi as u64) << 32) | (lo as u64);
            Some(Enum64Member { name_off, value })
        } else {
            None
        }
    }

    /// Decodes every member in order, deriving a fresh sequence from the
    /// same immutable trailing bytes on each invocation.
    pub fn members(&self) -> (r: Vec<Enum64Member>)
        requires
            self.wf(),
        ensures
            r@ == self.members_view(),
    {
        let n = self.source.vlen() as usize;
        let mut out: Vec<Enum64Member> = Vec::new();
        let mut i: usize = 0;
        while i < n
            invariant
                self.wf(),
                n == spec_vlen(self.source.info),
                i <= n,
                out@.len() == i,
                forall|j: int| 0 <= j < i ==> out@[j] == self.members_view()[j],
            decreases n - i,
        {
            let m = self.get(i).unwrap();
            out.push(m);
            i = i + 1;
        }
        proof {
            assert(out@ =~= self.members_view());
        }
        out
    }

    /// The byte size of this type, from the header's size-or-type word.
    pub fn size(&self) -> (r: usize)
        ensures
            r == self.source.size_or_type as usize,
    {
        self.source.size_or_type as usize
    }
}

/// Law: a 64-bit enum view's member sequence has exactly `vlen` entries, and
/// its `i`-th entry is the member decoded at index `i`, its value the high
/// half shifted up 32 bits or-ed with the low half; no entry exists at or
/// past `vlen`.
pub proof fn lemma_enum64_member_sequence<'btf>(s: Enum64<'btf>, i: int)
    requires
        0 <= i < spec_vlen(s.source.info),
    ensures
        s.members_view().len() == spec_vlen(s.source.info),
        s.members_view()[i] == spec_enum64_member(s.source.data@, i),
{
}

/// A function prototype.
#[derive(Debug, Clone, Copy)]
pub struct FuncProto<'btf> {
    /// The generic view this concrete view was converted from.
    pub source: BtfType<'btf>,
}

impl<'btf> FuncProto<'btf> {
    /// The source record is well formed and its header carries this kind.
    pub open spec fn wf(self) -> bool {
        self.source.wf() && self.source.spec_kind() == BtfKind::FuncProto
    }

    /// The sequence of all `vlen` parameters, each decoded from its 8-byte
    /// sub-record.
    pub open spec fn members_view(self) -> Seq<FuncProtoParam> {
        Seq::new(
            spec_vlen(self.source.info) as nat,
            |i: int| spec_func_proto_param(self.source.data@, i),
        )
    }

    /// Converts a generic view: succeeds exactly when the header's kind tag
    /// names this kind, and hands the view back unchanged otherwise.
    pub fn try_from(t: BtfType<'btf>) -> (r: Result<FuncProto<'btf>, BtfType<'btf>>)
        requires
            t.wf(),
        ensures
            t.spec_kind() == BtfKind::FuncProto ==> (r matches Ok(v) && v.source == t && v.wf()),
            t.spec_kind() != BtfKind::FuncProto ==> (r matches Err(e) && e == t),
    {
        if t.kind() == BtfKind::FuncProto {
            Ok(FuncProto { source: t })
        } else {
            Err(t)
        }
    }

    /// Whether this prototype has no parameters.
    pub fn is_empty(&self) -> (r: bool)
        ensures
            r == (self.members_view().len() == 0),
    {
        self.source.vlen() == 0
    }

    /// How many parameters this [`FuncProto`] has.
    pub fn len(&self) -> (r: usize)
        ensures
            r == self.members_view().len(),
    {
        self.source.vlen() as usize
    }

    /// Get a [`FuncProtoParam`] at a given index.
    ///
    /// # Errors
    ///
    /// This function returns [`None`] when the index is out of bounds.
    pub fn get(&self, index: usize) -> (r: Option<FuncProtoParam>)
        requires
            self.wf(),
        ensures
            index < self.members_view().len() ==> r == Some(self.members_view()[index as int]),
            index >= self.members_view().len() ==> r is None,
    {
        let n = self.source.vlen();
        if index < n as usize {
            proof {
                lemma_vlen_bound(self.source.info);
            }
            let base = index * 8;
            let name_off = u32_at(self.source.data, base);
            let ty = u32_at(self.source.data, base + 4);
            Some(FuncProtoParam { name_off, ty: TypeId(ty) })
        } else {
            None
        }
    }

    /// Decodes every parameter in order, deriving a fresh sequence from the
    /// same immutable trailing bytes on each invocation.
    pub fn members(&self) -> (r: Vec<FuncProtoParam>)
        requires
            self.wf(),
        ensures
            r@ == self.members_view(),
    {
        let n = self.source.vlen() as usize;
        let mut out: Vec<FuncProtoParam> = Vec::new();
        let mut i: usize = 0;
        while i < n
            invariant
                self.wf(),
                n == spec_vlen(self.source.info),
                i <= n,
                out@.len() == i,
                forall|j: int| 0 <= j < i ==> out@[j] == self.members_view()[j],
            decreases n - i,
        {
            let m = self.get(i).unwrap();
            out.push(m);
            i = i + 1;
        }
        proof {
            assert(out@ =~= self.members_view());
        }
        out
    }

    /// The return type of this prototype, from the header's size-or-type
    /// word.
    pub fn referenced_type_id(&self) -> (r: TypeId)
        ensures
            r == TypeId(self.source.size_or_type),
    {
        TypeId(self.source.size_or_type)
    }
}

/// Law: a prototype view's parameter sequence has exactly `vlen` entries,
/// and its `i`-th entry is the parameter decoded at index `i`; no entry
/// exists at or past `vlen`.
pub proof fn lemma_func_proto_param_sequence<'btf>(s: FuncProto<'btf>, i: int)
    requires
        0 <= i < spec_vlen(s.source.info),
    ensures
        s.members_view().len() == spec_vlen(s.source.info),
        s.members_view()[i] == spec_func_proto_param(s.source.data@, i),
{
}

/// An ELF's data section, such as `.data`, `.bss` or `.rodata`.
#[derive(Debug, Clone, Copy)]
pub struct DataSec<'btf> {
    /// The generic view this concrete view was converted from.
    pub source: BtfType<'btf>,
}

impl<'btf> DataSec<'btf> {
    /// The source record is well formed and its header carries this kind.
    pub open spec fn wf(self) -> bool {
        self.source.wf() && self.source.spec_kind() == BtfKind::DataSec
    }

    /// The sequence of all `vlen` section entries, each decoded from its
    /// 12-byte sub-record.
    pub open spec fn members_view(self) -> Seq<VarSecInfo> {
        Seq::new(
            spec_vlen(self.source.info) as nat,
            |i: int| spec_var_sec_info(self.source.data@, i),
        )
    }

    /// Converts a generic view: succeeds exactly when the header's kind tag
    /// names this kind, and hands the view back unchanged otherwise.
    pub fn try_from(t: BtfType<'btf>) -> (r: Result<DataSec<'btf>, BtfType<'btf>>)
        requires
            t.wf(),
        ensures
            t.spec_kind() == BtfKind::DataSec ==> (r matches Ok(v) && v.source == t && v.wf()),
            t.spec_kind() != BtfKind::DataSec ==> (r matches Err(e) && e == t),
    {
        if t.kind() == BtfKind::DataSec {
            Ok(DataSec { source: t })
        } else {
            Err(t)
        }
    }

    /// Whether this section has no entries.
    pub fn is_empty(&self) -> (r: bool)
        ensures
            r == (self.members_view().len() == 0),
    {
        self.source.vlen() == 0
    }

    /// How many entries this [`DataSec`] has.
    pub fn len(&self) -> (r: usize)
        ensures
            r == self.members_view().len(),
    {
        self.source.vlen() as usize
    }

    /// Get a [`VarSecInfo`] at a given index.
    ///
    /// # Errors
    ///
    /// This function returns [`None`] when the index is out of bounds.
    pub fn get(&self, index: usize) -> (r: Option<VarSecInfo>)
        requires
            self.wf(),
        ensures
            index < self.members_view().len() ==> r == Some(self.members_view()[index as int]),
            index >= self.members_view().len() ==> r is None,
    {
        let n = self.source.vlen();
        if index < n as usize {
            proof {
                lemma_vlen_bound(self.source.info);
            }
            let base = index * 12;
            let ty = u32_at(self.source.data, base);
            let offset = u32_at(self.source.data, base + 4);
            let size = u32_at(self.source.data, base + 8) as usize;
            Some(VarSecInfo { ty: TypeId(ty), offset, size })
        } else {
            None
        }
    }

    /// Decodes every entry in order, deriving a fresh sequence from the
    /// same immutable trailing bytes on each invocation.
    pub fn members(&self) -> (r: Vec<VarSecInfo>)
        requires
            self.wf(),
        ensures
            r@ == self.members_view(),
    {
        let n = self.source.vlen() as usize;
        let mut out: Vec<VarSecInfo> = Vec::new();
        let mut i: usize = 0;
        while i < n
            invariant
                self.wf(),
                n == spec_vlen(self.source.info),
                i <= n,
                out@.len() == i,
                forall|j: int| 0 <= j < i ==> out@[j] == self.members_view()[j],
            decreases n - i,
        {
            let m = self.get(i).unwrap();
            out.push(m);
            i = i + 1;
        }
        proof {
            assert(out@ =~= self.members_view());
        }
        out
    }

    /// The byte size of this section, from the header's size-or-type word.
    pub fn size(&self) -> (r: usize)
        ensures
            r == self.source.size_or_type as usize,
    {
        self.source.size_or_type as usize
    }
}

/// Law: a section view's entry sequence has exactly `vlen` entries, and its
/// `i`-th entry is the one decoded at index `i`; no entry exists at or past
/// `vlen`.
pub proof fn lemma_data_sec_entry_sequence<'btf>(s: DataSec<'btf>, i: int)
    requires
        0 <= i < spec_vlen(s.source.info),
    ensures
        s.members_view().len() == spec_vlen(s.source.info),
        s.members_view()[i] == spec_var_sec_info(s.source.data@, i),
{
}

} // verus!
