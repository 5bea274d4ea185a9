//! Views over the kinds that carry no trailing bytes: everything they expose
//! is decoded from the 12-byte header alone.

use vstd::prelude::*;

use crate::attrs::FwdKind;
use crate::attrs::Linkage;
use crate::attrs::spec_fwd_kind;
use crate::attrs::spec_linkage;
use crate::kind::BtfKind;
use crate::raw::spec_vlen;
use crate::ty::BtfType;
use crate::ty::TypeId;

verus! {

/// The representation of the c_void type.
#[derive(Debug, Clone, Copy)]
pub struct Void<'btf> {
    /// The generic view this concrete view was converted from.
    pub source: BtfType<'btf>,
}

impl<'btf> Void<'btf> {
    /// The source record is well formed and its header carries this kind.
    pub open spec fn wf(self) -> bool {
        self.source.wf() && self.source.spec_kind() == BtfKind::Void
    }

    /// Converts a generic view: succeeds exactly when the header's kind tag
    /// names this kind, and hands the view back unchanged otherwise.
    pub fn try_from(t: BtfType<'btf>) -> (r: Result<Void<'btf>, BtfType<'btf>>)
        requires
            t.wf(),
        ensures
            t.spec_kind() == BtfKind::Void ==> (r matches Ok(v) && v.source == t && v.wf()),
            t.spec_kind() != BtfKind::Void ==> (r matches Err(e) && e == t),
    {
        if t.kind() == BtfKind::Void {
            Ok(Void { source: t })
        } else {
            Err(t)
        }
    }
}

/// A pointer. Its header's size-or-type word is the referenced type id.
#[derive(Debug, Clone, Copy)]
pub struct Ptr<'btf> {
    /// The generic view this concrete view was converted from.
    pub source: BtfType<'btf>,
}

impl<'btf> Ptr<'btf> {
    /// The source record is well formed and its header carries this kind.
    pub open spec fn wf(self) -> bool {
        self.source.wf() && self.source.spec_kind() == BtfKind::Ptr
    }

    /// Converts a generic view: succeeds exactly when the header's kind tag
    /// names this kind, and hands the view back unchanged otherwise.
    pub fn try_from(t: BtfType<'btf>) -> (r: Result<Ptr<'btf>, BtfType<'btf>>)
        requires
            t.wf(),
        ensures
            t.spec_kind() == BtfKind::Ptr ==> (r matches Ok(v) && v.source == t && v.wf()),
            t.spec_kind() != BtfKind::Ptr ==> (r matches Err(e) && e == t),
    {
        if t.kind() == BtfKind::Ptr {
            Ok(Ptr { source: t })
        } else {
            Err(t)
        }
    }

    /// The type this record refers to, from the header's size-or-type word.
    pub fn referenced_type_id(&self) -> (r: TypeId)
        ensures
            r == TypeId(self.source.size_or_type),
    {
        TypeId(self.source.size_or_type)
    }
}

/// A C typedef. References the original type.
#[derive(Debug, Clone, Copy)]
pub struct Typedef<'btf> {
    /// The generic view this concrete view was converted from.
    pub source: BtfType<'btf>,
}

impl<'btf> Typedef<'btf> {
    /// The source record is well formed and its header carries this kind.
    pub open spec fn wf(self) -> bool {
        self.source.wf() && self.source.spec_kind() == BtfKind::Typedef
    }

    /// Converts a generic view: succeeds exactly when the header's kind tag
    /// names this kind, and hands the view back unchanged otherwise.
    pub fn try_from(t: BtfType<'btf>) -> (r: Result<Typedef<'btf>, BtfType<'btf>>)
        requires
            t.wf(),
        ensures
            t.spec_kind() == BtfKind::Typedef ==> (r matches Ok(v) && v.source == t && v.wf()),
            t.spec_kind() != BtfKind::Typedef ==> (r matches Err(e) && e == t),
    {
        if t.kind() == BtfKind::Typedef {
            Ok(Typedef { source: t })
        } else {
            Err(t)
        }
    }

    /// The type this record refers to, from the header's size-or-type word.
    pub fn referenced_type_id(&self) -> (r: TypeId)
        ensures
            r == TypeId(self.source.size_or_type),
    {
        TypeId(self.source.size_or_type)
    }
}

/// The volatile modifier.
#[derive(Debug, Clone, Copy)]
pub struct Volatile<'btf> {
    /// The generic view this concrete view was converted from.
    pub source: BtfType<'btf>,
}

impl<'btf> Volatile<'btf> {
    /// The source record is well formed and its header carries this kind.
    pub open spec fn wf(self) -> bool {
        self.source.wf() && self.source.spec_kind() == BtfKind::Volatile
    }

    /// Converts a generic view: succeeds exactly when the header's kind tag
    /// names this kind, and hands the view back unchanged otherwise.
    pub fn try_from(t: BtfType<'btf>) -> (r: Result<Volatile<'btf>, BtfType<'btf>>)
        requires
            t.wf(),
        ensures
            t.spec_kind() == BtfKind::Volatile ==> (r matches Ok(v) && v.source == t && v.wf()),
            t.spec_kind() != BtfKind::Volatile ==> (r matches Err(e) && e == t),
    {
        if t.kind() == BtfKind::Volatile {
            Ok(Volatile { source: t })
        } else {
            Err(t)
        }
    }

    /// The type this record refers to, from the header's size-or-type word.
    pub fn referenced_type_id(&self) -> (r: TypeId)
        ensures
            r == TypeId(self.source.size_or_type),
    {
        TypeId(self.source.size_or_type)
    }
}

/// The const modifier.
#[derive(Debug, Clone, Copy)]
pub struct Const<'btf> {
    /// The generic view this concrete view was converted from.
    pub source: BtfType<'btf>,
}

impl<'btf> Const<'btf> {
    /// The source record is well formed and its header carries this kind.
    pub open spec fn wf(self) -> bool {
        self.source.wf() && self.source.spec_kind() == BtfKind::Const
    }

    /// Converts a generic view: succeeds exactly when the header's kind tag
    /// names this kind, and hands the view back unchanged otherwise.
    pub fn try_from(t: BtfType<'btf>) -> (r: Result<Const<'btf>, BtfType<'btf>>)
        requires
            t.wf(),
        ensures
            t.spec_kind() == BtfKind::Const ==> (r matches Ok(v) && v.source == t && v.wf()),
            t.spec_kind() != BtfKind::Const ==> (r matches Err(e) && e == t),
    {
        if t.kind() == BtfKind::Const {
            Ok(Const { source: t })
        } else {
            Err(t)
        }
    }

    /// The type this record refers to, from the header's size-or-type word.
    pub fn referenced_type_id(&self) -> (r: TypeId)
        ensures
            r == TypeId(self.source.size_or_type),
    {
        TypeId(self.source.size_or_type)
    }
}

/// The restrict modifier.
#[derive(Debug, Clone, Copy)]
pub struct Restrict<'btf> {
    /// The generic view this concrete view was converted from.
    pub source: BtfType<'btf>,
}

impl<'btf> Restrict<'btf> {
    /// The source record is well formed and its header carries this kind.
    pub open spec fn wf(self) -> bool {
        self.source.wf() && self.source.spec_kind() == BtfKind::Restrict
    }

    /// Converts a generic view: succeeds exactly when the header's kind tag
    /// names this kind, and hands the view back unchanged otherwise.
    pub fn try_from(t: BtfType<'btf>) -> (r: Result<Restrict<'btf>, BtfType<'btf>>)
        requires
            t.wf(),
        ensures
            t.spec_kind() == BtfKind::Restrict ==> (r matches Ok(v) && v.source == t && v.wf()),
            t.spec_kind() != BtfKind::Restrict ==> (r matches Err(e) && e == t),
    {
        if t.kind() == BtfKind::Restrict {
            Ok(Restrict { source: t })
        } else {
            Err(t)
        }
    }

    /// The type this record refers to, from the header's size-or-type word.
    pub fn referenced_type_id(&self) -> (r: TypeId)
        ensures
            r == TypeId(self.source.size_or_type),
    {
        TypeId(self.source.size_or_type)
    }
}

/// A function. Its header reuses `vlen` as a linkage code instead of a
/// member count — a genuine idiosyncrasy of the binary format, preserved
/// exactly.
#[derive(Debug, Clone, Copy)]
pub struct Func<'btf> {
    /// The generic view this concrete view was converted from.
    pub source: BtfType<'btf>,
}

impl<'btf> Func<'btf> {
    /// The source record is well formed and its header carries this kind.
    pub open spec fn wf(self) -> bool {
        self.source.wf() && self.source.spec_kind() == BtfKind::Func
    }

    /// Converts a generic view: succeeds exactly when the header's kind tag
    /// names this kind, and hands the view back unchanged otherwise.
    pub fn try_from(t: BtfType<'btf>) -> (r: Result<Func<'btf>, BtfType<'btf>>)
        requires
            t.wf(),
        ensures
            t.spec_kind() == BtfKind::Func ==> (r matches Ok(v) && v.source == t && v.wf()),
            t.spec_kind() != BtfKind::Func ==> (r matches Err(e) && e == t),
    {
        if t.kind() == BtfKind::Func {
            Ok(Func { source: t })
        } else {
            Err(t)
        }
    }

    /// This function's linkage, decoded from the header's `vlen` sub-field;
    /// codes outside 0–2 decode to `Unknown` and never fail.
    pub fn linkage(&self) -> (r: Linkage)
        ensures
            r == spec_linkage(spec_vlen(self.source.info)),
    {
        Linkage::from_code(self.source.vlen())
    }

    /// The type this record refers to, from the header's size-or-type word.
    pub fn referenced_type_id(&self) -> (r: TypeId)
        ensures
            r == TypeId(self.source.size_or_type),
    {
        TypeId(self.source.size_or_type)
    }
}

/// A forward declared C type.
#[derive(Debug, Clone, Copy)]
pub struct Fwd<'btf> {
    /// The generic view this concrete view was converted from.
    pub source: BtfType<'btf>,
}

impl<'btf> Fwd<'btf> {
    /// The source record is well formed and its header carries this kind.
    pub open spec fn wf(self) -> bool {
        self.source.wf() && self.source.spec_kind() == BtfKind::Fwd
    }

    /// Converts a generic view: succeeds exactly when the header's kind tag
    /// names this kind, and hands the view back unchanged otherwise.
    pub fn try_from(t: BtfType<'btf>) -> (r: Result<Fwd<'btf>, BtfType<'btf>>)
        requires
            t.wf(),
        ensures
            t.spec_kind() == BtfKind::Fwd ==> (r matches Ok(v) && v.source == t && v.wf()),
            t.spec_kind() != BtfKind::Fwd ==> (r matches Err(e) && e == t),
    {
        if t.kind() == BtfKind::Fwd {
            Ok(Fwd { source: t })
        } else {
            Err(t)
        }
    }

    /// The kind of C type that is forwardly declared: the header's
    /// `kind_flag` selects a union when set and a struct when clear.
    pub fn kind(&self) -> (r: FwdKind)
        ensures
            r == spec_fwd_kind(self.source.info),
    {
        if self.source.kind_flag() {
            FwdKind::Union
        } else {
            FwdKind::Struct
        }
    }
}

/// A floating point number. Its header's size-or-type word is a byte size.
#[derive(Debug, Clone, Copy)]
pub struct Float<'btf> {
    /// The generic view this concrete view was converted from.
    pub source: BtfType<'btf>,
}

impl<'btf> Float<'btf> {
    /// The source record is well formed and its header carries this kind.
    pub open spec fn wf(self) -> bool {
        self.source.wf() && self.source.spec_kind() == BtfKind::Float
    }

    /// Converts a generic view: succeeds exactly when the header's kind tag
    /// names this kind, and hands the view back unchanged otherwise.
    pub fn try_from(t: BtfType<'btf>) -> (r: Result<Float<'btf>, BtfType<'btf>>)
        requires
            t.wf(),
        ensures
            t.spec_kind() == BtfKind::Float ==> (r matches Ok(v) && v.source == t && v.wf()),
            t.spec_kind() != BtfKind::Float ==> (r matches Err(e) && e == t),
    {
        if t.kind() == BtfKind::Float {
            Ok(Float { source: t })
        } else {
            Err(t)
        }
    }

    /// The byte size of this type, from the header's size-or-type word.
    pub fn size(&self) -> (r: usize)
        ensures
            r == self.source.size_or_type as usize,
    {
        self.source.size_or_type as usize
    }
}

/// A declaration tag attached to a type rather than a symbol.
#[derive(Debug, Clone, Copy)]
pub struct TypeTag<'btf> {
    /// The generic view this concrete view was converted from.
    pub source: BtfType<'btf>,
}

impl<'btf> TypeTag<'btf> {
    /// The source record is well formed and its header carries this kind.
    pub open spec fn wf(self) -> bool {
        self.source.wf() && self.source.spec_kind() == BtfKind::TypeTag
    }

    /// Converts a generic view: succeeds exactly when the header's kind tag
    /// names this kind, and hands the view back unchanged otherwise.
    pub fn try_from(t: BtfType<'btf>) -> (r: Result<TypeTag<'btf>, BtfType<'btf>>)
        requires
            t.wf(),
        ensures
            t.spec_kind() == BtfKind::TypeTag ==> (r matches Ok(v) && v.source == t && v.wf()),
            t.spec_kind() != BtfKind::TypeTag ==> (r matches Err(e) && e == t),
    {
        if t.kind() == BtfKind::TypeTag {
            Ok(TypeTag { source: t })
        } else {
            Err(t)
        }
    }

    /// The type this record refers to, from the header's size-or-type word.
    pub fn referenced_type_id(&self) -> (r: TypeId)
        ensures
            r == TypeId(self.source.size_or_type),
    {
        TypeId(self.source.size_or_type)
    }
}

} // verus!
