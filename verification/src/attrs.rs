//! Bit-packed attribute decoders: struct/union member layout, linkage codes,
//! integer encoding flags and the forward-declaration kind.

use vstd::prelude::*;

use crate::raw::spec_kind_flag;

verus! {

/// The attributes of a struct or union member.
#[derive(Debug, Clone, Copy, PartialEq, Eq, Structural)]
pub enum MemberAttr {
    /// Member is a normal field.
    Normal {
        /// The offset of this member in the struct/union, in bits.
        offset: u32,
    },
    /// Member is a bitfield.
    BitField {
        /// The size of the bitfield, in bits.
        size: u8,
        /// The offset of the bitfield, in bits.
        offset: u32,
    },
}

/// The attribute a raw 32-bit member-offset word decodes to under the
/// enclosing record's `kind_flag`: with the flag set, the word's top byte is
/// a bitfield width and its low 24 bits are the bit offset; with the flag
/// clear the whole word is a plain bit offset, high byte included.
pub open spec fn spec_member_attr(kflag: bool, raw_offset: u32) -> MemberAttr {
    if kflag {
        MemberAttr::BitField { size: (raw_offset >> 24) as u8, offset: raw_offset & 0x00ff_ffff }
    } else {
        MemberAttr::Normal { offset: raw_offset }
    }
}

impl MemberAttr {
    /// The plain-field reading of a raw member-offset word.
    pub fn normal(offset: u32) -> (r: MemberAttr)
        ensures
            r == spec_member_attr(false, offset),
    {
        MemberAttr::Normal { offset }
    }

    /// The bitfield reading of a raw member-offset word: width in the top
    /// byte, bit offset in the low 24 bits.
    pub fn bif_field(offset: u32) -> (r: MemberAttr)
        ensures
            r == spec_member_attr(true, offset),
    {
        proof {
            assert(offset >> 24 <= 0xff) by (bit_vector);
        }
        MemberAttr::BitField { size: (offset >> 24) as u8, offset: offset & 0x00ff_ffff }
    }

    /// Decodes a raw member-offset word under the enclosing record's
    /// `kind_flag`: the flag is aggregate-wide and authoritative, so the
    /// bitfield reading applies exactly when it is set.
    pub fn decode(kflag: bool, offset: u32) -> (r: MemberAttr)
        ensures
            r == spec_member_attr(kflag, offset),
    {
        if kflag {
            MemberAttr::bif_field(offset)
        } else {
            MemberAttr::normal(offset)
        }
    }
}

/// The kind of linkage a variable or function can have.
#[derive(Debug, Clone, Copy, PartialEq, Eq, Hash, Structural)]
pub enum Linkage {
    /// Static linkage.
    Static,
    /// Global linkage.
    Global,
    /// External linkage.
    Extern,
    /// Unknown.
    Unknown,
}

/// The linkage a raw code decodes to: 0, 1 and 2 name the three known
/// linkages; any other code decodes to `Unknown` rather than failing, which
/// keeps the decoder forward-compatible with format extensions.
pub open spec fn spec_linkage(code: u32) -> Linkage {
    if code == 0 {
        Linkage::Static
    } else if code == 1 {
        Linkage::Global
    } else if code == 2 {
        Linkage::Extern
    } else {
        Linkage::Unknown
    }
}

impl Linkage {
    /// Decodes a raw linkage code; never fails.
    pub fn from_code(code: u32) -> (r: Linkage)
        ensures
            r == spec_linkage(code),
    {
        if code == 0 {
            Linkage::Static
        } else if code == 1 {
            Linkage::Global
        } else if code == 2 {
            Linkage::Extern
        } else {
            Linkage::Unknown
        }
    }

    /// The raw code this linkage is written as; `Unknown` stands for every
    /// code at or above 3 and is written back as 3.
    pub fn code(&self) -> (r: u32)
        ensures
            self is Static ==> r == 0,
            self is Global ==> r == 1,
            self is Extern ==> r == 2,
            self is Unknown ==> r == 3,
    {
        match self {
            Linkage::Static => 0,
            Linkage::Global => 1,
            Linkage::Extern => 2,
            Linkage::Unknown => 3,
        }
    }

    /// A human-readable name for this linkage.
    pub fn as_str(&self) -> (r: &'static str)
        ensures
            self is Static ==> r@ == "static"@,
            self is Global ==> r@ == "global"@,
            self is Extern ==> r@ == "extern"@,
            self is Unknown ==> r@ == "(unknown)"@,
    {
        match self {
            Linkage::Static => "static",
            Linkage::Global => "global",
            Linkage::Extern => "extern",
            Linkage::Unknown => "(unknown)",
        }
    }
}

/// The kinds of ways an integer can be encoded.
#[derive(Debug, Clone, Copy, PartialEq, Eq, Structural)]
pub enum IntEncoding {
    /// No encoding.
    NoEncoding,
    /// Signed.
    Signed,
    /// It's a c_char.
    Char,
    /// It's a bool.
    Bool,
}

/// The encoding named by the flag nibble of an integer record's trailing
/// word (the word's bits 24–27), evaluated in priority order
/// `Signed` (bit 0) > `Char` (bit 1) > `Bool` (bit 2) > `NoEncoding`.
pub open spec fn spec_int_encoding(word: u32) -> IntEncoding {
    let nibble = (word >> 24) & 0xf;
    if nibble & 0b1 == 0b1 {
        IntEncoding::Signed
    } else if nibble & 0b10 == 0b10 {
        IntEncoding::Char
    } else if nibble & 0b100 == 0b100 {
        IntEncoding::Bool
    } else {
        IntEncoding::NoEncoding
    }
}

/// The bit-offset byte of an integer record's trailing word: bits 16–23,
/// the offset in bits where the integer's value starts within its storage.
pub open spec fn spec_int_offset(word: u32) -> u8 {
    ((word >> 16) & 0xff) as u8
}

/// The bit-width byte of an integer record's trailing word: its low byte.
pub open spec fn spec_int_bits(word: u32) -> u8 {
    (word & 0xff) as u8
}

/// The kinds of types that can be forward declared.
#[derive(Debug, Clone, Copy, PartialEq, Eq, Hash, Structural)]
pub enum FwdKind {
    /// A struct.
    Struct,
    /// A union.
    Union,
}

/// The aggregate kind a forward declaration names: its header's `kind_flag`
/// selects a union when set and a struct when clear.
pub open spec fn spec_fwd_kind(info: u32) -> FwdKind {
    if spec_kind_flag(info) {
        FwdKind::Union
    } else {
        FwdKind::Struct
    }
}

} // verus!
