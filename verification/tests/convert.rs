//! Conversion dispatch, fieldless views and fixed-payload views on concrete
//! records.

use btf_types::attrs::FwdKind;
use btf_types::attrs::IntEncoding;
use btf_types::attrs::Linkage;
use btf_types::fieldless::Const;
use btf_types::fieldless::Float;
use btf_types::fieldless::Func;
use btf_types::fieldless::Fwd;
use btf_types::fieldless::Ptr;
use btf_types::fieldless::Restrict;
use btf_types::fieldless::TypeTag;
use btf_types::fieldless::Typedef;
use btf_types::fieldless::Void;
use btf_types::fieldless::Volatile;
use btf_types::fixed::Array;
use btf_types::fixed::DeclTag;
use btf_types::fixed::Int;
use btf_types::fixed::Var;
use btf_types::kind::BtfKind;
use btf_types::ty::BtfType;
use btf_types::ty::TypeId;

const VOID_TAG: u32 = 0;
const INT_TAG: u32 = 1;
const PTR_TAG: u32 = 2;
const ARRAY_TAG: u32 = 3;
const FWD_TAG: u32 = 7;
const TYPEDEF_TAG: u32 = 8;
const VOLATILE_TAG: u32 = 9;
const CONST_TAG: u32 = 10;
const RESTRICT_TAG: u32 = 11;
const FUNC_TAG: u32 = 12;
const VAR_TAG: u32 = 14;
const FLOAT_TAG: u32 = 16;
const DECL_TAG_TAG: u32 = 17;
const TYPE_TAG_TAG: u32 = 18;

fn mk_info(vlen: u32, tag: u32, kflag: bool) -> u32 {
    vlen | (tag << 24) | (if kflag { 1 << 31 } else { 0 })
}

fn le_bytes(words: &[u32]) -> Vec<u8> {
    let mut out = Vec::new();
    for w in words {
        out.extend_from_slice(&w.to_le_bytes());
    }
    out
}

#[test]
fn void_conversion_succeeds_and_preserves_header() {
    let t = BtfType::new(TypeId(7), 33, mk_info(0, VOID_TAG, false), 0, &[]);
    assert_eq!(t.kind(), BtfKind::Void);
    let v = Void::try_from(t).unwrap();
    assert_eq!(v.source.type_id, TypeId(7));
    assert_eq!(v.source.name_offset, 33);
    assert_eq!(v.source.size_or_type, 0);
    assert_eq!(v.source, t);
}

#[test]
fn conversion_mismatch_returns_view_unchanged() {
    let t = BtfType::new(TypeId(3), 5, mk_info(0, PTR_TAG, false), 42, &[]);
    let back = Void::try_from(t).unwrap_err();
    assert_eq!(back, t);
    let data = le_bytes(&[0x01000010]);
    let i = BtfType::new(TypeId(4), 0, mk_info(0, INT_TAG, false), 4, &data);
    let back = Ptr::try_from(i).unwrap_err();
    assert_eq!(back, i);
    assert!(Int::try_from(back).is_ok());
}

#[test]
fn modifier_kinds_reference_their_target() {
    let p = BtfType::new(TypeId(1), 0, mk_info(0, PTR_TAG, false), 42, &[]);
    assert_eq!(Ptr::try_from(p).unwrap().referenced_type_id(), TypeId(42));
    let td = BtfType::new(TypeId(2), 9, mk_info(0, TYPEDEF_TAG, false), 8, &[]);
    assert_eq!(Typedef::try_from(td).unwrap().referenced_type_id(), TypeId(8));
    let vo = BtfType::new(TypeId(3), 0, mk_info(0, VOLATILE_TAG, false), 6, &[]);
    assert_eq!(Volatile::try_from(vo).unwrap().referenced_type_id(), TypeId(6));
    let co = BtfType::new(TypeId(4), 0, mk_info(0, CONST_TAG, false), 5, &[]);
    assert_eq!(Const::try_from(co).unwrap().referenced_type_id(), TypeId(5));
    let re = BtfType::new(TypeId(5), 0, mk_info(0, RESTRICT_TAG, false), 4, &[]);
    assert_eq!(Restrict::try_from(re).unwrap().referenced_type_id(), TypeId(4));
    let tt = BtfType::new(TypeId(6), 0, mk_info(0, TYPE_TAG_TAG, false), 3, &[]);
    assert_eq!(TypeTag::try_from(tt).unwrap().referenced_type_id(), TypeId(3));
}

#[test]
fn int_encoding_signed() {
    let data = le_bytes(&[0x01000020]);
    let t = BtfType::new(TypeId(1), 1, mk_info(0, INT_TAG, false), 4, &data);
    let i = Int::try_from(t).unwrap();
    assert_eq!(i.encoding, IntEncoding::Signed);
    assert_eq!(i.bits, 0x20);
    assert_eq!(i.offset, 0);
    assert_eq!(i.size(), 4);
}

#[test]
fn int_encoding_char() {
    let data = le_bytes(&[0x02000008]);
    let t = BtfType::new(TypeId(1), 1, mk_info(0, INT_TAG, false), 1, &data);
    let i = Int::try_from(t).unwrap();
    assert_eq!(i.encoding, IntEncoding::Char);
    assert_eq!(i.bits, 8);
}

#[test]
fn int_encoding_bool() {
    let data = le_bytes(&[0x04000001]);
    let t = BtfType::new(TypeId(1), 1, mk_info(0, INT_TAG, false), 1, &data);
    let i = Int::try_from(t).unwrap();
    assert_eq!(i.encoding, IntEncoding::Bool);
    assert_eq!(i.bits, 1);
}

#[test]
fn int_encoding_none() {
    let data = le_bytes(&[0x00000040]);
    let t = BtfType::new(TypeId(1), 1, mk_info(0, INT_TAG, false), 8, &data);
    let i = Int::try_from(t).unwrap();
    assert_eq!(i.encoding, IntEncoding::NoEncoding);
    assert_eq!(i.bits, 0x40);
}

#[test]
fn int_encoding_priority_on_combined_bits() {
    // signed beats char beats bool when several flag bits are set at once
    let signed_and_char = le_bytes(&[0x03000020]);
    let t = BtfType::new(TypeId(1), 0, mk_info(0, INT_TAG, false), 4, &signed_and_char);
    assert_eq!(Int::try_from(t).unwrap().encoding, IntEncoding::Signed);
    let char_and_bool = le_bytes(&[0x06000008]);
    let t = BtfType::new(TypeId(1), 0, mk_info(0, INT_TAG, false), 1, &char_and_bool);
    assert_eq!(Int::try_from(t).unwrap().encoding, IntEncoding::Char);
    let all_three = le_bytes(&[0x07000010]);
    let t = BtfType::new(TypeId(1), 0, mk_info(0, INT_TAG, false), 2, &all_three);
    assert_eq!(Int::try_from(t).unwrap().encoding, IntEncoding::Signed);
}

#[test]
fn int_offset_byte_decodes_from_bits_16_to_23() {
    let data = le_bytes(&[0x00100010]);
    let t = BtfType::new(TypeId(1), 0, mk_info(0, INT_TAG, false), 4, &data);
    let i = Int::try_from(t).unwrap();
    assert_eq!(i.offset, 0x10);
    assert_eq!(i.bits, 0x10);
    let data = le_bytes(&[0x01070008]);
    let t = BtfType::new(TypeId(1), 0, mk_info(0, INT_TAG, false), 4, &data);
    let i = Int::try_from(t).unwrap();
    assert_eq!(i.offset, 7);
    assert_eq!(i.bits, 8);
    assert_eq!(i.encoding, IntEncoding::Signed);
}

#[test]
fn array_fields_decode() {
    let data = le_bytes(&[5, 7, 3]);
    let t = BtfType::new(TypeId(9), 0, mk_info(0, ARRAY_TAG, false), 0, &data);
    let a = Array::try_from(t).unwrap();
    assert_eq!(a.ty(), TypeId(5));
    assert_eq!(a.index_ty(), TypeId(7));
    assert_eq!(a.capacity(), 3);
}

#[test]
fn array_words_decode_little_endian() {
    let data: Vec<u8> = vec![1, 2, 3, 4, 0, 0, 0, 0, 0, 0, 0, 0];
    let t = BtfType::new(TypeId(9), 0, mk_info(0, ARRAY_TAG, false), 0, &data);
    let a = Array::try_from(t).unwrap();
    assert_eq!(a.ty(), TypeId(0x04030201));
}

#[test]
fn func_linkage_decodes_from_vlen() {
    for (code, want) in [
        (0, Linkage::Static),
        (1, Linkage::Global),
        (2, Linkage::Extern),
        (3, Linkage::Unknown),
        (77, Linkage::Unknown),
        (0xffff, Linkage::Unknown),
    ] {
        let t = BtfType::new(TypeId(1), 0, mk_info(code, FUNC_TAG, false), 11, &[]);
        let f = Func::try_from(t).unwrap();
        assert_eq!(f.linkage(), want);
        assert_eq!(f.referenced_type_id(), TypeId(11));
    }
}

#[test]
fn var_linkage_decodes_from_trailing_word() {
    for (code, want) in [
        (0, Linkage::Static),
        (1, Linkage::Global),
        (2, Linkage::Extern),
        (3, Linkage::Unknown),
        (9, Linkage::Unknown),
    ] {
        let data = le_bytes(&[code]);
        let t = BtfType::new(TypeId(1), 0, mk_info(0, VAR_TAG, false), 2, &data);
        let v = Var::try_from(t).unwrap();
        assert_eq!(v.linkage(), want);
        assert_eq!(v.referenced_type_id(), TypeId(2));
    }
}

#[test]
fn fwd_kind_follows_kind_flag() {
    let u = BtfType::new(TypeId(1), 4, mk_info(0, FWD_TAG, true), 0, &[]);
    assert_eq!(Fwd::try_from(u).unwrap().kind(), FwdKind::Union);
    let s = BtfType::new(TypeId(1), 4, mk_info(0, FWD_TAG, false), 0, &[]);
    assert_eq!(Fwd::try_from(s).unwrap().kind(), FwdKind::Struct);
}

#[test]
fn decl_tag_component_index_present() {
    let data = le_bytes(&[5]);
    let t = BtfType::new(TypeId(1), 0, mk_info(0, DECL_TAG_TAG, false), 8, &data);
    let d = DeclTag::try_from(t).unwrap();
    assert_eq!(d.component_index(), Some(5));
    let data = le_bytes(&[0x7fffffff]);
    let t = BtfType::new(TypeId(1), 0, mk_info(0, DECL_TAG_TAG, false), 8, &data);
    assert_eq!(DeclTag::try_from(t).unwrap().component_index(), Some(0x7fffffff));
}

#[test]
fn decl_tag_component_index_absent() {
    // the sign bit set marks a tag on the whole referenced symbol
    let data = le_bytes(&[0x80000000]);
    let t = BtfType::new(TypeId(1), 0, mk_info(0, DECL_TAG_TAG, false), 8, &data);
    let d = DeclTag::try_from(t).unwrap();
    assert_eq!(d.component_index(), None);
    let data = le_bytes(&[0xffffffff]);
    let t = BtfType::new(TypeId(1), 0, mk_info(0, DECL_TAG_TAG, false), 8, &data);
    assert_eq!(DeclTag::try_from(t).unwrap().component_index(), None);
}

#[test]
fn float_exposes_byte_size() {
    let t = BtfType::new(TypeId(1), 2, mk_info(0, FLOAT_TAG, false), 8, &[]);
    let f = Float::try_from(t).unwrap();
    assert_eq!(f.size(), 8);
}

#[test]
fn linkage_codes_round_trip() {
    assert_eq!(Linkage::from_code(Linkage::Static.code()), Linkage::Static);
    assert_eq!(Linkage::from_code(Linkage::Global.code()), Linkage::Global);
    assert_eq!(Linkage::from_code(Linkage::Extern.code()), Linkage::Extern);
    assert_eq!(Linkage::from_code(Linkage::Unknown.code()), Linkage::Unknown);
}

#[test]
fn linkage_names() {
    assert_eq!(Linkage::Static.as_str(), "static");
    assert_eq!(Linkage::Global.as_str(), "global");
    assert_eq!(Linkage::Extern.as_str(), "extern");
    assert_eq!(Linkage::Unknown.as_str(), "(unknown)");
}

#[test]
fn header_sub_fields_decode() {
    let t = BtfType::new(TypeId(1), 0, mk_info(6, FWD_TAG, true), 0, &[]);
    assert_eq!(t.vlen(), 6);
    assert_eq!(t.kind(), BtfKind::Fwd);
    assert!(t.kind_flag());
    let t = BtfType::new(TypeId(1), 0, mk_info(0, VOID_TAG, false), 0, &[]);
    assert_eq!(t.vlen(), 0);
    assert_eq!(t.kind(), BtfKind::Void);
    assert!(!t.kind_flag());
}
