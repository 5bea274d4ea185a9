//! Collection views: member counts, indexed access, full sequences and
//! member decoding on concrete records.

use btf_types::attrs::MemberAttr;
use btf_types::collections::DataSec;
use btf_types::collections::Enum;
use btf_types::collections::Enum64;
use btf_types::collections::FuncProto;
use btf_types::collections::Struct;
use btf_types::collections::Union;
use btf_types::ty::BtfType;
use btf_types::ty::TypeId;

const STRUCT_TAG: u32 = 4;
const UNION_TAG: u32 = 5;
const ENUM_TAG: u32 = 6;
const FUNC_PROTO_TAG: u32 = 13;
const DATA_SEC_TAG: u32 = 15;
const ENUM64_TAG: u32 = 19;

fn info_of(vlen: u32, tag: u32, kflag: bool) -> u32 {
    vlen | (tag << 24) | (if kflag { 1 << 31 } else { 0 })
}

fn words(ws: &[u32]) -> Vec<u8> {
    let mut out = Vec::new();
    for w in ws {
        out.extend_from_slice(&w.to_le_bytes());
    }
    out
}

#[test]
fn struct_bitfield_member_under_kind_flag() {
    // one member whose raw offset word is 0x08000010
    let data = words(&[21, 3, 0x08000010]);
    let t = BtfType::new(TypeId(1), 0, info_of(1, STRUCT_TAG, true), 8, &data);
    let s = Struct::try_from(t).unwrap();
    let m = s.get(0).unwrap();
    assert_eq!(m.name_off, 21);
    assert_eq!(m.ty, TypeId(3));
    assert_eq!(m.attr, MemberAttr::BitField { size: 8, offset: 0x10 });
}

#[test]
fn struct_normal_member_keeps_high_byte() {
    // the same raw offset word without the enclosing kind_flag is a plain
    // offset, high byte included
    let data = words(&[21, 3, 0x08000010]);
    let t = BtfType::new(TypeId(1), 0, info_of(1, STRUCT_TAG, false), 8, &data);
    let s = Struct::try_from(t).unwrap();
    let m = s.get(0).unwrap();
    assert_eq!(m.attr, MemberAttr::Normal { offset: 0x08000010 });
}

#[test]
fn struct_indexed_access_matches_sequence() {
    let data = words(&[1, 10, 0, 2, 11, 32, 3, 12, 64]);
    let t = BtfType::new(TypeId(1), 0, info_of(3, STRUCT_TAG, false), 12, &data);
    let s = Struct::try_from(t).unwrap();
    assert!(!s.is_empty());
    assert_eq!(s.len(), 3);
    assert_eq!(s.size(), 12);
    let all = s.members();
    assert_eq!(all.len(), 3);
    for i in 0..3 {
        assert_eq!(s.get(i).unwrap(), all[i]);
    }
    assert_eq!(s.get(3), None);
    assert_eq!(all[1].name_off, 2);
    assert_eq!(all[1].ty, TypeId(11));
    assert_eq!(all[1].attr, MemberAttr::Normal { offset: 32 });
}

#[test]
fn struct_sequence_is_restartable() {
    let data = words(&[1, 10, 0, 2, 11, 32]);
    let t = BtfType::new(TypeId(1), 0, info_of(2, STRUCT_TAG, false), 8, &data);
    let s = Struct::try_from(t).unwrap();
    let first = s.members();
    let second = s.members();
    assert_eq!(first, second);
    assert_eq!(first.len(), 2);
}

#[test]
fn empty_struct_has_no_members() {
    let t = BtfType::new(TypeId(1), 0, info_of(0, STRUCT_TAG, false), 0, &[]);
    let s = Struct::try_from(t).unwrap();
    assert!(s.is_empty());
    assert_eq!(s.len(), 0);
    assert_eq!(s.members().len(), 0);
    assert_eq!(s.get(0), None);
}

#[test]
fn union_members_decode_like_struct_members() {
    let data = words(&[7, 4, 0x01000008]);
    let t = BtfType::new(TypeId(1), 0, info_of(1, UNION_TAG, true), 4, &data);
    let u = Union::try_from(t).unwrap();
    assert_eq!(u.len(), 1);
    assert_eq!(u.size(), 4);
    let m = u.get(0).unwrap();
    assert_eq!(m.name_off, 7);
    assert_eq!(m.ty, TypeId(4));
    assert_eq!(m.attr, MemberAttr::BitField { size: 1, offset: 8 });
    assert_eq!(u.members()[0], m);
    assert_eq!(u.get(1), None);
}

#[test]
fn enum_members_decode_signed_values() {
    let data = words(&[5, 1, 9, 0xffffffff]);
    let t = BtfType::new(TypeId(1), 0, info_of(2, ENUM_TAG, false), 4, &data);
    let e = Enum::try_from(t).unwrap();
    assert_eq!(e.len(), 2);
    assert_eq!(e.size(), 4);
    let a = e.get(0).unwrap();
    assert_eq!(a.name_off, 5);
    assert_eq!(a.value, 1);
    let b = e.get(1).unwrap();
    assert_eq!(b.name_off, 9);
    assert_eq!(b.value, -1);
    assert_eq!(e.members(), vec![a, b]);
    assert_eq!(e.get(2), None);
}

#[test]
fn enum64_member_reconstructs_wide_value() {
    // hi32 = 0x00000001, lo32 = 0xFFFFFFFF
    let data = words(&[3, 0xffffffff, 0x00000001]);
    let t = BtfType::new(TypeId(1), 0, info_of(1, ENUM64_TAG, false), 8, &data);
    let e = Enum64::try_from(t).unwrap();
    let m = e.get(0).unwrap();
    assert_eq!(m.name_off, 3);
    assert_eq!(m.value, 0x1_ffff_ffff);
    assert_eq!(e.members()[0], m);
    assert_eq!(e.size(), 8);
    assert_eq!(e.get(1), None);
}

#[test]
fn func_proto_params_decode() {
    let data = words(&[4, 2, 0, 3]);
    let t = BtfType::new(TypeId(1), 0, info_of(2, FUNC_PROTO_TAG, false), 6, &data);
    let p = FuncProto::try_from(t).unwrap();
    assert_eq!(p.referenced_type_id(), TypeId(6));
    assert_eq!(p.len(), 2);
    let a = p.get(0).unwrap();
    assert_eq!(a.name_off, 4);
    assert_eq!(a.ty, TypeId(2));
    let b = p.get(1).unwrap();
    assert_eq!(b.name_off, 0);
    assert_eq!(b.ty, TypeId(3));
    assert_eq!(p.members(), vec![a, b]);
    assert_eq!(p.get(2), None);
}

#[test]
fn empty_func_proto_has_no_params() {
    let t = BtfType::new(TypeId(1), 0, info_of(0, FUNC_PROTO_TAG, false), 0, &[]);
    let p = FuncProto::try_from(t).unwrap();
    assert!(p.is_empty());
    assert_eq!(p.members().len(), 0);
    assert_eq!(p.get(0), None);
}

#[test]
fn data_sec_entries_decode() {
    let data = words(&[12, 0, 4, 13, 8, 2]);
    let t = BtfType::new(TypeId(1), 6, info_of(2, DATA_SEC_TAG, false), 16, &data);
    let d = DataSec::try_from(t).unwrap();
    assert_eq!(d.len(), 2);
    assert_eq!(d.size(), 16);
    let a = d.get(0).unwrap();
    assert_eq!(a.ty, TypeId(12));
    assert_eq!(a.offset, 0);
    assert_eq!(a.size, 4);
    let b = d.get(1).unwrap();
    assert_eq!(b.ty, TypeId(13));
    assert_eq!(b.offset, 8);
    assert_eq!(b.size, 2);
    assert_eq!(d.members(), vec![a, b]);
    assert_eq!(d.get(2), None);
}

#[test]
fn collection_conversion_mismatch_returns_view() {
    let data = words(&[1, 10, 0]);
    let t = BtfType::new(TypeId(1), 0, info_of(1, STRUCT_TAG, false), 4, &data);
    let back = Union::try_from(t).unwrap_err();
    assert_eq!(back, t);
    let back = Enum64::try_from(back).unwrap_err();
    assert_eq!(back, t);
    assert!(Struct::try_from(back).is_ok());
}
