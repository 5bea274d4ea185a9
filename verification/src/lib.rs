//! Zero-copy, read-only views over BTF type records.
//!
//! BTF is a compact binary format describing C-level types. Every record
//! starts with a fixed 12-byte header (a name offset into an external string
//! table, a packed `info` word, and a size-or-type word) followed by zero, one
//! or `vlen` fixed-size trailing sub-records, depending on the record's kind.
//!
//! A caller holds a generic [`ty::BtfType`] view (id, raw header, trailing
//! bytes) and attempts conversion to one of the twenty concrete kinds; on a
//! kind-tag match the concrete view borrows the record's own trailing bytes
//! and exposes typed accessors, and on a mismatch the generic view is handed
//! back unchanged. The owning store is responsible for bounds-checking the
//! trailing region and resolving name offsets; views here never re-validate
//! buffer bounds and never allocate or mutate.

pub mod attrs;
pub mod collections;
pub mod fieldless;
pub mod fixed;
pub mod kind;
pub mod raw;
pub mod ty;
