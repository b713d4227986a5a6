//! Fixed-layout headers of the binary tree-structured asset format.
//!
//! Each header is a packed little-endian record at the front of its byte
//! region; parsing decodes exactly those bytes, and fails exactly when the
//! region is too short. Reading the regions from disk is the caller's side.

use vstd::prelude::*;
use crate::codec::spec_u32_from_le_bytes;
use crate::codec::u32_from_le_bytes;

verus! {

/// The one-byte tag of a node property's type.
#[derive(Debug, Copy, Clone, Eq, PartialEq, Structural)]
pub struct RawPropertyKind(pub u8);

impl RawPropertyKind {
    /// The tag character for a boolean property.
    pub const BOOL: u8 = 67;

    /// The tag character for a 16-bit integer property.
    pub const I16: u8 = 89;

    /// The tag character for a 32-bit integer property.
    pub const I32: u8 = 73;

    /// The tag character for a 64-bit integer property.
    pub const I64: u8 = 76;

    /// The tag character for a single-precision real property.
    pub const F32: u8 = 70;

    /// The tag character for a double-precision real property.
    pub const F64: u8 = 68;

    /// The tag character for a boolean array property.
    pub const BOOL_ARRAY: u8 = 98;

    /// The tag character for a 32-bit integer array property.
    pub const I32_ARRAY: u8 = 105;

    /// The tag character for a 64-bit integer array property.
    pub const I64_ARRAY: u8 = 108;

    /// The tag character for a single-precision real array property.
    pub const F32_ARRAY: u8 = 102;

    /// The tag character for a double-precision real array property.
    pub const F64_ARRAY: u8 = 100;

    /// The tag character for a string property.
    pub const STRING: u8 = 83;

    /// The tag character for a raw-bytes property.
    pub const BYTES: u8 = 82;

    /// Reads the tag from the front of `bytes`; fails exactly when the
    /// region is empty.
    pub fn parse(bytes: &[u8]) -> (r: Option<RawPropertyKind>)
        ensures
            bytes@.len() >= 1 <==> r is Some,
            r matches Some(k) ==> k == RawPropertyKind(bytes@[0]),
    {
        if bytes.len() >= 1 {
            Some(RawPropertyKind(*vstd::slice::slice_index_get(bytes, 0)))
        } else {
            None
        }
    }
}

/// The four-byte encoding tag of an array property's payload.
#[derive(Debug, Copy, Clone, Eq, PartialEq, Structural)]
pub struct RawEncodingKind(pub u32);

impl RawEncodingKind {
    /// The payload is stored plain.
    pub const PLAIN: u32 = 0;

    /// The payload is deflate-compressed.
    pub const DEFLATE: u32 = 1;
}

/// The file header: a 21-byte magic, two unknown bytes, and the format
/// version, 27 bytes in all.
#[derive(Debug, Copy, Clone)]
pub struct RawFileHeader {
    pub magic: [u8; 21],
    pub unknown: [u8; 2],
    pub version: u32,
}

/// The word stored little-endian at `offset` in `bytes`.
pub open spec fn spec_u32_le_at(bytes: Seq<u8>, offset: int) -> u32 {
    spec_u32_from_le_bytes(
        bytes[offset],
        bytes[offset + 1],
        bytes[offset + 2],
        bytes[offset + 3],
    )
}

impl RawFileHeader {
    /// Reads the file header from the front of `bytes`; fails exactly when
    /// fewer than its 27 bytes are there.
    pub fn parse(bytes: &[u8]) -> (r: Option<RawFileHeader>)
        ensures
            bytes@.len() >= 27 <==> r is Some,
            r matches Some(h) ==> {
                &&& h.magic@ == bytes@.subrange(0, 21)
                &&& h.unknown@ == bytes@.subrange(21, 23)
                &&& h.version == spec_u32_le_at(bytes@, 23)
            },
    {
        if bytes.len() >= 27 {
            let magic: [u8; 21] = [
                *vstd::slice::slice_index_get(bytes, 0),
                *vstd::slice::slice_index_get(bytes, 1),
                *vstd::slice::slice_index_get(bytes, 2),
                *vstd::slice::slice_index_get(bytes, 3),
                *vstd::slice::slice_index_get(bytes, 4),
                *vstd::slice::slice_index_get(bytes, 5),
                *vstd::slice::slice_index_get(bytes, 6),
                *vstd::slice::slice_index_get(bytes, 7),
                *vstd::slice::slice_index_get(bytes, 8),
                *vstd::slice::slice_index_get(bytes, 9),
                *vstd::slice::slice_index_get(bytes, 10),
                *vstd::slice::slice_index_get(bytes, 11),
                *vstd::slice::slice_index_get(bytes, 12),
                *vstd::slice::slice_index_get(bytes, 13),
                *vstd::slice::slice_index_get(bytes, 14),
                *vstd::slice::slice_index_get(bytes, 15),
                *vstd::slice::slice_index_get(bytes, 16),
                *vstd::slice::slice_index_get(bytes, 17),
                *vstd::slice::slice_index_get(bytes, 18),
                *vstd::slice::slice_index_get(bytes, 19),
                *vstd::slice::slice_index_get(bytes, 20),
            ];
            let unknown: [u8; 2] = [
                *vstd::slice::slice_index_get(bytes, 21),
                *vstd::slice::slice_index_get(bytes, 22),
            ];
            let version = u32_from_le_bytes(bytes, 23);
            proof {
                assert(magic@ =~= bytes@.subrange(0, 21));
                assert(unknown@ =~= bytes@.subrange(21, 23));
            }
            Some(RawFileHeader { magic, unknown, version })
        } else {
            None
        }
    }
}

/// An array property's header: element count, payload encoding, and payload
/// byte count, 12 bytes in all.
#[derive(Debug, Copy, Clone, Eq, PartialEq, Structural)]
pub struct RawArrayHeader {
    pub element_count: u32,
    pub encoding: RawEncodingKind,
    pub byte_count: u32,
}

impl RawArrayHeader {
    /// Reads the array header from the front of `bytes`; fails exactly when
    /// fewer than its 12 bytes are there.
    pub fn parse(bytes: &[u8]) -> (r: Option<RawArrayHeader>)
        ensures
            bytes@.len() >= 12 <==> r is Some,
            r matches Some(h) ==> {
                &&& h.element_count == spec_u32_le_at(bytes@, 0)
                &&& h.encoding == RawEncodingKind(spec_u32_le_at(bytes@, 4))
                &&& h.byte_count == spec_u32_le_at(bytes@, 8)
            },
    {
        if bytes.len() >= 12 {
            Some(RawArrayHeader {
                element_count: u32_from_le_bytes(bytes, 0),
                encoding: RawEncodingKind(u32_from_le_bytes(bytes, 4)),
                byte_count: u32_from_le_bytes(bytes, 8),
            })
        } else {
            None
        }
    }
}

/// A node's header: where the node's byte region ends, how many properties
/// it has, their total byte count, and the node name's length, 13 bytes in
/// all.
#[derive(Debug, Copy, Clone, Eq, PartialEq, Structural)]
pub struct RawNodeHeader {
    pub end_offset: u32,
    pub property_count: u32,
    pub properties_byte_count: u32,
    pub name_len: u8,
}

impl RawNodeHeader {
    /// Reads the node header from the front of `bytes`; fails exactly when
    /// fewer than its 13 bytes are there.
    pub fn parse(bytes: &[u8]) -> (r: Option<RawNodeHeader>)
        ensures
            bytes@.len() >= 13 <==> r is Some,
            r matches Some(h) ==> {
                &&& h.end_offset == spec_u32_le_at(bytes@, 0)
                &&& h.property_count == spec_u32_le_at(bytes@, 4)
                &&& h.properties_byte_count == spec_u32_le_at(bytes@, 8)
                &&& h.name_len == bytes@[12]
            },
    {
        if bytes.len() >= 13 {
            Some(RawNodeHeader {
                end_offset: u32_from_le_bytes(bytes, 0),
                property_count: u32_from_le_bytes(bytes, 4),
                properties_byte_count: u32_from_le_bytes(bytes, 8),
                name_len: *vstd::slice::slice_index_get(bytes, 12),
            })
        } else {
            None
        }
    }
}

} // verus!
