//! The binary glTF container: its header length, its JSON chunk read as text
//! and the size of its binary chunk.
use vstd::prelude::*;
use vstd::utf8::{decode_utf8, valid_utf8};

verus! {

/// The little-endian `u32` at `offset` in `bytes`.
pub open spec fn le_u32(bytes: Seq<u8>, offset: int) -> int {
    bytes[offset] + 256 * bytes[offset + 1] + 65536 * bytes[offset + 2] + 16777216 * bytes[offset
        + 3]
}

/// The bytes start with the GLB magic `glTF`.
pub open spec fn has_glb_magic(bytes: Seq<u8>) -> bool {
    &&& bytes.len() >= 4
    &&& bytes[0] == 0x67u8
    &&& bytes[1] == 0x6cu8
    &&& bytes[2] == 0x54u8
    &&& bytes[3] == 0x46u8
}

/// The bytes hold a complete GLB header whose length field is smaller than
/// the header itself (12 bytes), which the GLB reader does not handle.
pub open spec fn glb_length_underflows(bytes: Seq<u8>) -> bool {
    &&& bytes.len() >= 12
    &&& has_glb_magic(bytes)
    &&& le_u32(bytes, 8) < 12
}

/// The bytes `b0 b1 b2 b3` at `offset` in `bytes`.
pub open spec fn tag_at(bytes: Seq<u8>, offset: int, b0: u8, b1: u8, b2: u8, b3: u8) -> bool {
    &&& bytes[offset] == b0
    &&& bytes[offset + 1] == b1
    &&& bytes[offset + 2] == b2
    &&& bytes[offset + 3] == b3
}

/// The optional binary chunk that follows the JSON chunk: none where nothing
/// follows; where something does, a chunk header of type `BIN\0` whose
/// length fits in what follows it, or nothing at all (an error).
pub open spec fn bin_chunk(rest: Seq<u8>) -> Option<Option<Seq<u8>>> {
    if rest.len() == 0 {
        Some(None)
    } else if rest.len() >= 8 && tag_at(rest, 4, 0x42, 0x49, 0x4e, 0x00) && le_u32(rest, 0)
        <= rest.len() - 8 {
        Some(Some(rest.subrange(8, 8 + le_u32(rest, 0))))
    } else {
        None
    }
}

/// How binary glTF splits: a 12-byte header (magic `glTF`, version 2, a
/// length no longer than the bytes), then a chunk header of type `JSON` whose
/// length fits in the rest, the JSON chunk, and an optional binary chunk.
/// The result is the header's length, the JSON chunk and the binary chunk,
/// or nothing where the bytes do not follow that layout.
pub open spec fn glb_layout(bytes: Seq<u8>) -> Option<(u32, Seq<u8>, Option<Seq<u8>>)> {
    if {
        &&& bytes.len() >= 20
        &&& has_glb_magic(bytes)
        &&& le_u32(bytes, 4) == 2
        &&& 12 <= le_u32(bytes, 8) <= bytes.len()
        &&& tag_at(bytes, 16, 0x4a, 0x53, 0x4f, 0x4e)
        &&& le_u32(bytes, 12) <= bytes.len() - 20
        &&& bin_chunk(bytes.subrange(20 + le_u32(bytes, 12), bytes.len() as int)) is Some
    } {
        let json_end = 20 + le_u32(bytes, 12);
        Some(
            (
                le_u32(bytes, 8) as u32,
                bytes.subrange(20, json_end),
                bin_chunk(bytes.subrange(json_end, bytes.len() as int)).unwrap(),
            ),
        )
    } else {
        None
    }
}

/// The parts of a binary glTF file.
#[derive(Clone, Debug)]
pub struct GlbParts {
    /// The length that the header gives for the whole file.
    pub header_length: u32,
    /// The JSON chunk.
    pub json: Vec<u8>,
    /// The binary chunk.
    pub bin: Option<Vec<u8>>,
}

/// The view of an optional chunk.
pub open spec fn chunk_view(bin: Option<Vec<u8>>) -> Option<Seq<u8>> {
    match bin {
        Some(b) => Some(b@),
        None => None,
    }
}

/// Splits binary glTF with `gltf::Glb::from_slice`, which reads the 12-byte
/// header (magic `glTF`, version, length), requires version 2 and no more
/// length than there are bytes, then the JSON chunk and an optional BIN
/// chunk from the rest (`glb_layout`). It is not called where the header's
/// length is shorter than the header, on which it would underflow.
#[verifier::external_body]
fn glb_from_slice(bytes: &[u8]) -> (res: Option<GlbParts>)
    requires
        !glb_length_underflows(bytes@),
    ensures
        match res {
            None => glb_layout(bytes@) is None,
            Some(parts) => glb_layout(bytes@) == Some(
                (parts.header_length, parts.json@, chunk_view(parts.bin)),
            ),
        },
{
    gltf::Glb::from_slice(bytes).ok().map(
        |glb|
            GlbParts {
                header_length: glb.header.length,
                json: glb.json.to_vec(),
                bin: glb.bin.map(|b| b.to_vec()),
            },
    )
}

/// Reads bytes as UTF-8 text with `std::str::from_utf8`, which succeeds
/// exactly where the bytes are well-formed UTF-8 (`valid_utf8`), and then
/// gives the text they encode (`decode_utf8`).
#[verifier::external_body]
fn str_from_utf8(bytes: &[u8]) -> (res: Option<&str>)
    ensures
        res is Some == valid_utf8(bytes@),
        res matches Some(s) ==> s@ == decode_utf8(bytes@),
{
    std::str::from_utf8(bytes).ok()
}

/// What is logged of a binary glTF file.
#[derive(Clone, Debug)]
pub struct GlbSummary {
    /// The length given by the header.
    pub header_length: u32,
    /// The JSON chunk as text, or `Error parsing utf8` where it is no UTF-8.
    pub json: String,
    /// The size of the binary chunk.
    pub bin_len: usize,
}

/// The text logged for a JSON chunk.
pub open spec fn json_text(json: Seq<u8>) -> Seq<char> {
    if valid_utf8(json) {
        decode_utf8(json)
    } else {
        "Error parsing utf8"@
    }
}

/// Whether the bytes hold a GLB header whose length field is smaller than
/// the header.
pub fn check_glb_length_underflows(bytes: &[u8]) -> (res: bool)
    ensures
        res == glb_length_underflows(bytes@),
{
    if bytes.len() < 12 {
        return false;
    }
    let magic = bytes[0] == 0x67u8 && bytes[1] == 0x6cu8 && bytes[2] == 0x54u8 && bytes[3] == 0x46u8;
    let length: u64 = bytes[8] as u64 + 256 * (bytes[9] as u64) + 65536 * (bytes[10] as u64)
        + 16777216 * (bytes[11] as u64);
    magic && length < 12
}

/// Reads a binary glTF file for logging: its header length, its JSON
/// chunk as text (or `Error parsing utf8`) and the size of its binary chunk.
/// There is nothing to log where the file is no valid binary glTF or has no
/// binary chunk.
pub fn glb_summary(raw: &[u8]) -> (res: Option<GlbSummary>)
    ensures
        res is None <==> (glb_length_underflows(raw@) || glb_layout(raw@) is None || glb_layout(raw@).unwrap().2 is None),
        res matches Some(summary) ==> {
            let (length, json, bin) = glb_layout(raw@).unwrap();
            &&& summary.header_length == length
            &&& summary.json@ == json_text(json)
            &&& summary.bin_len == bin.unwrap().len()
        },
{
    if check_glb_length_underflows(raw) {
        return None;
    }
    let parsed = match glb_from_slice(raw) {
        Some(p) => p,
        None => return None,
    };
    let header_length = parsed.header_length;
    let json = match str_from_utf8(parsed.json.as_slice()) {
        Some(v) => v.to_owned(),
        None => "Error parsing utf8".to_owned(),
    };
    let bin_len = match &parsed.bin {
        Some(bin) => bin.len(),
        None => return None,
    };
    Some(GlbSummary { header_length, json, bin_len })
}

} // verus!
