//! Decoding of the header of a PSF2 console font.
use vstd::prelude::*;

verus! {

/// The unsigned integer stored little endian in the four bytes of `data`
/// from `index` on.
pub open spec fn le_u32(data: Seq<u8>, index: int) -> int {
    data[index] + 256 * data[index + 1] + 65536 * data[index + 2] + 16777216 * data[index + 3]
}

/// Reads the little-endian `u32` that starts at `index`.
pub fn from_le(data: &[u8], index: usize) -> (r: u32)
    requires
        index + 4 <= data@.len(),
    ensures
        r as int == le_u32(data@, index as int),
{
    let b0 = data[index] as u32;
    let b1 = data[index + 1] as u32;
    let b2 = data[index + 2] as u32;
    let b3 = data[index + 3] as u32;
    b0 + b1 * 256 + b2 * 65536 + b3 * 16777216
}

/// The fixed part of a PSF2 font file.
#[allow(non_camel_case_types)]
#[derive(Debug)]
pub struct psf2_header {
    pub magic: [u8; 4],
    pub version: u32,
    /// Offset of the glyph bitmaps in the file.
    pub headersize: u32,
    pub flags: u32,
    /// Number of glyphs.
    pub glyph_count: u32,
    /// Number of bytes of each glyph.
    pub glyph_size: u32,
    pub glyph_height: u32,
    pub glyph_width: u32,
}

impl psf2_header {
    /// Decodes the header from the first 32 bytes of a font file.
    pub fn new(data: &[u8]) -> (r: psf2_header)
        requires
            32 <= data@.len(),
        ensures
            r.magic@ == data@.subrange(0, 4),
            r.version as int == le_u32(data@, 4),
            r.headersize as int == le_u32(data@, 8),
            r.flags as int == le_u32(data@, 12),
            r.glyph_count as int == le_u32(data@, 16),
            r.glyph_size as int == le_u32(data@, 20),
            r.glyph_height as int == le_u32(data@, 24),
            r.glyph_width as int == le_u32(data@, 28),
    {
        let r = psf2_header {
            magic: [data[0], data[1], data[2], data[3]],
            version: from_le(data, 4),
            headersize: from_le(data, 8),
            flags: from_le(data, 12),
            glyph_count: from_le(data, 16),
            glyph_size: from_le(data, 20),
            glyph_height: from_le(data, 24),
            glyph_width: from_le(data, 28),
        };
        assert(r.magic@ =~= data@.subrange(0, 4));
        r
    }
}

} // verus!
