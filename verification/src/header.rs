//! The fixed-layout record that opens every encoded image.
//!
//! The record is kept as a struct of logical values and turned into bytes
//! field by field, so that no padding and no host byte order can leak into
//! the output.

use vstd::prelude::*;

verus! {

/// Length in bytes of the identification string that ends the header.
pub const IMAGE_ID_LEN: usize = 17;

/// Length in bytes of the header fields that precede the identification string.
pub const FIXED_FIELDS_LEN: usize = 18;

/// Length in bytes of the whole header; the pixel data starts at this offset.
pub const HEADER_SIZE: usize = 35;

/// Offset of the little-endian image width.
pub const WIDTH_OFFSET: usize = 12;

/// Offset of the little-endian image height.
pub const HEIGHT_OFFSET: usize = 14;

/// Image type of an uncompressed true-color image.
pub const IMAGE_TYPE_TRUE_COLOR: u8 = 2;

/// Bits per pixel.
pub const PIXEL_DEPTH: u8 = 32;

/// Eight attribute bits per pixel (bits 0 to 3) and the origin in the upper
/// left corner (bit 5); no interleaving.
pub const IMAGE_DESCRIPTOR: u8 = 0b0010_1000;

/// The identification string written into every header, as ASCII bytes.
pub open spec fn image_id() -> Seq<u8> {
    seq![
        100u8, 114u8, 101u8, 119u8, 99u8, 114u8, 97u8, 119u8, 102u8, 111u8, 114u8, 100u8, 47u8,
        116u8, 103u8, 97u8, 114u8,
    ]
}

/// The two bytes of `x` in little-endian order: low byte first.
pub open spec fn u16_le_bytes(x: u16) -> Seq<u8> {
    seq![(x % 256) as u8, (x / 256) as u8]
}

/// The number whose little-endian bytes are `lo`, `hi`.
pub open spec fn u16_from_le(lo: u8, hi: u8) -> int {
    lo + 256 * hi
}

/// The header of a `width` by `height` image, byte by byte.
pub open spec fn header_bytes(width: u16, height: u16) -> Seq<u8> {
    seq![
        IMAGE_ID_LEN as u8,
        0u8,
        IMAGE_TYPE_TRUE_COLOR,
        0u8,
        0u8,
        0u8,
        0u8,
        0u8,
        0u8,
        0u8,
        0u8,
        0u8,
        (width % 256) as u8,
        (width / 256) as u8,
        (height % 256) as u8,
        (height / 256) as u8,
        PIXEL_DEPTH,
        IMAGE_DESCRIPTOR,
    ] + image_id()
}

/// Where each field of the header lies: the fixed fields at their offsets,
/// then the identification string, with the pixel data due right after it.
pub proof fn lemma_header_layout(width: u16, height: u16)
    ensures
        header_bytes(width, height).len() == HEADER_SIZE,
        HEADER_SIZE == FIXED_FIELDS_LEN + IMAGE_ID_LEN,
        header_bytes(width, height)[0] == IMAGE_ID_LEN,
        header_bytes(width, height)[1] == 0,
        header_bytes(width, height)[2] == IMAGE_TYPE_TRUE_COLOR,
        header_bytes(width, height).subrange(3, 12) == Seq::new(9, |i: int| 0u8),
        header_bytes(width, height).subrange(WIDTH_OFFSET as int, WIDTH_OFFSET + 2)
            == u16_le_bytes(width),
        header_bytes(width, height).subrange(HEIGHT_OFFSET as int, HEIGHT_OFFSET + 2)
            == u16_le_bytes(height),
        header_bytes(width, height)[16] == PIXEL_DEPTH,
        header_bytes(width, height)[17] == IMAGE_DESCRIPTOR,
        header_bytes(width, height).subrange(FIXED_FIELDS_LEN as int, HEADER_SIZE as int)
            == image_id(),
{
    let h = header_bytes(width, height);
    assert(h.subrange(3, 12) =~= Seq::new(9, |i: int| 0u8));
    assert(h.subrange(WIDTH_OFFSET as int, WIDTH_OFFSET + 2) =~= u16_le_bytes(width));
    assert(h.subrange(HEIGHT_OFFSET as int, HEIGHT_OFFSET + 2) =~= u16_le_bytes(height));
    assert(h.subrange(FIXED_FIELDS_LEN as int, HEADER_SIZE as int) =~= image_id());
}

/// Little-endian bytes read back give the number they were made from.
pub proof fn lemma_u16_le_round_trip(x: u16)
    ensures
        u16_le_bytes(x).len() == 2,
        u16_from_le(u16_le_bytes(x)[0], u16_le_bytes(x)[1]) == x,
{
}

/// Appends the two bytes of `x` to `buf`, low byte first.
pub fn push_u16_le(buf: &mut Vec<u8>, x: u16)
    ensures
        final(buf)@ == old(buf)@ + u16_le_bytes(x),
{
    buf.push((x % 256) as u8);
    buf.push((x / 256) as u8);
    assert(buf@ =~= old(buf)@ + u16_le_bytes(x));
}

/// Appends the bytes of `bytes` to `buf`, in order.
pub fn push_bytes(buf: &mut Vec<u8>, bytes: &[u8])
    ensures
        final(buf)@ == old(buf)@ + bytes@,
{
    let mut i: usize = 0;
    while i < bytes.len()
        invariant
            i <= bytes@.len(),
            buf@ == old(buf)@ + bytes@.subrange(0, i as int),
        decreases bytes@.len() - i,
    {
        buf.push(bytes[i]);
        i += 1;
        assert(buf@ =~= old(buf)@ + bytes@.subrange(0, i as int));
    }
    assert(bytes@.subrange(0, i as int) =~= bytes@);
}

/// Position and size of the image, and how its pixels are stored.
pub struct ImageSpecification {
    pub x_origin: u16,
    pub y_origin: u16,
    pub image_width: u16,
    pub image_height: u16,
    /// Bits per pixel.
    pub pixel_depth: u8,
    /// Alpha channel depth in the low four bits, pixel ordering in the two above.
    pub image_descriptor: u8,
}

impl ImageSpecification {
    /// The ten bytes of this record; every two-byte field is little-endian.
    pub open spec fn spec_bytes(self) -> Seq<u8> {
        u16_le_bytes(self.x_origin) + u16_le_bytes(self.y_origin) + u16_le_bytes(self.image_width)
            + u16_le_bytes(self.image_height) + seq![self.pixel_depth, self.image_descriptor]
    }

    /// Appends this record to `buf`.
    pub fn write_to(&self, buf: &mut Vec<u8>)
        ensures
            final(buf)@ == old(buf)@ + self.spec_bytes(),
    {
        push_u16_le(buf, self.x_origin);
        push_u16_le(buf, self.y_origin);
        push_u16_le(buf, self.image_width);
        push_u16_le(buf, self.image_height);
        buf.push(self.pixel_depth);
        buf.push(self.image_descriptor);
        assert(buf@ =~= old(buf)@ + self.spec_bytes());
    }
}

/// The header of a TGA file.
pub struct Header {
    /// Length of the image ID field.
    pub id_length: u8,
    /// Whether a color map is included.
    pub color_map_type: u8,
    /// Compression and color types.
    pub image_type: u8,
    /// Describes the color map.
    pub color_map_specification: [u8; 5],
    pub image_specification: ImageSpecification,
    pub image_id: [u8; 17],
}

impl Header {
    /// The bytes of this header in file order, with nothing between the fields.
    pub open spec fn spec_bytes(self) -> Seq<u8> {
        seq![self.id_length, self.color_map_type, self.image_type] + self.color_map_specification@
            + self.image_specification.spec_bytes() + self.image_id@
    }

    /// Creates the header of a `width` by `height` image of 32-bit BGRA pixels
    /// without color map, stored uncompressed from the upper left corner.
    pub fn new_bgra(width: u16, height: u16) -> (h: Header)
        ensures
            h.id_length == IMAGE_ID_LEN,
            h.color_map_type == 0,
            h.image_type == IMAGE_TYPE_TRUE_COLOR,
            h.color_map_specification@ == seq![0u8, 0u8, 0u8, 0u8, 0u8],
            h.image_specification.x_origin == 0,
            h.image_specification.y_origin == 0,
            h.image_specification.image_width == width,
            h.image_specification.image_height == height,
            h.image_specification.pixel_depth == PIXEL_DEPTH,
            h.image_specification.image_descriptor == IMAGE_DESCRIPTOR,
            h.image_id@ == image_id(),
            h.spec_bytes() == header_bytes(width, height),
    {
        let h = Header {
            id_length: 17,
            color_map_type: 0,
            image_type: IMAGE_TYPE_TRUE_COLOR,
            color_map_specification: [0, 0, 0, 0, 0],
            image_specification: ImageSpecification {
                x_origin: 0,
                y_origin: 0,
                image_width: width,
                image_height: height,
                pixel_depth: PIXEL_DEPTH,
                image_descriptor: IMAGE_DESCRIPTOR,
            },
            image_id: [
                100, 114, 101, 119, 99, 114, 97, 119, 102, 111, 114, 100, 47, 116, 103, 97, 114,
            ],
        };
        assert(h.color_map_specification@ =~= seq![0u8, 0u8, 0u8, 0u8, 0u8]);
        assert(h.image_id@ =~= image_id());
        assert(h.spec_bytes() =~= header_bytes(width, height));
        h
    }

    /// Appends this header to `buf`: every byte of it, in file order.
    pub fn write_to(&self, buf: &mut Vec<u8>)
        ensures
            final(buf)@ == old(buf)@ + self.spec_bytes(),
    {
        buf.push(self.id_length);
        buf.push(self.color_map_type);
        buf.push(self.image_type);
        push_bytes(buf, self.color_map_specification.as_slice());
        self.image_specification.write_to(buf);
        push_bytes(buf, self.image_id.as_slice());
        assert(buf@ =~= old(buf)@ + self.spec_bytes());
    }
}

} // verus!
