//! The encoded image and the function that produces it.

use vstd::prelude::*;
use crate::header::{
    header_bytes, u16_from_le, Header, HEADER_SIZE, HEIGHT_OFFSET, IMAGE_DESCRIPTOR,
    IMAGE_TYPE_TRUE_COLOR, PIXEL_DEPTH, WIDTH_OFFSET,
};
use crate::pixel::{PixelBGRA, BYTES_PER_PIXEL};

verus! {

/// The pixel payload: four bytes per pixel, in the order of `pixels`, with
/// nothing between them.
pub open spec fn pixel_data(pixels: Seq<PixelBGRA>) -> Seq<u8> {
    Seq::new(4 * pixels.len(), |j: int| pixels[j / 4].channel(j % 4))
}

/// The whole file: the header, then the pixel payload.
pub open spec fn encoding(width: u16, height: u16, pixels: Seq<PixelBGRA>) -> Seq<u8> {
    header_bytes(width, height) + pixel_data(pixels)
}

/// Whether `count` pixels fill a `width` by `height` image exactly.
pub open spec fn dimensions_match(width: u16, height: u16, count: nat) -> bool {
    count == width * height
}

/// An image encoded in TGA format: 32-bit BGRA data, uncompressed.
#[derive(Debug, PartialEq, Eq, Hash)]
pub struct BGRA {
    data: Vec<u8>,
}

impl View for BGRA {
    type V = Seq<u8>;

    /// The bytes of the file.
    closed spec fn view(&self) -> Seq<u8> {
        self.data@
    }
}

/// Hands the buffer over as a boxed slice.
///
/// Trusted: `Vec::into_boxed_slice` of the standard library, which drops
/// spare capacity and keeps the elements and their order.
#[verifier::external_body]
fn into_boxed_slice(v: Vec<u8>) -> (b: Box<[u8]>)
    ensures
        b@ == v@,
{
    v.into_boxed_slice()
}

/// Appends the four bytes of each pixel of `pixels` to `buf`, in order.
pub fn push_pixels(buf: &mut Vec<u8>, pixels: &[PixelBGRA])
    ensures
        final(buf)@ == old(buf)@ + pixel_data(pixels@),
{
    let mut i: usize = 0;
    while i < pixels.len()
        invariant
            i <= pixels@.len(),
            buf@ == old(buf)@ + pixel_data(pixels@.subrange(0, i as int)),
        decreases pixels@.len() - i,
    {
        let p = pixels[i];
        buf.push(p.b);
        buf.push(p.g);
        buf.push(p.r);
        buf.push(p.a);
        i += 1;
        assert(buf@ =~= old(buf)@ + pixel_data(pixels@.subrange(0, i as int)));
    }
    assert(pixels@.subrange(0, i as int) =~= pixels@);
}

impl BGRA {
    /// Converts the image into its bytes.
    pub fn into_data(self) -> (data: Box<[u8]>)
        ensures
            data@ == self@,
    {
        into_boxed_slice(self.data)
    }

    /// Encodes a new image.
    ///
    /// The number of pixels must match the width and height. The result is
    /// the header followed by the pixels, each as blue, green, red, alpha,
    /// in the order given.
    pub fn new(width: u16, height: u16, data: &[PixelBGRA]) -> (img: BGRA)
        requires
            dimensions_match(width, height, data@.len()),
        ensures
            img@ == encoding(width, height, data@),
            img@.len() == HEADER_SIZE + 4 * width * height,
            u16_from_le(img@[WIDTH_OFFSET as int], img@[WIDTH_OFFSET + 1]) == width,
            u16_from_le(img@[HEIGHT_OFFSET as int], img@[HEIGHT_OFFSET + 1]) == height,
            forall|i: int|
                0 <= i < data@.len() ==> #[trigger] img@.subrange(
                    HEADER_SIZE + 4 * i,
                    HEADER_SIZE + 4 * i + 4,
                ) == data@[i].bytes(),
            img@[1] == 0,
            img@[2] == IMAGE_TYPE_TRUE_COLOR,
            img@[16] == PIXEL_DEPTH,
            img@[17] == IMAGE_DESCRIPTOR,
    {
        let mut buf: Vec<u8> = if data.len() <= (isize::MAX as usize - HEADER_SIZE)
            / BYTES_PER_PIXEL {
            Vec::with_capacity(HEADER_SIZE + BYTES_PER_PIXEL * data.len())
        } else {
            Vec::new()
        };
        let header = Header::new_bgra(width, height);
        header.write_to(&mut buf);
        push_pixels(&mut buf, data);
        assert(buf@ =~= encoding(width, height, data@));
        proof {
            lemma_encoding_len(width, height, data@);
            lemma_dimensions_round_trip(width, height, data@);
            lemma_fixed_fields(width, height, data@);
            assert forall|i: int| 0 <= i < data@.len() implies #[trigger] buf@.subrange(
                HEADER_SIZE + 4 * i,
                HEADER_SIZE + 4 * i + 4,
            ) == data@[i].bytes() by {
                lemma_pixel_fidelity(width, height, data@, i);
            }
        }
        BGRA { data: buf }
    }

    /// Encodes a new image if the number of pixels matches the width and
    /// height, and refuses otherwise, before anything is written.
    pub fn try_new(width: u16, height: u16, data: &[PixelBGRA]) -> (out: Option<BGRA>)
        ensures
            out.is_some() <==> dimensions_match(width, height, data@.len()),
            out matches Some(img) ==> img@ == encoding(width, height, data@),
    {
        assert(width * height <= 0xffff * 0xffff) by (nonlinear_arith)
            requires
                width <= 0xffff,
                height <= 0xffff,
        ;
        if width as usize * height as usize == data.len() {
            Some(BGRA::new(width, height, data))
        } else {
            None
        }
    }
}

impl Clone for BGRA {
    /// A copy with the same bytes.
    fn clone(&self) -> (img: Self)
        ensures
            img@ == self@,
    {
        BGRA { data: self.data.clone() }
    }
}

impl Default for BGRA {
    /// The image without any bytes. It has no header, so it is no TGA file.
    fn default() -> (img: Self)
        ensures
            img@ == Seq::<u8>::empty(),
    {
        BGRA { data: Vec::new() }
    }
}

impl From<Box<[u8]>> for BGRA {
    /// Takes `data` as the bytes of an image, unchecked.
    fn from(data: Box<[u8]>) -> (img: Self)
        ensures
            img@ == data@,
    {
        BGRA { data: data.into_vec() }
    }
}

impl vstd::std_specs::convert::FromSpecImpl<Box<[u8]>> for BGRA {
    /// The conversion is described by the contract of `from`, over the bytes.
    open spec fn obeys_from_spec() -> bool {
        false
    }

    open spec fn from_spec(data: Box<[u8]>) -> Self {
        choose|img: BGRA| img@ == data@
    }
}

impl From<BGRA> for Box<[u8]> {
    /// The bytes of `bgra`.
    fn from(bgra: BGRA) -> (data: Self)
        ensures
            data@ == bgra@,
    {
        bgra.into_data()
    }
}

impl vstd::std_specs::convert::FromSpecImpl<BGRA> for Box<[u8]> {
    /// The conversion is described by the contract of `from`, over the bytes.
    open spec fn obeys_from_spec() -> bool {
        false
    }

    open spec fn from_spec(bgra: BGRA) -> Self {
        choose|data: Box<[u8]>| data@ == bgra@
    }
}

impl AsRef<[u8]> for BGRA {
    /// The bytes of the image, to read.
    fn as_ref(&self) -> (bytes: &[u8])
        ensures
            bytes@ == self@,
    {
        self.data.as_slice()
    }
}

impl AsMut<[u8]> for BGRA {
    /// The bytes of the image, to overwrite in place.
    fn as_mut(&mut self) -> (bytes: &mut [u8])
        ensures
            bytes@ == old(self)@,
            final(self)@ == final(bytes)@,
    {
        self.data.as_mut_slice()
    }
}

/// The encoding is as long as the header and four bytes for each pixel.
pub proof fn lemma_encoding_len(width: u16, height: u16, pixels: Seq<PixelBGRA>)
    ensures
        encoding(width, height, pixels).len() == HEADER_SIZE + 4 * pixels.len(),
        dimensions_match(width, height, pixels.len()) ==> encoding(width, height, pixels).len()
            == HEADER_SIZE + 4 * width * height,
{
    assert(4 * (width * height) == 4 * width * height) by (nonlinear_arith);
}

/// Reading the two bytes at the width's offset, and the two at the height's,
/// as little-endian numbers gives back the width and the height.
pub proof fn lemma_dimensions_round_trip(width: u16, height: u16, pixels: Seq<PixelBGRA>)
    ensures
        u16_from_le(
            encoding(width, height, pixels)[WIDTH_OFFSET as int],
            encoding(width, height, pixels)[WIDTH_OFFSET + 1],
        ) == width,
        u16_from_le(
            encoding(width, height, pixels)[HEIGHT_OFFSET as int],
            encoding(width, height, pixels)[HEIGHT_OFFSET + 1],
        ) == height,
{
}

/// The four bytes that start at `HEADER_SIZE + 4 * i` are pixel `i`, as blue,
/// green, red, alpha.
pub proof fn lemma_pixel_fidelity(width: u16, height: u16, pixels: Seq<PixelBGRA>, i: int)
    requires
        0 <= i < pixels.len(),
    ensures
        encoding(width, height, pixels).subrange(HEADER_SIZE + 4 * i, HEADER_SIZE + 4 * i + 4)
            == pixels[i].bytes(),
        encoding(width, height, pixels)[HEADER_SIZE + 4 * i] == pixels[i].b,
        encoding(width, height, pixels)[HEADER_SIZE + 4 * i + 1] == pixels[i].g,
        encoding(width, height, pixels)[HEADER_SIZE + 4 * i + 2] == pixels[i].r,
        encoding(width, height, pixels)[HEADER_SIZE + 4 * i + 3] == pixels[i].a,
{
    let e = encoding(width, height, pixels);
    assert(e.subrange(HEADER_SIZE + 4 * i, HEADER_SIZE + 4 * i + 4) =~= pixels[i].bytes());
}

/// The header fields that do not depend on the image are the same in every
/// encoding: no color map, uncompressed true color, 32 bits per pixel, eight
/// alpha bits with the origin in the upper left corner.
pub proof fn lemma_fixed_fields(width: u16, height: u16, pixels: Seq<PixelBGRA>)
    ensures
        encoding(width, height, pixels)[1] == 0,
        encoding(width, height, pixels)[2] == IMAGE_TYPE_TRUE_COLOR,
        encoding(width, height, pixels)[16] == PIXEL_DEPTH,
        encoding(width, height, pixels)[17] == IMAGE_DESCRIPTOR,
{
}

} // verus!
