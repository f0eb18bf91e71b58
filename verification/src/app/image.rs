//! One-bit images for the display.

use crate::bytes::{join16, le16_bytes};
use vstd::prelude::*;

verus! {

pub const MAX_WIDTH: u16 = 480;

pub const MAX_HEIGHT: u16 = 800;

/// A 1-bpp image: rows of whole bytes, the leftmost pixel in the top bit.
#[derive(Debug, Clone, PartialEq, Eq)]
pub struct MonoImage {
    pub width: u16,
    pub height: u16,
    pub bits: Vec<u8>,
}

/// An image, mathematically.
pub struct ImageModel {
    pub width: u16,
    pub height: u16,
    pub bits: Seq<u8>,
}

/// Bytes per row: eight pixels each, rounded up.
pub open spec fn row_bytes(width: u16) -> int {
    (width + 7) / 8
}

impl ImageModel {
    /// The image fits the display and its rows are complete.
    pub open spec fn wf(self) -> bool {
        &&& 1 <= self.width <= MAX_WIDTH
        &&& 1 <= self.height <= MAX_HEIGHT
        &&& self.bits.len() == row_bytes(self.width) * self.height
    }

    /// `width:u16 | height:u16 | rows`, little endian.
    pub open spec fn encoded(self) -> Seq<u8> {
        crate::bytes::le16(self.width) + crate::bytes::le16(self.height) + self.bits
    }

    /// The image that some bytes hold, if they hold one.
    pub open spec fn decoded(bytes: Seq<u8>) -> Option<ImageModel> {
        if bytes.len() < 4 {
            None
        } else {
            let image = ImageModel {
                width: crate::bytes::word(bytes[1], bytes[0]),
                height: crate::bytes::word(bytes[3], bytes[2]),
                bits: bytes.skip(4),
            };
            if image.wf() {
                Some(image)
            } else {
                None
            }
        }
    }
}

impl View for MonoImage {
    type V = ImageModel;

    open spec fn view(&self) -> ImageModel {
        ImageModel { width: self.width, height: self.height, bits: self.bits@ }
    }
}

pub open spec fn image_view(image: Option<MonoImage>) -> Option<ImageModel> {
    match image {
        Some(i) => Some(i@),
        None => None,
    }
}

/// The size of an image's rows, if the image fits the display.
pub fn image_bytes(width: u16, height: u16) -> (n: Option<usize>)
    ensures
        match n {
            Some(n) => 1 <= width <= MAX_WIDTH && 1 <= height <= MAX_HEIGHT && n == row_bytes(
                width,
            ) * height && n <= 48_000,
            None => !(1 <= width <= MAX_WIDTH && 1 <= height <= MAX_HEIGHT),
        },
{
    if width == 0 || height == 0 || width > MAX_WIDTH || height > MAX_HEIGHT {
        return None;
    }
    let row = (width as usize + 7) / 8;
    assert(row * height <= 60 * 800) by (nonlinear_arith)
        requires
            row <= 60,
            height <= 800,
    ;
    Some(row * height as usize)
}

impl MonoImage {
    pub open spec fn wf(&self) -> bool {
        self@.wf()
    }

    /// The image as bytes for storage.
    pub fn encode(&self) -> (bytes: Vec<u8>)
        ensures
            bytes@ == self@.encoded(),
    {
        let mut bytes: Vec<u8> = Vec::new();
        bytes.extend_from_slice(&le16_bytes(self.width));
        bytes.extend_from_slice(&le16_bytes(self.height));
        bytes.extend_from_slice(self.bits.as_slice());
        assert(bytes@ =~= self@.encoded());
        bytes
    }

    /// The image that some bytes hold, if they hold one.
    pub fn decode_owned(bytes: Vec<u8>) -> (image: Option<MonoImage>)
        ensures
            image_view(image) == ImageModel::decoded(bytes@),
    {
        if bytes.len() < 4 {
            return None;
        }
        let width = join16(bytes[1], bytes[0]);
        let height = join16(bytes[3], bytes[2]);
        match image_bytes(width, height) {
            None => None,
            Some(n) => {
                if bytes.len() - 4 != n {
                    return None;
                }
                let rest = vstd::slice::slice_subrange(bytes.as_slice(), 4, bytes.len());
                assert(rest@ =~= bytes@.skip(4));
                Some(MonoImage { width, height, bits: crate::bytes::owned(rest) })
            },
        }
    }
}

/// A stored image is the one that is loaded.
pub proof fn an_encoded_image_is_decoded(image: ImageModel)
    requires
        image.wf(),
    ensures
        ImageModel::decoded(image.encoded()) == Some(image),
{
    let bytes = image.encoded();
    crate::bytes::word_of_its_bytes(image.width);
    crate::bytes::word_of_its_bytes(image.height);
    assert(bytes.skip(4) =~= image.bits);
}

/// A row has a byte for each eight pixels begun.
pub proof fn rows_are_whole_bytes(width: u16)
    ensures
        8 * row_bytes(width) >= width,
        8 * row_bytes(width) < width + 8,
{
}

/// The bytes of an image: width, height, both low byte first, then the rows.
pub proof fn an_image_has_its_layout(image: ImageModel)
    ensures
        ({
            let b = image.encoded();
            &&& b.len() == 4 + image.bits.len()
            &&& b[0] + 256 * b[1] == image.width
            &&& b[2] + 256 * b[3] == image.height
            &&& b.skip(4) == image.bits
        }),
{
    let b = image.encoded();
    crate::bytes::bytes_have_their_worth(image.width, 0);
    crate::bytes::bytes_have_their_worth(image.height, 0);
    assert(b[0] == crate::bytes::le16(image.width)[0] && b[1] == crate::bytes::le16(image.width)[1]);
    assert(b[2] == crate::bytes::le16(image.height)[0] && b[3] == crate::bytes::le16(
        image.height,
    )[1]);
    assert(b.skip(4) =~= image.bits);
}

/// Bytes hold an image exactly if its size fits the display and the rows are
/// complete; it is then the one they spell out.
pub proof fn only_whole_images_are_decoded(b: Seq<u8>)
    ensures
        b.len() < 4 ==> ImageModel::decoded(b) is None,
        b.len() >= 4 ==> {
            let w = b[0] + 256 * b[1];
            let h = b[2] + 256 * b[3];
            let fits = 1 <= w <= 480 && 1 <= h <= 800 && b.len() - 4 == (w + 7) / 8 * h;
            &&& !fits ==> ImageModel::decoded(b) is None
            &&& fits ==> (ImageModel::decoded(b) matches Some(i) && i.width == w && i.height == h
                && i.bits == b.skip(4))
        },
{
}

/// An image is its size and its rows.
pub proof fn images_are_their_rows(image: MonoImage)
    ensures
        image@.width == image.width,
        image@.height == image.height,
        image@.bits == image.bits@,
        image_view(Some(image)) == Some(image@),
        image_view(None) is None,
{
}

} // verus!
