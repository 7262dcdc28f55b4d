//! The CPU-side RGBA image buffer produced by a screenshot capture, and the
//! conversions a capture goes through before it is written out: packing the
//! pixel tuples into flat bytes, correcting the vertical orientation, and
//! wrapping the bytes as an encodable image of the `image` crate.

use vstd::prelude::*;

verus! {

/// `image::DynamicImage`, the outside crate's ready-to-encode image, carried
/// opaquely from construction to the disk-writing edge.
#[verifier::external_type_specification]
#[verifier::external_body]
pub struct ExDynamicImage(image::DynamicImage);

/// The flat RGBA bytes an image holds.
pub uninterp spec fn image_rgba_bytes(img: image::DynamicImage) -> Seq<u8>;

/// The width and height an image reports.
pub uninterp spec fn image_dims(img: image::DynamicImage) -> (u32, u32);

/// Relies on image::ImageBuffer::from_raw: it wraps the byte buffer as a
/// width x height RGBA image and returns Some exactly when the buffer holds
/// at least 4 * width * height bytes (None also when that product overflows,
/// which a buffer that large rules out). On success the image holds the given
/// buffer and dimensions unchanged.
#[verifier::external_body]
fn image_from_bytes(width: u32, height: u32, bytes: Vec<u8>) -> (r: Option<
    image::DynamicImage,
>)
    ensures
        r.is_some() <==> 4 * (width as int) * (height as int) <= bytes@.len(),
        r.is_some() ==> image_rgba_bytes(r.unwrap()) == bytes@ && image_dims(r.unwrap()) == (
            width,
            height,
        ),
{
    match image::RgbaImage::from_raw(width, height, bytes) {
        Some(buffer) => Some(image::DynamicImage::ImageRgba8(buffer)),
        None => None,
    }
}

/// The flat byte layout of a sequence of RGBA pixel tuples: four bytes per
/// pixel, channels in order.
pub open spec fn packed_of(s: Seq<(u8, u8, u8, u8)>) -> Seq<u8> {
    Seq::new(
        4 * s.len(),
        |i: int|
            {
                let p = s[i / 4];
                if i % 4 == 0 {
                    p.0
                } else if i % 4 == 1 {
                    p.1
                } else if i % 4 == 2 {
                    p.2
                } else {
                    p.3
                }
            },
    )
}

/// The bytes of an image with the order of its pixel rows reversed: row `r`
/// of the result is row `height - 1 - r` of the input, each row being
/// `4 * width` bytes.
pub open spec fn flipped_of(bytes: Seq<u8>, width: u32, height: u32) -> Seq<u8> {
    Seq::new(
        bytes.len(),
        |i: int|
            {
                let rowlen = 4 * (width as int);
                let row = i / rowlen;
                let col = i % rowlen;
                bytes[(height - 1 - row) * rowlen + col]
            },
    )
}

/// An RGBA image as read back from the framebuffer: one 4-channel tuple per
/// pixel, rows bottom-up as the GPU stores them.
pub struct RGBAImageData {
    pub data: Vec<(u8, u8, u8, u8)>,
    pub width: u32,
    pub height: u32,
}

impl RGBAImageData {
    /// The pixel count matches the stated dimensions.
    pub open spec fn wf(&self) -> bool {
        self.data@.len() == self.width * self.height
    }

    /// Build an image buffer from raw pixel data and its dimensions.
    pub fn from_raw(data: Vec<(u8, u8, u8, u8)>, width: u32, height: u32) -> (r: Self)
        requires
            data@.len() == width * height,
        ensures
            r.wf(),
            r.data == data,
            r.width == width,
            r.height == height,
    {
        RGBAImageData { data, width, height }
    }

    /// Pack the pixel tuples into a flat byte buffer, four bytes per pixel.
    pub fn pack(&self) -> (bytes: Vec<u8>)
        requires
            4 * self.data@.len() <= usize::MAX,
        ensures
            bytes@ == packed_of(self.data@),
    {
        let n = self.data.len();
        let mut bytes: Vec<u8> = Vec::new();
        let mut j: usize = 0;
        while j < n
            invariant
                j <= n,
                n == self.data@.len(),
                4 * n <= usize::MAX,
                bytes@.len() == 4 * j,
                forall|k: int| 0 <= k < 4 * j ==> bytes@[k] == packed_of(self.data@)[k],
            decreases n - j,
        {
            let p = self.data[j];
            bytes.push(p.0);
            bytes.push(p.1);
            bytes.push(p.2);
            bytes.push(p.3);
            j += 1;
        }
        proof {
            assert(bytes@ =~= packed_of(self.data@));
        }
        bytes
    }

    /// The whole conversion a capture goes through before the disk write:
    /// packed to flat bytes, vertically corrected, and wrapped as an
    /// encodable image. Succeeds on every well-formed buffer, and the image
    /// holds exactly the packed, vertically flipped pixels at the capture's
    /// dimensions.
    pub fn to_image(&self) -> (r: Option<image::DynamicImage>)
        requires
            self.wf(),
            4 * self.data@.len() <= usize::MAX,
        ensures
            r.is_some(),
            image_rgba_bytes(r.unwrap()) == flipped_of(
                packed_of(self.data@),
                self.width,
                self.height,
            ),
            image_dims(r.unwrap()) == (self.width, self.height),
    {
        let bytes = self.pack();
        proof {
            assert(4 * ((self.width as int) * (self.height as int)) == 4 * (self.width as int)
                * (self.height as int)) by (nonlinear_arith);
        }
        let flipped = flip_rows(&bytes, self.width, self.height);
        image_from_bytes(self.width, self.height, flipped)
    }
}

/// Reverse the order of the pixel rows of a packed byte buffer, correcting
/// for the coordinate-origin mismatch between the GPU buffer and the image
/// file format.
pub fn flip_rows(bytes: &Vec<u8>, width: u32, height: u32) -> (r: Vec<u8>)
    requires
        bytes@.len() == 4 * (width as int) * (height as int),
    ensures
        r@ == flipped_of(bytes@, width, height),
{
    let total = bytes.len();
    let mut out: Vec<u8> = Vec::new();
    let mut i: usize = 0;
    while i < total
        invariant
            i <= total,
            total == bytes@.len(),
            total == 4 * (width as int) * (height as int),
            out@.len() == i,
            forall|k: int| 0 <= k < i ==> out@[k] == flipped_of(bytes@, width, height)[k],
        decreases total - i,
    {
        proof {
            assert(0 < 4 * (width as int) <= total) by (nonlinear_arith)
                requires
                    i < total,
                    total == 4 * (width as int) * (height as int),
            ;
        }
        let rowlen: usize = 4 * (width as usize);
        let row: usize = i / rowlen;
        let col: usize = i % rowlen;
        proof {
            assert(row < height && col < rowlen) by (nonlinear_arith)
                requires
                    rowlen > 0,
                    i < total,
                    total == rowlen * (height as int),
                    row == i as int / rowlen as int,
                    col == i as int % rowlen as int,
            ;
            assert((height - 1 - row) * rowlen + col < total) by (nonlinear_arith)
                requires
                    rowlen > 0,
                    row < height,
                    col < rowlen,
                    total == rowlen * (height as int),
            ;
        }
        let src: usize = (height as usize - 1 - row) * rowlen + col;
        out.push(bytes[src]);
        i += 1;
    }
    proof {
        assert(out@ =~= flipped_of(bytes@, width, height));
    }
    out
}

} // verus!
